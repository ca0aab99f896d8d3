//! The registry of the one key that toggles recording.

use crate::key::Key;
use vstd::prelude::*;

verus! {

/// The hotkey in force until another is chosen.
pub open spec fn default_hotkey() -> Key {
    Key::F6
}

/// The keys that the menu offers as hotkeys, in the order of the menu.
pub open spec fn offered_hotkeys() -> Seq<Key> {
    seq![
        Key::F1,
        Key::F2,
        Key::F3,
        Key::F4,
        Key::F5,
        Key::F6,
        Key::F7,
        Key::F8,
        Key::F9,
        Key::F10,
        Key::F11,
        Key::F12,
    ]
}

/// Holds the single active hotkey.
pub struct HotkeyRegistry {
    key: Key,
}

impl View for HotkeyRegistry {
    type V = Key;

    closed spec fn view(&self) -> Key {
        self.key
    }
}

impl HotkeyRegistry {
    /// A registry with the default hotkey.
    pub fn new() -> (registry: HotkeyRegistry)
        ensures
            registry@ == default_hotkey(),
    {
        HotkeyRegistry { key: Key::F6 }
    }

    /// The hotkey in force.
    pub fn get(&self) -> (key: Key)
        ensures
            key == self@,
    {
        self.key
    }

    /// Replaces the hotkey. Every later `get` returns `key`, until the next
    /// `set`.
    pub fn set(&mut self, key: Key)
        ensures
            final(self)@ == key,
    {
        self.key = key;
    }
}

/// The keys that the menu offers as hotkeys, in the order of the menu.
pub fn hotkey_options() -> (keys: Vec<Key>)
    ensures
        keys@ == offered_hotkeys(),
{
    let mut keys: Vec<Key> = Vec::new();
    keys.push(Key::F1);
    keys.push(Key::F2);
    keys.push(Key::F3);
    keys.push(Key::F4);
    keys.push(Key::F5);
    keys.push(Key::F6);
    keys.push(Key::F7);
    keys.push(Key::F8);
    keys.push(Key::F9);
    keys.push(Key::F10);
    keys.push(Key::F11);
    keys.push(Key::F12);
    assert(keys@ =~= offered_hotkeys());
    keys
}

/// Sets the hotkey that starts and stops recording.
pub fn set_hotkey(registry: &mut HotkeyRegistry, key: Key)
    ensures
        final(registry)@ == key,
{
    registry.set(key);
}

/// The current hotkey.
pub fn get_hotkey(registry: &HotkeyRegistry) -> (key: Key)
    ensures
        key == registry@,
{
    registry.get()
}

} // verus!
