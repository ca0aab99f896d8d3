use esponquen::hotkey::hotkey_options;
use esponquen::{
    get_hotkey, set_hotkey, tick, AppStatus, HotkeyRegistry, Icon, Key, MenuChoice, StatusChannel,
    StatusDisplay,
};

#[test]
fn registry_starts_with_f6() {
    let registry = HotkeyRegistry::new();
    assert_eq!(registry.get(), Key::F6);
    assert_eq!(get_hotkey(&registry), Key::F6);
}

#[test]
fn set_hotkey_is_seen_by_the_next_get() {
    let mut registry = HotkeyRegistry::new();
    set_hotkey(&mut registry, Key::F2);
    assert_eq!(get_hotkey(&registry), Key::F2);
    registry.set(Key::KeyA);
    assert_eq!(registry.get(), Key::KeyA);
    set_hotkey(&mut registry, Key::Unknown(3));
    assert_eq!(get_hotkey(&registry), Key::Unknown(3));
    assert_eq!(get_hotkey(&registry), Key::Unknown(3));
}

#[test]
fn menu_offers_the_function_keys() {
    let keys = hotkey_options();
    assert_eq!(
        keys,
        vec![
            Key::F1,
            Key::F2,
            Key::F3,
            Key::F4,
            Key::F5,
            Key::F6,
            Key::F7,
            Key::F8,
            Key::F9,
            Key::F10,
            Key::F11,
            Key::F12
        ]
    );
    let names: Vec<String> = keys.iter().map(|key| key.name()).collect();
    assert_eq!(
        names,
        vec!["F1", "F2", "F3", "F4", "F5", "F6", "F7", "F8", "F9", "F10", "F11", "F12"]
    );
}

#[test]
fn key_names() {
    assert_eq!(Key::F6.name(), "F6");
    assert_eq!(Key::Alt.name(), "Alt");
    assert_eq!(Key::KeyA.name(), "KeyA");
    assert_eq!(Key::IntlBackslash.name(), "IntlBackslash");
    assert_eq!(Key::KpDelete.name(), "KpDelete");
    assert_eq!(Key::Function.name(), "Function");
    assert_eq!(Key::Unknown(0).name(), "Unknown(0)");
    assert_eq!(Key::Unknown(42).name(), "Unknown(42)");
    assert_eq!(Key::Unknown(4294967295).name(), "Unknown(4294967295)");
}

#[test]
fn key_names_are_the_variants_as_written() {
    for key in [
        Key::Escape,
        Key::Return,
        Key::Space,
        Key::Num0,
        Key::KeyZ,
        Key::Kp9,
        Key::MetaLeft,
        Key::PrintScreen,
        Key::Unknown(5),
        Key::Unknown(1234567),
    ] {
        assert_eq!(key.name(), format!("{:?}", key));
    }
}

#[test]
fn tooltips() {
    assert_eq!(AppStatus::LoadingModel.to_tooltip(Key::F6), "Loading model...");
    assert_eq!(AppStatus::WaitingForHotkey.to_tooltip(Key::F6), "Ready (Press F6)");
    assert_eq!(AppStatus::Recording.to_tooltip(Key::F6), "Recording... (Press F6 to stop)");
    assert_eq!(AppStatus::Transcribing.to_tooltip(Key::F6), "Transcribing...");
    assert_eq!(AppStatus::WaitingForHotkey.to_tooltip(Key::F12), "Ready (Press F12)");
    assert_eq!(
        AppStatus::Recording.to_tooltip(Key::Unknown(77)),
        "Recording... (Press Unknown(77) to stop)"
    );
    assert_eq!(AppStatus::LoadingModel.to_tooltip(Key::F1), "Loading model...");
    assert_eq!(AppStatus::Transcribing.to_tooltip(Key::F1), "Transcribing...");
}

#[test]
fn icons() {
    assert_eq!(AppStatus::LoadingModel.icon(), Icon::Loading);
    assert_eq!(AppStatus::WaitingForHotkey.icon(), Icon::Ready);
    assert_eq!(AppStatus::Recording.icon(), Icon::Recording);
    assert_eq!(AppStatus::Transcribing.icon(), Icon::Transcribing);
}

#[test]
fn display_starts_with_loading() {
    let display = StatusDisplay::new();
    assert_eq!(display.current(), AppStatus::LoadingModel);
}

#[test]
fn set_status_says_what_to_show() {
    let mut display = StatusDisplay::new();
    let update = display.set_status(AppStatus::WaitingForHotkey, Key::F6);
    assert_eq!(display.current(), AppStatus::WaitingForHotkey);
    assert_eq!(update.status, AppStatus::WaitingForHotkey);
    assert_eq!(update.tooltip, "Ready (Press F6)");
    assert_eq!(update.icon, Icon::Ready);
    let update = display.set_status(AppStatus::Recording, Key::F3);
    assert_eq!(display.current(), AppStatus::Recording);
    assert_eq!(update.tooltip, "Recording... (Press F3 to stop)");
    assert_eq!(update.icon, Icon::Recording);
}

#[test]
fn channel_delivers_in_order() {
    let mut channel = StatusChannel::new();
    assert_eq!(channel.try_recv(), None);
    channel.send(AppStatus::Recording);
    channel.send(AppStatus::Transcribing);
    channel.send(AppStatus::WaitingForHotkey);
    assert_eq!(channel.try_recv(), Some(AppStatus::Recording));
    channel.send(AppStatus::Recording);
    assert_eq!(channel.try_recv(), Some(AppStatus::Transcribing));
    assert_eq!(channel.try_recv(), Some(AppStatus::WaitingForHotkey));
    assert_eq!(channel.try_recv(), Some(AppStatus::Recording));
    assert_eq!(channel.try_recv(), None);
    assert_eq!(channel.try_recv(), None);
}

#[test]
fn tick_takes_one_status_at_a_time() {
    let mut display = StatusDisplay::new();
    let mut registry = HotkeyRegistry::new();
    let mut channel = StatusChannel::new();
    channel.send(AppStatus::Recording);
    channel.send(AppStatus::Transcribing);
    channel.send(AppStatus::WaitingForHotkey);

    let first = tick(&mut display, &mut registry, &mut channel, None);
    assert!(!first.exit);
    assert!(first.chosen.is_none());
    let update = first.received.unwrap();
    assert_eq!(update.status, AppStatus::Recording);
    assert_eq!(update.tooltip, "Recording... (Press F6 to stop)");
    assert_eq!(update.icon, Icon::Recording);
    assert_eq!(display.current(), AppStatus::Recording);

    let second = tick(&mut display, &mut registry, &mut channel, None);
    assert_eq!(second.received.unwrap().status, AppStatus::Transcribing);
    let third = tick(&mut display, &mut registry, &mut channel, None);
    assert_eq!(third.received.unwrap().tooltip, "Ready (Press F6)");
    let fourth = tick(&mut display, &mut registry, &mut channel, None);
    assert!(fourth.received.is_none());
    assert!(fourth.chosen.is_none());
    assert!(!fourth.exit);
    assert_eq!(display.current(), AppStatus::WaitingForHotkey);
    assert_eq!(registry.get(), Key::F6);
}

#[test]
fn tick_quits_only_on_quit() {
    let mut display = StatusDisplay::new();
    let mut registry = HotkeyRegistry::new();
    let mut channel = StatusChannel::new();
    channel.send(AppStatus::WaitingForHotkey);
    let quit = tick(&mut display, &mut registry, &mut channel, Some(MenuChoice::Quit));
    assert!(quit.exit);
    assert!(quit.chosen.is_none());
    assert_eq!(quit.received.unwrap().status, AppStatus::WaitingForHotkey);
    assert_eq!(display.current(), AppStatus::WaitingForHotkey);
    assert_eq!(registry.get(), Key::F6);
    let idle = tick(&mut display, &mut registry, &mut channel, None);
    assert!(!idle.exit);
    let choice = tick(&mut display, &mut registry, &mut channel, Some(MenuChoice::Hotkey(Key::F1)));
    assert!(!choice.exit);
}

#[test]
fn tick_with_a_status_and_a_hotkey_shows_both_in_order() {
    let mut display = StatusDisplay::new();
    let mut registry = HotkeyRegistry::new();
    let mut channel = StatusChannel::new();
    channel.send(AppStatus::Recording);
    channel.send(AppStatus::Transcribing);
    let both = tick(&mut display, &mut registry, &mut channel, Some(MenuChoice::Hotkey(Key::F2)));
    assert!(!both.exit);
    let received = both.received.unwrap();
    assert_eq!(received.status, AppStatus::Recording);
    assert_eq!(received.tooltip, "Recording... (Press F6 to stop)");
    let chosen = both.chosen.unwrap();
    assert_eq!(chosen.status, AppStatus::WaitingForHotkey);
    assert_eq!(chosen.tooltip, "Ready (Press F2)");
    assert_eq!(chosen.icon, Icon::Ready);
    assert_eq!(display.current(), AppStatus::WaitingForHotkey);
    assert_eq!(registry.get(), Key::F2);
    let next = tick(&mut display, &mut registry, &mut channel, None);
    let update = next.received.unwrap();
    assert_eq!(update.status, AppStatus::Transcribing);
    assert_eq!(update.tooltip, "Transcribing...");
    assert_eq!(display.current(), AppStatus::Transcribing);
}
