//! The tray's side: the status on display, and one tick of the event loop.

use crate::channel::{oldest, rest, StatusChannel};
use crate::hotkey::HotkeyRegistry;
use crate::key::Key;
use crate::status::{AppStatus, Icon};
use vstd::prelude::*;

verus! {

/// What the tray shows for a status.
pub struct Shown {
    pub status: AppStatus,
    pub tooltip: Seq<char>,
    pub icon: Icon,
}

/// What the tray shows for `status` while `hotkey` is in force.
pub open spec fn shown(status: AppStatus, hotkey: Key) -> Shown {
    Shown { status, tooltip: status.tooltip_of(hotkey), icon: status.icon_of() }
}

/// A tooltip and an icon for the tray to take over.
#[derive(Debug, PartialEq, Eq)]
pub struct DisplayUpdate {
    pub status: AppStatus,
    pub tooltip: String,
    pub icon: Icon,
}

impl View for DisplayUpdate {
    type V = Shown;

    open spec fn view(&self) -> Shown {
        Shown { status: self.status, tooltip: self.tooltip@, icon: self.icon }
    }
}

/// The status on display.
pub struct StatusDisplay {
    current: AppStatus,
}

impl View for StatusDisplay {
    type V = AppStatus;

    closed spec fn view(&self) -> AppStatus {
        self.current
    }
}

impl StatusDisplay {
    /// The display at startup, while the model loads.
    pub fn new() -> (display: StatusDisplay)
        ensures
            display@ == AppStatus::LoadingModel,
    {
        StatusDisplay { current: AppStatus::LoadingModel }
    }

    /// The status on display.
    pub fn current(&self) -> (status: AppStatus)
        ensures
            status == self@,
    {
        self.current
    }

    /// Puts `status` on display and says what the tray is to show for it
    /// while `hotkey` is in force.
    pub fn set_status(&mut self, status: AppStatus, hotkey: Key) -> (update: DisplayUpdate)
        ensures
            final(self)@ == status,
            update@ == shown(status, hotkey),
    {
        self.current = status;
        DisplayUpdate { status, tooltip: status.to_tooltip(hotkey), icon: status.icon() }
    }
}

/// A selection in the tray's menu.
#[derive(Clone, Copy, Debug, PartialEq, Eq, Structural)]
pub enum MenuChoice {
    Quit,
    Hotkey(Key),
}

/// What one tick of the event loop came to.
#[derive(Debug, PartialEq, Eq)]
pub struct Tick {
    /// The update for the status that was received, if one was. It is shown
    /// first.
    pub received: Option<DisplayUpdate>,
    /// The update that follows the choice of a hotkey, if one was chosen. It
    /// is shown second.
    pub chosen: Option<DisplayUpdate>,
    /// Whether the loop ends.
    pub exit: bool,
}

/// What one tick shows, and whether it is the last.
pub struct Ticked {
    pub received: Option<Shown>,
    pub chosen: Option<Shown>,
    pub exit: bool,
}

/// What the tray shows for an update, if there is one.
pub open spec fn seen(update: Option<DisplayUpdate>) -> Option<Shown> {
    match update {
        Some(update) => Some(update@),
        None => None,
    }
}

impl View for Tick {
    type V = Ticked;

    open spec fn view(&self) -> Ticked {
        Ticked { received: seen(self.received), chosen: seen(self.chosen), exit: self.exit }
    }
}

/// What a tick comes to when `channel` holds the waiting statuses, `hotkey`
/// is in force and the menu reports `choice`. The oldest waiting status is
/// shown with the hotkey that is in force as the tick begins; the choice of
/// a hotkey shows `WaitingForHotkey` with the chosen key; `Quit` ends the
/// loop and nothing else does.
pub open spec fn ticked(channel: Seq<AppStatus>, hotkey: Key, choice: Option<MenuChoice>) -> Ticked {
    Ticked {
        received: match oldest(channel) {
            Some(status) => Some(shown(status, hotkey)),
            None => None,
        },
        chosen: match choice {
            Some(MenuChoice::Hotkey(key)) => Some(shown(AppStatus::WaitingForHotkey, key)),
            _ => None,
        },
        exit: choice == Some(MenuChoice::Quit),
    }
}

/// The hotkey after a tick.
pub open spec fn hotkey_after(hotkey: Key, choice: Option<MenuChoice>) -> Key {
    match choice {
        Some(MenuChoice::Hotkey(key)) => key,
        _ => hotkey,
    }
}

/// The status on display after a tick: the choice of a hotkey shows
/// `WaitingForHotkey`, whatever was received or still waits.
pub open spec fn display_after(
    display: AppStatus,
    channel: Seq<AppStatus>,
    choice: Option<MenuChoice>,
) -> AppStatus {
    match choice {
        Some(MenuChoice::Hotkey(_)) => AppStatus::WaitingForHotkey,
        _ => match oldest(channel) {
            Some(status) => status,
            None => display,
        },
    }
}

/// One tick of the event loop. The oldest waiting status, if there is one,
/// is taken from the channel and shown: at most one leaves it in a tick. Then the menu choice is handled:
/// `Quit` ends the loop; a hotkey goes to the registry and
/// `WaitingForHotkey` is shown with it. Nothing here waits for anything.
pub fn tick(
    display: &mut StatusDisplay,
    registry: &mut HotkeyRegistry,
    channel: &mut StatusChannel,
    choice: Option<MenuChoice>,
) -> (tick: Tick)
    ensures
        tick@ == ticked(old(channel)@, old(registry)@, choice),
        final(channel)@ == rest(old(channel)@),
        final(registry)@ == hotkey_after(old(registry)@, choice),
        final(display)@ == display_after(old(display)@, old(channel)@, choice),
{
    let received = match channel.try_recv() {
        Some(status) => Some(display.set_status(status, registry.get())),
        None => None,
    };
    let mut exit = false;
    let chosen = match choice {
        Some(MenuChoice::Quit) => {
            exit = true;
            None
        },
        Some(MenuChoice::Hotkey(key)) => {
            registry.set(key);
            Some(display.set_status(AppStatus::WaitingForHotkey, key))
        },
        None => None,
    };
    Tick { received, chosen, exit }
}

/// The statuses that `ticks` ticks show from `channel` when nothing is sent
/// in between.
pub open spec fn polled(channel: Seq<AppStatus>, ticks: nat) -> Seq<AppStatus>
    decreases ticks,
{
    if ticks == 0 {
        seq![]
    } else {
        match oldest(channel) {
            Some(status) => seq![status] + polled(rest(channel), (ticks - 1) as nat),
            None => polled(rest(channel), (ticks - 1) as nat),
        }
    }
}

/// What still waits on `channel` after `ticks` ticks when nothing is sent
/// in between.
pub open spec fn unpolled(channel: Seq<AppStatus>, ticks: nat) -> Seq<AppStatus>
    decreases ticks,
{
    if ticks == 0 {
        channel
    } else {
        unpolled(rest(channel), (ticks - 1) as nat)
    }
}

/// Tick by tick the tray shows the waiting statuses in the order in which
/// they were sent, one per tick and none skipped, however many wait.
pub proof fn law_ticks_show_every_status_in_order(channel: Seq<AppStatus>, ticks: nat)
    ensures
        ticks <= channel.len() ==> polled(channel, ticks) == channel.take(ticks as int),
        ticks <= channel.len() ==> unpolled(channel, ticks) == channel.skip(ticks as int),
        ticks >= channel.len() ==> polled(channel, ticks) == channel,
        ticks >= channel.len() ==> unpolled(channel, ticks) == Seq::<AppStatus>::empty(),
    decreases ticks,
{
    if ticks == 0 {
        assert(channel.take(0) =~= Seq::<AppStatus>::empty());
        assert(channel.skip(0) =~= channel);
    } else {
        let left = rest(channel);
        law_ticks_show_every_status_in_order(left, (ticks - 1) as nat);
        if channel.len() > 0 {
            if ticks <= channel.len() {
                assert(seq![channel[0]] + left.take(ticks - 1) =~= channel.take(ticks as int));
                assert(left.skip(ticks - 1) =~= channel.skip(ticks as int));
            } else {
                assert(seq![channel[0]] + left =~= channel);
            }
        } else {
            assert(channel.take(0) =~= channel);
            assert(channel.skip(0) =~= channel);
        }
    }
}

} // verus!
