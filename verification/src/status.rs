//! The lifecycle status that the tray shows, with its tooltip and icon.

use crate::key::Key;
use vstd::prelude::*;
use vstd::string::*;

verus! {

/// The four phases that an observer can see. `LoadingModel` comes once, at
/// startup; after it the cycle is `WaitingForHotkey`, `Recording`,
/// `Transcribing`, and `WaitingForHotkey` again.
#[derive(Clone, Copy, Debug, PartialEq, Eq, Structural)]
pub enum AppStatus {
    LoadingModel,
    WaitingForHotkey,
    Recording,
    Transcribing,
}

/// The icon that stands for a status.
#[derive(Clone, Copy, Debug, PartialEq, Eq, Structural)]
pub enum Icon {
    Loading,
    Ready,
    Recording,
    Transcribing,
}

impl AppStatus {
    /// The icon of each status, one to one.
    pub open spec fn icon_of(self) -> Icon {
        match self {
            AppStatus::LoadingModel => Icon::Loading,
            AppStatus::WaitingForHotkey => Icon::Ready,
            AppStatus::Recording => Icon::Recording,
            AppStatus::Transcribing => Icon::Transcribing,
        }
    }

    /// The tooltip of each status while `hotkey` is in force. The two
    /// statuses in which a press of the hotkey does something name it.
    pub open spec fn tooltip_of(self, hotkey: Key) -> Seq<char> {
        match self {
            AppStatus::LoadingModel => "Loading model..."@,
            AppStatus::WaitingForHotkey => "Ready (Press "@ + hotkey.label() + ")"@,
            AppStatus::Recording => "Recording... (Press "@ + hotkey.label() + " to stop)"@,
            AppStatus::Transcribing => "Transcribing..."@,
        }
    }

    pub fn icon(&self) -> (icon: Icon)
        ensures
            icon == self.icon_of(),
    {
        match self {
            AppStatus::LoadingModel => Icon::Loading,
            AppStatus::WaitingForHotkey => Icon::Ready,
            AppStatus::Recording => Icon::Recording,
            AppStatus::Transcribing => Icon::Transcribing,
        }
    }

    pub fn to_tooltip(&self, hotkey: Key) -> (tooltip: String)
        ensures
            tooltip@ == self.tooltip_of(hotkey),
    {
        match self {
            AppStatus::LoadingModel => String::from_str("Loading model..."),
            AppStatus::WaitingForHotkey => {
                let name = hotkey.name();
                let mut tooltip = String::from_str("Ready (Press ");
                tooltip.append(name.as_str());
                tooltip.append(")");
                tooltip
            },
            AppStatus::Recording => {
                let name = hotkey.name();
                let mut tooltip = String::from_str("Recording... (Press ");
                tooltip.append(name.as_str());
                tooltip.append(" to stop)");
                tooltip
            },
            AppStatus::Transcribing => String::from_str("Transcribing..."),
        }
    }
}

} // verus!
