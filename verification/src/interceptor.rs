//! The keyboard interceptor: what a hook event does to the recording buffer,
//! whether the event goes on to other programs, and what follows.

use crate::channel::StatusChannel;
use crate::key::Key;
use crate::recording::{Buffer, RecordingState};
use crate::status::AppStatus;
use crate::text::{blank, is_blank};
use vstd::prelude::*;

verus! {

/// An event of the system-wide hook, as far as the interceptor tells events
/// apart.
#[derive(Clone, Copy, Debug, PartialEq, Eq, Structural)]
pub enum HookEvent {
    KeyPress(Key),
    KeyRelease(Key),
    /// A mouse button, a movement, the wheel.
    Other,
}

/// What one hook event set in motion.
#[verifier::ext_equal]
pub enum Outcome<S> {
    /// Not a press of the hotkey: the event goes on unmodified.
    Forward,
    /// A press of the hotkey while idle: recording began.
    Started,
    /// A press of the hotkey while recording, with nothing captured.
    Discarded,
    /// A press of the hotkey while recording: these samples are to be
    /// transcribed.
    Captured { sample_rate: u32, samples: Seq<S> },
}

impl<S> Outcome<S> {
    /// The hotkey never reaches other programs; every other event does.
    pub open spec fn suppresses(self) -> bool {
        !(self is Forward)
    }

    /// The statuses that the event makes known at once, in order.
    pub open spec fn statuses(self) -> Seq<AppStatus> {
        match self {
            Outcome::Forward => seq![],
            Outcome::Started => seq![AppStatus::Recording],
            Outcome::Discarded => seq![AppStatus::Transcribing, AppStatus::WaitingForHotkey],
            Outcome::Captured { .. } => seq![AppStatus::Transcribing],
        }
    }

    /// Only captured samples go to the transcription service, and only
    /// the text that comes back from it can go to the injector.
    pub open spec fn transcribes(self) -> bool {
        self is Captured
    }

    /// All the statuses of the event, in order: those made known at once,
    /// and after a transcription the status of its conclusion.
    pub open spec fn session_statuses(self) -> Seq<AppStatus> {
        if self.transcribes() {
            self.statuses().push(AppStatus::WaitingForHotkey)
        } else {
            self.statuses()
        }
    }
}

/// Whether `event` is a press of `hotkey`.
pub open spec fn presses(event: HookEvent, hotkey: Key) -> bool {
    event == HookEvent::KeyPress(hotkey)
}

/// What `event` sets in motion when `hotkey` is in force and the buffer is
/// `buffer`.
pub open spec fn outcome<S>(buffer: Buffer<S>, hotkey: Key, event: HookEvent) -> Outcome<S> {
    if !presses(event, hotkey) {
        Outcome::Forward
    } else if !buffer.recording {
        Outcome::Started
    } else if buffer.samples.len() == 0 {
        Outcome::Discarded
    } else {
        Outcome::Captured { sample_rate: buffer.sample_rate, samples: buffer.samples }
    }
}

/// The buffer after `event`.
pub open spec fn buffer_after<S>(buffer: Buffer<S>, hotkey: Key, event: HookEvent) -> Buffer<S> {
    if !presses(event, hotkey) {
        buffer
    } else if buffer.recording {
        buffer.end()
    } else {
        buffer.begin()
    }
}

/// Samples on their way to the transcription service.
#[derive(Debug, PartialEq)]
pub struct Capture<S> {
    pub sample_rate: u32,
    pub samples: Vec<S>,
}

/// The interceptor's answer to one hook event.
#[derive(Debug, PartialEq)]
pub enum Reaction<S> {
    Forward,
    Started,
    Discarded,
    Captured(Capture<S>),
}

impl<S> View for Reaction<S> {
    type V = Outcome<S>;

    open spec fn view(&self) -> Outcome<S> {
        match self {
            Reaction::Forward => Outcome::Forward,
            Reaction::Started => Outcome::Started,
            Reaction::Discarded => Outcome::Discarded,
            Reaction::Captured(capture) => Outcome::Captured {
                sample_rate: capture.sample_rate,
                samples: capture.samples@,
            },
        }
    }
}

impl<S> Reaction<S> {
    /// Whether the event is kept from other programs.
    pub fn suppresses(&self) -> (b: bool)
        ensures
            b == self@.suppresses(),
    {
        match self {
            Reaction::Forward => false,
            _ => true,
        }
    }

    /// The statuses to make known at once, in order.
    pub fn statuses(&self) -> (statuses: Vec<AppStatus>)
        ensures
            statuses@ == self@.statuses(),
    {
        let mut statuses: Vec<AppStatus> = Vec::new();
        match self {
            Reaction::Forward => {},
            Reaction::Started => {
                statuses.push(AppStatus::Recording);
            },
            Reaction::Discarded => {
                statuses.push(AppStatus::Transcribing);
                statuses.push(AppStatus::WaitingForHotkey);
            },
            Reaction::Captured(_) => {
                statuses.push(AppStatus::Transcribing);
            },
        }
        assert(statuses@ =~= self@.statuses());
        statuses
    }

    /// Sends the statuses of this reaction on `channel`, in order, behind
    /// all that wait there.
    pub fn announce(&self, channel: &mut StatusChannel)
        ensures
            final(channel)@ == old(channel)@ + self@.statuses(),
    {
        match self {
            Reaction::Forward => {},
            Reaction::Started => {
                channel.send(AppStatus::Recording);
            },
            Reaction::Discarded => {
                channel.send(AppStatus::Transcribing);
                channel.send(AppStatus::WaitingForHotkey);
            },
            Reaction::Captured(_) => {
                channel.send(AppStatus::Transcribing);
            },
        }
        assert(channel@ =~= old(channel)@ + self@.statuses());
    }
}

/// Handles one event of the keyboard hook with `hotkey` in force: every
/// event but a press of the hotkey goes on untouched; a press of the hotkey
/// is suppressed and toggles the buffer, and what had been captured leaves
/// it. The buffer is looked at and changed in this one call, so that
/// `begin` only ever meets an idle buffer and `end` a recording one.
pub fn handle_keyboard_event<S>(
    event: HookEvent,
    hotkey: Key,
    state: &mut RecordingState<S>,
) -> (reaction: Reaction<S>)
    ensures
        reaction@ == outcome(old(state)@, hotkey, event),
        final(state)@ == buffer_after(old(state)@, hotkey, event),
{
    match event {
        HookEvent::KeyPress(key) => {
            if key == hotkey {
                if state.is_recording() {
                    let (samples, sample_rate) = state.end();
                    if samples.len() == 0 {
                        Reaction::Discarded
                    } else {
                        Reaction::Captured(Capture { sample_rate, samples })
                    }
                } else {
                    state.begin();
                    Reaction::Started
                }
            } else {
                Reaction::Forward
            }
        },
        _ => Reaction::Forward,
    }
}

/// The pause before the injector types, in milliseconds: time for the focus
/// to settle after the press of the hotkey.
pub const SETTLE_MILLIS: u64 = 100;

/// What follows a transcription.
#[derive(Clone, Copy, Debug, PartialEq, Eq, Structural)]
pub struct Conclusion {
    /// Whether the text goes to the injector.
    pub inject: bool,
    /// The status to make known when the injector is done, whether it
    /// succeeded or not.
    pub status: AppStatus,
}

/// What follows the text `text` of a transcription: a text that is not
/// blank is typed as it stands, and the session ends in `WaitingForHotkey`
/// either way. A transcription that failed counts as an empty text.
pub open spec fn conclusion_of(text: Seq<char>) -> Conclusion {
    Conclusion { inject: !is_blank(text), status: AppStatus::WaitingForHotkey }
}

impl<S> Capture<S> {
    /// Decides what follows the text that the transcription service
    /// returned for this capture.
    pub fn conclude(&self, text: &str) -> (conclusion: Conclusion)
        ensures
            conclusion == conclusion_of(text@),
    {
        Conclusion { inject: !blank(text), status: AppStatus::WaitingForHotkey }
    }
}

} // verus!
