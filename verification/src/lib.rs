//! Push-to-talk dictation core: a hotkey toggles audio capture, the captured
//! samples go to a recogniser, and the recognised text is typed into the
//! focused application.
//!
//! The crate holds the decisions and the state: which key events are kept
//! from other programs, when audio is kept, what becomes of a capture, and
//! what the tray shows. The devices, the recogniser and the windows are the
//! caller's.
//!
//! The hotkey registry, the recording buffer and the status channel are
//! plain values. A program whose threads share them keeps each behind a
//! lock of its own and holds that lock for one call at a time: every
//! function here looks and acts in the one call, so no check is ever
//! separated from the act that rests on it.

pub mod channel;
pub mod cli;
pub mod hotkey;
pub mod interceptor;
pub mod key;
pub mod recording;
pub mod status;
pub mod system;
pub mod text;
pub mod ui;

pub use channel::StatusChannel;
pub use cli::show_console;
pub use hotkey::{get_hotkey, hotkey_options, set_hotkey, HotkeyRegistry};
pub use interceptor::{handle_keyboard_event, Capture, Conclusion, HookEvent, Reaction};
pub use key::Key;
pub use recording::RecordingState;
pub use status::{AppStatus, Icon};
pub use ui::{tick, DisplayUpdate, MenuChoice, StatusDisplay, Tick};
