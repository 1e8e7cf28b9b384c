//! Decision logic of an offline voice-dictation daemon: the character to
//! keystroke table of the virtual keyboard, the daemon's state machine, audio
//! chunking, speech-recognition events, focus tracking and configuration.

pub mod audio;
pub mod config;
pub mod daemon;
pub mod dbus;
pub mod focus;
pub mod hud;
pub mod injector;
pub mod stt;
