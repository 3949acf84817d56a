//! Core logic of a hotkey-driven copy translator: language model, hotkey
//! chord grammar, hotkey binding registry, and the per-window translation
//! session state machine with its most-recent-wins response policy.

pub mod chord;
pub mod frame;
pub mod lang;
pub mod registry;
pub mod session;
pub mod sessions;
