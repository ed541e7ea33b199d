//! Focus-driven event dispatch and navigation state machine for a
//! multi-pane terminal music player.
//!
//! The library turns decoded input events (key presses, resize and timer
//! ticks) into deterministic mutations of a single application state record,
//! and reports which side effects (waking collaborator threads, starting
//! playback, showing help, stopping the loop) are due after each event.
//! The binary around it owns the terminal, the lock and the wake primitive;
//! everything that decides is here, and verified.

pub mod dispatch;
pub mod handlers;
pub mod navigation;
pub mod state;
pub mod strutil;
