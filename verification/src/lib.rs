//! Core of a minimal display server: the window space and its placement
//! rules, the serial-validated move/resize grab state machine, the
//! per-surface first-configure latch, and the decision logic of the
//! single-threaded event-loop driver.
//!
//! The wire protocol, input devices and the rendering backend are external
//! collaborators: they deliver events as plain values into this crate and
//! carry out the actions it decides.

pub mod client;
pub mod driver;
pub mod geometry;
pub mod grabs;
pub mod ids;
pub mod seat;
pub mod shell;
pub mod space;
pub mod state;
