//! Verified core of an MPD sleep timer.
//!
//! The library holds the logic of a single-slot, cancellable, re-armable
//! countdown that, on expiry, fades playback volume down and pauses the
//! player: the coordinator's state machine ([`coordinator`]) and the plan of
//! the fade-and-pause sequence ([`fade`]). The surrounding process — the HTTP
//! surface, the inbox channel, and the player connection — performs the
//! waiting and the player commands and feeds plain values to these functions.

pub mod coordinator;
pub mod fade;

pub use coordinator::RecvTimeoutError;
