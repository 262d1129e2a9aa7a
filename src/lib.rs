//! Keeps a local media player's pause state in step with whether any other
//! media session on the host is playing.
//!
//! The library holds the reconciliation logic: the player states it reads,
//! the belief it keeps about the player, the decision taken on every tick,
//! the command-line configuration and the Basic-Auth header. Talking to the
//! player over HTTP and asking the host for its media sessions are left to
//! the program around it.
pub mod auth;
pub mod config;
pub mod player;
pub mod reconcile;

pub use player::{player_state_from_name, PlayerState};
pub use reconcile::{Reconciler, TickAction};
