//! The decisions of an embedded Flash player on Android: which player a task
//! belongs to, where the cursor goes, what an event makes the player do, which
//! renderer is used and when the host is told about it.
pub mod backend;
pub mod crash;
pub mod custom_event;
pub mod event_loop;
pub mod frame;
pub mod laws;
pub mod loop_laws;
pub mod navigator;
pub mod player_id;
pub mod state;
pub mod state_laws;
pub mod touch;
pub mod touch_laws;
