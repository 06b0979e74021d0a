//! The threads that share one player: an idle thread that listens for events,
//! a request thread that does the work, and the supervisor that starts both.
//!
//! Each thread is a state machine whose state says what to do now. Its driver
//! does that, and reports how it went.

pub mod request;
pub mod supervisor;
pub mod timeouts;
pub mod idle;
pub mod work;
pub mod laws;
pub mod step_laws;
