//! State model for a tray indicator that mirrors and toggles one
//! background service unit.
//!
//! The library holds the reconciliation core: the cached service state,
//! the transition logic for user-initiated start/stop attempts, the
//! interpretation of the service manager's status checks, and the pure
//! rule that maps a state to what the indicator shows. The display
//! toolkit and the privileged command invocations live outside; they
//! hand this crate plain values (exit codes, a success flag) and apply
//! the returned directives.

pub mod probe;
pub mod render;
pub mod state;
