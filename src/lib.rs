//! Upload files to a pomf-style file host and watch a directory for new files.
//!
//! The library holds the decisions: how the service's reply is classified, how the
//! upload endpoint is validated, and the watch loop as a state machine that is fed
//! events and answers with the next action to perform.
pub mod error;
pub mod reply;
pub mod watch;
