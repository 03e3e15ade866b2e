//! A user-gated "save as" flow for a desktop application.
//!
//! The library is the decision core of one save operation: present a native
//! save dialog, write the request's bytes to the path the user confirmed,
//! optionally ask the OS to open the written file, and report the outcome.
//! The three services involved (dialog, filesystem writer, opener) perform
//! I/O and live outside this crate; the protocol that sequences them is
//! modelled here as a state machine whose every transition is verified.

pub mod greeting;
pub mod laws;
pub mod operation;
pub mod request;
