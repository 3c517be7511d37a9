//! Responding to a single chat-platform interaction under the platform's
//! protocol: one initial response, then any number of followups.
//!
//! The network and the lock around a handle belong to the caller. This
//! library decides, for each operation and each state of the handle, which
//! wire call is to be made, and how the outcome of that call changes the
//! handle.

pub mod error;
pub mod interaction;
pub mod permissions;
pub mod protocol;
pub mod reply;
pub mod response;
pub mod util;
