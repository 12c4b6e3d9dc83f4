//! Interface model of the trusted runtime-information helper.
//!
//! The helper is a nested component that answers queries about chain and
//! session state. It classifies its own failures with the same two-tier
//! scheme; at the boundary of this crate its already-classified errors are
//! folded into the actor's matching severity (see the conversion on
//! [`crate::error::Error`]).

use vstd::prelude::*;

use crate::causes::{RuntimeApiError, SessionIndex};
use crate::fault::Fault;

verus! {

/// Fatal errors of the runtime-information helper.
#[derive(Debug)]
pub enum Fatal {
    /// The helper's runtime request was canceled: the runtime API subsystem
    /// is down, which means the node is shutting down.
    Canceled(futures::channel::oneshot::Canceled),
}

/// Non-fatal errors of the runtime-information helper.
#[derive(Debug)]
pub enum NonFatal {
    /// The runtime API answered, but with an application-level error.
    RuntimeRequest(RuntimeApiError),
    /// The helper was asked for a session that does not exist.
    NoSuchSession(SessionIndex),
}

/// The helper's own two-tier error type.
pub type Error = Fault<NonFatal, Fatal>;

} // verus!
