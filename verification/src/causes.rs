//! Plain-data carriers for the underlying causes that the taxonomies keep
//! for diagnostics.
//!
//! The collaborators that produce these causes (the actor framework, the
//! request-response transport, the runtime API, a generic utility helper)
//! are outside this crate; the classification logic never inspects a cause,
//! it only carries one. Each carrier therefore holds the cause's description
//! as plain data.

use vstd::prelude::*;

verus! {

/// Declares the one-shot channel's cancellation token, so that it can be
/// carried as a cause. Relies on `futures::channel::oneshot::Canceled`
/// being a plain unit struct returned when a sender is dropped unanswered.
#[verifier::external_type_specification]
#[verifier::external_body]
pub struct ExCanceled(futures::channel::oneshot::Canceled);

/// Index of a consensus session, as plain data.
pub type SessionIndex = u32;

/// An error reported by the surrounding actor framework, for example when a
/// task could not be spawned or an inbound channel closed.
#[derive(Debug)]
pub struct SubsystemError {
    /// Description of the framework's failure.
    pub message: String,
}

/// An application-level error the remote runtime API reports in a reply,
/// for example when the queried block has already been pruned.
#[derive(Debug)]
pub struct RuntimeApiError {
    /// Description of the remote failure.
    pub message: String,
}

/// An error raised while fetching a remote payload over the
/// request-response transport.
#[derive(Debug)]
pub struct RequestError {
    /// Description of the transport failure.
    pub message: String,
}

/// An error reported by a generic utility helper.
#[derive(Debug)]
pub struct UtilError {
    /// Description of the helper's failure.
    pub message: String,
}

} // verus!
