//! The async result adapter: classifying the outcome of a one-shot runtime
//! request.
//!
//! Awaiting a one-shot reply can fail on two independent axes. Either the
//! transport failed — the sender was dropped before answering, so the
//! dependency that answers authoritative requests is gone and the actor
//! cannot safely proceed (fatal) — or the channel delivered a value that is
//! itself an application-level error from the remote side, which is alive
//! and answered, so only this one request is lost (non-fatal). The await
//! itself happens in the surrounding async shell; this adapter classifies
//! the resolved outcome, exactly once per request.

use vstd::prelude::*;

use crate::causes::RuntimeApiError;
use crate::error::{Error, Fatal, NonFatal};
use crate::fault::Fault;

verus! {

/// Classify the resolved outcome of a one-shot runtime request: a delivered
/// success is handed through, a delivered remote error is non-fatal, and a
/// canceled channel is fatal.
pub fn classify_runtime_reply<V>(
    reply: Result<Result<V, RuntimeApiError>, futures::channel::oneshot::Canceled>,
) -> (r: Result<V, Error>)
    ensures
        match reply {
            Ok(Ok(v)) => r == Ok::<V, Error>(v),
            Ok(Err(e)) => r == Err::<V, Error>(
                Error(Fault::NonFatal(NonFatal::RuntimeRequest(e))),
            ),
            Err(c) => r == Err::<V, Error>(
                Error(Fault::Fatal(Fatal::RuntimeRequestCanceled(c))),
            ),
        },
{
    match reply {
        Ok(Ok(v)) => Ok(v),
        Ok(Err(e)) => Err(Error::from(NonFatal::RuntimeRequest(e))),
        Err(c) => Err(Error::from(Fatal::RuntimeRequestCanceled(c))),
    }
}

} // verus!
