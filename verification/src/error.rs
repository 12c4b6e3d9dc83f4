//! The actor-wide error type and its two taxonomies.
//!
//! Every distinct failure mode has a distinct, matchable variant; a
//! condition is fatal exactly when continuing to process further messages
//! could not make progress or would break an invariant the actor depends
//! on. Classification is total and happens once, at construction, through
//! the conversions below; it never changes afterwards.

use vstd::prelude::*;

use crate::causes::{RequestError, RuntimeApiError, SessionIndex, SubsystemError, UtilError};
use crate::fault::Fault;
use crate::runtime;

verus! {

/// The actor-wide error type: exactly one classified fault.
///
/// Once constructed, the inner classification never changes; composition
/// happens only at construction time, via the conversions below.
#[derive(Debug)]
pub struct Error(pub Fault<NonFatal, Fatal>);

/// Fatal errors of this actor: after any of these, continuing the actor's
/// loop is unsafe or useless.
#[derive(Debug)]
pub enum Fatal {
    /// Spawning a subsystem task failed.
    SpawnTask(SubsystemError),
    /// The runtime API subsystem is down, which means we are shutting down.
    RuntimeRequestCanceled(futures::channel::oneshot::Canceled),
    /// The erasure-chunk requester stream is exhausted.
    RequesterExhausted,
    /// The inbound message channel was closed.
    IncomingMessageChannel(SubsystemError),
    /// A fatal error of the runtime-information helper.
    Runtime(runtime::Fatal),
}

/// Non-fatal errors of this actor: expected operational failures that are
/// logged and absorbed, never terminating the actor.
#[derive(Debug)]
pub enum NonFatal {
    /// The availability store dropped the reply sender for a chunk query.
    QueryChunkResponseChannel(futures::channel::oneshot::Canceled),
    /// The availability store dropped the reply sender for an
    /// available-data query.
    QueryAvailableDataResponseChannel(futures::channel::oneshot::Canceled),
    /// We tried accessing a session that was not cached.
    NoSuchCachedSession,
    /// We tried reporting bad validators, although we are not a validator
    /// ourselves.
    NotAValidator,
    /// Sending a request's response failed (for example, on a timeout).
    SendResponse,
    /// A request to a utility helper failed.
    UtilRequest(UtilError),
    /// A request to the runtime failed, for example because the block we
    /// asked about was pruned.
    RuntimeRequest(RuntimeApiError),
    /// Fetching a proof-of-validity payload failed on the transport.
    FetchPoV(RequestError),
    /// A fetched proof-of-validity payload did not match its expected hash.
    UnexpectedPoV,
    /// The remote responded that it has no such proof-of-validity payload.
    NoSuchPoV,
    /// No validator with the given index exists in the current session.
    InvalidValidatorIndex,
    /// We tried fetching information on a session that does not exist.
    NoSuchSession(SessionIndex),
    /// A non-fatal error of the runtime-information helper.
    Runtime(runtime::NonFatal),
}

impl core::convert::From<NonFatal> for Error {
    /// Lifting a non-fatal error keeps its identity: the result carries
    /// exactly `Fault::NonFatal(e)`.
    fn from(e: NonFatal) -> Self {
        Error(Fault::from_non_fatal(e))
    }
}

impl vstd::std_specs::convert::FromSpecImpl<NonFatal> for Error {
    open spec fn obeys_from_spec() -> bool {
        true
    }

    open spec fn from_spec(e: NonFatal) -> Self {
        Error(Fault::NonFatal(e))
    }
}

impl core::convert::From<Fatal> for Error {
    /// Lifting a fatal error keeps its identity: the result carries exactly
    /// `Fault::Fatal(f)`.
    fn from(f: Fatal) -> Self {
        Error(Fault::from_fatal(f))
    }
}

impl vstd::std_specs::convert::FromSpecImpl<Fatal> for Error {
    open spec fn obeys_from_spec() -> bool {
        true
    }

    open spec fn from_spec(f: Fatal) -> Self {
        Error(Fault::Fatal(f))
    }
}

impl core::convert::From<runtime::Error> for Error {
    /// Absorbing the runtime-information helper's error: the helper has
    /// already classified it, so its severity is kept and its value is
    /// folded into this actor's matching `Runtime` variant. No third
    /// severity ever persists.
    fn from(o: runtime::Error) -> Self {
        match o {
            Fault::NonFatal(n) => Error(Fault::NonFatal(NonFatal::Runtime(n))),
            Fault::Fatal(f) => Error(Fault::Fatal(Fatal::Runtime(f))),
        }
    }
}

impl vstd::std_specs::convert::FromSpecImpl<runtime::Error> for Error {
    open spec fn obeys_from_spec() -> bool {
        true
    }

    open spec fn from_spec(o: runtime::Error) -> Self {
        match o {
            Fault::NonFatal(n) => Error(Fault::NonFatal(NonFatal::Runtime(n))),
            Fault::Fatal(f) => Error(Fault::Fatal(Fatal::Runtime(f))),
        }
    }
}

impl Fatal {
    /// The variant's identity as it appears in the last log of a
    /// terminating actor.
    pub open spec fn spec_name(&self) -> Seq<char> {
        match self {
            Fatal::SpawnTask(_) => "SpawnTask"@,
            Fatal::RuntimeRequestCanceled(_) => "RuntimeRequestCanceled"@,
            Fatal::RequesterExhausted => "RequesterExhausted"@,
            Fatal::IncomingMessageChannel(_) => "IncomingMessageChannel"@,
            Fatal::Runtime(_) => "Runtime"@,
        }
    }

    /// The variant's identity, for logs.
    pub fn name(&self) -> (r: &'static str)
        ensures
            r@ == self.spec_name(),
    {
        match self {
            Fatal::SpawnTask(_) => "SpawnTask",
            Fatal::RuntimeRequestCanceled(_) => "RuntimeRequestCanceled",
            Fatal::RequesterExhausted => "RequesterExhausted",
            Fatal::IncomingMessageChannel(_) => "IncomingMessageChannel",
            Fatal::Runtime(_) => "Runtime",
        }
    }

    /// The variant's human-readable description.
    pub open spec fn spec_message(&self) -> Seq<char> {
        match self {
            Fatal::SpawnTask(_) => "Spawning subsystem task failed"@,
            Fatal::RuntimeRequestCanceled(_) => "Runtime request canceled"@,
            Fatal::RequesterExhausted => "Erasure chunk requester stream exhausted"@,
            Fatal::IncomingMessageChannel(_) => "Receive channel closed"@,
            Fatal::Runtime(_) => "Error while accessing runtime information"@,
        }
    }

    /// The variant's human-readable description, for logs.
    pub fn message(&self) -> (r: &'static str)
        ensures
            r@ == self.spec_message(),
    {
        match self {
            Fatal::SpawnTask(_) => "Spawning subsystem task failed",
            Fatal::RuntimeRequestCanceled(_) => "Runtime request canceled",
            Fatal::RequesterExhausted => "Erasure chunk requester stream exhausted",
            Fatal::IncomingMessageChannel(_) => "Receive channel closed",
            Fatal::Runtime(_) => "Error while accessing runtime information",
        }
    }
}

impl NonFatal {
    /// The variant's identity as it appears in the sink's warning log.
    pub open spec fn spec_name(&self) -> Seq<char> {
        match self {
            NonFatal::QueryChunkResponseChannel(_) => "QueryChunkResponseChannel"@,
            NonFatal::QueryAvailableDataResponseChannel(
                _,
            ) => "QueryAvailableDataResponseChannel"@,
            NonFatal::NoSuchCachedSession => "NoSuchCachedSession"@,
            NonFatal::NotAValidator => "NotAValidator"@,
            NonFatal::SendResponse => "SendResponse"@,
            NonFatal::UtilRequest(_) => "UtilRequest"@,
            NonFatal::RuntimeRequest(_) => "RuntimeRequest"@,
            NonFatal::FetchPoV(_) => "FetchPoV"@,
            NonFatal::UnexpectedPoV => "UnexpectedPoV"@,
            NonFatal::NoSuchPoV => "NoSuchPoV"@,
            NonFatal::InvalidValidatorIndex => "InvalidValidatorIndex"@,
            NonFatal::NoSuchSession(_) => "NoSuchSession"@,
            NonFatal::Runtime(_) => "Runtime"@,
        }
    }

    /// The variant's identity, for logs.
    pub fn name(&self) -> (r: &'static str)
        ensures
            r@ == self.spec_name(),
    {
        match self {
            NonFatal::QueryChunkResponseChannel(_) => "QueryChunkResponseChannel",
            NonFatal::QueryAvailableDataResponseChannel(_) => "QueryAvailableDataResponseChannel",
            NonFatal::NoSuchCachedSession => "NoSuchCachedSession",
            NonFatal::NotAValidator => "NotAValidator",
            NonFatal::SendResponse => "SendResponse",
            NonFatal::UtilRequest(_) => "UtilRequest",
            NonFatal::RuntimeRequest(_) => "RuntimeRequest",
            NonFatal::FetchPoV(_) => "FetchPoV",
            NonFatal::UnexpectedPoV => "UnexpectedPoV",
            NonFatal::NoSuchPoV => "NoSuchPoV",
            NonFatal::InvalidValidatorIndex => "InvalidValidatorIndex",
            NonFatal::NoSuchSession(_) => "NoSuchSession",
            NonFatal::Runtime(_) => "Runtime",
        }
    }

    /// The variant's human-readable description.
    pub open spec fn spec_message(&self) -> Seq<char> {
        match self {
            NonFatal::QueryChunkResponseChannel(_) => "Response channel to obtain chunk failed"@,
            NonFatal::QueryAvailableDataResponseChannel(
                _,
            ) => "Response channel to obtain available data failed"@,
            NonFatal::NoSuchCachedSession => "Session is not cached."@,
            NonFatal::NotAValidator => "Not a validator."@,
            NonFatal::SendResponse => "Sending a request's response failed."@,
            NonFatal::UtilRequest(_) => "Utility request failed"@,
            NonFatal::RuntimeRequest(_) => "Runtime API error"@,
            NonFatal::FetchPoV(_) => "FetchPoV request error"@,
            NonFatal::UnexpectedPoV => "Fetched PoV does not match expected hash"@,
            NonFatal::NoSuchPoV => "Remote responded with `NoSuchPoV`"@,
            NonFatal::InvalidValidatorIndex => "Given validator index could not be found"@,
            NonFatal::NoSuchSession(_) => "There was no session with the given index"@,
            NonFatal::Runtime(_) => "Error while accessing runtime information"@,
        }
    }

    /// The variant's human-readable description, for logs.
    pub fn message(&self) -> (r: &'static str)
        ensures
            r@ == self.spec_message(),
    {
        match self {
            NonFatal::QueryChunkResponseChannel(_) => "Response channel to obtain chunk failed",
            NonFatal::QueryAvailableDataResponseChannel(
                _,
            ) => "Response channel to obtain available data failed",
            NonFatal::NoSuchCachedSession => "Session is not cached.",
            NonFatal::NotAValidator => "Not a validator.",
            NonFatal::SendResponse => "Sending a request's response failed.",
            NonFatal::UtilRequest(_) => "Utility request failed",
            NonFatal::RuntimeRequest(_) => "Runtime API error",
            NonFatal::FetchPoV(_) => "FetchPoV request error",
            NonFatal::UnexpectedPoV => "Fetched PoV does not match expected hash",
            NonFatal::NoSuchPoV => "Remote responded with `NoSuchPoV`",
            NonFatal::InvalidValidatorIndex => "Given validator index could not be found",
            NonFatal::NoSuchSession(_) => "There was no session with the given index",
            NonFatal::Runtime(_) => "Error while accessing runtime information",
        }
    }
}

/// Constructing an `Error` from either final severity and pattern-matching
/// the result always yields back the same variant with the same cause:
/// classification is injective and never rewrites a value.
pub proof fn lemma_classification_round_trip(n: NonFatal, f: Fatal)
    ensures
        <Error as vstd::std_specs::convert::FromSpec<NonFatal>>::from_spec(n).0
            == Fault::<NonFatal, Fatal>::NonFatal(n),
        <Error as vstd::std_specs::convert::FromSpec<Fatal>>::from_spec(f).0
            == Fault::<NonFatal, Fatal>::Fatal(f),
{
}

/// Folding the runtime-information helper's error into the actor's type
/// preserves the helper's own classification: a helper-fatal error stays
/// fatal, a helper-non-fatal error stays non-fatal, and the helper's value
/// is kept inside the matching `Runtime` variant.
pub proof fn lemma_helper_fold_preserves_severity(o: runtime::Error)
    ensures
        o matches Fault::Fatal(f) ==> <Error as vstd::std_specs::convert::FromSpec<
            runtime::Error,
        >>::from_spec(o).0 == Fault::<NonFatal, Fatal>::Fatal(Fatal::Runtime(f)),
        o matches Fault::NonFatal(n) ==> <Error as vstd::std_specs::convert::FromSpec<
            runtime::Error,
        >>::from_spec(o).0 == Fault::<NonFatal, Fatal>::NonFatal(NonFatal::Runtime(n)),
{
}

} // verus!
