//! The generic two-severity fault composite.
//!
//! A `Fault` tags an error value with its final severity: non-fatal faults
//! must be absorbed by the caller, fatal faults must terminate the enclosing
//! unit of work. Classification happens exactly once, at construction, and
//! never changes afterwards.

use vstd::prelude::*;

verus! {

/// An error value tagged with its severity.
#[derive(Debug)]
pub enum Fault<N, F> {
    /// The classification is final: the caller must not terminate.
    NonFatal(N),
    /// The classification is final: the caller must terminate the enclosing
    /// unit of work.
    Fatal(F),
}

impl<N, F> Fault<N, F> {
    /// Tag a non-fatal error value.
    pub fn from_non_fatal(e: N) -> (r: Self)
        ensures
            r == Fault::<N, F>::NonFatal(e),
    {
        Fault::NonFatal(e)
    }

    /// Tag a fatal error value.
    pub fn from_fatal(f: F) -> (r: Self)
        ensures
            r == Fault::<N, F>::Fatal(f),
    {
        Fault::Fatal(f)
    }
}

/// Split a fault off a result: a non-fatal fault is handed back as a value
/// to be absorbed, a fatal fault is propagated as an error.
pub fn unwrap_non_fatal<N, F>(result: Result<(), Fault<N, F>>) -> (r: Result<Option<N>, F>)
    ensures
        match result {
            Ok(()) => r == Ok::<Option<N>, F>(None),
            Err(Fault::NonFatal(n)) => r == Ok::<Option<N>, F>(Some(n)),
            Err(Fault::Fatal(f)) => r == Err::<Option<N>, F>(f),
        },
{
    match result {
        Ok(()) => Ok(None),
        Err(Fault::NonFatal(n)) => Ok(Some(n)),
        Err(Fault::Fatal(f)) => Err(f),
    }
}

} // verus!
