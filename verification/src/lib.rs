//! Two-tier fault classification for a long-running message-processing actor.
//!
//! Every fallible operation inside the actor reports an [`error::Error`],
//! which carries exactly one [`fault::Fault`]: a fatal condition must
//! terminate the actor, a non-fatal condition is logged and absorbed so the
//! actor's loop can continue. The sink [`sink::log_error`] is the single
//! place where that keep-going-or-shut-down decision is made, and the
//! adapter [`adapter::classify_runtime_reply`] is the single place where a
//! one-shot reply's two failure axes (transport gone vs remote-reported
//! error) are told apart.

pub mod adapter;
pub mod causes;
pub mod error;
pub mod fault;
pub mod runtime;
pub mod sink;

pub use causes::{RequestError, RuntimeApiError, SessionIndex, SubsystemError, UtilError};
pub use error::{Error, Fatal, NonFatal};
pub use fault::{unwrap_non_fatal, Fault};
pub use adapter::classify_runtime_reply;
pub use sink::{log_error, warning_line};
