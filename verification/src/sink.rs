//! The log-and-continue sink: the single place where a classified result is
//! turned into the actor's keep-going-or-shut-down decision.
//!
//! The actor's driving loop hands the sink the result of one unit of work
//! together with a static context label. A success or a non-fatal failure
//! comes back as success (the non-fatal failure after exactly one warning
//! log line); a fatal failure comes back as the error that tells the loop
//! to terminate the actor.

use std::io::Write;

use vstd::prelude::*;
use vstd::string::StringExecFns;

use crate::error::{Error, Fatal, NonFatal};
use crate::fault::{unwrap_non_fatal, Fault};

verus! {

/// What the sink returns for a given result: success and non-fatal
/// failures are absorbed, fatal failures are handed to the caller.
pub open spec fn sink_disposition(result: Result<(), Error>) -> Result<(), Fatal> {
    match result {
        Ok(()) => Ok(()),
        Err(e) => match e.0 {
            Fault::NonFatal(_) => Ok(()),
            Fault::Fatal(f) => Err(f),
        },
    }
}

/// Whether the sink emits a warning log line for a given result: exactly
/// on a non-fatal failure, never on success or a fatal failure.
pub open spec fn sink_warns(result: Result<(), Error>) -> bool {
    result matches Err(e) && e.0 is NonFatal
}

/// The warning line the sink logs for an absorbed non-fatal error: the
/// context label, the variant's identity and its description.
pub open spec fn spec_warning_line(ctx: Seq<char>, error: NonFatal) -> Seq<char> {
    ctx + ": "@ + error.spec_name() + ": "@ + error.spec_message()
}

/// Build the warning line for a non-fatal error absorbed under the given
/// context label.
pub fn warning_line(ctx: &str, error: &NonFatal) -> (r: String)
    ensures
        r@ == spec_warning_line(ctx@, *error),
{
    let mut line = ctx.to_owned();
    line.append(": ");
    line.append(error.name());
    line.append(": ");
    line.append(error.message());
    line
}

/// Relies on `std::io::Stderr`'s `Write` implementation: writes the given
/// line, followed by a newline, to the process's standard error stream, and
/// does nothing else. A write error is ignored: logging is best-effort.
#[verifier::external_body]
fn emit_warning(line: &str) {
    let _ = writeln!(std::io::stderr(), "{}", line);
}

/// Consume the result of one unit of work: absorb success, log and absorb a
/// non-fatal failure (exactly one warning line, tagged with the context
/// label), and hand a fatal failure back to the driving loop, which must
/// then terminate the actor.
pub fn log_error(result: Result<(), Error>, ctx: &'static str) -> (r: Result<(), Fatal>)
    ensures
        r == sink_disposition(result),
{
    let stripped: Result<(), Fault<NonFatal, Fatal>> = match result {
        Ok(()) => Ok(()),
        Err(e) => Err(e.0),
    };
    match unwrap_non_fatal(stripped) {
        Ok(None) => Ok(()),
        Ok(Some(error)) => {
            let line = warning_line(ctx, &error);
            emit_warning(line.as_str());
            Ok(())
        },
        Err(f) => Err(f),
    }
}

/// A non-fatal error lifted into `Error` and handed to the sink is always
/// absorbed: the sink reports success, after exactly one warning.
pub proof fn lemma_sink_absorbs_non_fatal(n: NonFatal)
    ensures
        sink_disposition(
            Err(<Error as vstd::std_specs::convert::FromSpec<NonFatal>>::from_spec(n)),
        ) == Ok::<(), Fatal>(()),
        sink_warns(Err(<Error as vstd::std_specs::convert::FromSpec<NonFatal>>::from_spec(n))),
{
}

/// A fatal error lifted into `Error` and handed to the sink always comes
/// back unchanged as the sink's error, and the sink itself logs nothing.
pub proof fn lemma_sink_propagates_fatal(f: Fatal)
    ensures
        sink_disposition(Err(<Error as vstd::std_specs::convert::FromSpec<Fatal>>::from_spec(f)))
            == Err::<(), Fatal>(f),
        !sink_warns(Err(<Error as vstd::std_specs::convert::FromSpec<Fatal>>::from_spec(f))),
{
}

/// A successful unit of work passes the sink unchanged, with no warning.
pub proof fn lemma_sink_passes_success()
    ensures
        sink_disposition(Ok(())) == Ok::<(), Fatal>(()),
        !sink_warns(Ok(())),
{
}

} // verus!
