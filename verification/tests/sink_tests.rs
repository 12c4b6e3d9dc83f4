use fault_core::causes::{RequestError, RuntimeApiError, SubsystemError, UtilError};
use fault_core::error::{Error, Fatal, NonFatal};
use fault_core::fault::{unwrap_non_fatal, Fault};
use fault_core::runtime;
use fault_core::sink::{log_error, warning_line};

use futures::channel::oneshot::Canceled;

fn subsystem_error(message: &str) -> SubsystemError {
    SubsystemError { message: message.to_string() }
}

#[test]
fn sink_passes_success() {
    let r = log_error(Ok(()), "handle-request");
    assert!(matches!(r, Ok(())));
}

#[test]
fn sink_absorbs_cache_miss() {
    let r = log_error(Err(Error::from(NonFatal::NoSuchCachedSession)), "handle-request");
    assert!(matches!(r, Ok(())));
}

#[test]
fn warning_line_tags_context_and_variant() {
    let line = warning_line("handle-request", &NonFatal::NoSuchCachedSession);
    assert_eq!(line, "handle-request: NoSuchCachedSession: Session is not cached.");
    assert!(line.contains("handle-request"));
    assert!(line.contains("NoSuchCachedSession"));
}

#[test]
fn sink_propagates_spawn_task_with_cause() {
    let result = Err(Error::from(Fatal::SpawnTask(subsystem_error("spawn failed"))));
    let r = log_error(result, "spawn-worker");
    assert!(matches!(r, Err(Fatal::SpawnTask(c)) if c.message == "spawn failed"));
}

#[test]
fn sink_absorbs_every_non_fatal_variant() {
    let variants = vec![
        NonFatal::QueryChunkResponseChannel(Canceled),
        NonFatal::QueryAvailableDataResponseChannel(Canceled),
        NonFatal::NoSuchCachedSession,
        NonFatal::NotAValidator,
        NonFatal::SendResponse,
        NonFatal::UtilRequest(UtilError { message: "util".to_string() }),
        NonFatal::RuntimeRequest(RuntimeApiError { message: "api".to_string() }),
        NonFatal::FetchPoV(RequestError { message: "timeout".to_string() }),
        NonFatal::UnexpectedPoV,
        NonFatal::NoSuchPoV,
        NonFatal::InvalidValidatorIndex,
        NonFatal::NoSuchSession(11),
        NonFatal::Runtime(runtime::NonFatal::NoSuchSession(4)),
    ];
    for n in variants {
        let r = log_error(Err(Error::from(n)), "loop");
        assert!(matches!(r, Ok(())));
    }
}

#[test]
fn sink_propagates_every_fatal_variant() {
    let variants = vec![
        Fatal::SpawnTask(subsystem_error("spawn")),
        Fatal::RuntimeRequestCanceled(Canceled),
        Fatal::RequesterExhausted,
        Fatal::IncomingMessageChannel(subsystem_error("closed")),
        Fatal::Runtime(runtime::Fatal::Canceled(Canceled)),
    ];
    for f in variants {
        let r = log_error(Err(Error::from(f)), "loop");
        assert!(r.is_err());
    }
}

#[test]
fn unwrap_non_fatal_splits_severities() {
    let ok: Result<(), Fault<u8, u16>> = Ok(());
    assert!(matches!(unwrap_non_fatal(ok), Ok(None)));

    let non_fatal: Result<(), Fault<u8, u16>> = Err(Fault::NonFatal(7));
    assert!(matches!(unwrap_non_fatal(non_fatal), Ok(Some(7))));

    let fatal: Result<(), Fault<u8, u16>> = Err(Fault::Fatal(9));
    assert!(matches!(unwrap_non_fatal(fatal), Err(9)));
}
