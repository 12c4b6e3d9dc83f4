use fault_core::causes::{RuntimeApiError, SubsystemError};
use fault_core::error::{Error, Fatal, NonFatal};
use fault_core::fault::Fault;
use fault_core::runtime;

use futures::channel::oneshot::Canceled;

#[test]
fn non_fatal_round_trips_through_error() {
    let Error(fault) = Error::from(NonFatal::NoSuchSession(7));
    assert!(matches!(fault, Fault::NonFatal(NonFatal::NoSuchSession(7))));

    let Error(fault) = Error::from(NonFatal::NotAValidator);
    assert!(matches!(fault, Fault::NonFatal(NonFatal::NotAValidator)));

    let cause = RuntimeApiError { message: "pruned".to_string() };
    let Error(fault) = Error::from(NonFatal::RuntimeRequest(cause));
    assert!(matches!(
        fault,
        Fault::NonFatal(NonFatal::RuntimeRequest(e)) if e.message == "pruned"
    ));
}

#[test]
fn fatal_round_trips_through_error() {
    let Error(fault) = Error::from(Fatal::RequesterExhausted);
    assert!(matches!(fault, Fault::Fatal(Fatal::RequesterExhausted)));

    let cause = SubsystemError { message: "receiver gone".to_string() };
    let Error(fault) = Error::from(Fatal::IncomingMessageChannel(cause));
    assert!(matches!(
        fault,
        Fault::Fatal(Fatal::IncomingMessageChannel(e)) if e.message == "receiver gone"
    ));

    let Error(fault) = Error::from(Fatal::RuntimeRequestCanceled(Canceled));
    assert!(matches!(fault, Fault::Fatal(Fatal::RuntimeRequestCanceled(_))));
}

#[test]
fn helper_fatal_folds_into_fatal() {
    let helper: runtime::Error = Fault::Fatal(runtime::Fatal::Canceled(Canceled));
    let Error(fault) = Error::from(helper);
    assert!(matches!(
        fault,
        Fault::Fatal(Fatal::Runtime(runtime::Fatal::Canceled(_)))
    ));
}

#[test]
fn helper_non_fatal_folds_into_non_fatal() {
    let helper: runtime::Error = Fault::NonFatal(runtime::NonFatal::NoSuchSession(3));
    let Error(fault) = Error::from(helper);
    assert!(matches!(
        fault,
        Fault::NonFatal(NonFatal::Runtime(runtime::NonFatal::NoSuchSession(3)))
    ));
}

#[test]
fn fault_constructors_tag_severity() {
    let non_fatal: Fault<u8, u16> = Fault::from_non_fatal(1);
    assert!(matches!(non_fatal, Fault::NonFatal(1)));

    let fatal: Fault<u8, u16> = Fault::from_fatal(2);
    assert!(matches!(fatal, Fault::Fatal(2)));
}

#[test]
fn variant_names_and_messages() {
    assert_eq!(NonFatal::NoSuchCachedSession.name(), "NoSuchCachedSession");
    assert_eq!(NonFatal::NoSuchCachedSession.message(), "Session is not cached.");
    assert_eq!(NonFatal::UnexpectedPoV.message(), "Fetched PoV does not match expected hash");
    assert_eq!(NonFatal::NoSuchSession(1).name(), "NoSuchSession");
    assert_eq!(Fatal::RequesterExhausted.name(), "RequesterExhausted");
    assert_eq!(
        Fatal::RuntimeRequestCanceled(Canceled).message(),
        "Runtime request canceled"
    );
    assert_eq!(
        Fatal::SpawnTask(SubsystemError { message: "s".to_string() }).message(),
        "Spawning subsystem task failed"
    );
}
