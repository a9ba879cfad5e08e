use prismer::{check, require_handle, to_code, Error, HandleKind};

const NAMED: [(i32, Error); 22] = [
    (1, Error::NotInitialized),
    (2, Error::InvalidParam),
    (3, Error::NotImplemented),
    (4, Error::NoVoices),
    (5, Error::VoiceNotFound),
    (6, Error::SpeakFailure),
    (7, Error::MemoryFailure),
    (8, Error::RangeOutOfBounds),
    (9, Error::Internal),
    (10, Error::NotSpeaking),
    (11, Error::NotPaused),
    (12, Error::AlreadyPaused),
    (13, Error::InvalidUtf8),
    (14, Error::InvalidOperation),
    (15, Error::AlreadyInitialized),
    (16, Error::BackendNotAvailable),
    (18, Error::InvalidAudioFormat),
    (19, Error::InternalBackendLimitExceeded),
    (20, Error::BackendEnteredUndefinedState),
    (21, Error::LibraryLoadFailed),
    (22, Error::LibraryInvalid),
    (23, Error::IncompatibleAbi),
];

#[test]
fn success_code_is_ok() {
    assert_eq!(check(0), Ok(()));
}

#[test]
fn every_named_code_maps_to_its_error() {
    for (code, error) in NAMED {
        assert_eq!(check(code), Err(error));
    }
}

#[test]
fn unnamed_codes_are_unknown() {
    assert_eq!(check(17), Err(Error::Unknown(17)));
    assert_eq!(check(24), Err(Error::Unknown(24)));
    assert_eq!(check(-1), Err(Error::Unknown(-1)));
    assert_eq!(check(i32::MAX), Err(Error::Unknown(i32::MAX)));
}

#[test]
fn to_raw_inverts_check() {
    for (code, error) in NAMED {
        assert_eq!(error.to_raw(), code);
    }
    assert_eq!(Error::Unknown(17).to_raw(), 17);
    assert_eq!(Error::Unknown(-40).to_raw(), -40);
}

#[test]
fn every_failing_code_round_trips() {
    for code in -50..100 {
        if code == 0 {
            continue;
        }
        let error = check(code).unwrap_err();
        assert_eq!(error.to_raw(), code);
    }
}

#[test]
fn to_code_reports_outcomes() {
    assert_eq!(to_code(Ok(())), 0);
    assert_eq!(to_code(Err(Error::NotImplemented)), 3);
    assert_eq!(to_code(Err(Error::IncompatibleAbi)), 23);
    assert_eq!(to_code(Err(Error::Unknown(99))), 99);
    assert_eq!(check(to_code(Err(Error::SpeakFailure))), Err(Error::SpeakFailure));
}

#[test]
fn messages_describe_errors() {
    assert_eq!(Error::NotInitialized.message(), "not initialized");
    assert_eq!(Error::InvalidParam.message(), "invalid parameter");
    assert_eq!(Error::NoVoices.message(), "no voices available");
    assert_eq!(Error::MemoryFailure.message(), "memory allocation failure");
    assert_eq!(Error::Internal.message(), "internal error");
    assert_eq!(Error::InvalidUtf8.message(), "invalid UTF-8");
    assert_eq!(Error::IncompatibleAbi.message(), "incompatible plugin ABI");
    assert_eq!(Error::BackendEnteredUndefinedState.message(), "backend entered undefined state");
}

#[test]
fn unknown_errors_show_their_code() {
    assert_eq!(Error::Unknown(42).message(), "unknown prism error 42");
    assert_eq!(Error::Unknown(-7).message(), "unknown prism error -7");
    assert_eq!(Error::Unknown(0).message(), "unknown prism error 0");
}

#[test]
fn errors_compare_by_variant_and_code() {
    assert_eq!(Error::Unknown(3), Error::Unknown(3));
    assert_ne!(Error::Unknown(3), Error::Unknown(4));
    assert_ne!(Error::Unknown(3), Error::NotImplemented);
}

#[test]
fn null_handles_stand_for_their_errors() {
    assert_eq!(require_handle(HandleKind::Backend, None::<u8>), Err(Error::BackendNotAvailable));
    assert_eq!(require_handle(HandleKind::Context, None::<u8>), Err(Error::Internal));
    assert_eq!(require_handle(HandleKind::Registry, None::<u8>), Err(Error::MemoryFailure));
    assert_eq!(require_handle(HandleKind::Backend, Some(7u8)), Ok(7));
}

#[test]
fn messages_are_distinct_and_non_empty() {
    let mut errors: Vec<Error> = NAMED.iter().map(|(_, e)| *e).collect();
    errors.extend([Error::Unknown(-12), Error::Unknown(12), Error::Unknown(120), Error::Unknown(17)]);
    for a in &errors {
        assert!(!a.message().is_empty());
        for b in &errors {
            assert_eq!(a.message() == b.message(), a == b);
        }
    }
}

#[test]
fn extreme_unknown_codes_show_in_full() {
    assert_eq!(Error::Unknown(i32::MIN).message(), "unknown prism error -2147483648");
    assert_eq!(Error::Unknown(i32::MAX).message(), "unknown prism error 2147483647");
}
