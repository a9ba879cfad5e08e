use vstd::prelude::*;
use vstd::string::StringExecFns;

use crate::raw;

verus! {

/// An error reported by prism or one of its backends.
#[derive(Debug, Clone, Copy, PartialEq, Eq, Hash, Structural)]
#[non_exhaustive]
pub enum Error {
    /// The library or backend has not been initialized.
    NotInitialized,
    /// A parameter was invalid, such as a string containing an interior NUL.
    InvalidParam,
    /// The operation is not implemented by this backend.
    NotImplemented,
    /// The backend has no voices available.
    NoVoices,
    /// The requested voice does not exist.
    VoiceNotFound,
    /// The backend failed to speak the text.
    SpeakFailure,
    /// A memory allocation failed.
    MemoryFailure,
    /// A value was outside the accepted range.
    RangeOutOfBounds,
    /// An internal error occurred inside prism.
    Internal,
    /// The backend is not currently speaking.
    NotSpeaking,
    /// The backend is not currently paused.
    NotPaused,
    /// The backend is already paused.
    AlreadyPaused,
    /// Text passed to the backend was not valid UTF-8.
    InvalidUtf8,
    /// The operation is invalid in the current state.
    InvalidOperation,
    /// The library or backend was already initialized.
    AlreadyInitialized,
    /// The requested backend is not available on this system.
    BackendNotAvailable,
    /// The backend reported an invalid audio format.
    InvalidAudioFormat,
    /// An internal backend limit was exceeded.
    InternalBackendLimitExceeded,
    /// The backend entered an undefined state.
    BackendEnteredUndefinedState,
    /// A plugin library failed to load.
    LibraryLoadFailed,
    /// A plugin library was not a valid prism plugin.
    LibraryInvalid,
    /// A plugin library was built against an incompatible ABI.
    IncompatibleAbi,
    /// An error code this binding does not know about.
    Unknown(i32),
}

/// The error that prism's code `code` stands for, when `code` is not success.
pub open spec fn error_of_code(code: i32) -> Error {
    if code == raw::PRISM_ERROR_NOT_INITIALIZED {
        Error::NotInitialized
    } else if code == raw::PRISM_ERROR_INVALID_PARAM {
        Error::InvalidParam
    } else if code == raw::PRISM_ERROR_NOT_IMPLEMENTED {
        Error::NotImplemented
    } else if code == raw::PRISM_ERROR_NO_VOICES {
        Error::NoVoices
    } else if code == raw::PRISM_ERROR_VOICE_NOT_FOUND {
        Error::VoiceNotFound
    } else if code == raw::PRISM_ERROR_SPEAK_FAILURE {
        Error::SpeakFailure
    } else if code == raw::PRISM_ERROR_MEMORY_FAILURE {
        Error::MemoryFailure
    } else if code == raw::PRISM_ERROR_RANGE_OUT_OF_BOUNDS {
        Error::RangeOutOfBounds
    } else if code == raw::PRISM_ERROR_INTERNAL {
        Error::Internal
    } else if code == raw::PRISM_ERROR_NOT_SPEAKING {
        Error::NotSpeaking
    } else if code == raw::PRISM_ERROR_NOT_PAUSED {
        Error::NotPaused
    } else if code == raw::PRISM_ERROR_ALREADY_PAUSED {
        Error::AlreadyPaused
    } else if code == raw::PRISM_ERROR_INVALID_UTF8 {
        Error::InvalidUtf8
    } else if code == raw::PRISM_ERROR_INVALID_OPERATION {
        Error::InvalidOperation
    } else if code == raw::PRISM_ERROR_ALREADY_INITIALIZED {
        Error::AlreadyInitialized
    } else if code == raw::PRISM_ERROR_BACKEND_NOT_AVAILABLE {
        Error::BackendNotAvailable
    } else if code == raw::PRISM_ERROR_INVALID_AUDIO_FORMAT {
        Error::InvalidAudioFormat
    } else if code == raw::PRISM_ERROR_INTERNAL_BACKEND_LIMIT_EXCEEDED {
        Error::InternalBackendLimitExceeded
    } else if code == raw::PRISM_ERROR_BACKEND_ENTERED_UNDEFINED_STATE {
        Error::BackendEnteredUndefinedState
    } else if code == raw::PRISM_ERROR_LIBRARY_LOAD_FAILED {
        Error::LibraryLoadFailed
    } else if code == raw::PRISM_ERROR_LIBRARY_INVALID {
        Error::LibraryInvalid
    } else if code == raw::PRISM_ERROR_INCOMPATIBLE_ABI {
        Error::IncompatibleAbi
    } else {
        Error::Unknown(code)
    }
}

/// What prism's code `code` means: success for `raw::PRISM_OK`, else its error.
pub open spec fn outcome_of_code(code: i32) -> Result<(), Error> {
    if code == raw::PRISM_OK {
        Ok(())
    } else {
        Err(error_of_code(code))
    }
}

/// Translates a prism status code into a `Result`.
pub fn check(code: i32) -> (r: Result<(), Error>)
    ensures
        r == outcome_of_code(code),
{
    match code {
        raw::PRISM_OK => Ok(()),
        raw::PRISM_ERROR_NOT_INITIALIZED => Err(Error::NotInitialized),
        raw::PRISM_ERROR_INVALID_PARAM => Err(Error::InvalidParam),
        raw::PRISM_ERROR_NOT_IMPLEMENTED => Err(Error::NotImplemented),
        raw::PRISM_ERROR_NO_VOICES => Err(Error::NoVoices),
        raw::PRISM_ERROR_VOICE_NOT_FOUND => Err(Error::VoiceNotFound),
        raw::PRISM_ERROR_SPEAK_FAILURE => Err(Error::SpeakFailure),
        raw::PRISM_ERROR_MEMORY_FAILURE => Err(Error::MemoryFailure),
        raw::PRISM_ERROR_RANGE_OUT_OF_BOUNDS => Err(Error::RangeOutOfBounds),
        raw::PRISM_ERROR_INTERNAL => Err(Error::Internal),
        raw::PRISM_ERROR_NOT_SPEAKING => Err(Error::NotSpeaking),
        raw::PRISM_ERROR_NOT_PAUSED => Err(Error::NotPaused),
        raw::PRISM_ERROR_ALREADY_PAUSED => Err(Error::AlreadyPaused),
        raw::PRISM_ERROR_INVALID_UTF8 => Err(Error::InvalidUtf8),
        raw::PRISM_ERROR_INVALID_OPERATION => Err(Error::InvalidOperation),
        raw::PRISM_ERROR_ALREADY_INITIALIZED => Err(Error::AlreadyInitialized),
        raw::PRISM_ERROR_BACKEND_NOT_AVAILABLE => Err(Error::BackendNotAvailable),
        raw::PRISM_ERROR_INVALID_AUDIO_FORMAT => Err(Error::InvalidAudioFormat),
        raw::PRISM_ERROR_INTERNAL_BACKEND_LIMIT_EXCEEDED => Err(Error::InternalBackendLimitExceeded),
        raw::PRISM_ERROR_BACKEND_ENTERED_UNDEFINED_STATE => Err(Error::BackendEnteredUndefinedState),
        raw::PRISM_ERROR_LIBRARY_LOAD_FAILED => Err(Error::LibraryLoadFailed),
        raw::PRISM_ERROR_LIBRARY_INVALID => Err(Error::LibraryInvalid),
        raw::PRISM_ERROR_INCOMPATIBLE_ABI => Err(Error::IncompatibleAbi),
        other => Err(Error::Unknown(other)),
    }
}

/// The code prism uses for error `e`; an unknown error keeps its own code.
pub open spec fn code_of_error(e: Error) -> i32 {
    match e {
        Error::NotInitialized => raw::PRISM_ERROR_NOT_INITIALIZED,
        Error::InvalidParam => raw::PRISM_ERROR_INVALID_PARAM,
        Error::NotImplemented => raw::PRISM_ERROR_NOT_IMPLEMENTED,
        Error::NoVoices => raw::PRISM_ERROR_NO_VOICES,
        Error::VoiceNotFound => raw::PRISM_ERROR_VOICE_NOT_FOUND,
        Error::SpeakFailure => raw::PRISM_ERROR_SPEAK_FAILURE,
        Error::MemoryFailure => raw::PRISM_ERROR_MEMORY_FAILURE,
        Error::RangeOutOfBounds => raw::PRISM_ERROR_RANGE_OUT_OF_BOUNDS,
        Error::Internal => raw::PRISM_ERROR_INTERNAL,
        Error::NotSpeaking => raw::PRISM_ERROR_NOT_SPEAKING,
        Error::NotPaused => raw::PRISM_ERROR_NOT_PAUSED,
        Error::AlreadyPaused => raw::PRISM_ERROR_ALREADY_PAUSED,
        Error::InvalidUtf8 => raw::PRISM_ERROR_INVALID_UTF8,
        Error::InvalidOperation => raw::PRISM_ERROR_INVALID_OPERATION,
        Error::AlreadyInitialized => raw::PRISM_ERROR_ALREADY_INITIALIZED,
        Error::BackendNotAvailable => raw::PRISM_ERROR_BACKEND_NOT_AVAILABLE,
        Error::InvalidAudioFormat => raw::PRISM_ERROR_INVALID_AUDIO_FORMAT,
        Error::InternalBackendLimitExceeded => raw::PRISM_ERROR_INTERNAL_BACKEND_LIMIT_EXCEEDED,
        Error::BackendEnteredUndefinedState => raw::PRISM_ERROR_BACKEND_ENTERED_UNDEFINED_STATE,
        Error::LibraryLoadFailed => raw::PRISM_ERROR_LIBRARY_LOAD_FAILED,
        Error::LibraryInvalid => raw::PRISM_ERROR_LIBRARY_INVALID,
        Error::IncompatibleAbi => raw::PRISM_ERROR_INCOMPATIBLE_ABI,
        Error::Unknown(code) => code,
    }
}

/// An error whose code translates back to it: every named error, and an
/// unknown one whose code is neither success nor the code of a named error.
pub open spec fn is_canonical(e: Error) -> bool {
    match e {
        Error::Unknown(code) => code != raw::PRISM_OK && error_of_code(code) == e,
        _ => true,
    }
}

/// The code prism uses for a whole outcome: success or an error's code.
pub open spec fn code_of_outcome(r: Result<(), Error>) -> i32 {
    match r {
        Ok(()) => raw::PRISM_OK,
        Err(e) => code_of_error(e),
    }
}

impl Error {
    /// Returns the prism status code that stands for this error.
    pub fn to_raw(self) -> (code: i32)
        ensures
            code == code_of_error(self),
    {
        match self {
            Error::NotInitialized => raw::PRISM_ERROR_NOT_INITIALIZED,
            Error::InvalidParam => raw::PRISM_ERROR_INVALID_PARAM,
            Error::NotImplemented => raw::PRISM_ERROR_NOT_IMPLEMENTED,
            Error::NoVoices => raw::PRISM_ERROR_NO_VOICES,
            Error::VoiceNotFound => raw::PRISM_ERROR_VOICE_NOT_FOUND,
            Error::SpeakFailure => raw::PRISM_ERROR_SPEAK_FAILURE,
            Error::MemoryFailure => raw::PRISM_ERROR_MEMORY_FAILURE,
            Error::RangeOutOfBounds => raw::PRISM_ERROR_RANGE_OUT_OF_BOUNDS,
            Error::Internal => raw::PRISM_ERROR_INTERNAL,
            Error::NotSpeaking => raw::PRISM_ERROR_NOT_SPEAKING,
            Error::NotPaused => raw::PRISM_ERROR_NOT_PAUSED,
            Error::AlreadyPaused => raw::PRISM_ERROR_ALREADY_PAUSED,
            Error::InvalidUtf8 => raw::PRISM_ERROR_INVALID_UTF8,
            Error::InvalidOperation => raw::PRISM_ERROR_INVALID_OPERATION,
            Error::AlreadyInitialized => raw::PRISM_ERROR_ALREADY_INITIALIZED,
            Error::BackendNotAvailable => raw::PRISM_ERROR_BACKEND_NOT_AVAILABLE,
            Error::InvalidAudioFormat => raw::PRISM_ERROR_INVALID_AUDIO_FORMAT,
            Error::InternalBackendLimitExceeded => raw::PRISM_ERROR_INTERNAL_BACKEND_LIMIT_EXCEEDED,
            Error::BackendEnteredUndefinedState => raw::PRISM_ERROR_BACKEND_ENTERED_UNDEFINED_STATE,
            Error::LibraryLoadFailed => raw::PRISM_ERROR_LIBRARY_LOAD_FAILED,
            Error::LibraryInvalid => raw::PRISM_ERROR_LIBRARY_INVALID,
            Error::IncompatibleAbi => raw::PRISM_ERROR_INCOMPATIBLE_ABI,
            Error::Unknown(code) => code,
        }
    }
}

/// Translates the outcome of an operation into the status code prism expects
/// back from a custom backend.
pub fn to_code(result: Result<(), Error>) -> (code: i32)
    ensures
        code == code_of_outcome(result),
{
    match result {
        Ok(()) => raw::PRISM_OK,
        Err(error) => error.to_raw(),
    }
}

/// Every failing status code survives a trip through `check` and back:
/// the error that `check` reports for it has that very code.
pub proof fn lemma_code_round_trip(code: i32)
    requires
        code != raw::PRISM_OK,
    ensures
        outcome_of_code(code) == Err::<(), Error>(error_of_code(code)),
        code_of_error(error_of_code(code)) == code,
        is_canonical(error_of_code(code)),
{
}

/// A canonical error survives a trip through its code and back through
/// `check`, and its code is never the success code.
pub proof fn lemma_error_round_trip(e: Error)
    requires
        is_canonical(e),
    ensures
        code_of_error(e) != raw::PRISM_OK,
        outcome_of_code(code_of_error(e)) == Err::<(), Error>(e),
{
}

/// Reporting an outcome as a code and reading it back with `check` gives
/// the outcome again, whenever its error, if any, is canonical.
pub proof fn lemma_outcome_round_trip(r: Result<(), Error>)
    requires
        r matches Err(e) ==> is_canonical(e),
    ensures
        outcome_of_code(code_of_outcome(r)) == r,
        (code_of_outcome(r) == raw::PRISM_OK) == (r is Ok),
{
    match r {
        Ok(unit) => assert(unit == ()),
        Err(e) => lemma_error_round_trip(e),
    }
}

/// The kinds of handle prism hands out, each returned as null on failure.
#[derive(Debug, Clone, Copy, PartialEq, Eq, Structural)]
pub enum HandleKind {
    /// A backend instance, from creating or acquiring one.
    Backend,
    /// A context, from initializing prism.
    Context,
    /// A registry builder, or the registry frozen from one.
    Registry,
}

/// The error a null handle of kind `kind` stands for.
pub open spec fn missing_handle_error(kind: HandleKind) -> Error {
    match kind {
        HandleKind::Backend => Error::BackendNotAvailable,
        HandleKind::Context => Error::Internal,
        HandleKind::Registry => Error::MemoryFailure,
    }
}

/// Reads a handle prism returned, `None` standing for a null one: a backend
/// that cannot be had is not available, a context that cannot start is an
/// internal error, and a registry that cannot be built is out of memory.
pub fn require_handle<T>(kind: HandleKind, handle: Option<T>) -> (r: Result<T, Error>)
    ensures
        handle matches Some(h) ==> r == Ok::<T, Error>(h),
        handle is None ==> r == Err::<T, Error>(missing_handle_error(kind)),
{
    match handle {
        Some(h) => Ok(h),
        None => Err(match kind {
            HandleKind::Backend => Error::BackendNotAvailable,
            HandleKind::Context => Error::Internal,
            HandleKind::Registry => Error::MemoryFailure,
        }),
    }
}

/// The decimal digits of `n`, most significant first.
pub open spec fn decimal_digits(n: nat) -> Seq<char>
    decreases n,
{
    let digit = ((48 + n % 10) as u32) as char;
    if n < 10 {
        seq![digit]
    } else {
        decimal_digits(n / 10).push(digit)
    }
}

/// `n` written in decimal, with a leading `-` when it is negative.
pub open spec fn decimal_text(n: int) -> Seq<char> {
    if n < 0 {
        seq!['-'] + decimal_digits((-n) as nat)
    } else {
        decimal_digits(n as nat)
    }
}

/// The human-readable description of error `e`.
pub open spec fn message_of(e: Error) -> Seq<char> {
    match e {
        Error::NotInitialized => "not initialized"@,
        Error::InvalidParam => "invalid parameter"@,
        Error::NotImplemented => "not implemented"@,
        Error::NoVoices => "no voices available"@,
        Error::VoiceNotFound => "voice not found"@,
        Error::SpeakFailure => "speak failure"@,
        Error::MemoryFailure => "memory allocation failure"@,
        Error::RangeOutOfBounds => "range out of bounds"@,
        Error::Internal => "internal error"@,
        Error::NotSpeaking => "not speaking"@,
        Error::NotPaused => "not paused"@,
        Error::AlreadyPaused => "already paused"@,
        Error::InvalidUtf8 => "invalid UTF-8"@,
        Error::InvalidOperation => "invalid operation"@,
        Error::AlreadyInitialized => "already initialized"@,
        Error::BackendNotAvailable => "backend not available"@,
        Error::InvalidAudioFormat => "invalid audio format"@,
        Error::InternalBackendLimitExceeded => "internal backend limit exceeded"@,
        Error::BackendEnteredUndefinedState => "backend entered undefined state"@,
        Error::LibraryLoadFailed => "library load failed"@,
        Error::LibraryInvalid => "library invalid"@,
        Error::IncompatibleAbi => "incompatible plugin ABI"@,
        Error::Unknown(code) => "unknown prism error "@ + decimal_text(code as int),
    }
}

/// Writes `code` in decimal.
///
/// Calls `to_string` on the `i32`, whose `Display` std documents as the
/// decimal digits, with a leading `-` for a negative value and no padding;
/// the contract claims exactly that text.
#[verifier::external_body]
fn decimal_string(code: i32) -> (text: String)
    ensures
        text@ == decimal_text(code as int),
{
    code.to_string()
}

impl Error {
    /// Returns the human-readable description of this error.
    pub fn message(&self) -> (text: String)
        ensures
            text@ == message_of(*self),
    {
        match self {
            Error::NotInitialized => String::from_str("not initialized"),
            Error::InvalidParam => String::from_str("invalid parameter"),
            Error::NotImplemented => String::from_str("not implemented"),
            Error::NoVoices => String::from_str("no voices available"),
            Error::VoiceNotFound => String::from_str("voice not found"),
            Error::SpeakFailure => String::from_str("speak failure"),
            Error::MemoryFailure => String::from_str("memory allocation failure"),
            Error::RangeOutOfBounds => String::from_str("range out of bounds"),
            Error::Internal => String::from_str("internal error"),
            Error::NotSpeaking => String::from_str("not speaking"),
            Error::NotPaused => String::from_str("not paused"),
            Error::AlreadyPaused => String::from_str("already paused"),
            Error::InvalidUtf8 => String::from_str("invalid UTF-8"),
            Error::InvalidOperation => String::from_str("invalid operation"),
            Error::AlreadyInitialized => String::from_str("already initialized"),
            Error::BackendNotAvailable => String::from_str("backend not available"),
            Error::InvalidAudioFormat => String::from_str("invalid audio format"),
            Error::InternalBackendLimitExceeded => String::from_str("internal backend limit exceeded"),
            Error::BackendEnteredUndefinedState => String::from_str("backend entered undefined state"),
            Error::LibraryLoadFailed => String::from_str("library load failed"),
            Error::LibraryInvalid => String::from_str("library invalid"),
            Error::IncompatibleAbi => String::from_str("incompatible plugin ABI"),
            Error::Unknown(code) => {
                let mut text = String::from_str("unknown prism error ");
                let digits = decimal_string(*code);
                text.append(digits.as_str());
                text
            },
        }
    }
}

/// The character of decimal digit `d`.
pub open spec fn digit_char(d: nat) -> char {
    ((48 + d) as u32) as char
}

/// Decimal digits are the characters `0` to `9`, and distinct digits are
/// distinct characters.
proof fn lemma_digit_chars(d: nat, e: nat)
    requires
        d < 10,
        e < 10,
    ensures
        digit_char(d) != '-',
        digit_char(d) == digit_char(e) ==> d == e,
{
}

/// Every number has at least one decimal digit, and distinct numbers have
/// distinct digits.
proof fn lemma_decimal_digits_injective(a: nat, b: nat)
    ensures
        decimal_digits(a).len() >= 1,
        forall|i: int| 0 <= i < decimal_digits(a).len() ==> #[trigger] decimal_digits(a)[i] != '-',
        decimal_digits(a) == decimal_digits(b) ==> a == b,
    decreases a + b,
{
    assert(decimal_digits(a) == decimal_digits(a));
    if a >= 10 {
        lemma_decimal_digits_injective(a / 10, b);
    }
    if b >= 10 {
        lemma_decimal_digits_injective(a, b / 10);
    }
    if a >= 10 && b >= 10 {
        lemma_decimal_digits_injective(a / 10, b / 10);
    }
    lemma_digit_chars(a % 10, b % 10);
    if decimal_digits(a) == decimal_digits(b) {
        let (da, db) = (decimal_digits(a), decimal_digits(b));
        assert(da[da.len() - 1] == db[db.len() - 1]);
        if a >= 10 && b >= 10 {
            assert(da.drop_last() =~= decimal_digits(a / 10));
            assert(db.drop_last() =~= decimal_digits(b / 10));
        } else if a >= 10 {
            assert(decimal_digits(a / 10).len() >= 1);
        } else if b >= 10 {
            assert(decimal_digits(b / 10).len() >= 1);
        }
    }
    assert forall|i: int| 0 <= i < decimal_digits(a).len() implies #[trigger] decimal_digits(a)[i] != '-' by {
        if a >= 10 && i < decimal_digits(a).len() - 1 {
            assert(decimal_digits(a)[i] == decimal_digits(a / 10)[i]);
        }
    }
}

/// Distinct numbers are written differently in decimal.
pub proof fn lemma_decimal_text_injective(a: int, b: int)
    ensures
        decimal_text(a).len() >= 1,
        decimal_text(a) == decimal_text(b) ==> a == b,
{
    let (na, nb) = (if a < 0 { -a } else { a }, if b < 0 { -b } else { b });
    lemma_decimal_digits_injective(na as nat, nb as nat);
    lemma_decimal_digits_injective(nb as nat, na as nat);
    if decimal_text(a) == decimal_text(b) {
        let (ta, tb) = (decimal_text(a), decimal_text(b));
        if a < 0 && b < 0 {
            assert(ta.drop_first() =~= decimal_digits(na as nat));
            assert(tb.drop_first() =~= decimal_digits(nb as nat));
        } else if a < 0 {
            assert(ta[0] == '-');
            assert(tb[0] == decimal_digits(nb as nat)[0]);
        } else if b < 0 {
            assert(tb[0] == '-');
            assert(ta[0] == decimal_digits(na as nat)[0]);
        }
    }
}

/// Every error has a description, and distinct errors have distinct
/// descriptions; an unknown error's description names its code.
pub proof fn lemma_messages_distinct(a: Error, b: Error)
    ensures
        message_of(a).len() > 0,
        message_of(a) == message_of(b) ==> a == b,
{
    reveal_strlit("not initialized");
    reveal_strlit("invalid parameter");
    reveal_strlit("not implemented");
    reveal_strlit("no voices available");
    reveal_strlit("voice not found");
    reveal_strlit("speak failure");
    reveal_strlit("memory allocation failure");
    reveal_strlit("range out of bounds");
    reveal_strlit("internal error");
    reveal_strlit("not speaking");
    reveal_strlit("not paused");
    reveal_strlit("already paused");
    reveal_strlit("invalid UTF-8");
    reveal_strlit("invalid operation");
    reveal_strlit("already initialized");
    reveal_strlit("backend not available");
    reveal_strlit("invalid audio format");
    reveal_strlit("internal backend limit exceeded");
    reveal_strlit("backend entered undefined state");
    reveal_strlit("library load failed");
    reveal_strlit("library invalid");
    reveal_strlit("incompatible plugin ABI");
    reveal_strlit("unknown prism error ");
    let prefix = "unknown prism error "@;
    match a {
        Error::Unknown(x) => lemma_decimal_text_injective(x as int, x as int),
        _ => {},
    }
    if message_of(a) == message_of(b) {
        match (a, b) {
            (Error::Unknown(x), Error::Unknown(y)) => {
                lemma_decimal_text_injective(x as int, y as int);
                assert(message_of(a).subrange(20, message_of(a).len() as int) =~= decimal_text(x as int));
                assert(message_of(b).subrange(20, message_of(b).len() as int) =~= decimal_text(y as int));
            },
            (Error::Unknown(x), _) => {
                assert(message_of(a)[0] == prefix[0]);
                assert(message_of(b)[0] == message_of(a)[0]);
            },
            (_, Error::Unknown(y)) => {
                assert(message_of(b)[0] == prefix[0]);
                assert(message_of(a)[0] == message_of(b)[0]);
            },
            _ => {
                assert(message_of(a).len() == message_of(b).len());
                assert(message_of(a)[0] == message_of(b)[0]);
                assert(message_of(a)[5] == message_of(b)[5]);
                assert(message_of(a)[8] == message_of(b)[8]);
            },
        }
    }
}

} // verus!
