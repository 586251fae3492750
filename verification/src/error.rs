use vstd::prelude::*;
use vstd::string::*;

verus! {

/// Solver status codes that the owner distinguishes; every other code is carried as its number.
#[derive(Clone, Copy, Debug, PartialEq, Eq, Structural)]
pub enum ErrorCode {
    System,
    ApiNotOpen,
    ApiNotStarted,
    ApiNotEnded,
    ApiPropertyValue,
    ApiObjectName,
    Exception,
    Other(i32),
}

/// A solver failure: its status code and an optional human-readable detail.
#[derive(Clone, Debug)]
pub struct SwmmError {
    pub code: ErrorCode,
    pub detail: Option<String>,
}

impl SwmmError {
    /// Creates a failure with the given code and detail.
    pub fn with_detail(code: ErrorCode, detail: String) -> (error: SwmmError)
        ensures
            error.code == code,
            error.detail == Some(detail),
    {
        SwmmError { code, detail: Some(detail) }
    }

    /// Creates a failure with the given code and a detail copied from a string slice.
    pub fn with_str(code: ErrorCode, detail: &str) -> (error: SwmmError)
        ensures
            error.code == code,
            error.detail matches Some(d) && d@ == detail@,
    {
        SwmmError { code, detail: Some(String::from_str(detail)) }
    }
}

/// True when `error` carries `code` and exactly the detail `detail`.
pub open spec fn swmm_error_is(error: SwmmError, code: ErrorCode, detail: Seq<char>) -> bool {
    &&& error.code == code
    &&& error.detail is Some
    &&& error.detail->0@ == detail
}

/// One configuration diagnostic reported by the solver when a start is refused.
#[derive(Clone, Debug)]
pub struct ConfigurationDiagnostic {
    pub object: String,
    pub message: String,
}

/// Failures of work done while the owner lock is held.
#[derive(Clone, Debug)]
pub enum DetachedFailure {
    Solver(&'static str, SwmmError),
    Stale,
    Poisoned,
    Panicked,
}

/// The Python-facing failures raised by the native owner.
#[derive(Clone, Debug)]
pub enum NativeError {
    /// A solver failure attributed to a named operation.
    Native { operation: &'static str, error: SwmmError },
    /// An operation refused by the owner's lifecycle.
    Lifecycle { operation: &'static str, detail: String },
    /// A broken internal invariant of the private protocol.
    Internal { operation: &'static str, detail: String },
    /// A rejected user value that never reached the solver.
    Validation { detail: String },
    /// A captured Project Generation or Live View identity that is no longer active.
    Stale { operation: &'static str },
    /// A poisoned owner lock.
    Poisoned { operation: &'static str },
    /// A contained panic inside native work.
    Panicked { operation: &'static str },
    /// A start refused with configuration diagnostics.
    Configuration { diagnostics: Vec<ConfigurationDiagnostic> },
    /// A Python `TypeError` with its message.
    Type { message: String },
    /// A Python `KeyError` for the requested key.
    Key { key: String },
    /// A Python `IndexError` for the requested position.
    Index { position: i128 },
}

/// Maps a detached failure to the error raised for `operation`.
pub fn detached_error(operation: &'static str, failure: DetachedFailure) -> (error: NativeError)
    ensures
        error == spec_detached_error(operation, failure),
{
    match failure {
        DetachedFailure::Solver(failed, error) => NativeError::Native { operation: failed, error },
        DetachedFailure::Stale => NativeError::Stale { operation },
        DetachedFailure::Poisoned => NativeError::Poisoned { operation },
        DetachedFailure::Panicked => NativeError::Panicked { operation },
    }
}

/// The error raised for `operation` from a detached failure; a solver failure keeps its own operation.
pub open spec fn spec_detached_error(operation: &'static str, failure: DetachedFailure) -> NativeError {
    match failure {
        DetachedFailure::Solver(failed, error) => NativeError::Native { operation: failed, error },
        DetachedFailure::Stale => NativeError::Stale { operation },
        DetachedFailure::Poisoned => NativeError::Poisoned { operation },
        DetachedFailure::Panicked => NativeError::Panicked { operation },
    }
}

/// Wraps a solver failure for `operation`.
pub fn native_error(operation: &'static str, error: SwmmError) -> (raised: NativeError)
    ensures
        raised == (NativeError::Native { operation, error }),
{
    NativeError::Native { operation, error }
}

/// Creates a lifecycle refusal for `operation`.
pub fn lifecycle_error(operation: &'static str, detail: &str) -> (raised: NativeError)
    ensures
        raised matches NativeError::Lifecycle { operation: o, detail: d } && o == operation
            && d@ == detail@,
{
    NativeError::Lifecycle { operation, detail: String::from_str(detail) }
}

/// Creates an internal-protocol failure for `operation`.
pub fn internal_error(operation: &'static str, detail: &str) -> (raised: NativeError)
    ensures
        raised matches NativeError::Internal { operation: o, detail: d } && o == operation
            && d@ == detail@,
{
    NativeError::Internal { operation, detail: String::from_str(detail) }
}

/// Creates a validation failure with the given detail.
pub fn validation_error(detail: &str) -> (raised: NativeError)
    ensures
        raised matches NativeError::Validation { detail: d } && d@ == detail@,
{
    NativeError::Validation { detail: String::from_str(detail) }
}

/// True when `raised` is a solver failure for `operation` with `code` and exactly `detail`.
pub open spec fn is_property_error(
    raised: NativeError,
    operation: &'static str,
    code: ErrorCode,
    detail: Seq<char>,
) -> bool {
    match raised {
        NativeError::Native { operation: o, error: e } => {
            &&& o == operation
            &&& e.code == code
            &&& e.detail is Some
            &&& e.detail->0@ == detail
        },
        _ => false,
    }
}

/// Creates a rejected-property failure for `operation` with the given detail.
pub fn property_error(operation: &'static str, detail: &str) -> (raised: NativeError)
    ensures
        is_property_error(raised, operation, ErrorCode::ApiPropertyValue, detail@),
{
    native_error(operation, SwmmError::with_str(ErrorCode::ApiPropertyValue, detail))
}

/// Creates a rejected-property failure whose detail is `prefix` followed by `name` and `suffix`.
pub fn property_error_named(
    operation: &'static str,
    prefix: &str,
    name: &str,
    suffix: &str,
) -> (raised: NativeError)
    ensures
        is_property_error(
            raised,
            operation,
            ErrorCode::ApiPropertyValue,
            prefix@ + name@ + suffix@,
        ),
{
    let detail = String::from_str(prefix).concat(name).concat(suffix);
    native_error(operation, SwmmError::with_detail(ErrorCode::ApiPropertyValue, detail))
}

/// Creates one validation error for schedule or option transport.
pub fn policy_py_error(operation: &'static str, detail: String) -> (raised: NativeError)
    ensures
        raised == (NativeError::Native {
            operation,
            error: SwmmError { code: ErrorCode::ApiPropertyValue, detail: Some(detail) },
        }),
{
    native_error(operation, SwmmError::with_detail(ErrorCode::ApiPropertyValue, detail))
}

} // verus!
