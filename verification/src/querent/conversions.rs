//! How the errors of the crates below the bridge become errors of the
//! bridge: each is an internal error whose message is the error's own text.

use crate::querent::errors::{QuerentError, QuerentErrorCauseType};
use vstd::prelude::*;
use vstd::std_specs::convert::FromSpecImpl;
use vstd::string::to_string_from_display_ensures;

verus! {

/// `std::io::Error`, carried as an opaque value.
#[verifier::external_type_specification]
#[verifier::external_body]
pub struct ExIoError(std::io::Error);

/// `std::time::SystemTimeError`, carried as an opaque value.
#[verifier::external_type_specification]
#[verifier::external_body]
pub struct ExSystemTimeError(std::time::SystemTimeError);

/// `std::string::FromUtf8Error`, carried as an opaque value.
#[verifier::external_type_specification]
#[verifier::external_body]
pub struct ExFromUtf8Error(std::string::FromUtf8Error);

/// `std::num::ParseIntError`, carried as an opaque value.
#[verifier::external_type_specification]
#[verifier::external_body]
pub struct ExParseIntError(std::num::ParseIntError);

/// `std::num::ParseFloatError`, carried as an opaque value.
#[verifier::external_type_specification]
#[verifier::external_body]
pub struct ExParseFloatError(std::num::ParseFloatError);

/// `tokio::time::error::Elapsed`, carried as an opaque value.
#[verifier::external_type_specification]
#[verifier::external_body]
pub struct ExElapsed(tokio::time::error::Elapsed);

/// `tokio::sync::broadcast::error::RecvError`, carried as an opaque value.
#[verifier::external_type_specification]
#[verifier::external_body]
pub struct ExBroadcastRecvError(tokio::sync::broadcast::error::RecvError);

/// `tokio::sync::oneshot::error::RecvError`, carried as an opaque value.
#[verifier::external_type_specification]
#[verifier::external_body]
pub struct ExOneshotRecvError(tokio::sync::oneshot::error::RecvError);

/// `tokio::sync::watch::error::RecvError`, carried as an opaque value.
#[verifier::external_type_specification]
#[verifier::external_body]
pub struct ExWatchRecvError(tokio::sync::watch::error::RecvError);

/// `tokio::sync::AcquireError`, carried as an opaque value.
#[verifier::external_type_specification]
#[verifier::external_body]
pub struct ExAcquireError(tokio::sync::AcquireError);

/// `log::SetLoggerError`, carried as an opaque value.
#[verifier::external_type_specification]
#[verifier::external_body]
pub struct ExSetLoggerError(log::SetLoggerError);

/// `serde_json::Error`, carried as an opaque value.
#[verifier::external_type_specification]
#[verifier::external_body]
pub struct ExSerdeJsonError(serde_json::Error);

/// `base64::DecodeError`, carried as an opaque value.
#[verifier::external_type_specification]
#[verifier::external_body]
pub struct ExDecodeError(base64::DecodeError);

/// `tokio::sync::mpsc::error::SendError`, carried as an opaque value.
#[verifier::external_type_specification]
#[verifier::external_body]
#[verifier::reject_recursive_types(T)]
pub struct ExMpscSendError<T>(tokio::sync::mpsc::error::SendError<T>);

/// `tokio::sync::watch::error::SendError`, carried as an opaque value.
#[verifier::external_type_specification]
#[verifier::external_body]
#[verifier::reject_recursive_types(T)]
pub struct ExWatchSendError<T>(tokio::sync::watch::error::SendError<T>);

impl From<std::io::Error> for QuerentError {
    /// The internal error that reports an I/O error.
    fn from(v: std::io::Error) -> (e: Self)
        ensures
            to_string_from_display_ensures::<std::io::Error>(&v, e.message),
            e.cause == QuerentErrorCauseType::Internal(None),
            e.backtrace is Some,
    {
        QuerentError::internal(v.to_string())
    }
}

impl FromSpecImpl<std::io::Error> for QuerentError {
    open spec fn obeys_from_spec() -> bool {
        false
    }

    open spec fn from_spec(v: std::io::Error) -> Self {
        arbitrary()
    }
}

impl From<std::time::SystemTimeError> for QuerentError {
    /// The internal error that reports a clock that went backwards.
    fn from(v: std::time::SystemTimeError) -> (e: Self)
        ensures
            to_string_from_display_ensures::<std::time::SystemTimeError>(&v, e.message),
            e.cause == QuerentErrorCauseType::Internal(None),
            e.backtrace is Some,
    {
        QuerentError::internal(v.to_string())
    }
}

impl FromSpecImpl<std::time::SystemTimeError> for QuerentError {
    open spec fn obeys_from_spec() -> bool {
        false
    }

    open spec fn from_spec(v: std::time::SystemTimeError) -> Self {
        arbitrary()
    }
}

impl From<std::string::FromUtf8Error> for QuerentError {
    /// The internal error that reports bytes that are not UTF-8.
    fn from(v: std::string::FromUtf8Error) -> (e: Self)
        ensures
            to_string_from_display_ensures::<std::string::FromUtf8Error>(&v, e.message),
            e.cause == QuerentErrorCauseType::Internal(None),
            e.backtrace is Some,
    {
        QuerentError::internal(v.to_string())
    }
}

impl FromSpecImpl<std::string::FromUtf8Error> for QuerentError {
    open spec fn obeys_from_spec() -> bool {
        false
    }

    open spec fn from_spec(v: std::string::FromUtf8Error) -> Self {
        arbitrary()
    }
}

impl From<std::num::ParseIntError> for QuerentError {
    /// The internal error that reports text that is no integer.
    fn from(v: std::num::ParseIntError) -> (e: Self)
        ensures
            to_string_from_display_ensures::<std::num::ParseIntError>(&v, e.message),
            e.cause == QuerentErrorCauseType::Internal(None),
            e.backtrace is Some,
    {
        QuerentError::internal(v.to_string())
    }
}

impl FromSpecImpl<std::num::ParseIntError> for QuerentError {
    open spec fn obeys_from_spec() -> bool {
        false
    }

    open spec fn from_spec(v: std::num::ParseIntError) -> Self {
        arbitrary()
    }
}

impl From<std::num::ParseFloatError> for QuerentError {
    /// The internal error that reports text that is no number.
    fn from(v: std::num::ParseFloatError) -> (e: Self)
        ensures
            to_string_from_display_ensures::<std::num::ParseFloatError>(&v, e.message),
            e.cause == QuerentErrorCauseType::Internal(None),
            e.backtrace is Some,
    {
        QuerentError::internal(v.to_string())
    }
}

impl FromSpecImpl<std::num::ParseFloatError> for QuerentError {
    open spec fn obeys_from_spec() -> bool {
        false
    }

    open spec fn from_spec(v: std::num::ParseFloatError) -> Self {
        arbitrary()
    }
}

impl From<tokio::time::error::Elapsed> for QuerentError {
    /// The internal error that reports a deadline that passed.
    fn from(v: tokio::time::error::Elapsed) -> (e: Self)
        ensures
            to_string_from_display_ensures::<tokio::time::error::Elapsed>(&v, e.message),
            e.cause == QuerentErrorCauseType::Internal(None),
            e.backtrace is Some,
    {
        QuerentError::internal(v.to_string())
    }
}

impl FromSpecImpl<tokio::time::error::Elapsed> for QuerentError {
    open spec fn obeys_from_spec() -> bool {
        false
    }

    open spec fn from_spec(v: tokio::time::error::Elapsed) -> Self {
        arbitrary()
    }
}

impl From<tokio::sync::broadcast::error::RecvError> for QuerentError {
    /// The internal error that reports a broadcast that was closed or lagged.
    fn from(v: tokio::sync::broadcast::error::RecvError) -> (e: Self)
        ensures
            to_string_from_display_ensures::<tokio::sync::broadcast::error::RecvError>(&v, e.message),
            e.cause == QuerentErrorCauseType::Internal(None),
            e.backtrace is Some,
    {
        QuerentError::internal(v.to_string())
    }
}

impl FromSpecImpl<tokio::sync::broadcast::error::RecvError> for QuerentError {
    open spec fn obeys_from_spec() -> bool {
        false
    }

    open spec fn from_spec(v: tokio::sync::broadcast::error::RecvError) -> Self {
        arbitrary()
    }
}

impl From<tokio::sync::oneshot::error::RecvError> for QuerentError {
    /// The internal error that reports a reply whose sender was dropped.
    fn from(v: tokio::sync::oneshot::error::RecvError) -> (e: Self)
        ensures
            to_string_from_display_ensures::<tokio::sync::oneshot::error::RecvError>(&v, e.message),
            e.cause == QuerentErrorCauseType::Internal(None),
            e.backtrace is Some,
    {
        QuerentError::internal(v.to_string())
    }
}

impl FromSpecImpl<tokio::sync::oneshot::error::RecvError> for QuerentError {
    open spec fn obeys_from_spec() -> bool {
        false
    }

    open spec fn from_spec(v: tokio::sync::oneshot::error::RecvError) -> Self {
        arbitrary()
    }
}

impl From<tokio::sync::watch::error::RecvError> for QuerentError {
    /// The internal error that reports a watch whose sender was dropped.
    fn from(v: tokio::sync::watch::error::RecvError) -> (e: Self)
        ensures
            to_string_from_display_ensures::<tokio::sync::watch::error::RecvError>(&v, e.message),
            e.cause == QuerentErrorCauseType::Internal(None),
            e.backtrace is Some,
    {
        QuerentError::internal(v.to_string())
    }
}

impl FromSpecImpl<tokio::sync::watch::error::RecvError> for QuerentError {
    open spec fn obeys_from_spec() -> bool {
        false
    }

    open spec fn from_spec(v: tokio::sync::watch::error::RecvError) -> Self {
        arbitrary()
    }
}

impl From<tokio::sync::AcquireError> for QuerentError {
    /// The internal error that reports a semaphore that was closed.
    fn from(v: tokio::sync::AcquireError) -> (e: Self)
        ensures
            to_string_from_display_ensures::<tokio::sync::AcquireError>(&v, e.message),
            e.cause == QuerentErrorCauseType::Internal(None),
            e.backtrace is Some,
    {
        QuerentError::internal(v.to_string())
    }
}

impl FromSpecImpl<tokio::sync::AcquireError> for QuerentError {
    open spec fn obeys_from_spec() -> bool {
        false
    }

    open spec fn from_spec(v: tokio::sync::AcquireError) -> Self {
        arbitrary()
    }
}

impl From<log::SetLoggerError> for QuerentError {
    /// The internal error that reports a logger that was set twice.
    fn from(v: log::SetLoggerError) -> (e: Self)
        ensures
            to_string_from_display_ensures::<log::SetLoggerError>(&v, e.message),
            e.cause == QuerentErrorCauseType::Internal(None),
            e.backtrace is Some,
    {
        QuerentError::internal(v.to_string())
    }
}

impl FromSpecImpl<log::SetLoggerError> for QuerentError {
    open spec fn obeys_from_spec() -> bool {
        false
    }

    open spec fn from_spec(v: log::SetLoggerError) -> Self {
        arbitrary()
    }
}

impl From<serde_json::Error> for QuerentError {
    /// The internal error that reports JSON that could not be read or written.
    fn from(v: serde_json::Error) -> (e: Self)
        ensures
            to_string_from_display_ensures::<serde_json::Error>(&v, e.message),
            e.cause == QuerentErrorCauseType::Internal(None),
            e.backtrace is Some,
    {
        QuerentError::internal(v.to_string())
    }
}

impl FromSpecImpl<serde_json::Error> for QuerentError {
    open spec fn obeys_from_spec() -> bool {
        false
    }

    open spec fn from_spec(v: serde_json::Error) -> Self {
        arbitrary()
    }
}

impl From<base64::DecodeError> for QuerentError {
    /// The internal error that reports text that is not base64.
    fn from(v: base64::DecodeError) -> (e: Self)
        ensures
            to_string_from_display_ensures::<base64::DecodeError>(&v, e.message),
            e.cause == QuerentErrorCauseType::Internal(None),
            e.backtrace is Some,
    {
        QuerentError::internal(v.to_string())
    }
}

impl FromSpecImpl<base64::DecodeError> for QuerentError {
    open spec fn obeys_from_spec() -> bool {
        false
    }

    open spec fn from_spec(v: base64::DecodeError) -> Self {
        arbitrary()
    }
}

impl<T> From<tokio::sync::mpsc::error::SendError<T>> for QuerentError {
    /// The internal error that reports a queue whose receiver was dropped.
    fn from(v: tokio::sync::mpsc::error::SendError<T>) -> (e: Self)
        ensures
            to_string_from_display_ensures::<tokio::sync::mpsc::error::SendError<T>>(&v, e.message),
            e.cause == QuerentErrorCauseType::Internal(None),
            e.backtrace is Some,
    {
        QuerentError::internal(v.to_string())
    }
}

impl<T> FromSpecImpl<tokio::sync::mpsc::error::SendError<T>> for QuerentError {
    open spec fn obeys_from_spec() -> bool {
        false
    }

    open spec fn from_spec(v: tokio::sync::mpsc::error::SendError<T>) -> Self {
        arbitrary()
    }
}

impl<T> From<tokio::sync::watch::error::SendError<T>> for QuerentError {
    /// The internal error that reports a watch without receivers.
    fn from(v: tokio::sync::watch::error::SendError<T>) -> (e: Self)
        ensures
            to_string_from_display_ensures::<tokio::sync::watch::error::SendError<T>>(&v, e.message),
            e.cause == QuerentErrorCauseType::Internal(None),
            e.backtrace is Some,
    {
        QuerentError::internal(v.to_string())
    }
}

impl<T> FromSpecImpl<tokio::sync::watch::error::SendError<T>> for QuerentError {
    open spec fn obeys_from_spec() -> bool {
        false
    }

    open spec fn from_spec(v: tokio::sync::watch::error::SendError<T>) -> Self {
        arbitrary()
    }
}

} // verus!
