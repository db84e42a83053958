use std::backtrace::Backtrace;
use std::collections::HashMap;
use vstd::prelude::*;
use vstd::string::StringExecFns;

verus! {

/// `std::backtrace::Backtrace`, carried as an opaque value.
#[verifier::external_type_specification]
#[verifier::external_body]
pub struct ExBacktrace(Backtrace);

/// `std::backtrace::Backtrace::capture`. The frames depend on the call site
/// and on the environment, so nothing is claimed of the value.
#[verifier::external_body]
fn capture_backtrace() -> (bt: Backtrace) {
    Backtrace::capture()
}

/// Who is to blame for an error, with optional key/value details.
#[derive(Debug, Clone)]
pub enum QuerentErrorCauseType {
    /// The caller supplied bad input.
    User(Option<HashMap<String, String>>),
    /// The bridge or the embedded runtime malfunctioned.
    Internal(Option<HashMap<String, String>>),
}

/// The error every fallible operation of the bridge reports to its caller.
#[derive(Debug)]
pub struct QuerentError {
    pub message: String,
    pub cause: QuerentErrorCauseType,
    pub backtrace: Option<Backtrace>,
}

/// Text put in front of the reason carried by a panic.
pub open spec fn panic_with_reason_prefix() -> Seq<char> {
    "Unexpected panic. Reason: "@
}

/// Message of a panic that carried no textual reason.
pub open spec fn panic_without_reason_text() -> Seq<char> {
    "Unexpected panic without reason"@
}

/// The message `QuerentError::panic` builds from the reason, if any.
pub open spec fn panic_message(reason: Option<Seq<char>>) -> Seq<char> {
    match reason {
        Some(r) => panic_with_reason_prefix() + r,
        None => panic_without_reason_text(),
    }
}

impl QuerentError {
    /// Whether the error blames the caller.
    pub open spec fn is_user(&self) -> bool {
        self.cause is User
    }

    /// Whether the error blames the bridge.
    pub open spec fn is_internal(&self) -> bool {
        self.cause is Internal
    }

    /// What `to_display_string` renders: the cause class, a colon and the
    /// message.
    pub open spec fn display(&self) -> Seq<char> {
        if self.cause is User {
            "User: "@ + self.message@
        } else {
            "Internal: "@ + self.message@
        }
    }

    /// A user error with the given message and a backtrace captured here.
    pub fn user(message: String) -> (e: Self)
        ensures
            e.message == message,
            e.cause == QuerentErrorCauseType::User(None),
            e.backtrace is Some,
    {
        Self {
            message,
            cause: QuerentErrorCauseType::User(None),
            backtrace: Some(capture_backtrace()),
        }
    }

    /// An internal error with the given message and a backtrace captured
    /// here.
    pub fn internal(message: String) -> (e: Self)
        ensures
            e.message == message,
            e.cause == QuerentErrorCauseType::Internal(None),
            e.backtrace is Some,
    {
        Self {
            message,
            cause: QuerentErrorCauseType::Internal(None),
            backtrace: Some(capture_backtrace()),
        }
    }

    /// An internal error that carries the backtrace handed in, or none.
    pub fn internal_with_bt(message: String, backtrace: Option<Backtrace>) -> (e: Self)
        ensures
            e.message == message,
            e.cause == QuerentErrorCauseType::Internal(None),
            e.backtrace == backtrace,
    {
        Self { message, cause: QuerentErrorCauseType::Internal(None), backtrace }
    }

    /// The internal error that reports a panic of a host task. `reason` is
    /// the text the panic carried, if it carried text.
    pub fn panic(reason: Option<String>) -> (e: Self)
        ensures
            e.message@ == panic_message(
                match reason {
                    Some(r) => Some(r@),
                    None => None,
                },
            ),
            e.cause == QuerentErrorCauseType::Internal(None),
            e.backtrace is Some,
    {
        match reason {
            Some(r) => {
                let prefix = String::from_str("Unexpected panic. Reason: ");
                QuerentError::internal(prefix.concat(r.as_str()))
            },
            None => QuerentError::internal(String::from_str("Unexpected panic without reason")),
        }
    }

    /// The captured backtrace, if any.
    pub fn backtrace(&self) -> (bt: Option<&Backtrace>)
        ensures
            bt is Some == self.backtrace is Some,
            bt matches Some(b) ==> self.backtrace == Some(*b),
    {
        self.backtrace.as_ref()
    }

    /// Gives up the error and keeps its backtrace.
    pub fn to_backtrace(self) -> (bt: Option<Backtrace>)
        ensures
            bt == self.backtrace,
    {
        self.backtrace
    }

    /// The text shown to users: `User: <message>` or `Internal: <message>`.
    pub fn to_display_string(&self) -> (text: String)
        ensures
            text@ == self.display(),
    {
        match self.cause {
            QuerentErrorCauseType::User(_) => String::from_str("User: ").concat(
                self.message.as_str(),
            ),
            QuerentErrorCauseType::Internal(_) => String::from_str("Internal: ").concat(
                self.message.as_str(),
            ),
        }
    }
}

/// What went wrong in a call across the bridge.
#[derive(Debug, Clone, Copy, PartialEq, Eq, Structural)]
pub enum ErrorKind {
    /// A value has no counterpart on the other side.
    Conversion,
    /// The module, the attribute or the callable is missing.
    Lookup,
    /// The embedded runtime raised an exception.
    Invocation,
    /// A queue was closed or full.
    Channel,
    /// A workflow with the same id is registered already.
    DuplicateId,
    /// The embedded runtime or the dispatcher did not start.
    Initialization,
}

/// A failure of one call, before it is reported to the caller.
#[derive(Debug)]
pub struct CallFailure {
    pub kind: ErrorKind,
    pub message: String,
    /// The trace text of the embedded runtime, where it gave one.
    pub trace: Option<String>,
}

/// The value of a `CallFailure`.
pub struct CallFailureView {
    pub kind: ErrorKind,
    pub message: Seq<char>,
    pub trace: Option<Seq<char>>,
}

impl View for CallFailure {
    type V = CallFailureView;

    open spec fn view(&self) -> CallFailureView {
        CallFailureView {
            kind: self.kind,
            message: self.message@,
            trace: match self.trace {
                Some(t) => Some(t@),
                None => None,
            },
        }
    }
}

impl ErrorKind {
    /// Whether the caller is to blame: only a duplicate id is the caller's
    /// fault; everything else is reported as a malfunction of the bridge.
    pub open spec fn is_user(self) -> bool {
        self is DuplicateId
    }

    /// Whether the process cannot go on: only a failed start is fatal.
    pub open spec fn is_fatal(self) -> bool {
        self is Initialization
    }

    /// Whether the caller is to blame.
    pub fn blames_user(&self) -> (r: bool)
        ensures
            r == self.is_user(),
    {
        matches!(self, ErrorKind::DuplicateId)
    }

    /// Whether the process cannot go on.
    pub fn fatal(&self) -> (r: bool)
        ensures
            r == self.is_fatal(),
    {
        matches!(self, ErrorKind::Initialization)
    }
}

impl CallFailureView {
    /// The text reported to the caller: the message, and on a new line the
    /// trace where there is one.
    pub open spec fn text(self) -> Seq<char> {
        match self.trace {
            Some(t) => self.message + "\n"@ + t,
            None => self.message,
        }
    }
}

impl CallFailure {
    /// A failure without a trace.
    pub fn new(kind: ErrorKind, message: String) -> (f: Self)
        ensures
            f@ == (CallFailureView { kind, message: message@, trace: None }),
    {
        CallFailure { kind, message, trace: None }
    }

    /// The error that reports the failure to the caller: a user error for a
    /// kind that blames the caller, an internal error otherwise; the message
    /// is the failure's text.
    pub fn into_error(self) -> (e: QuerentError)
        ensures
            e.message@ == self@.text(),
            e.cause == if self.kind.is_user() {
                QuerentErrorCauseType::User(None)
            } else {
                QuerentErrorCauseType::Internal(None)
            },
            e.backtrace is Some,
    {
        let user = self.kind.blames_user();
        let message = match self.trace {
            Some(t) => self.message.concat("\n").concat(t.as_str()),
            None => self.message,
        };
        if user {
            QuerentError::user(message)
        } else {
            QuerentError::internal(message)
        }
    }
}

} // verus!
