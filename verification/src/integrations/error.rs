//! The closed set of failures shared by one-shot calls and subscriptions, the
//! text each one is reported with, and the conversions from the failures of
//! the collaborating libraries.

use crate::text::{decimal, push_decimal, push_signed_decimal, signed_decimal};
use vstd::prelude::*;
use vstd::std_specs::convert::FromSpecImpl;
use vstd::string::*;

verus! {

/// Errors that can occur during integration adapter operations.
#[derive(Debug)]
pub enum IntegrationError {
    /// CLI executable not found in PATH.
    CliNotFound(String),
    /// Process spawn failed.
    SpawnFailed(String),
    /// Process terminated: a non-zero exit, an unexpected end of output, or an
    /// exit detected by a health check.
    ProcessExited { code: i32, stderr: String },
    /// The crash count reached the configured ceiling.
    MaxRestartsExceeded { attempts: u8, last_error: String },
    /// Malformed structured payload in the output of a tool.
    ParseError(String),
    /// A one-shot call exceeded its deadline.
    Timeout { operation: String, duration_secs: u64 },
    /// The consumer dropped its receiver.
    ChannelClosed,
    /// Low-level read or write failure.
    IoError(String),
    /// An operation expected an active process that is absent.
    NotRunning,
    /// Internal signal meaning a graceful stop.
    ShutdownRequested,
}

/// What an [`IntegrationError`] holds, with each text as its characters.
pub ghost enum ErrorView {
    CliNotFound(Seq<char>),
    SpawnFailed(Seq<char>),
    ProcessExited { code: i32, stderr: Seq<char> },
    MaxRestartsExceeded { attempts: u8, last_error: Seq<char> },
    ParseError(Seq<char>),
    Timeout { operation: Seq<char>, duration_secs: u64 },
    ChannelClosed,
    IoError(Seq<char>),
    NotRunning,
    ShutdownRequested,
}

impl View for IntegrationError {
    type V = ErrorView;

    open spec fn view(&self) -> ErrorView {
        match self {
            IntegrationError::CliNotFound(cli) => ErrorView::CliNotFound(cli@),
            IntegrationError::SpawnFailed(msg) => ErrorView::SpawnFailed(msg@),
            IntegrationError::ProcessExited { code, stderr } => ErrorView::ProcessExited {
                code: *code,
                stderr: stderr@,
            },
            IntegrationError::MaxRestartsExceeded {
                attempts,
                last_error,
            } => ErrorView::MaxRestartsExceeded { attempts: *attempts, last_error: last_error@ },
            IntegrationError::ParseError(msg) => ErrorView::ParseError(msg@),
            IntegrationError::Timeout { operation, duration_secs } => ErrorView::Timeout {
                operation: operation@,
                duration_secs: *duration_secs,
            },
            IntegrationError::ChannelClosed => ErrorView::ChannelClosed,
            IntegrationError::IoError(msg) => ErrorView::IoError(msg@),
            IntegrationError::NotRunning => ErrorView::NotRunning,
            IntegrationError::ShutdownRequested => ErrorView::ShutdownRequested,
        }
    }
}

/// The text an error is reported with.
pub open spec fn display_text(e: ErrorView) -> Seq<char> {
    match e {
        ErrorView::CliNotFound(cli) => "CLI not found: '"@ + cli
            + "'. Is it installed and in PATH?"@,
        ErrorView::SpawnFailed(msg) => "Failed to spawn subprocess: "@ + msg,
        ErrorView::ProcessExited { code, stderr } => "Process exited with code "@ + signed_decimal(
            code as int,
        ) + ": "@ + stderr,
        ErrorView::MaxRestartsExceeded { attempts, last_error } => "Max restarts exceeded after "@
            + decimal(attempts as nat) + " attempts. Last error: "@ + last_error,
        ErrorView::ParseError(msg) => "Failed to parse CLI output: "@ + msg,
        ErrorView::Timeout { operation, duration_secs } => "Timeout after "@ + decimal(
            duration_secs as nat,
        ) + "s waiting for: "@ + operation,
        ErrorView::ChannelClosed => "Internal channel closed unexpectedly"@,
        ErrorView::IoError(msg) => "I/O error: "@ + msg,
        ErrorView::NotRunning => "Subprocess is not running"@,
        ErrorView::ShutdownRequested => "Shutdown requested"@,
    }
}

/// Result type for integration operations.
pub type IntegrationResult<T> = Result<T, IntegrationError>;

/// The view of an operation's result: its value, or the view of its error.
pub open spec fn result_view<T>(r: IntegrationResult<T>) -> Result<T, ErrorView> {
    match r {
        Ok(v) => Ok(v),
        Err(e) => Err(e@),
    }
}

impl IntegrationError {
    /// The text this error is reported with.
    pub fn to_string(&self) -> (out: String)
        ensures
            out@ == display_text(self@),
    {
        let mut out = String::new();
        match self {
            IntegrationError::CliNotFound(cli) => {
                out.append("CLI not found: '");
                out.append(cli.as_str());
                out.append("'. Is it installed and in PATH?");
            },
            IntegrationError::SpawnFailed(msg) => {
                out.append("Failed to spawn subprocess: ");
                out.append(msg.as_str());
            },
            IntegrationError::ProcessExited { code, stderr } => {
                out.append("Process exited with code ");
                push_signed_decimal(&mut out, *code);
                out.append(": ");
                out.append(stderr.as_str());
            },
            IntegrationError::MaxRestartsExceeded { attempts, last_error } => {
                out.append("Max restarts exceeded after ");
                push_decimal(&mut out, *attempts as u64);
                out.append(" attempts. Last error: ");
                out.append(last_error.as_str());
            },
            IntegrationError::ParseError(msg) => {
                out.append("Failed to parse CLI output: ");
                out.append(msg.as_str());
            },
            IntegrationError::Timeout { operation, duration_secs } => {
                out.append("Timeout after ");
                push_decimal(&mut out, *duration_secs);
                out.append("s waiting for: ");
                out.append(operation.as_str());
            },
            IntegrationError::ChannelClosed => {
                out.append("Internal channel closed unexpectedly");
            },
            IntegrationError::IoError(msg) => {
                out.append("I/O error: ");
                out.append(msg.as_str());
            },
            IntegrationError::NotRunning => {
                out.append("Subprocess is not running");
            },
            IntegrationError::ShutdownRequested => {
                out.append("Shutdown requested");
            },
        }
        assert(out@ =~= display_text(self@));
        out
    }

    /// A second error with the same kind and contents.
    pub fn duplicate(&self) -> (copy: IntegrationError)
        ensures
            copy@ == self@,
    {
        match self {
            IntegrationError::CliNotFound(s) => IntegrationError::CliNotFound(s.clone()),
            IntegrationError::SpawnFailed(s) => IntegrationError::SpawnFailed(s.clone()),
            IntegrationError::ProcessExited { code, stderr } => IntegrationError::ProcessExited {
                code: *code,
                stderr: stderr.clone(),
            },
            IntegrationError::ParseError(s) => IntegrationError::ParseError(s.clone()),
            IntegrationError::Timeout { operation, duration_secs } => IntegrationError::Timeout {
                operation: operation.clone(),
                duration_secs: *duration_secs,
            },
            IntegrationError::ChannelClosed => IntegrationError::ChannelClosed,
            IntegrationError::IoError(s) => IntegrationError::IoError(s.clone()),
            IntegrationError::NotRunning => IntegrationError::NotRunning,
            IntegrationError::ShutdownRequested => IntegrationError::ShutdownRequested,
            IntegrationError::MaxRestartsExceeded {
                attempts,
                last_error,
            } => IntegrationError::MaxRestartsExceeded {
                attempts: *attempts,
                last_error: last_error.clone(),
            },
        }
    }
}

/// The kinds of input/output failure that are told apart when one is
/// converted into an [`IntegrationError`].
#[derive(Debug, Clone, Copy, PartialEq, Eq, Structural)]
pub enum IoFailureKind {
    /// The entity asked for does not exist.
    NotFound,
    /// The operation ran out of time.
    TimedOut,
    /// Any other failure.
    Other,
}

/// The error that an input/output failure of kind `kind`, reported with
/// `text`, is converted into.
pub open spec fn io_failure_view(kind: IoFailureKind, text: Seq<char>) -> ErrorView {
    match kind {
        IoFailureKind::NotFound => ErrorView::CliNotFound(text),
        IoFailureKind::TimedOut => ErrorView::Timeout { operation: "I/O"@, duration_secs: 0 },
        IoFailureKind::Other => ErrorView::IoError(text),
    }
}

/// Converts an input/output failure, given by its kind and its text.
pub fn from_io_failure(kind: IoFailureKind, text: String) -> (e: IntegrationError)
    ensures
        e@ == io_failure_view(kind, text@),
{
    match kind {
        IoFailureKind::NotFound => IntegrationError::CliNotFound(text),
        IoFailureKind::TimedOut => IntegrationError::Timeout {
            operation: String::from_str("I/O"),
            duration_secs: 0,
        },
        IoFailureKind::Other => IntegrationError::IoError(text),
    }
}

#[verifier::external_type_specification]
#[verifier::external_body]
pub struct ExIoError(std::io::Error);

#[verifier::external_type_specification]
#[verifier::external_body]
pub struct ExJsonError(serde_json::Error);

#[verifier::external_type_specification]
#[verifier::external_body]
#[verifier::reject_recursive_types(T)]
pub struct ExSendError<T>(tokio::sync::mpsc::error::SendError<T>);

#[verifier::external_type_specification]
#[verifier::external_body]
pub struct ExRecvError(tokio::sync::oneshot::error::RecvError);

/// `std::io::Error::kind`, reduced to the three kinds that the conversion
/// tells apart. Nothing is claimed of which kind an error has.
#[verifier::external_body]
fn io_failure_kind(err: &std::io::Error) -> (kind: IoFailureKind) {
    match err.kind() {
        std::io::ErrorKind::NotFound => IoFailureKind::NotFound,
        std::io::ErrorKind::TimedOut => IoFailureKind::TimedOut,
        _ => IoFailureKind::Other,
    }
}

/// The text that `std::io::Error` displays. It may come from the operating
/// system, so nothing is claimed of it.
#[verifier::external_body]
fn io_error_text(err: &std::io::Error) -> (text: String) {
    err.to_string()
}

/// The text that `serde_json::Error` displays: the reason and, where known,
/// the line and column. Nothing is claimed of it.
#[verifier::external_body]
fn json_error_text(err: &serde_json::Error) -> (text: String) {
    err.to_string()
}

impl FromSpecImpl<std::io::Error> for IntegrationError {
    open spec fn obeys_from_spec() -> bool {
        false
    }

    open spec fn from_spec(v: std::io::Error) -> Self {
        IntegrationError::NotRunning
    }
}

impl From<std::io::Error> for IntegrationError {
    /// A missing entity becomes `CliNotFound`, an expired deadline becomes a
    /// `Timeout` of the operation "I/O", anything else an `IoError`; the first
    /// and the last carry the failure's own text.
    fn from(err: std::io::Error) -> (e: Self)
        ensures
            exists|kind: IoFailureKind, text: Seq<char>| e@ == io_failure_view(kind, text),
    {
        let kind = io_failure_kind(&err);
        let text = io_error_text(&err);
        let e = from_io_failure(kind, text);
        assert(e@ == io_failure_view(kind, text@));
        e
    }
}

impl FromSpecImpl<serde_json::Error> for IntegrationError {
    open spec fn obeys_from_spec() -> bool {
        false
    }

    open spec fn from_spec(v: serde_json::Error) -> Self {
        IntegrationError::NotRunning
    }
}

impl From<serde_json::Error> for IntegrationError {
    /// A payload that could not be parsed becomes a `ParseError` that carries
    /// the parser's own text.
    fn from(err: serde_json::Error) -> (e: Self)
        ensures
            e@ is ParseError,
    {
        IntegrationError::ParseError(json_error_text(&err))
    }
}

impl<T> FromSpecImpl<tokio::sync::mpsc::error::SendError<T>> for IntegrationError {
    open spec fn obeys_from_spec() -> bool {
        true
    }

    open spec fn from_spec(v: tokio::sync::mpsc::error::SendError<T>) -> Self {
        IntegrationError::ChannelClosed
    }
}

impl<T> From<tokio::sync::mpsc::error::SendError<T>> for IntegrationError {
    /// A send that failed means that the consumer is gone.
    fn from(err: tokio::sync::mpsc::error::SendError<T>) -> (e: Self)
        ensures
            e@ == ErrorView::ChannelClosed,
    {
        IntegrationError::ChannelClosed
    }
}

impl FromSpecImpl<tokio::sync::oneshot::error::RecvError> for IntegrationError {
    open spec fn obeys_from_spec() -> bool {
        true
    }

    open spec fn from_spec(v: tokio::sync::oneshot::error::RecvError) -> Self {
        IntegrationError::ChannelClosed
    }
}

impl From<tokio::sync::oneshot::error::RecvError> for IntegrationError {
    /// A signal whose sender is gone means that the channel is closed.
    fn from(err: tokio::sync::oneshot::error::RecvError) -> (e: Self)
        ensures
            e@ == ErrorView::ChannelClosed,
    {
        IntegrationError::ChannelClosed
    }
}

} // verus!
