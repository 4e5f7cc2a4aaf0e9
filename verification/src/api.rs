//! The types that users of the library see: addresses, call options, the
//! context a handler receives, and the library's errors.
use std::path::PathBuf;
use std::time::Duration;
use vstd::prelude::*;

verus! {

/// A filesystem path, held as std gives it; the library only carries it.
#[verifier::external_type_specification]
#[verifier::external_body]
pub struct ExPathBuf(PathBuf);

/// `PathBuf::clone` from std. Nothing is stated of the copy: a `PathBuf`
/// has no model here to state its equality over.
pub assume_specification[ <PathBuf as Clone>::clone ](path: &PathBuf) -> PathBuf;

/// Where a server listens and a client connects.
#[derive(Clone, Debug, PartialEq, Eq)]
pub enum IpcAddress {
    /// A Unix domain socket at this path.
    UnixSocket(PathBuf),
    /// A Windows named pipe, by its logical name (without the `\\.\pipe\` prefix).
    NamedPipe(String),
}

/// The prefix that turns a logical pipe name into a Windows pipe path.
pub open spec fn pipe_prefix() -> Seq<char> {
    seq!['\\', '\\', '.', '\\', 'p', 'i', 'p', 'e', '\\']
}

/// The text of a path as std displays it: `Path::display`, written out with
/// `to_string`. It depends on the path alone.
pub uninterp spec fn path_display(path: PathBuf) -> Seq<char>;

/// `Path::display` from std, written out with `to_string`. The text is a
/// function of the path (lossy where the path is not valid Unicode).
#[verifier::external_body]
fn path_display_text(path: &PathBuf) -> (text: String)
    ensures
        text@ == path_display(*path),
{
    path.display().to_string()
}

impl IpcAddress {
    /// The address as the operating system names it: the path of a Unix
    /// socket, or `\\.\pipe\<name>` for a named pipe.
    pub fn normalize(&self) -> (text: String)
        ensures
            self matches IpcAddress::NamedPipe(name) ==> text@ == pipe_prefix() + name@,
            self matches IpcAddress::UnixSocket(path) ==> text@ == path_display(*path),
    {
        match self {
            IpcAddress::UnixSocket(path) => path_display_text(path),
            IpcAddress::NamedPipe(name) => {
                let mut text = "\\\\.\\pipe\\".to_owned();
                proof {
                    reveal_strlit("\\\\.\\pipe\\");
                }
                text.append(name.as_str());
                text
            },
        }
    }
}

/// Options of one call: how long the client waits, and the trace id to send.
#[derive(Clone, Debug, PartialEq, Eq)]
pub struct CallOptions {
    pub timeout: Option<Duration>,
    pub trace_id: Option<String>,
}

impl Default for CallOptions {
    /// No timeout, and a trace id generated per call.
    fn default() -> (options: Self)
        ensures
            options.timeout is None,
            options.trace_id is None,
    {
        CallOptions { timeout: None, trace_id: None }
    }
}

/// What a handler learns about the request it serves.
#[derive(Clone, Debug, PartialEq, Eq)]
pub struct RequestContext {
    pub request_id: String,
    pub method: String,
    pub trace_id: Option<String>,
    pub deadline_ms: Option<u64>,
}

/// A failure that a handler reports; it travels back to the caller as the
/// response's error.
#[derive(Clone, Debug, PartialEq, Eq)]
pub struct ServiceError {
    pub code: String,
    pub message: String,
}

/// The library's errors, as callers see them.
#[derive(Clone, Debug, PartialEq, Eq)]
pub enum Error {
    ConnectFailed { message: String },
    PermissionDenied { message: String },
    Io { message: String },
    Timeout,
    ConnectionClosed,
    /// The exchange broke the protocol, locally detected or reported by the
    /// server as `invalid_request`.
    Protocol { code: String, message: String },
    /// The server answered with an error of another code.
    Remote { code: String, message: String },
    Decode { message: String },
    Encode { message: String },
}

/// An [`Error`] with its texts taken as character sequences.
pub enum ErrorView {
    ConnectFailed(Seq<char>),
    PermissionDenied(Seq<char>),
    Io(Seq<char>),
    Timeout,
    ConnectionClosed,
    Protocol(Seq<char>, Seq<char>),
    Remote(Seq<char>, Seq<char>),
    Decode(Seq<char>),
    Encode(Seq<char>),
}

impl View for Error {
    type V = ErrorView;

    open spec fn view(&self) -> ErrorView {
        match self {
            Error::ConnectFailed { message } => ErrorView::ConnectFailed(message@),
            Error::PermissionDenied { message } => ErrorView::PermissionDenied(message@),
            Error::Io { message } => ErrorView::Io(message@),
            Error::Timeout => ErrorView::Timeout,
            Error::ConnectionClosed => ErrorView::ConnectionClosed,
            Error::Protocol { code, message } => ErrorView::Protocol(code@, message@),
            Error::Remote { code, message } => ErrorView::Remote(code@, message@),
            Error::Decode { message } => ErrorView::Decode(message@),
            Error::Encode { message } => ErrorView::Encode(message@),
        }
    }
}

} // verus!
