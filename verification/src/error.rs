//! The failures that the daemon tells apart, and their texts.

use crate::text::{decimal, push_decimal};
use vstd::prelude::*;
use vstd::string::StringExecFns;

verus! {

/// What `{:?}` prints for a string: the text in double quotes, with its
/// special characters escaped.
pub uninterp spec fn debug_quoted(s: Seq<char>) -> Seq<char>;

/// `format!("{:?}", s)`: the outcome depends on `s` alone and is the text
/// that [`debug_quoted`] names.
#[verifier::external_body]
pub(crate) fn debug_string(s: &str) -> (out: String)
    ensures
        out@ == debug_quoted(s@),
{
    format!("{:?}", s)
}

/// A failure of the daemon.
#[derive(Debug)]
pub enum Error {
    /// An I/O failure, by its message.
    Io(String),
    /// A tools directory could not be listed: the directory and the cause.
    ToolsDirRead(String, String),
    /// A manifest file could not be read: the file and the cause.
    ManifestRead(String, String),
    /// A manifest's content does not fit the schema: the file and the cause.
    ManifestParse(String, String),
    /// A tool call's name has no `/` between tool and action.
    InvalidToolNameFormat(String),
    /// No tool of that name is registered.
    UnexpectToolName(String),
    /// A tool's server process could not be started: the tool and the cause.
    FailedRunTool(String, String),
    /// A tool's server answered with a status other than success.
    ToolBadStatus(u16, String),
    /// A tool's executable ended with a failure: the tool and its error output.
    ToolExecFailed(String, String),
    /// The consumer of the response stream has gone.
    ClientDisconnected,
    /// A query asked for more follow-up steps than the configured limit.
    RecursionLimit,
    /// The model's answer is not a decision of the expected shape.
    InvalidResponseFormat,
}

/// The model of an [`Error`]: its texts as sequences of characters.
pub enum ErrorModel {
    Io(Seq<char>),
    ToolsDirRead(Seq<char>, Seq<char>),
    ManifestRead(Seq<char>, Seq<char>),
    ManifestParse(Seq<char>, Seq<char>),
    InvalidToolNameFormat(Seq<char>),
    UnexpectToolName(Seq<char>),
    FailedRunTool(Seq<char>, Seq<char>),
    ToolBadStatus(u16, Seq<char>),
    ToolExecFailed(Seq<char>, Seq<char>),
    ClientDisconnected,
    RecursionLimit,
    InvalidResponseFormat,
}

impl View for Error {
    type V = ErrorModel;

    open spec fn view(&self) -> ErrorModel {
        match self {
            Error::Io(m) => ErrorModel::Io(m@),
            Error::ToolsDirRead(p, m) => ErrorModel::ToolsDirRead(p@, m@),
            Error::ManifestRead(p, m) => ErrorModel::ManifestRead(p@, m@),
            Error::ManifestParse(p, m) => ErrorModel::ManifestParse(p@, m@),
            Error::InvalidToolNameFormat(t) => ErrorModel::InvalidToolNameFormat(t@),
            Error::UnexpectToolName(t) => ErrorModel::UnexpectToolName(t@),
            Error::FailedRunTool(t, m) => ErrorModel::FailedRunTool(t@, m@),
            Error::ToolBadStatus(s, m) => ErrorModel::ToolBadStatus(*s, m@),
            Error::ToolExecFailed(t, m) => ErrorModel::ToolExecFailed(t@, m@),
            Error::ClientDisconnected => ErrorModel::ClientDisconnected,
            Error::RecursionLimit => ErrorModel::RecursionLimit,
            Error::InvalidResponseFormat => ErrorModel::InvalidResponseFormat,
        }
    }
}

/// The text that a failure is reported with.
pub open spec fn error_text(e: ErrorModel) -> Seq<char> {
    match e {
        ErrorModel::Io(m) => m,
        ErrorModel::ToolsDirRead(p, m) => "Failed read tools dir "@ + debug_quoted(p) + ": "@ + m,
        ErrorModel::ManifestRead(p, m) => "Failed read manifest "@ + debug_quoted(p) + ": "@ + m,
        ErrorModel::ManifestParse(p, m) => "Failed parse manifest "@ + debug_quoted(p) + ": "@
            + m,
        ErrorModel::InvalidToolNameFormat(t) => "Invalid tool call name '"@ + t
            + "', expected format: '{name}/{action}'."@,
        ErrorModel::UnexpectToolName(t) => "Tool named as '"@ + t + "' is not found."@,
        ErrorModel::FailedRunTool(t, _) => "Failed to start tool server: "@ + t,
        ErrorModel::ToolBadStatus(s, m) => "Tool handled with status '"@ + decimal(s as nat)
            + "': "@ + m,
        ErrorModel::ToolExecFailed(t, m) => "Tool exec '"@ + t + "' failed: "@ + m,
        ErrorModel::ClientDisconnected => "Client disconnected, aborting tool chain"@,
        ErrorModel::RecursionLimit => "Recursion limit exceeded"@,
        ErrorModel::InvalidResponseFormat => "Invalid model response format"@,
    }
}

/// `head`, then the quoted `path`, then `": "` and `cause`.
fn path_message(head: &str, path: &str, cause: &str) -> (out: String)
    ensures
        out@ == head@ + debug_quoted(path@) + ": "@ + cause@,
{
    let mut out = String::from_str(head);
    let quoted = debug_string(path);
    out.append(quoted.as_str());
    out.append(": ");
    out.append(cause);
    out
}

impl Error {
    /// The text that this failure is reported with.
    pub fn message(&self) -> (out: String)
        ensures
            out@ == error_text(self@),
    {
        match self {
            Error::Io(m) => m.clone(),
            Error::ToolsDirRead(p, m) => path_message(
                "Failed read tools dir ",
                p.as_str(),
                m.as_str(),
            ),
            Error::ManifestRead(p, m) => path_message(
                "Failed read manifest ",
                p.as_str(),
                m.as_str(),
            ),
            Error::ManifestParse(p, m) => path_message(
                "Failed parse manifest ",
                p.as_str(),
                m.as_str(),
            ),
            Error::InvalidToolNameFormat(t) => {
                let mut out = String::from_str("Invalid tool call name '");
                out.append(t.as_str());
                out.append("', expected format: '{name}/{action}'.");
                out
            },
            Error::UnexpectToolName(t) => {
                let mut out = String::from_str("Tool named as '");
                out.append(t.as_str());
                out.append("' is not found.");
                out
            },
            Error::FailedRunTool(t, _) => {
                let mut out = String::from_str("Failed to start tool server: ");
                out.append(t.as_str());
                out
            },
            Error::ToolBadStatus(s, m) => {
                let mut out = String::from_str("Tool handled with status '");
                push_decimal(&mut out, *s as u64);
                out.append("': ");
                out.append(m.as_str());
                out
            },
            Error::ToolExecFailed(t, m) => {
                let mut out = String::from_str("Tool exec '");
                out.append(t.as_str());
                out.append("' failed: ");
                out.append(m.as_str());
                out
            },
            Error::ClientDisconnected => String::from_str(
                "Client disconnected, aborting tool chain",
            ),
            Error::RecursionLimit => String::from_str("Recursion limit exceeded"),
            Error::InvalidResponseFormat => String::from_str("Invalid model response format"),
        }
    }
}

} // verus!
