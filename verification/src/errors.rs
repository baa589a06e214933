//! The two error domains: configuration handling and request parsing.

use vstd::prelude::*;
use vstd::string::*;

verus! {

/// Why a command line or a configuration file was turned down.
#[derive(Debug, Clone, PartialEq, Eq)]
pub enum EnvironmentParseError {
    /// An option that needs a value stood last.
    NullArg(String),
    /// An argument that is no known option.
    InvalidArg(String),
    /// A content root that does not exist.
    InvalidPath(String),
    /// A content root that is not a directory.
    NotADir(String),
    /// An address that is not four dotted bytes with an optional port.
    InvalidAddr(String),
    /// A port that is no number below 65536.
    InvalidPort(String),
    /// A grace period that is no number of milliseconds.
    InvalidTimeout(String),
    /// A configuration file that could not be used; the payload says why.
    ConfigFileError(String),
    /// A value (second) that the option (first) does not take.
    InvalidOption(String, String),
    /// A key that the configuration file may not hold.
    InvalidConfigKey(String),
}

/// The mathematical content of an [`EnvironmentParseError`].
pub enum EnvironmentParseErrorView {
    NullArg(Seq<char>),
    InvalidArg(Seq<char>),
    InvalidPath(Seq<char>),
    NotADir(Seq<char>),
    InvalidAddr(Seq<char>),
    InvalidPort(Seq<char>),
    InvalidTimeout(Seq<char>),
    ConfigFileError(Seq<char>),
    InvalidOption(Seq<char>, Seq<char>),
    InvalidConfigKey(Seq<char>),
}

impl View for EnvironmentParseError {
    type V = EnvironmentParseErrorView;

    open spec fn view(&self) -> EnvironmentParseErrorView {
        match self {
            EnvironmentParseError::NullArg(x) => EnvironmentParseErrorView::NullArg(x@),
            EnvironmentParseError::InvalidArg(x) => EnvironmentParseErrorView::InvalidArg(x@),
            EnvironmentParseError::InvalidPath(x) => EnvironmentParseErrorView::InvalidPath(x@),
            EnvironmentParseError::NotADir(x) => EnvironmentParseErrorView::NotADir(x@),
            EnvironmentParseError::InvalidAddr(x) => EnvironmentParseErrorView::InvalidAddr(x@),
            EnvironmentParseError::InvalidPort(x) => EnvironmentParseErrorView::InvalidPort(x@),
            EnvironmentParseError::InvalidTimeout(x) => EnvironmentParseErrorView::InvalidTimeout(
                x@,
            ),
            EnvironmentParseError::ConfigFileError(x) => EnvironmentParseErrorView::ConfigFileError(
                x@,
            ),
            EnvironmentParseError::InvalidOption(arg, option) => {
                EnvironmentParseErrorView::InvalidOption(arg@, option@)
            },
            EnvironmentParseError::InvalidConfigKey(x) => {
                EnvironmentParseErrorView::InvalidConfigKey(x@)
            },
        }
    }
}

impl EnvironmentParseErrorView {
    /// The sentence that reports the error to the operator.
    pub open spec fn message(self) -> Seq<char> {
        match self {
            EnvironmentParseErrorView::NullArg(x) => "Option "@ + x
                + " expects an additional argument, but none was provided"@,
            EnvironmentParseErrorView::InvalidArg(x) => "Invalid argument: "@ + x,
            EnvironmentParseErrorView::InvalidPath(x) => "Invalid directory: "@ + x,
            EnvironmentParseErrorView::NotADir(x) => "Expected a directory: "@ + x,
            EnvironmentParseErrorView::InvalidAddr(x) => "Not a valid address: "@ + x,
            EnvironmentParseErrorView::InvalidPort(x) => "Not a valid port: "@ + x,
            EnvironmentParseErrorView::InvalidTimeout(x) => "Not a valid timeout: "@ + x,
            EnvironmentParseErrorView::ConfigFileError(x) => "Error processing configuration file: "@
                + x,
            EnvironmentParseErrorView::InvalidOption(arg, option) => "Invalid option `"@ + option
                + "` for "@ + arg,
            EnvironmentParseErrorView::InvalidConfigKey(key) => "Invalid key `"@ + key
                + "` in configuration file"@,
        }
    }
}

/// `prefix`, then `subject`.
fn labelled(prefix: &str, subject: &str) -> (out: String)
    ensures
        out@ == prefix@ + subject@,
{
    let mut out = prefix.to_owned();
    out.append(subject);
    out
}

/// `prefix`, then `subject`, then `suffix`.
fn framed(prefix: &str, subject: &str, suffix: &str) -> (out: String)
    ensures
        out@ == prefix@ + subject@ + suffix@,
{
    let mut out = labelled(prefix, subject);
    out.append(suffix);
    out
}

impl EnvironmentParseError {
    /// The sentence that reports the error to the operator.
    pub fn message(&self) -> (out: String)
        ensures
            out@ == self@.message(),
    {
        match self {
            EnvironmentParseError::NullArg(x) => framed(
                "Option ",
                x.as_str(),
                " expects an additional argument, but none was provided",
            ),
            EnvironmentParseError::InvalidArg(x) => labelled("Invalid argument: ", x.as_str()),
            EnvironmentParseError::InvalidPath(x) => labelled("Invalid directory: ", x.as_str()),
            EnvironmentParseError::NotADir(x) => labelled("Expected a directory: ", x.as_str()),
            EnvironmentParseError::InvalidAddr(x) => labelled("Not a valid address: ", x.as_str()),
            EnvironmentParseError::InvalidPort(x) => labelled("Not a valid port: ", x.as_str()),
            EnvironmentParseError::InvalidTimeout(x) => labelled("Not a valid timeout: ", x.as_str()),
            EnvironmentParseError::ConfigFileError(x) => labelled("Error processing configuration file: ", x.as_str()),
            EnvironmentParseError::InvalidOption(arg, option) => {
                let mut out = framed("Invalid option `", option.as_str(), "` for ");
                out.append(arg.as_str());
                out
            },
            EnvironmentParseError::InvalidConfigKey(key) => framed(
                "Invalid key `",
                key.as_str(),
                "` in configuration file",
            ),
        }
    }
}

/// Why the bytes of a connection gave no request.
#[derive(Debug, Clone, PartialEq, Eq)]
pub enum RequestParseError {
    /// The first token of the request line is none of the nine methods.
    InvalidMethodError(String),
    /// No line came before the stream ended or went blank.
    EmptyRequestError,
    /// The request line does not hold exactly three tokens.
    InvalidRequestHeader,
}

/// The mathematical content of a [`RequestParseError`].
pub enum RequestParseErrorView {
    InvalidMethodError(Seq<char>),
    EmptyRequestError,
    InvalidRequestHeader,
}

impl View for RequestParseError {
    type V = RequestParseErrorView;

    open spec fn view(&self) -> RequestParseErrorView {
        match self {
            RequestParseError::InvalidMethodError(x) => RequestParseErrorView::InvalidMethodError(
                x@,
            ),
            RequestParseError::EmptyRequestError => RequestParseErrorView::EmptyRequestError,
            RequestParseError::InvalidRequestHeader => RequestParseErrorView::InvalidRequestHeader,
        }
    }
}

impl RequestParseErrorView {
    /// The sentence that reports the error in the log.
    pub open spec fn message(self) -> Seq<char> {
        match self {
            RequestParseErrorView::InvalidMethodError(x) => "Invalid request method: "@ + x,
            RequestParseErrorView::EmptyRequestError => "Request was empty"@,
            RequestParseErrorView::InvalidRequestHeader => "Request header was not formatted correctly"@,
        }
    }
}

impl RequestParseError {
    /// The sentence that reports the error in the log.
    pub fn message(&self) -> (out: String)
        ensures
            out@ == self@.message(),
    {
        match self {
            RequestParseError::InvalidMethodError(x) => labelled(
                "Invalid request method: ",
                x.as_str(),
            ),
            RequestParseError::EmptyRequestError => "Request was empty".to_owned(),
            RequestParseError::InvalidRequestHeader => {
                "Request header was not formatted correctly".to_owned()
            },
        }
    }
}

} // verus!
