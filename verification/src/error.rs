//! What can go wrong while a request is handled.

use vstd::prelude::*;
use vstd::string::StringExecFns;
use crate::sandbox;

verus! {

/// A failure to handle a request.
///
/// Each rejected field of a request has a variant of its own, which
/// carries the text that was rejected.
#[derive(Debug, Clone, PartialEq, Eq)]
pub enum Error {
    /// The sandbox failed.
    Sandbox(sandbox::Error),
    /// The response could not be encoded; carries the encoder's message.
    Serialization(String),
    /// The request body could not be decoded; carries the decoder's message.
    Deserialization(String),
    InvalidTarget(String),
    InvalidAssemblyFlavor(String),
    InvalidDemangleAssembly(String),
    InvalidProcessAssembly(String),
    InvalidChannel(String),
    InvalidMode(String),
    InvalidEdition(String),
    InvalidCrateType(String),
    /// The request had no body.
    RequestMissing,
    /// A cache slot is unusable.
    CachePoisoned,
}

/// An [`Error`] with its texts as sequences of characters.
pub enum ErrorView {
    Sandbox(Seq<char>),
    Serialization(Seq<char>),
    Deserialization(Seq<char>),
    InvalidTarget(Seq<char>),
    InvalidAssemblyFlavor(Seq<char>),
    InvalidDemangleAssembly(Seq<char>),
    InvalidProcessAssembly(Seq<char>),
    InvalidChannel(Seq<char>),
    InvalidMode(Seq<char>),
    InvalidEdition(Seq<char>),
    InvalidCrateType(Seq<char>),
    RequestMissing,
    CachePoisoned,
}

impl View for Error {
    type V = ErrorView;

    open spec fn view(&self) -> ErrorView {
        match *self {
            Error::Sandbox(error) => ErrorView::Sandbox(error.message@),
            Error::Serialization(message) => ErrorView::Serialization(message@),
            Error::Deserialization(message) => ErrorView::Deserialization(message@),
            Error::InvalidTarget(value) => ErrorView::InvalidTarget(value@),
            Error::InvalidAssemblyFlavor(value) => ErrorView::InvalidAssemblyFlavor(value@),
            Error::InvalidDemangleAssembly(value) => ErrorView::InvalidDemangleAssembly(value@),
            Error::InvalidProcessAssembly(value) => ErrorView::InvalidProcessAssembly(value@),
            Error::InvalidChannel(value) => ErrorView::InvalidChannel(value@),
            Error::InvalidMode(value) => ErrorView::InvalidMode(value@),
            Error::InvalidEdition(value) => ErrorView::InvalidEdition(value@),
            Error::InvalidCrateType(value) => ErrorView::InvalidCrateType(value@),
            Error::RequestMissing => ErrorView::RequestMissing,
            Error::CachePoisoned => ErrorView::CachePoisoned,
        }
    }
}

/// A text as Rust's `Debug` formatting renders it: in double quotes, with
/// the characters that need it escaped.
pub uninterp spec fn debug_text(value: Seq<char>) -> Seq<char>;

/// Formats a text with `{:?}`.
///
/// Trusted: `Debug` for `str` writes the text quoted and escaped and looks
/// at nothing but the text, so the contract gives the result its name.
#[verifier::external_body]
fn debug_format(value: &str) -> (text: String)
    ensures
        text@ == debug_text(value@),
{
    format!("{:?}", value)
}

/// The message that says that `value` is not a valid `what`.
pub open spec fn not_valid(value: Seq<char>, what: Seq<char>) -> Seq<char> {
    "The value "@ + debug_text(value) + " is not a valid "@ + what
}

impl ErrorView {
    /// The error in words, for the client.
    pub open spec fn message(self) -> Seq<char> {
        match self {
            ErrorView::Sandbox(message) => "Sandbox operation failed: "@ + message,
            ErrorView::Serialization(message) => "Unable to serialize response: "@ + message,
            ErrorView::Deserialization(message) => "Unable to deserialize request: "@ + message,
            ErrorView::InvalidTarget(value) => not_valid(value, "target"@),
            ErrorView::InvalidAssemblyFlavor(value) => not_valid(value, "assembly flavor"@),
            ErrorView::InvalidDemangleAssembly(value) => not_valid(value, "demangle option"@),
            ErrorView::InvalidProcessAssembly(value) => not_valid(
                value,
                "assembly processing option"@,
            ),
            ErrorView::InvalidChannel(value) => not_valid(value, "channel"@),
            ErrorView::InvalidMode(value) => not_valid(value, "mode"@),
            ErrorView::InvalidEdition(value) => not_valid(value, "edition"@),
            ErrorView::InvalidCrateType(value) => not_valid(value, "crate type"@),
            ErrorView::RequestMissing => "No request was provided"@,
            ErrorView::CachePoisoned => "The cache has been poisoned"@,
        }
    }
}

/// Says that `value` is not a valid `what`.
fn describe_invalid(value: &str, what: &str) -> (message: String)
    ensures
        message@ == not_valid(value@, what@),
{
    String::from_str("The value ").concat(debug_format(value).as_str()).concat(
        " is not a valid ",
    ).concat(what)
}

impl Error {
    /// The error in words, for the client.
    pub fn to_string(&self) -> (message: String)
        ensures
            message@ == self@.message(),
    {
        match self {
            Error::Sandbox(error) => String::from_str("Sandbox operation failed: ").concat(
                error.message.as_str(),
            ),
            Error::Serialization(message) => String::from_str(
                "Unable to serialize response: ",
            ).concat(message.as_str()),
            Error::Deserialization(message) => String::from_str(
                "Unable to deserialize request: ",
            ).concat(message.as_str()),
            Error::InvalidTarget(value) => describe_invalid(value.as_str(), "target"),
            Error::InvalidAssemblyFlavor(value) => describe_invalid(
                value.as_str(),
                "assembly flavor",
            ),
            Error::InvalidDemangleAssembly(value) => describe_invalid(
                value.as_str(),
                "demangle option",
            ),
            Error::InvalidProcessAssembly(value) => describe_invalid(
                value.as_str(),
                "assembly processing option",
            ),
            Error::InvalidChannel(value) => describe_invalid(value.as_str(), "channel"),
            Error::InvalidMode(value) => describe_invalid(value.as_str(), "mode"),
            Error::InvalidEdition(value) => describe_invalid(value.as_str(), "edition"),
            Error::InvalidCrateType(value) => describe_invalid(value.as_str(), "crate type"),
            Error::RequestMissing => String::from_str("No request was provided"),
            Error::CachePoisoned => String::from_str("The cache has been poisoned"),
        }
    }
}


} // verus!
