//! The one error type shared by bindings and the handle.
use vstd::prelude::*;
use vstd::std_specs::convert::FromSpecImpl;

verus! {

/// `std::io::Error`, carried through as an opaque cause.
#[verifier::external_type_specification]
#[verifier::external_body]
pub struct ExIoError(std::io::Error);

/// What went wrong while building a binding or running a command on it.
#[derive(Debug)]
pub enum Error {
    /// A failure described in words, such as a native engine's own report.
    Msg(String),
    /// A failure that began as an I/O error.
    Io(std::io::Error),
}

impl Error {
    /// An error that carries `text` as its description.
    pub fn msg(text: &str) -> (e: Error)
        ensures
            e matches Error::Msg(m) && m@ == text@,
    {
        Error::Msg(String::from_str(text))
    }

    /// Whether the error began as an I/O error.
    pub fn is_io(&self) -> (r: bool)
        ensures
            r == (self is Io),
    {
        match self {
            Error::Io(_) => true,
            Error::Msg(_) => false,
        }
    }
}

impl From<std::io::Error> for Error {
    fn from(cause: std::io::Error) -> (e: Error) {
        Error::Io(cause)
    }
}

impl FromSpecImpl<std::io::Error> for Error {
    open spec fn obeys_from_spec() -> bool {
        true
    }

    open spec fn from_spec(cause: std::io::Error) -> Error {
        Error::Io(cause)
    }
}

impl From<String> for Error {
    fn from(text: String) -> (e: Error) {
        Error::Msg(text)
    }
}

impl FromSpecImpl<String> for Error {
    open spec fn obeys_from_spec() -> bool {
        true
    }

    open spec fn from_spec(text: String) -> Error {
        Error::Msg(text)
    }
}

} // verus!
