//! Error taxonomy of the library.
//!
//! Build- and parse-time problems are reported through
//! [`TeehistorianParseError`]; a rejected value during wire encoding is
//! reported through the single uniform [`EncodeError`] kind. End of input is
//! a control signal, not a true error, and is distinguished from the others
//! at the host boundary by [`TeehistorianParseError::to_host_error`].

use vstd::prelude::*;

verus! {

/// Error enum for all possible errors in the library.
#[derive(Debug, PartialEq)]
pub enum TeehistorianParseError {
    /// Initialization errors.
    Initialization(String),
    /// Header parsing errors.
    Header(String),
    /// General parsing errors.
    Parse(String),
    /// Validation errors.
    Validation(String),
    /// Handler-related errors.
    Handler(String),
    /// IO errors.
    Io(String),
    /// UTF-8 decoding errors.
    Utf8(String),
    /// End of file reached (not really an error).
    Eof,
}

/// An error of the host runtime's exception model: either the signal that
/// iteration has ended, or a genuine error carrying a message.
#[derive(Debug, PartialEq)]
pub enum HostError {
    /// Iteration over a chunk stream has ended; carries the message text.
    StopIteration(String),
    /// Any genuine error; carries the message text.
    Error(String),
}

impl TeehistorianParseError {
    /// The message text of this error, as a character sequence.
    pub open spec fn spec_message(&self) -> Seq<char> {
        match self {
            TeehistorianParseError::Initialization(d) => "Initialization failed: "@ + d@,
            TeehistorianParseError::Header(d) => "Header parsing failed: "@ + d@,
            TeehistorianParseError::Parse(d) => "Parse error: "@ + d@,
            TeehistorianParseError::Validation(d) => "Validation failed: "@ + d@,
            TeehistorianParseError::Handler(d) => "Handler error: "@ + d@,
            TeehistorianParseError::Io(d) => "IO error: "@ + d@,
            TeehistorianParseError::Utf8(d) => "UTF-8 decode error: "@ + d@,
            TeehistorianParseError::Eof => "End of file reached"@,
        }
    }

    /// Renders the error as its message text.
    pub fn message(&self) -> (r: String)
        ensures
            r@ == self.spec_message(),
    {
        match self {
            TeehistorianParseError::Initialization(d) => {
                let mut s = "Initialization failed: ".to_owned();
                s.append(d.as_str());
                s
            },
            TeehistorianParseError::Header(d) => {
                let mut s = "Header parsing failed: ".to_owned();
                s.append(d.as_str());
                s
            },
            TeehistorianParseError::Parse(d) => {
                let mut s = "Parse error: ".to_owned();
                s.append(d.as_str());
                s
            },
            TeehistorianParseError::Validation(d) => {
                let mut s = "Validation failed: ".to_owned();
                s.append(d.as_str());
                s
            },
            TeehistorianParseError::Handler(d) => {
                let mut s = "Handler error: ".to_owned();
                s.append(d.as_str());
                s
            },
            TeehistorianParseError::Io(d) => {
                let mut s = "IO error: ".to_owned();
                s.append(d.as_str());
                s
            },
            TeehistorianParseError::Utf8(d) => {
                let mut s = "UTF-8 decode error: ".to_owned();
                s.append(d.as_str());
                s
            },
            TeehistorianParseError::Eof => "End of file reached".to_owned(),
        }
    }

    /// True exactly for the end-of-input control signal.
    pub fn is_eof(&self) -> (r: bool)
        ensures
            r == (self is Eof),
    {
        match self {
            TeehistorianParseError::Eof => true,
            _ => false,
        }
    }

    /// Maps the error onto the host runtime's exception model: end of input
    /// becomes the end-of-iteration signal, every other variant a genuine
    /// error, both carrying this error's message text.
    pub fn to_host_error(&self) -> (r: HostError)
        ensures
            self is Eof ==> (r matches HostError::StopIteration(m) && m@ == self.spec_message()),
            !(self is Eof) ==> (r matches HostError::Error(m) && m@ == self.spec_message()),
    {
        let message = self.message();
        if self.is_eof() {
            HostError::StopIteration(message)
        } else {
            HostError::Error(message)
        }
    }
}

/// The uniform error kind for a value the wire codec rejected; wraps the
/// underlying cause.
#[derive(Debug, PartialEq)]
pub struct EncodeError {
    /// Text describing the underlying cause.
    pub cause: String,
}

impl EncodeError {
    /// The message text of this error, as a character sequence.
    pub open spec fn spec_message(&self) -> Seq<char> {
        "Failed to serialize chunk: "@ + self.cause@
    }

    /// Renders the error as its message text.
    pub fn message(&self) -> (r: String)
        ensures
            r@ == self.spec_message(),
    {
        let mut s = "Failed to serialize chunk: ".to_owned();
        s.append(self.cause.as_str());
        s
    }
}

} // verus!
