//! The errors of the application.

use vstd::prelude::*;

verus! {

/// An error of the application.
#[derive(Debug)]
pub enum CloseShareError {
    Network(std::io::Error),
    Protocol(String),
    Config(String),
    Security(String),
    Transfer(String),
    PeerNotFound(String),
    GroupCodeMismatch,
    FileNotFound(String),
}

/// The text of an I/O error (its `Display`). The text comes from the
/// standard library and the operating system and is not stated.
#[verifier::external_body]
fn io_error_text(e: &std::io::Error) -> (t: String) {
    e.to_string()
}

/// The message of an error whose text is fully known: a prefix naming the
/// kind of error, then the error's own text.
pub open spec fn error_message(e: CloseShareError) -> Option<Seq<char>> {
    match e {
        CloseShareError::Network(_) => None,
        CloseShareError::Protocol(s) => Some("Protocol error: "@ + s@),
        CloseShareError::Config(s) => Some("Configuration error: "@ + s@),
        CloseShareError::Security(s) => Some("Security error: "@ + s@),
        CloseShareError::Transfer(s) => Some("Transfer error: "@ + s@),
        CloseShareError::PeerNotFound(s) => Some("Peer not found: "@ + s@),
        CloseShareError::GroupCodeMismatch => Some("Group code mismatch"@),
        CloseShareError::FileNotFound(s) => Some("File not found: "@ + s@),
    }
}

/// The concatenation of a literal prefix and a text.
fn prefixed(prefix: &str, text: &str) -> (s: String)
    ensures
        s@ == prefix@ + text@,
{
    let mut s = String::from_str(prefix);
    s.append(text);
    s
}

impl CloseShareError {
    /// The message that describes the error. A network error is described
    /// as `Network error: ` followed by the I/O error's text.
    pub fn message(&self) -> (m: String)
        ensures
            error_message(*self) matches Some(t) ==> m@ == t,
            self is Network ==> exists|t: Seq<char>| m@ == "Network error: "@ + t,
    {
        match self {
            CloseShareError::Network(e) => {
                let t = io_error_text(e);
                prefixed("Network error: ", t.as_str())
            },
            CloseShareError::Protocol(s) => prefixed("Protocol error: ", s.as_str()),
            CloseShareError::Config(s) => prefixed("Configuration error: ", s.as_str()),
            CloseShareError::Security(s) => prefixed("Security error: ", s.as_str()),
            CloseShareError::Transfer(s) => prefixed("Transfer error: ", s.as_str()),
            CloseShareError::PeerNotFound(s) => prefixed("Peer not found: ", s.as_str()),
            CloseShareError::GroupCodeMismatch => String::from_str("Group code mismatch"),
            CloseShareError::FileNotFound(s) => prefixed("File not found: ", s.as_str()),
        }
    }
}

impl From<std::io::Error> for CloseShareError {
    fn from(e: std::io::Error) -> (r: Self) {
        CloseShareError::Network(e)
    }
}

impl vstd::std_specs::convert::FromSpecImpl<std::io::Error> for CloseShareError {
    open spec fn obeys_from_spec() -> bool {
        true
    }

    open spec fn from_spec(e: std::io::Error) -> Self {
        CloseShareError::Network(e)
    }
}

} // verus!
