//! The errors of the proxy.
use vstd::prelude::*;

verus! {

/// Why a server could not be made, or why a connection was given up.
#[derive(Debug, PartialEq, Eq)]
pub enum Error {
    ConnectionServer(String),
    ConnectionProcessor(&'static str),
}

impl Error {
    /// The server could not be made, for the reason given by `text`.
    pub open spec fn is_server_error(self, text: Seq<char>) -> bool {
        self matches Error::ConnectionServer(actual) && actual@ == text
    }

    /// The connection was given up, for the reason given by `text`.
    pub open spec fn is_processor_error(self, text: Seq<char>) -> bool {
        self matches Error::ConnectionProcessor(actual) && actual@ == text
    }
}

} // verus!
