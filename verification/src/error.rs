//! Error types for the Outlit client.

use vstd::prelude::*;

verus! {

/// Errors that can occur when using the Outlit client.
///
/// The transport-facing variants carry the failure rendered as text: the
/// network layer that performs the actual request lives outside the library
/// and maps its own error values into these before handing control back.
#[derive(Debug, Clone)]
pub enum Error {
    /// HTTP request failed.
    Http(String),
    /// API returned an error response.
    Api {
        /// HTTP status code.
        status: u16,
        /// Error message from the API.
        message: String,
    },
    /// Invalid configuration.
    Config(String),
    /// Client has been shutdown.
    Shutdown,
    /// Serialization error.
    Serialization(String),
}

impl Error {
    /// True iff this is the rejection of an operation on a client that was
    /// already shut down.
    pub fn is_shutdown(&self) -> (r: bool)
        ensures
            r == (self is Shutdown),
    {
        match self {
            Error::Shutdown => true,
            _ => false,
        }
    }
}

} // verus!
