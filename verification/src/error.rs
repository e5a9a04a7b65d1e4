//! The error surface of the protocol core.

use vstd::prelude::*;

verus! {

/// The digest algorithms a server may declare for an artifact.
#[derive(Debug, Clone, Copy, PartialEq, Eq, Structural)]
pub enum ChecksumType {
    /// MD5 digest, 16 bytes.
    Md5,
    /// SHA-1 digest, 20 bytes.
    Sha1,
    /// SHA-256 digest, 32 bytes.
    Sha256,
}

/// Errors of the protocol core.
///
/// Transport failures (network errors, non-2xx statuses) are reported by the
/// unverified glue that drives the HTTP requests; the variants here cover
/// everything this crate decides itself.
#[non_exhaustive]
#[derive(Debug, Clone, Copy, PartialEq, Eq, Structural)]
pub enum Error {
    /// A URL could not be parsed, or is not hierarchical and so cannot take
    /// an appended path segment.
    ParseUrlError,
    /// An authorization token holds characters that are illegal in an HTTP
    /// header value.
    InvalidToken,
    /// The polling interval string sent by the server does not have the
    /// `HH:MM:SS` format. Distinct from other errors so a caller can fall
    /// back to its previous interval instead of aborting.
    InvalidSleep,
    /// A downloaded artifact did not match its declared digest; carries the
    /// algorithm that failed.
    ChecksumError(ChecksumType),
}

impl Error {
    /// A short human-readable description of the error.
    pub fn message(&self) -> (r: &'static str)
        ensures
            r@.len() > 0,
    {
        proof {
            reveal_strlit("could not parse url");
            reveal_strlit("invalid token format");
            reveal_strlit("failed to parse polling sleep");
            reveal_strlit("invalid checksum");
        }
        match self {
            Error::ParseUrlError => "could not parse url",
            Error::InvalidToken => "invalid token format",
            Error::InvalidSleep => "failed to parse polling sleep",
            Error::ChecksumError(_) => "invalid checksum",
        }
    }
}

} // verus!
