//! What can go wrong while one identifier is processed.

use vstd::prelude::*;

verus! {

/// An identifier that is not of the form `publisher.name`.
#[derive(Debug, Clone, Copy, PartialEq, Eq, Structural)]
pub struct InvalidIdentifier;

/// Why a metadata query gave no version map.
#[derive(Debug, Clone, Copy, PartialEq, Eq, Structural)]
pub enum QueryError {
    /// The request did not reach the marketplace, or no answer came back.
    Transport,
    /// No answer came within the time allowed.
    Timeout,
    /// The marketplace answered with a status outside 200..=299.
    Http(u16),
    /// The answer does not hold the list of versions where it is expected.
    Malformed,
}

/// Why an artifact was not fetched and saved.
#[derive(Debug, Clone, Copy, PartialEq, Eq, Structural)]
pub enum FetchError {
    /// The request did not reach the marketplace, or no answer came back.
    Transport,
    /// No answer came within the time allowed.
    Timeout,
    /// The marketplace answered with a status outside 200..=299.
    Http(u16),
    /// The body was announced as gzip and could not be decompressed.
    Decode,
    /// The artifact could not be written to disk.
    Io,
}

/// Why nothing was saved for an identifier.
#[derive(Debug, Clone, Copy, PartialEq, Eq, Structural)]
pub enum Failure {
    /// The identifier is not of the form `publisher.name`.
    InvalidIdentifier,
    /// The metadata query gave no version map.
    Query(QueryError),
    /// Two versions had to be compared, and one of them is not of the form
    /// `major.minor.patch`.
    InvalidVersion,
    /// A platform was asked for that the extension is not published for, and
    /// there is no platform-agnostic release to take in its place.
    UnsupportedPlatform,
    /// Neither a build for this machine nor a platform-agnostic release is
    /// published.
    NoResolvableTarget,
    /// The artifact was not fetched and saved.
    Fetch(FetchError),
    /// An event came that the pipeline was not waiting for.
    UnexpectedEvent,
}

/// Why a directory could not be created.
#[derive(Debug)]
pub struct DirectoryError {
    /// What the file system said.
    pub reason: String,
}

} // verus!
