//! The errors that the client reports.

use vstd::prelude::*;

verus! {

/// Error conditions that can be returned.
#[derive(Clone, Debug, PartialEq, Eq)]
pub enum SmugMugError {
    /// A local I/O failure, with its description.
    Io(String),
    /// The request could not be sent or its body not read, with a description.
    Request(String),
    /// The HTTP status of the response was an error (4xx or 5xx).
    HttpStatus(u16),
    /// Signing was attempted without a complete set of credentials.
    Auth(String),
    /// A payload could not be decoded, with a description.
    Deserialization(String),
    /// A URL could not be parsed or joined.
    UrlParsing,
    /// The node is not an album.
    NotAnAlbum,
    /// No client is attached to the value.
    ClientNotFound,
    /// The image has no archive: its file name and image key.
    ImageArchiveNotFound(String, String),
    /// A success code came with no payload.
    ResponseMissing,
    /// The envelope reported a known failure code, with its message.
    ApiResponse(u32, String),
    /// The envelope reported a code outside the known set.
    ApiResponseCode(u32),
    /// HTTP 429 with a retry hint, in seconds.
    ApiResponseTooManyRequests(u64),
    /// The body is not a well-formed envelope, with a description.
    ApiResponseMalformed(String),
    /// A request body could not be serialised, with a description.
    JsonSerialization(String),
}

} // verus!
