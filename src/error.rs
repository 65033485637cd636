//! The error type that every extraction operation returns, and the outside
//! types that the library carries without looking inside them: the errors of
//! the HTTP client, the JSON codec, standard I/O, SQLite and object stores,
//! and JSON values.

use vstd::prelude::*;

verus! {

#[verifier::external_type_specification]
#[verifier::external_body]
pub struct ExReqwestError(reqwest::Error);

#[verifier::external_type_specification]
#[verifier::external_body]
pub struct ExJsonError(serde_json::Error);

#[verifier::external_type_specification]
#[verifier::external_body]
pub struct ExJsonValue(serde_json::Value);

#[verifier::external_type_specification]
#[verifier::external_body]
pub struct ExIoError(std::io::Error);

#[verifier::external_type_specification]
#[verifier::external_body]
pub struct ExSqliteError(rusqlite::Error);

#[verifier::external_type_specification]
#[verifier::external_body]
pub struct ExObjectStoreError(object_store::Error);

/// Everything that can go wrong while extracting data.
#[derive(Debug)]
pub enum ExtractorError {
    /// An HTTP request could not be sent or its response could not be read.
    HttpRequestError(reqwest::Error),
    /// The request template could not be copied for execution.
    RequestCloneFailed,
    /// A value could not be serialized or deserialized.
    SerializationError(serde_json::Error),
    /// A policy violation of the extraction contract: an unsupported
    /// operation, an empty response body.
    ExtractOpsError(String),
    /// A response body that does not decode into the requested structure;
    /// the message carries the decoder's description and the body's first
    /// characters.
    DecodeError(String),
    /// A standard I/O failure.
    StandardError(std::io::Error),
    /// A failure of the SQLite store.
    SqliteError(rusqlite::Error),
    /// A failure of an object store.
    ObjectStoreError(object_store::Error),
}

/// The result type of extraction operations.
pub type ExtractorResult<T> = Result<T, ExtractorError>;

impl ExtractorError {
    /// Whether this is an operation-semantics error carrying exactly `msg`.
    pub open spec fn is_ops_error_with(&self, msg: Seq<char>) -> bool {
        &&& self is ExtractOpsError
        &&& self->ExtractOpsError_0@ == msg
    }

    /// Whether this is a decode error carrying exactly `msg`.
    pub open spec fn is_decode_error_with(&self, msg: Seq<char>) -> bool {
        &&& self is DecodeError
        &&& self->DecodeError_0@ == msg
    }
}

impl From<std::io::Error> for ExtractorError {
    fn from(e: std::io::Error) -> (r: ExtractorError)
        ensures
            r == ExtractorError::StandardError(e),
    {
        ExtractorError::StandardError(e)
    }
}

impl vstd::std_specs::convert::FromSpecImpl<std::io::Error> for ExtractorError {
    open spec fn obeys_from_spec() -> bool {
        true
    }

    open spec fn from_spec(e: std::io::Error) -> ExtractorError {
        ExtractorError::StandardError(e)
    }
}

impl From<reqwest::Error> for ExtractorError {
    fn from(e: reqwest::Error) -> (r: ExtractorError)
        ensures
            r == ExtractorError::HttpRequestError(e),
    {
        ExtractorError::HttpRequestError(e)
    }
}

impl vstd::std_specs::convert::FromSpecImpl<reqwest::Error> for ExtractorError {
    open spec fn obeys_from_spec() -> bool {
        true
    }

    open spec fn from_spec(e: reqwest::Error) -> ExtractorError {
        ExtractorError::HttpRequestError(e)
    }
}

impl From<serde_json::Error> for ExtractorError {
    fn from(e: serde_json::Error) -> (r: ExtractorError)
        ensures
            r == ExtractorError::SerializationError(e),
    {
        ExtractorError::SerializationError(e)
    }
}

impl vstd::std_specs::convert::FromSpecImpl<serde_json::Error> for ExtractorError {
    open spec fn obeys_from_spec() -> bool {
        true
    }

    open spec fn from_spec(e: serde_json::Error) -> ExtractorError {
        ExtractorError::SerializationError(e)
    }
}

impl From<rusqlite::Error> for ExtractorError {
    fn from(e: rusqlite::Error) -> (r: ExtractorError)
        ensures
            r == ExtractorError::SqliteError(e),
    {
        ExtractorError::SqliteError(e)
    }
}

impl vstd::std_specs::convert::FromSpecImpl<rusqlite::Error> for ExtractorError {
    open spec fn obeys_from_spec() -> bool {
        true
    }

    open spec fn from_spec(e: rusqlite::Error) -> ExtractorError {
        ExtractorError::SqliteError(e)
    }
}

impl From<object_store::Error> for ExtractorError {
    fn from(e: object_store::Error) -> (r: ExtractorError)
        ensures
            r == ExtractorError::ObjectStoreError(e),
    {
        ExtractorError::ObjectStoreError(e)
    }
}

impl vstd::std_specs::convert::FromSpecImpl<object_store::Error> for ExtractorError {
    open spec fn obeys_from_spec() -> bool {
        true
    }

    open spec fn from_spec(e: object_store::Error) -> ExtractorError {
        ExtractorError::ObjectStoreError(e)
    }
}

} // verus!
