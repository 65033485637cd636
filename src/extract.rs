//! The extraction contract and the small value types it shares.

use vstd::prelude::*;
use vstd::string::*;

use crate::error::ExtractorError;
use crate::error::ExtractorResult;

verus! {

/// An opaque resume position for incremental extraction.
#[derive(Debug, Clone)]
pub struct Checkpoint(pub String);

/// The shape in which data is extracted.
#[derive(Debug, Clone, Copy, PartialEq, Eq, Structural)]
pub enum ExtractFormat {
    /// Structured (JSON) records.
    Json,
    /// UTF-8 text.
    Text,
    /// Raw bytes.
    Bytes,
}

/// The message of the error that an adapter without incremental support
/// returns when it is handed a checkpoint.
pub open spec fn incremental_unsupported_message() -> Seq<char> {
    "Source does not support incremental"@
}

/// The capabilities that every data source exposes without suspending.
///
/// The operations that reach the source itself (probing it, fetching data in
/// each format, reading its metadata) suspend, and are offered next to this
/// contract by the code that performs the network or file access.
/// Incremental extraction is optional: an adapter that keeps the defaults
/// reports no support for it, holds no checkpoint, and refuses one.
pub trait Extractor: Sized {
    /// Releases what the adapter holds.
    fn close() -> (r: ExtractorResult<()>);

    /// A best-effort description of the source's shape; `None` when unknown.
    fn schema() -> (r: Option<String>)
        default_ensures
            r is None,
    {
        None
    }

    /// A human-readable identifier of the source.
    fn source_name(&self) -> (r: ExtractorResult<&str>);

    /// Whether the adapter resumes from checkpoints.
    fn supports_incremental(&self) -> (r: bool)
        default_ensures
            !r,
    {
        false
    }

    /// The position from which the next incremental extraction resumes.
    fn checkpoint(&self) -> (r: Option<Checkpoint>)
        default_ensures
            r is None,
    {
        None
    }

    /// Sets the position from which the next incremental extraction resumes.
    /// Without an override of both this and `supports_incremental`, it fails.
    fn set_checkpoint(&mut self, chk: Checkpoint) -> (r: ExtractorResult<()>)
        default_ensures
            r is Err,
            r->Err_0.is_ops_error_with(incremental_unsupported_message()),
            *final(self) == *old(self),
    {
        Err(ExtractorError::ExtractOpsError(
            String::from_str("Source does not support incremental"),
        ))
    }
}

} // verus!
