//! Pluggable data extraction: a uniform contract for pulling data out of
//! external sources, a REST adapter for that contract, and an execution record
//! that tracks one operation's lifecycle.

pub mod error;
pub mod extract;
pub mod log_store;
pub mod rest_extractor;
pub mod text;

pub use error::ExtractorError;
pub use error::ExtractorResult;
pub use extract::Checkpoint;
pub use extract::ExtractFormat;
pub use extract::Extractor;
pub use log_store::create_table_sql;
pub use log_store::LogStatus;
pub use log_store::LogStore;
pub use log_store::Ratio;
pub use rest_extractor::decode_failure;
pub use rest_extractor::RestExtractor;
