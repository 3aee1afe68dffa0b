//! Crash-safe, concurrent-safe materialization of a remotely fetched resource
//! into a local file path.
//!
//! A download is streamed into a temporary sibling file (the destination path
//! with `.part` appended), protected against concurrent stomping by an
//! advisory lock where the platform offers one, published to its final name by
//! a single atomic rename on success, and cleaned up on any failure.

pub mod download;
pub mod guard;
pub mod shared_error;
pub mod temp_path;
pub mod trace;

pub use download::Downloader;
pub use guard::DropRemovePath;
pub use shared_error::ArcAnyhowError;
pub use temp_path::temp_path_for;
