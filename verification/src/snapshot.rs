//! Snapshot configuration and the error kinds at the capture boundary.

use vstd::prelude::*;

verus! {

/// Configuration for snapshot capture: where images go and which side
/// files are written beside them.
#[derive(Clone, Debug)]
pub struct SnapshotConfig {
    /// Directory where snapshots are saved.
    pub output_dir: String,
    /// Whether to write a metadata description file.
    pub include_metadata: bool,
    /// Whether to write a manifest file.
    pub include_manifest: bool,
    /// Whether mock captures are allowed when no real display exists.
    pub allow_mock_captures: bool,
}

impl Default for SnapshotConfig {
    /// The default configuration: `./snapshots`, metadata and manifest on,
    /// mock captures off.
    fn default() -> (c: SnapshotConfig)
        ensures
            c.output_dir@ == "./snapshots"@,
            c.include_metadata,
            c.include_manifest,
            !c.allow_mock_captures,
    {
        SnapshotConfig {
            output_dir: "./snapshots".to_owned(),
            include_metadata: true,
            include_manifest: true,
            allow_mock_captures: false,
        }
    }
}

/// Errors of snapshot operations: a capture failure, an I/O failure, or a
/// serialization failure, each carrying its cause as text.
#[derive(Clone, Debug)]
pub enum SnapshotError {
    Capture(String),
    Io(String),
    Serialization(String),
}

impl SnapshotError {
    /// The error's cause as text.
    pub fn message(&self) -> (m: &String)
        ensures
            m@ == match self {
                SnapshotError::Capture(s) => s@,
                SnapshotError::Io(s) => s@,
                SnapshotError::Serialization(s) => s@,
            },
    {
        match self {
            SnapshotError::Capture(s) => s,
            SnapshotError::Io(s) => s,
            SnapshotError::Serialization(s) => s,
        }
    }
}

/// Result type for snapshot operations.
pub type SnapshotResult<T> = Result<T, SnapshotError>;

} // verus!
