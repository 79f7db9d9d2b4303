//! Harness configuration: the states to navigate through and the inputs
//! that reach them, and the errors of a harness run.

use vstd::prelude::*;

use crate::snapshot::SnapshotError;

verus! {

/// An input action sent to the child application.
#[derive(Debug, Clone)]
pub enum InputAction {
    /// Send a string as literal keypresses, followed by a return.
    SendString(String),
    /// Send a named special key.
    SendKey(String),
}

/// One application state to reach and optionally capture.
#[derive(Debug, Clone)]
pub struct StateConfig {
    /// Name of the state.
    pub name: String,
    /// What this state represents.
    pub description: String,
    /// Inputs that reach this state from the previous one.
    pub inputs: Vec<InputAction>,
    /// Whether to capture a snapshot here.
    pub capture_snapshot: bool,
    /// Optional textual expectation for this state.
    pub expected_description: Option<String>,
}

/// Configuration of a harness run.
#[derive(Debug)]
pub struct HarnessConfig {
    /// Path of the binary to execute.
    pub binary_path: String,
    /// Arguments passed to the binary.
    pub args: Vec<String>,
    /// Directory where snapshots are saved.
    pub output_dir: String,
    /// The states to navigate through.
    pub states: Vec<StateConfig>,
}

impl Default for HarnessConfig {
    /// The default harness: the demo binary in headless mode, snapshots
    /// under `./harness_snapshots`, no states.
    fn default() -> (c: HarnessConfig)
        ensures
            c.binary_path@ == "./target/debug/cli_demo"@,
            c.args@.len() == 1 && c.args@[0]@ == "--headless"@,
            c.output_dir@ == "./harness_snapshots"@,
            c.states@.len() == 0,
    {
        let mut args: Vec<String> = Vec::new();
        args.push("--headless".to_owned());
        HarnessConfig {
            binary_path: "./target/debug/cli_demo".to_owned(),
            args,
            output_dir: "./harness_snapshots".to_owned(),
            states: Vec::new(),
        }
    }
}

/// Errors of harness operations.
#[derive(Debug)]
pub enum HarnessError {
    /// Spawning or driving the child failed.
    Process(String),
    /// A snapshot operation failed.
    Snapshot(SnapshotError),
    /// An I/O operation failed.
    Io(String),
}

/// Result type for harness operations.
pub type HarnessResult<T> = Result<T, HarnessError>;

} // verus!
