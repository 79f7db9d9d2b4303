//! Results of a multi-state capture run.

use vstd::prelude::*;

verus! {

/// One captured state of a run.
#[derive(Debug, Clone)]
pub struct StateCapture {
    /// Step number; step 0 is the initial state.
    pub step: usize,
    /// The input that led here; `None` for the initial state.
    pub input: Option<String>,
    /// Where the screenshot was written.
    pub screenshot_path: String,
    /// A generated description, when analysis was requested.
    pub description: Option<String>,
}

/// The outcome of a complete run: `n` inputs yield `n + 1` states.
#[derive(Debug, Clone)]
pub struct RunResult {
    /// Whether the run completed.
    pub success: bool,
    /// The failure message, when it did not.
    pub error: Option<String>,
    /// Every captured state, in step order.
    pub states: Vec<StateCapture>,
}

} // verus!
