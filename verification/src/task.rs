//! The load-generator task's data carriers: the request to start it, its
//! resolved configuration, and the status report. Running the workers is
//! the surrounding process's work.

use vstd::prelude::*;

verus! {

/// A request to start the task; omitted fields fall back to defaults.
#[derive(Clone, Debug)]
pub struct StartTaskPayload {
    pub threads: Option<usize>,
    pub pause_ms: Option<u64>,
    pub duration_seconds: Option<u64>,
}

/// The resolved task configuration.
#[derive(Clone, Debug)]
pub struct TaskConfig {
    pub threads: usize,
    pub pause_ms: u64,
    pub duration_seconds: Option<u64>,
}

/// A status report of the running task.
#[derive(Clone, Debug)]
pub struct TaskStatusDto {
    pub running: bool,
    pub threads: usize,
    pub pause_ms: u64,
    pub duration_seconds: Option<u64>,
    pub active_workers: usize,
    pub elapsed_seconds: u64,
}

} // verus!
