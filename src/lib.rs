//! Spawning asynchronous tasks onto the active runtime, with a handle for
//! each task's eventual result.

pub mod task;
