//! A minimal container execution engine: the decisions behind launching a
//! command inside freshly created Linux namespaces.
//!
//! The library decides and its caller acts. A run is a session that says,
//! task by task, what is to be asked of the operating system; the caller
//! carries the task out and reports what came of it. What a session asks
//! for, and in which order, is stated in the contracts of this crate and
//! proved: the identity mapping is written before the container is told to
//! go on, the root is pivoted between the bind mount and the mount of
//! `/proc`, and nothing is spawned for a run without a command.

pub mod container_dir;
pub mod environment;
pub mod korobok_cli;
pub mod namespaces;
pub mod options;
pub mod paths;
pub mod run_container;
pub mod spawn;
pub mod steps;
pub mod syscall;
pub mod text;
pub mod token;

pub use run_container::run_container;
