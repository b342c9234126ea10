//! Core of a cluster block-volume snapshot backup/restore tool.
//!
//! The library holds the decision logic of the orchestration engine: the
//! builders of the three resource descriptors, the existence-check guard,
//! the readiness-polling state machine, and the backup and restore engines
//! that decide, step by step, which cluster operation to perform next.
//! All cluster and cloud I/O is performed outside the library by a driver
//! that executes the requested actions and hands the outcomes back as
//! events.

pub mod backup;
pub mod errors;
mod names;
pub mod restore;
pub mod retain_policy;
pub mod persistent_volume_claims;
pub mod readiness;
pub mod volume_snapshot_contents;
pub mod volume_snapshots;

pub use names::prefixed_name;
