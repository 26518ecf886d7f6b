//! Batch thumbnail pipeline: selection of candidate files by extension,
//! derivation of output paths, per-candidate conversion/resize dispatch,
//! and partial-failure accounting.
//!
//! The surrounding binary performs the file and codec I/O; everything that
//! decides (which files are selected, where outputs go, which step runs
//! next, how a run is tallied) lives here, with contracts.

pub mod format;
pub mod images;
pub mod job;
pub mod paths;
pub mod pipeline;
pub mod plan;
pub mod report;
pub mod select;
