//! A batch image-optimization library: classifies files by extension,
//! losslessly re-encodes PNG payloads, derives content-addressed output
//! names from a digest of the optimized bytes, and plans collision-safe
//! placement of each result, isolating per-item failures.

pub mod batch;
pub mod codec;
pub mod config;
pub mod digest;
pub mod kind;
pub mod outcome;
pub mod place;
pub mod util;
