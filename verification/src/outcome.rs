//! Per-item outcomes and their error taxonomy. Every failure is caught at
//! the item boundary and recorded against the item's source path; it never
//! aborts the processing of sibling items.

use vstd::prelude::*;

verus! {

/// Why one item failed. Every variant is per-item and non-fatal to the
/// batch.
#[derive(Debug, Clone, PartialEq, Eq)]
pub enum ItemError {
    /// The PNG or JPEG optimizer rejected or failed to process the input.
    Codec(String),
    /// The destination path already existed at placement time: a
    /// byte-identical optimized payload with the same extension was
    /// already placed, and the duplicate write was rejected.
    Collision,
    /// A filesystem operation (source read, destination write, or rename)
    /// failed.
    Io(String),
}

/// What the filesystem reported when a planned placement was attempted.
#[derive(Debug, Clone, PartialEq, Eq)]
pub enum PlaceStatus {
    /// The payload was written, or the source renamed, to the destination.
    Placed,
    /// The destination already existed; nothing was written or renamed.
    DestinationExists,
    /// The write or rename failed for filesystem reasons.
    PlaceFailed(String),
}

/// How one item ended.
#[derive(Debug, Clone, PartialEq, Eq)]
pub enum ItemResult {
    Success,
    Failure(ItemError),
}

/// The recorded end of one item: its source path and how it fared.
#[derive(Debug, Clone, PartialEq, Eq)]
pub struct Outcome {
    pub source_path: Vec<u8>,
    pub result: ItemResult,
}

/// Everything the outside world reported about one item: either the
/// placement attempt's status, or the error that stopped the item before
/// placement.
#[derive(Debug, PartialEq, Eq)]
pub struct ItemRecord {
    pub source_path: Vec<u8>,
    pub staged: Result<PlaceStatus, ItemError>,
}

/// The outcome an item record maps to: a completed placement is a success,
/// an existing destination is a collision, a failed write or rename is an
/// I/O failure, and an error from an earlier stage is kept as it is.
pub open spec fn spec_outcome_of(r: ItemRecord) -> Outcome {
    match r.staged {
        Ok(PlaceStatus::Placed) => Outcome {
            source_path: r.source_path,
            result: ItemResult::Success,
        },
        Ok(PlaceStatus::DestinationExists) => Outcome {
            source_path: r.source_path,
            result: ItemResult::Failure(ItemError::Collision),
        },
        Ok(PlaceStatus::PlaceFailed(m)) => Outcome {
            source_path: r.source_path,
            result: ItemResult::Failure(ItemError::Io(m)),
        },
        Err(e) => Outcome { source_path: r.source_path, result: ItemResult::Failure(e) },
    }
}

/// Convert one item's record into its outcome.
pub fn outcome_of(rec: ItemRecord) -> (o: Outcome)
    ensures
        o == spec_outcome_of(rec),
{
    match rec.staged {
        Ok(PlaceStatus::Placed) => Outcome {
            source_path: rec.source_path,
            result: ItemResult::Success,
        },
        Ok(PlaceStatus::DestinationExists) => Outcome {
            source_path: rec.source_path,
            result: ItemResult::Failure(ItemError::Collision),
        },
        Ok(PlaceStatus::PlaceFailed(m)) => Outcome {
            source_path: rec.source_path,
            result: ItemResult::Failure(ItemError::Io(m)),
        },
        Err(e) => Outcome { source_path: rec.source_path, result: ItemResult::Failure(e) },
    }
}

} // verus!
