//! An approximate nearest-neighbor index over fixed-dimension points.
//!
//! The search itself is done by an engine behind the [`Indexable`]
//! capability. This crate is the layer around it: it validates and flattens
//! point batches, keeps the storage that the engine addresses alive and in
//! place, clamps query sizes to what the engine can fill, and turns the raw
//! result buffers into [`Neighbor`] values.

use vstd::prelude::*;

pub mod enums;
pub mod index;
pub mod indexable;
pub mod parameters;
pub mod points;
pub mod slice_index;
pub mod vec_index;

pub use enums::{Algorithm, CentersInit, Checks, DistanceType, LogLevel};
pub use index::Index;
pub use indexable::Indexable;
pub use parameters::{Parameters, RawParameters};
pub use slice_index::SliceIndex;
pub use vec_index::VecIndex;

verus! {

/// Why an index operation was refused.
#[derive(Copy, Clone, Debug, PartialEq, Eq, Structural)]
pub enum FlannError {
    /// A point has `got` components where the index holds points of
    /// `expected` components.
    InvalidPointDimensionality { expected: usize, got: usize },
    /// A flat buffer of `got` components cannot be cut into points of
    /// `expected` components.
    InvalidFlatPointsLen { expected: usize, got: usize },
    /// The engine could not build an index over the points.
    FailedToBuildIndex,
    /// No point was given to build the index from.
    ZeroInputPoints,
    /// The engine found no neighbor.
    NoOutput,
}

/// One search result: the position of a stored point and its distance from
/// the query, in the distance type of the engine.
#[derive(Copy, Clone, Debug)]
pub struct Neighbor<D> {
    pub index: usize,
    pub distance_squared: D,
}

} // verus!
