//! The capability that a search engine offers to an index.

use crate::enums::Algorithm;
use crate::parameters::RawParameters;
use crate::points::rows_of;
use vstd::prelude::*;

verus! {

/// A search engine over points of one element type.
///
/// A value of the implementing type is one live engine handle; dropping it
/// destroys the engine. The engine may keep the address of every buffer of
/// points it was given, so whoever owns the handle keeps those buffers alive
/// and in place until the handle is dropped.
///
/// The spec functions describe an engine to the verifier: the points it
/// holds, its configuration, and what its searches report. The index types
/// of this crate are proved against the contracts below and nothing else.
/// An implementation that lives in unverified code cannot state the spec
/// functions and leaves them at their defaults, which say nothing; that it
/// keeps the contracts, for some meaning of the spec functions, is then
/// taken on trust. The contracts are written after the native FLANN
/// library, whose C functions `flann_build_index`, `flann_add_points`,
/// `flann_remove_point`, `flann_get_point`, `flann_size`,
/// `flann_find_nearest_neighbors_index`, `flann_radius_search` and
/// `flann_free_index` the methods and the destructor stand for.
///
/// A method whose native call reports failure, or cannot be made because a
/// count does not fit the native interface, does not return; a build that
/// meets either returns `None`.
pub trait Indexable: Sized {
    /// The type of one component of a point.
    type Element: Copy;

    /// The type in which the engine reports distances for this element type.
    type ResultType: Copy;

    /// The type in which a search radius is given to the engine.
    type Radius: Copy;

    /// The points that the engine holds and counts, in the order in which it
    /// was given them.
    open spec fn points(&self) -> Seq<Seq<Self::Element>> {
        arbitrary()
    }

    /// The number of components of every point of the engine.
    open spec fn dimension(&self) -> nat {
        arbitrary()
    }

    /// Whether the engine keeps the data set itself and no point has left
    /// it since its build. While that is so, a position addresses the point
    /// at that place in `points`; otherwise what a position addresses is the
    /// engine's own matter.
    open spec fn positional(&self) -> bool {
        arbitrary()
    }

    /// The configuration that the build of the engine was given. The engine
    /// searches by its own copy of it, which its build may have tuned.
    open spec fn built_with(&self) -> RawParameters {
        arbitrary()
    }

    /// The rebuild threshold that came with the points added last: the
    /// ratio of added to built points beyond which the engine rebuilds its
    /// structure, as single-precision bits.
    open spec fn threshold(&self) -> u32 {
        arbitrary()
    }

    /// The two raw buffers, positions and distances, that a search for the
    /// `nn` nearest neighbors of each of the flattened `queries` reports.
    open spec fn nearest(&self, queries: Seq<Self::Element>, nn: nat) -> (
        Seq<i32>,
        Seq<Self::ResultType>,
    ) {
        arbitrary()
    }

    /// The two raw buffers and the count of results that a search for at
    /// most `max_nn` neighbors of `query` within `radius` reports.
    open spec fn within(
        &self,
        query: Seq<Self::Element>,
        max_nn: nat,
        radius: Self::Radius,
    ) -> (Seq<i32>, Seq<Self::ResultType>, usize) {
        arbitrary()
    }

    /// Builds an engine over `rows` points of `cols` components each, laid
    /// out row by row in `dataset`. `None` if the engine cannot be built.
    ///
    /// Stands for `flann_build_index`, which returns a null handle on
    /// failure and otherwise an index over exactly the given rows. The
    /// composite and the autotuned index hand the rows on to other indexes
    /// and keep none themselves.
    fn build_index(
        dataset: &[Self::Element],
        rows: usize,
        cols: usize,
        parameters: &RawParameters,
    ) -> (built: Option<Self>)
        requires
            rows > 0,
            cols > 0,
            dataset@.len() == rows * cols,
        ensures
            built matches Some(engine) ==> {
                &&& engine.dimension() == cols
                &&& engine.points() == rows_of(dataset@, cols as nat)
                &&& engine.built_with() == *parameters
                &&& (Algorithm::decode(parameters.algorithm) matches Some(algorithm)
                    && algorithm.serves_positions()) ==> engine.positional()
            },
    ;

    /// Adds `rows` points of `cols` components each, laid out row by row in
    /// `points`, behind the points that the engine holds.
    ///
    /// Stands for `flann_add_points`, which extends the engine's data set by
    /// the given rows and may rebuild its structure.
    fn add_points(
        &mut self,
        points: &[Self::Element],
        rows: usize,
        cols: usize,
        rebuild_threshold: u32,
    )
        requires
            rows > 0,
            cols > 0,
            cols == old(self).dimension(),
            points@.len() == rows * cols,
        ensures
            final(self).dimension() == old(self).dimension(),
            final(self).points() == old(self).points() + rows_of(points@, cols as nat),
            final(self).positional() == old(self).positional(),
            final(self).built_with() == old(self).built_with(),
            final(self).threshold() == rebuild_threshold,
    ;

    /// Asks the engine to remove the point that `position` addresses.
    /// Either nothing leaves the engine, or one point does. While positions
    /// address the points by their place, it is the point at that place.
    ///
    /// Stands for `flann_remove_point`, which marks at most one point as
    /// removed and keeps the identifiers of the others.
    fn remove_point(&mut self, position: usize)
        ensures
            final(self).dimension() == old(self).dimension(),
            final(self).built_with() == old(self).built_with(),
            ({
                &&& final(self).points() == old(self).points()
                &&& final(self).positional() == old(self).positional()
            }) || ({
                &&& final(self).points().len() + 1 == old(self).points().len()
                &&& !final(self).positional()
            }),
            old(self).positional() && position < old(self).points().len() ==> final(self).points()
                == old(self).points().remove(position as int),
    ;

    /// Copies out the point that `position` addresses, if the engine finds
    /// one.
    ///
    /// Stands for `flann_get_point`, which returns the address of the row
    /// with that identifier, or null.
    fn get_point(&self, position: usize) -> (point: Option<Vec<Self::Element>>)
        requires
            position < self.points().len(),
        ensures
            self.positional() ==> (point matches Some(p) && p@ == self.points()[position as int]),
    ;

    /// The number of points that the engine holds.
    ///
    /// Stands for `flann_size`: the rows given, less the rows removed.
    fn size(&self) -> (n: usize)
        ensures
            n == self.points().len(),
    ;

    /// Searches the `nn` nearest neighbors of each of `trows` queries, laid
    /// out row by row in `queries`. The buffers hold `nn` slots per query,
    /// in query order; a slot without a match holds a negative position.
    ///
    /// Stands for `flann_find_nearest_neighbors_index`. What it finds is
    /// only named: the search is approximate.
    fn find_nearest_neighbors_index(
        &self,
        queries: &[Self::Element],
        trows: usize,
        nn: usize,
    ) -> (found: (Vec<i32>, Vec<Self::ResultType>))
        requires
            trows > 0,
            nn > 0,
            nn <= self.points().len(),
            queries@.len() == trows * self.dimension(),
        ensures
            found.0@ == self.nearest(queries@, nn as nat).0,
            found.1@ == self.nearest(queries@, nn as nat).1,
    ;

    /// Searches at most `max_nn` neighbors of `query` within `radius`. The
    /// third component is the count of results that the engine reports.
    ///
    /// Stands for `flann_radius_search`. What it finds is only named.
    fn radius_search(
        &self,
        query: &[Self::Element],
        max_nn: usize,
        radius: Self::Radius,
    ) -> (found: (Vec<i32>, Vec<Self::ResultType>, usize))
        requires
            max_nn > 0,
            max_nn <= self.points().len(),
            query@.len() == self.dimension(),
        ensures
            found.0@ == self.within(query@, max_nn as nat, radius).0,
            found.1@ == self.within(query@, max_nn as nat, radius).1,
            found.2 == self.within(query@, max_nn as nat, radius).2,
    ;
}

} // verus!
