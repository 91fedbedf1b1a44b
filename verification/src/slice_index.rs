//! An index over points that the caller keeps.

use crate::indexable::Indexable;
use crate::parameters::{Parameters, RawParameters};
use crate::points::{
    collect_neighbors, divides_into_points, first_mismatch, flatten, lemma_flat_of_rows,
    lemma_flatten_uniform, lemma_neighbors_in_all, lemma_neighbors_in_len, lemma_rows_of_flat,
    lemma_rows_of_one,
    neighbors_in, rows_of, slots_available, uniform, views,
};
use crate::{FlannError, Neighbor};
use std::marker::PhantomData;
use vstd::prelude::*;

verus! {

/// An index over points that lie in buffers of the caller.
///
/// The engine addresses the buffers it was given, so every buffer handed to
/// `new`, `add_slice` or `add_many_slices` is borrowed for as long as the
/// index lives.
pub struct SliceIndex<'a, E: Indexable> {
    engine: E,
    rebuild_threshold: u32,
    point_len: usize,
    _phantom: PhantomData<&'a ()>,
}

impl<'a, E: Indexable> SliceIndex<'a, E> {
    /// The invariant of an index: its engine holds points of the index's
    /// dimension, which is not zero.
    pub closed spec fn wf(&self) -> bool {
        &&& self.point_len > 0
        &&& self.engine.dimension() == self.point_len
    }

    /// The number of components of every point of the index.
    pub closed spec fn dimension(&self) -> usize {
        self.point_len
    }

    /// The points of the index, by the order in which they were given.
    pub closed spec fn points(&self) -> Seq<Seq<E::Element>> {
        self.engine.points()
    }

    /// Whether the engine keeps the data set itself and no point has left
    /// the index since it was built. While that is so, a position addresses
    /// the point at that place in `points`.
    pub closed spec fn positional(&self) -> bool {
        self.engine.positional()
    }

    /// The configuration that the build of the engine was given.
    pub closed spec fn raw_parameters(&self) -> RawParameters {
        self.engine.built_with()
    }

    /// The rebuild threshold that is handed to the engine with added points.
    pub closed spec fn rebuild_threshold(&self) -> u32 {
        self.rebuild_threshold
    }

    /// The rebuild threshold that the engine got with the points added
    /// last.
    pub closed spec fn threshold_given(&self) -> u32 {
        self.engine.threshold()
    }

    /// The raw buffers that the engine reports for a search of `nn`
    /// neighbors per query.
    pub closed spec fn nearest_raw(&self, queries: Seq<E::Element>, nn: nat) -> (
        Seq<i32>,
        Seq<E::ResultType>,
    ) {
        self.engine.nearest(queries, nn)
    }

    /// The raw buffers and count that the engine reports for a search of at
    /// most `max_nn` neighbors within `radius`.
    pub closed spec fn within_raw(&self, query: Seq<E::Element>, max_nn: nat, radius: E::Radius) -> (
        Seq<i32>,
        Seq<E::ResultType>,
        usize,
    ) {
        self.engine.within(query, max_nn, radius)
    }

    /// Whether this index is the one that a build over the flat buffer
    /// `flat` with `parameters` gives.
    pub open spec fn built_over(
        &self,
        point_len: usize,
        flat: Seq<E::Element>,
        parameters: Parameters,
    ) -> bool {
        &&& self.wf()
        &&& self.dimension() == point_len
        &&& self.points() == rows_of(flat, point_len as nat)
        &&& parameters.algorithm.serves_positions() ==> self.positional()
        &&& self.raw_parameters() == parameters.raw()
        &&& self.rebuild_threshold() == parameters.rebuild_threshold
    }

    /// Whether this index is `before` with the points `added` behind its
    /// own, given to the engine with the rebuild threshold of the index, and
    /// nothing else changed.
    pub open spec fn extends(&self, before: Self, added: Seq<Seq<E::Element>>) -> bool {
        &&& self.wf()
        &&& self.dimension() == before.dimension()
        &&& self.points() == before.points() + added
        &&& self.positional() == before.positional()
        &&& self.raw_parameters() == before.raw_parameters()
        &&& self.rebuild_threshold() == before.rebuild_threshold()
        &&& self.threshold_given() == before.rebuild_threshold()
    }

    /// The point that `get` finds at position `idx` while positions address
    /// the points by their place: the point at that place, and none beyond
    /// the last.
    pub open spec fn point_at(&self, idx: usize) -> Option<Seq<E::Element>>
        recommends
            self.positional(),
    {
        if idx < self.points().len() {
            Some(self.points()[idx as int])
        } else {
            None
        }
    }

    /// The number of neighbors asked of the engine when `num` are wanted:
    /// never more than the index holds.
    pub open spec fn clamped(&self, num: usize) -> nat {
        if num <= self.points().len() {
            num as nat
        } else {
            self.points().len()
        }
    }

    /// The neighbors that a search for the `num` nearest of `query` finds.
    pub open spec fn found_nearest(&self, num: usize, query: Seq<E::Element>) -> Seq<
        Neighbor<E::ResultType>,
    > {
        let k = self.clamped(num);
        if k == 0 {
            Seq::empty()
        } else {
            let raw = self.nearest_raw(query, k);
            neighbors_in(raw.0, raw.1, 0, slots_available(raw.0.len(), raw.1.len(), 0, k))
        }
    }

    /// What a search for the `num` nearest neighbors of `query` returns: the
    /// neighbors found, unless the query has another dimension than the
    /// index.
    pub open spec fn neighbors_result(&self, num: usize, query: Seq<E::Element>) -> Result<
        Seq<Neighbor<E::ResultType>>,
        FlannError,
    > {
        if query.len() != self.dimension() {
            Err(
                FlannError::InvalidPointDimensionality {
                    expected: self.dimension(),
                    got: query.len() as usize,
                },
            )
        } else {
            Ok(self.found_nearest(num, query))
        }
    }

    /// What a search for the nearest neighbor of `query` returns: the first
    /// neighbor that a search for one neighbor finds, `NoOutput` where it
    /// finds none, and its error where it fails.
    pub open spec fn nearest_result(&self, query: Seq<E::Element>) -> Result<
        Neighbor<E::ResultType>,
        FlannError,
    > {
        match self.neighbors_result(1, query) {
            Err(e) => Err(e),
            Ok(found) => if found.len() == 0 {
                Err(FlannError::NoOutput)
            } else {
                Ok(found[0])
            },
        }
    }

    /// The neighbors that a search for at most `num` points within `radius`
    /// of `query` finds.
    pub open spec fn found_within(
        &self,
        num: usize,
        radius: E::Radius,
        query: Seq<E::Element>,
    ) -> Seq<Neighbor<E::ResultType>> {
        let k = self.clamped(num);
        if k == 0 {
            Seq::empty()
        } else {
            let raw = self.within_raw(query, k, radius);
            let limit = if raw.2 <= k {
                raw.2 as nat
            } else {
                k
            };
            neighbors_in(raw.0, raw.1, 0, slots_available(raw.0.len(), raw.1.len(), 0, limit))
        }
    }

    /// The neighbors that one search for the `num` nearest of each query of
    /// the flat buffer `queries` finds: one chunk per query, in query order.
    /// There is no chunk at all where no neighbor can be asked for.
    pub open spec fn found_many(&self, num: usize, queries: Seq<E::Element>) -> Seq<
        Seq<Neighbor<E::ResultType>>,
    > {
        let k = self.clamped(num);
        if k == 0 {
            Seq::empty()
        } else {
            let raw = self.nearest_raw(queries, k);
            Seq::new(
                rows_of(queries, self.dimension() as nat).len(),
                |q: int|
                    neighbors_in(
                        raw.0,
                        raw.1,
                        q * k,
                        slots_available(raw.0.len(), raw.1.len(), (q * k) as nat, k),
                    ),
            )
        }
    }

    /// The dimension of a well-formed index is not zero.
    pub proof fn lemma_dimension(&self)
        requires
            self.wf(),
        ensures
            self.dimension() > 0,
    {
    }

    /// An index built over a flat buffer holds one point per row of the
    /// buffer, and position `i` holds row `i`.
    pub proof fn lemma_built_points(
        &self,
        point_len: usize,
        flat: Seq<E::Element>,
        parameters: Parameters,
    )
        requires
            self.built_over(point_len, flat, parameters),
            divides_into_points(flat.len(), point_len as nat),
        ensures
            self.points().len() * point_len == flat.len(),
            self.points().len() == flat.len() / (point_len as nat),
            forall|i: int|
                0 <= i < self.points().len() ==> #[trigger] self.points()[i] == flat.subrange(
                    i * point_len,
                    i * point_len + point_len,
                ),
    {
        lemma_flat_of_rows(flat, point_len as nat);
    }

    /// After a point is added the index holds one point more, and the new
    /// point is the last. While positions address the points by their
    /// place, that is what `get` returns for the last position.
    pub proof fn lemma_added_is_last(&self, before: Self, point: Seq<E::Element>)
        requires
            self.extends(before, seq![point]),
        ensures
            self.points().len() == before.points().len() + 1,
            self.points()[self.points().len() - 1] == point,
            self.points().subrange(0, before.points().len() as int) == before.points(),
            self.positional() == before.positional(),
            self.points().len() <= usize::MAX ==> self.point_at(
                (self.points().len() - 1) as usize,
            ) == Some(point),
    {
        assert(self.points().subrange(0, before.points().len() as int) =~= before.points());
    }

    /// Added points come behind the points that the index held, in their
    /// order, and leave those in place.
    pub proof fn lemma_added_batch(&self, before: Self, added: Seq<Seq<E::Element>>)
        requires
            self.extends(before, added),
        ensures
            self.points().len() == before.points().len() + added.len(),
            forall|i: int|
                0 <= i < before.points().len() ==> #[trigger] self.points()[i]
                    == before.points()[i],
            forall|i: int|
                0 <= i < added.len() ==> self.points()[before.points().len() + i]
                    == #[trigger] added[i],
    {
    }

    /// A search never finds more neighbors than were asked for, nor more
    /// than the index holds: neither for one query nor in any chunk of a
    /// batch.
    pub proof fn lemma_found_bounds(&self, num: usize, query: Seq<E::Element>)
        ensures
            self.clamped(num) <= num,
            self.clamped(num) <= self.points().len(),
            self.found_nearest(num, query).len() <= self.clamped(num),
            forall|q: int|
                0 <= q < self.found_many(num, query).len() ==> (#[trigger] self.found_many(
                    num,
                    query,
                )[q]).len() <= self.clamped(num),
    {
        let k = self.clamped(num);
        if k > 0 {
            let raw = self.nearest_raw(query, k);
            lemma_neighbors_in_len(
                raw.0,
                raw.1,
                0,
                slots_available(raw.0.len(), raw.1.len(), 0, k),
            );
            assert forall|q: int| 0 <= q < self.found_many(num, query).len() implies (
            #[trigger] self.found_many(num, query)[q]).len() <= k by {
                lemma_neighbors_in_len(
                    raw.0,
                    raw.1,
                    q * k,
                    slots_available(raw.0.len(), raw.1.len(), (q * k) as nat, k),
                );
            }
        }
    }

    /// A radius search never finds more neighbors than were asked for, than
    /// the index holds, or than the engine counts.
    pub proof fn lemma_found_within_bounds(
        &self,
        num: usize,
        radius: E::Radius,
        query: Seq<E::Element>,
    )
        ensures
            self.found_within(num, radius, query).len() <= self.clamped(num),
            self.found_within(num, radius, query).len() <= num,
            self.clamped(num) > 0 ==> self.found_within(num, radius, query).len()
                <= self.within_raw(query, self.clamped(num), radius).2,
    {
        let k = self.clamped(num);
        if k > 0 {
            let within = self.within_raw(query, k, radius);
            let limit = if within.2 <= k {
                within.2 as nat
            } else {
                k
            };
            lemma_neighbors_in_len(
                within.0,
                within.1,
                0,
                slots_available(within.0.len(), within.1.len(), 0, limit),
            );
        }
    }

    /// The nearest neighbor of a query is the first and only neighbor that
    /// a search for one neighbor of that query finds; where that search
    /// fails or finds nothing, there is no nearest neighbor either.
    pub proof fn lemma_nearest_is_first_of_one(&self, query: Seq<E::Element>)
        ensures
            self.nearest_result(query) matches Ok(n) ==> (self.neighbors_result(1, query) matches Ok(
                found,
            ) && found.len() == 1 && found[0] == n),
            self.nearest_result(query) is Err ==> (self.neighbors_result(1, query) matches Ok(found)
                ==> found.len() == 0),
            self.neighbors_result(1, query) matches Err(e) ==> self.nearest_result(query) == Err::<
                Neighbor<E::ResultType>,
                FlannError,
            >(e),
    {
        self.lemma_found_bounds(1, query);
    }

    /// Where the engine fills every slot of a batch search with a match,
    /// every query has its chunk and every chunk has the same size: the
    /// number asked for, capped at the number of points.
    pub proof fn lemma_full_chunks(&self, num: usize, queries: Seq<E::Element>)
        requires
            self.clamped(num) > 0,
            ({
                let k = self.clamped(num);
                let rows = rows_of(queries, self.dimension() as nat).len();
                let raw = self.nearest_raw(queries, k);
                &&& raw.0.len() >= rows * k
                &&& raw.1.len() >= rows * k
                &&& forall|s: int| 0 <= s < rows * k ==> raw.0[s] >= 0
            }),
        ensures
            self.found_many(num, queries).len() == rows_of(queries, self.dimension() as nat).len(),
            forall|q: int|
                0 <= q < self.found_many(num, queries).len() ==> (#[trigger] self.found_many(
                    num,
                    queries,
                )[q]).len() == self.clamped(num),
    {
        let k = self.clamped(num);
        let rows = rows_of(queries, self.dimension() as nat).len();
        let raw = self.nearest_raw(queries, k);
        assert forall|q: int| 0 <= q < rows implies (#[trigger] self.found_many(num, queries)[q]).len()
            == k by {
            assert(0 <= q * k && q * k + k <= rows * k) by (nonlinear_arith)
                requires
                    0 <= q < rows,
                    k > 0,
            ;
            lemma_neighbors_in_all(raw.0, raw.1, q * k, k);
        }
    }

    /// Wraps what the engine's build returned: an index around the engine,
    /// or the build failure where there is none.
    pub fn from_built(point_len: usize, built: Option<E>, rebuild_threshold: u32) -> (r: Result<
        Self,
        FlannError,
    >)
        requires
            built matches Some(engine) ==> point_len > 0 && engine.dimension() == point_len,
        ensures
            built is None ==> (r matches Err(e) && e == FlannError::FailedToBuildIndex),
            built matches Some(engine) ==> (r matches Ok(index) && {
                &&& index.wf()
                &&& index.dimension() == point_len
                &&& index.points() == engine.points()
                &&& index.positional() == engine.positional()
                &&& index.raw_parameters() == engine.built_with()
                &&& index.rebuild_threshold() == rebuild_threshold
            }),
    {
        match built {
            None => Err(FlannError::FailedToBuildIndex),
            Some(engine) => Ok(
                SliceIndex { engine, rebuild_threshold, point_len, _phantom: PhantomData },
            ),
        }
    }

    /// Builds an index over a flat buffer without borrowing it: the caller
    /// answers for keeping the buffer alive and in place.
    pub(crate) fn over(point_len: usize, points: &[E::Element], parameters: Parameters) -> (r:
        Result<Self, FlannError>)
        ensures
            points@.len() == 0 ==> (r matches Err(e) && e == FlannError::ZeroInputPoints),
            points@.len() > 0 && !divides_into_points(points@.len(), point_len as nat) ==> (
            r matches Err(e) && e == (FlannError::InvalidFlatPointsLen {
                expected: point_len,
                got: points@.len() as usize,
            })),
            points@.len() > 0 && divides_into_points(points@.len(), point_len as nat) ==> (match r {
                Ok(index) => index.built_over(point_len, points@, parameters),
                Err(e) => e == FlannError::FailedToBuildIndex,
            }),
    {
        if points.len() == 0 {
            return Err(FlannError::ZeroInputPoints);
        }
        if point_len == 0 || points.len() % point_len != 0 {
            return Err(
                FlannError::InvalidFlatPointsLen { expected: point_len, got: points.len() },
            );
        }
        let rows = points.len() / point_len;
        proof {
            lemma_flat_of_rows(points@, point_len as nat);
        }
        let raw = parameters.to_raw();
        let built = E::build_index(points, rows, point_len, &raw);
        Self::from_built(point_len, built, parameters.rebuild_threshold)
    }

    /// Makes a new index from points that already lie in one buffer, row by
    /// row, `point_len` components each. The buffer stays borrowed.
    ///
    /// An empty buffer is refused, and so is one that does not divide into
    /// points. Whether the build succeeds after that is the engine's
    /// decision.
    pub fn new(point_len: usize, points: &'a [E::Element], parameters: Parameters) -> (r: Result<
        Self,
        FlannError,
    >)
        ensures
            points@.len() == 0 ==> (r matches Err(e) && e == FlannError::ZeroInputPoints),
            points@.len() > 0 && !divides_into_points(points@.len(), point_len as nat) ==> (
            r matches Err(e) && e == (FlannError::InvalidFlatPointsLen {
                expected: point_len,
                got: points@.len() as usize,
            })),
            points@.len() > 0 && divides_into_points(points@.len(), point_len as nat) ==> (match r {
                Ok(index) => index.built_over(point_len, points@, parameters),
                Err(e) => e == FlannError::FailedToBuildIndex,
            }),
    {
        Self::over(point_len, points, parameters)
    }

    /// Adds one point without borrowing it.
    pub(crate) fn add_one(&mut self, point: &[E::Element]) -> (r: Result<(), FlannError>)
        requires
            old(self).wf(),
        ensures
            point@.len() != old(self).dimension() ==> *final(self) == *old(self) && r == Err::<
                (),
                FlannError,
            >(
                FlannError::InvalidPointDimensionality {
                    expected: old(self).dimension(),
                    got: point@.len() as usize,
                },
            ),
            point@.len() == old(self).dimension() ==> r is Ok && final(self).extends(
                *old(self),
                seq![point@],
            ),
    {
        if point.len() != self.point_len {
            return Err(
                FlannError::InvalidPointDimensionality {
                    expected: self.point_len,
                    got: point.len(),
                },
            );
        }
        proof {
            lemma_rows_of_one(point@);
            assert(1 * self.point_len == self.point_len);
        }
        self.engine.add_points(point, 1, self.point_len, self.rebuild_threshold);
        Ok(())
    }

    /// Adds the points of a flat buffer without borrowing it.
    pub(crate) fn add_flat(&mut self, points: &[E::Element]) -> (r: Result<(), FlannError>)
        requires
            old(self).wf(),
        ensures
            points@.len() == 0 ==> r is Ok && *final(self) == *old(self),
            points@.len() > 0 && !divides_into_points(
                points@.len(),
                old(self).dimension() as nat,
            ) ==> *final(self) == *old(self) && r == Err::<(), FlannError>(
                FlannError::InvalidFlatPointsLen {
                    expected: old(self).dimension(),
                    got: points@.len() as usize,
                },
            ),
            points@.len() > 0 && divides_into_points(points@.len(), old(self).dimension() as nat)
                ==> r is Ok && final(self).extends(
                *old(self),
                rows_of(points@, old(self).dimension() as nat),
            ),
    {
        if points.len() == 0 {
            return Ok(());
        }
        if points.len() % self.point_len != 0 {
            return Err(
                FlannError::InvalidFlatPointsLen { expected: self.point_len, got: points.len() },
            );
        }
        let rows = points.len() / self.point_len;
        proof {
            lemma_flat_of_rows(points@, self.point_len as nat);
        }
        self.engine.add_points(points, rows, self.point_len, self.rebuild_threshold);
        Ok(())
    }

    /// Adds a point to the index. The point stays borrowed.
    ///
    /// A point of another dimension than the index is refused and the index
    /// is left as it was.
    pub fn add_slice(&mut self, point: &'a [E::Element]) -> (r: Result<(), FlannError>)
        requires
            old(self).wf(),
        ensures
            point@.len() != old(self).dimension() ==> *final(self) == *old(self) && r == Err::<
                (),
                FlannError,
            >(
                FlannError::InvalidPointDimensionality {
                    expected: old(self).dimension(),
                    got: point@.len() as usize,
                },
            ),
            point@.len() == old(self).dimension() ==> r is Ok && final(self).extends(
                *old(self),
                seq![point@],
            ),
    {
        self.add_one(point)
    }

    /// Adds the points of a flat buffer to the index. The buffer stays
    /// borrowed.
    ///
    /// An empty buffer changes nothing. A buffer that does not divide into
    /// points is refused and the index is left as it was.
    pub fn add_many_slices(&mut self, points: &'a [E::Element]) -> (r: Result<(), FlannError>)
        requires
            old(self).wf(),
        ensures
            points@.len() == 0 ==> r is Ok && *final(self) == *old(self),
            points@.len() > 0 && !divides_into_points(
                points@.len(),
                old(self).dimension() as nat,
            ) ==> *final(self) == *old(self) && r == Err::<(), FlannError>(
                FlannError::InvalidFlatPointsLen {
                    expected: old(self).dimension(),
                    got: points@.len() as usize,
                },
            ),
            points@.len() > 0 && divides_into_points(points@.len(), old(self).dimension() as nat)
                ==> r is Ok && final(self).extends(
                *old(self),
                rows_of(points@, old(self).dimension() as nat),
            ),
    {
        self.add_flat(points)
    }

    /// A copy of the point at position `idx`; `None` where the index holds
    /// no such position.
    pub fn get(&self, idx: usize) -> (point: Option<Vec<E::Element>>)
        requires
            self.wf(),
        ensures
            idx >= self.points().len() ==> point is None,
            idx < self.points().len() && self.positional() ==> (point matches Some(p) && p@
                == self.points()[idx as int]),
            self.positional() ==> match point {
                Some(p) => self.point_at(idx) == Some(p@),
                None => self.point_at(idx) is None,
            },
    {
        if idx < self.engine.size() {
            self.engine.get_point(idx)
        } else {
            None
        }
    }

    /// Removes the point at position `idx` and tells whether a point left
    /// the index. A position that the index does not hold removes nothing.
    /// While positions address the points by their place, the point at
    /// `idx` is the one that leaves. Once a point has left, what a position
    /// addresses is the engine's own matter.
    pub fn remove(&mut self, idx: usize) -> (removed: bool)
        requires
            old(self).wf(),
        ensures
            final(self).wf(),
            final(self).dimension() == old(self).dimension(),
            final(self).raw_parameters() == old(self).raw_parameters(),
            final(self).rebuild_threshold() == old(self).rebuild_threshold(),
            idx >= old(self).points().len() ==> !removed && *final(self) == *old(self),
            removed ==> final(self).points().len() + 1 == old(self).points().len()
                && !final(self).positional(),
            !removed ==> final(self).points() == old(self).points() && final(self).positional()
                == old(self).positional(),
            old(self).positional() && idx < old(self).points().len() ==> removed && final(self).points() == old(self).points().remove(idx as int),
    {
        let before = self.engine.size();
        if idx >= before {
            return false;
        }
        self.engine.remove_point(idx);
        let after = self.engine.size();
        after < before
    }

    /// The number of components of every point of the index.
    pub fn point_len(&self) -> (n: usize)
        ensures
            n == self.dimension(),
            self.wf() ==> n > 0,
    {
        self.point_len
    }

    /// The number of points in the index.
    pub fn len(&self) -> (n: usize)
        ensures
            n == self.points().len(),
    {
        self.engine.size()
    }

    /// Whether the index holds no point.
    pub fn is_empty(&self) -> (empty: bool)
        ensures
            empty == (self.points().len() == 0),
    {
        self.len() == 0
    }

    /// Searches the point closest to `point`.
    ///
    /// A query of another dimension than the index is refused. Otherwise the
    /// result is the first neighbor that a search for one neighbor finds,
    /// and `NoOutput` where that search finds none.
    pub fn find_nearest_neighbor(&self, point: &[E::Element]) -> (r: Result<
        Neighbor<E::ResultType>,
        FlannError,
    >)
        requires
            self.wf(),
        ensures
            r == self.nearest_result(point@),
    {
        let found = self.find_nearest_neighbors(1, point)?;
        if found.len() == 0 {
            Err(FlannError::NoOutput)
        } else {
            Ok(found[0])
        }
    }

    /// Searches the `num` points closest to `point`, or as many as the index
    /// holds if those are fewer.
    ///
    /// A query of another dimension than the index is refused. The neighbors
    /// come in the order in which the engine reports them; slots that the
    /// engine marks as without a match are left out.
    pub fn find_nearest_neighbors(&self, num: usize, point: &[E::Element]) -> (r: Result<
        Vec<Neighbor<E::ResultType>>,
        FlannError,
    >)
        requires
            self.wf(),
        ensures
            point@.len() != self.dimension() ==> (r matches Err(e) && e == (
            FlannError::InvalidPointDimensionality {
                expected: self.dimension(),
                got: point@.len() as usize,
            })),
            point@.len() == self.dimension() ==> (r matches Ok(found) && {
                &&& found@ == self.found_nearest(num, point@)
                &&& found@.len() <= self.clamped(num)
            }),
            match r {
                Ok(found) => self.neighbors_result(num, point@) == Ok::<
                    Seq<Neighbor<E::ResultType>>,
                    FlannError,
                >(found@),
                Err(e) => self.neighbors_result(num, point@) == Err::<
                    Seq<Neighbor<E::ResultType>>,
                    FlannError,
                >(e),
            },
    {
        if point.len() != self.point_len {
            return Err(
                FlannError::InvalidPointDimensionality {
                    expected: self.point_len,
                    got: point.len(),
                },
            );
        }
        let size = self.engine.size();
        let k = if num <= size {
            num
        } else {
            size
        };
        if k == 0 {
            return Ok(Vec::new());
        }
        proof {
            assert(1 * self.point_len == self.point_len);
        }
        let raw = self.engine.find_nearest_neighbors_index(point, 1, k);
        Ok(collect_neighbors(&raw.0, &raw.1, 0, k))
    }

    /// Searches at most `num` points within the squared distance
    /// `radius_squared` of `point`.
    ///
    /// A query of another dimension than the index is refused. Never more
    /// neighbors are returned than asked for, than the index holds, or than
    /// the engine counts as found.
    pub fn find_nearest_neighbors_radius(
        &self,
        num: usize,
        radius_squared: E::Radius,
        point: &[E::Element],
    ) -> (r: Result<Vec<Neighbor<E::ResultType>>, FlannError>)
        requires
            self.wf(),
        ensures
            point@.len() != self.dimension() ==> (r matches Err(e) && e == (
            FlannError::InvalidPointDimensionality {
                expected: self.dimension(),
                got: point@.len() as usize,
            })),
            point@.len() == self.dimension() ==> (r matches Ok(found) && {
                &&& found@ == self.found_within(num, radius_squared, point@)
                &&& found@.len() <= self.clamped(num)
            }),
    {
        if point.len() != self.point_len {
            return Err(
                FlannError::InvalidPointDimensionality {
                    expected: self.point_len,
                    got: point.len(),
                },
            );
        }
        let size = self.engine.size();
        let k = if num <= size {
            num
        } else {
            size
        };
        if k == 0 {
            return Ok(Vec::new());
        }
        let raw = self.engine.radius_search(point, k, radius_squared);
        let limit = if raw.2 <= k {
            raw.2
        } else {
            k
        };
        Ok(collect_neighbors(&raw.0, &raw.1, 0, limit))
    }

    /// Searches the `num` nearest neighbors of each of several points.
    ///
    /// The first query of another dimension than the index is reported.
    /// Otherwise the result is that of `find_many_nearest_neighbors_flat` on
    /// the queries laid out row by row.
    pub fn find_many_nearest_neighbors(&self, num: usize, points: &Vec<Vec<E::Element>>) -> (r:
        Result<Vec<Vec<Neighbor<E::ResultType>>>, FlannError>)
        requires
            self.wf(),
        ensures
            uniform(views(points@), self.dimension() as nat) ==> (r matches Ok(chunks) && views(
                chunks@,
            ) == self.found_many(num, views(points@).flatten())),
            !uniform(views(points@), self.dimension() as nat) ==> (r matches Err(e) && exists|
                i: int,
            |
                {
                    &&& first_mismatch(views(points@), self.dimension() as nat, i)
                    &&& e == (FlannError::InvalidPointDimensionality {
                        expected: self.dimension(),
                        got: #[trigger] points@[i].len(),
                    })
                }),
    {
        match flatten(self.point_len, points) {
            Err(e) => {
                proof {
                    let i = choose|i: int|
                        {
                            &&& first_mismatch(views(points@), self.point_len as nat, i)
                            &&& e == (FlannError::InvalidPointDimensionality {
                                expected: self.point_len,
                                got: #[trigger] points@[i].len(),
                            })
                        };
                    assert(views(points@)[i].len() != self.point_len);
                }
                Err(e)
            },
            Ok(flat) => {
                proof {
                    lemma_flatten_uniform(views(points@), self.point_len as nat);
                    lemma_rows_of_flat(flat@, views(points@), self.point_len as nat);
                }
                self.find_many_nearest_neighbors_flat(num, flat.as_slice())
            },
        }
    }

    /// Searches the `num` nearest neighbors of each point of a flat buffer
    /// of queries, with one call of the engine.
    ///
    /// No query gives no chunk. A buffer that does not divide into points is
    /// refused. Otherwise there is one chunk per query, in query order, each
    /// read from its own window of `min(num, len)` raw slots.
    pub fn find_many_nearest_neighbors_flat(&self, num: usize, points: &[E::Element]) -> (r:
        Result<Vec<Vec<Neighbor<E::ResultType>>>, FlannError>)
        requires
            self.wf(),
        ensures
            points@.len() == 0 ==> (r matches Ok(chunks) && chunks@.len() == 0),
            points@.len() > 0 && !divides_into_points(points@.len(), self.dimension() as nat) ==> (
            r matches Err(e) && e == (FlannError::InvalidFlatPointsLen {
                expected: self.dimension(),
                got: points@.len() as usize,
            })),
            divides_into_points(points@.len(), self.dimension() as nat) ==> (r matches Ok(chunks)
                && {
                &&& views(chunks@) == self.found_many(num, points@)
                &&& forall|q: int|
                    0 <= q < chunks@.len() ==> (#[trigger] chunks@[q])@.len() <= self.clamped(num)
            }),
    {
        if points.len() == 0 {
            proof {
                assert(self.found_many(num, points@) =~= Seq::empty());
                assert(views(Seq::<Vec<Neighbor<E::ResultType>>>::empty()) =~= Seq::empty());
            }
            return Ok(Vec::new());
        }
        if points.len() % self.point_len != 0 {
            return Err(
                FlannError::InvalidFlatPointsLen { expected: self.point_len, got: points.len() },
            );
        }
        let size = self.engine.size();
        let k = if num <= size {
            num
        } else {
            size
        };
        let mut chunks: Vec<Vec<Neighbor<E::ResultType>>> = Vec::new();
        if k == 0 {
            proof {
                assert(views(chunks@) =~= Seq::empty());
            }
            return Ok(chunks);
        }
        let total_points = points.len() / self.point_len;
        proof {
            lemma_flat_of_rows(points@, self.point_len as nat);
        }
        let raw = self.engine.find_nearest_neighbors_index(points, total_points, k);
        let mut q: usize = 0;
        let mut start: usize = 0;
        proof {
            assert(0 * k == 0);
        }
        while q < total_points
            invariant
                q <= total_points,
                k > 0,
                start == q * k || (q * k > usize::MAX && start == usize::MAX),
                chunks@.len() == q,
                forall|j: int|
                    0 <= j < q ==> (#[trigger] chunks@[j])@ == neighbors_in(
                        raw.0@,
                        raw.1@,
                        j * k,
                        slots_available(raw.0@.len(), raw.1@.len(), (j * k) as nat, k as nat),
                    ),
                forall|j: int| 0 <= j < q ==> (#[trigger] chunks@[j])@.len() <= k,
            decreases total_points - q,
        {
            let chunk = collect_neighbors(&raw.0, &raw.1, start, k);
            proof {
                assert(q * k >= 0) by (nonlinear_arith)
                    requires
                        q >= 0,
                        k > 0,
                ;
                assert((q + 1) * k == q * k + k) by (nonlinear_arith);
                if start != q * k {
                    assert(raw.0@.len() == raw.0.len() && raw.1@.len() == raw.1.len());
                    assert(slots_available(
                        raw.0@.len(),
                        raw.1@.len(),
                        (q * k) as nat,
                        k as nat,
                    ) == 0);
                    assert(slots_available(raw.0@.len(), raw.1@.len(), start as nat, k as nat)
                        == 0);
                }
            }
            chunks.push(chunk);
            start = if start <= usize::MAX - k {
                start + k
            } else {
                usize::MAX
            };
            q += 1;
        }
        proof {
            assert(views(chunks@) =~= self.found_many(num, points@));
        }
        Ok(chunks)
    }
}

} // verus!
