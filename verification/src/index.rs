//! An index whose dimension is part of its type.

use crate::indexable::Indexable;
use crate::parameters::Parameters;
use crate::points::{
    array_views, flatten_arrays, lemma_flatten_uniform, lemma_rows_of_flat, lemma_rows_of_one,
};
use crate::slice_index::SliceIndex;
use crate::vec_index::VecIndex;
use crate::{FlannError, Neighbor};
use vstd::prelude::*;

verus! {

/// An index over points of `N` components, which it owns.
///
/// Since every point and query has the dimension of the index by its type,
/// no operation of this index can meet a point of the wrong dimension.
pub struct Index<E: Indexable, const N: usize> {
    inner: VecIndex<E>,
}

/// Copies a point into a buffer of its own.
fn to_buffer<T: Copy, const N: usize>(point: &[T; N]) -> (buffer: Vec<T>)
    ensures
        buffer@ == point@,
{
    let mut buffer: Vec<T> = Vec::new();
    let mut k: usize = 0;
    while k < N
        invariant
            k <= N,
            buffer@ == point@.subrange(0, k as int),
        decreases N - k,
    {
        buffer.push(point[k]);
        proof {
            assert(buffer@ =~= point@.subrange(0, k + 1));
        }
        k += 1;
    }
    proof {
        assert(point@.subrange(0, N as int) =~= point@);
    }
    buffer
}

impl<E: Indexable, const N: usize> Index<E, N> {
    /// The index over the owned buffers.
    pub closed spec fn index(&self) -> SliceIndex<'static, E> {
        self.inner.index()
    }

    /// The buffers that the index owns, oldest first.
    pub closed spec fn batches(&self) -> Seq<Seq<E::Element>> {
        self.inner.batches()
    }

    /// The invariant of an index: its points have `N` components.
    pub open spec fn wf(&self) -> bool {
        &&& self.index().wf()
        &&& self.index().dimension() == N
    }

    /// Builds an index over a batch of points, which it takes over.
    ///
    /// A batch without any component is refused as empty. Whether the build
    /// succeeds after that is the engine's decision.
    pub fn new(points: Vec<[E::Element; N]>, parameters: Parameters) -> (r: Result<
        Self,
        FlannError,
    >)
        ensures
            points@.len() == 0 || N == 0 ==> (r matches Err(e) && e == FlannError::ZeroInputPoints),
            points@.len() > 0 && N > 0 ==> (match r {
                Ok(built) => {
                    &&& built.wf()
                    &&& built.index().points() == array_views(points@)
                    &&& parameters.algorithm.serves_positions() ==> built.index().positional()
                    &&& built.index().raw_parameters() == parameters.raw()
                    &&& built.index().rebuild_threshold() == parameters.rebuild_threshold
                    &&& built.batches() == seq![array_views(points@).flatten()]
                },
                Err(e) => e == FlannError::FailedToBuildIndex,
            }),
    {
        let flat = flatten_arrays(&points);
        proof {
            lemma_flatten_uniform(array_views(points@), N as nat);
            assert(points@.len() * N == 0 <==> (points@.len() == 0 || N == 0))
                by (nonlinear_arith);
            if N > 0 {
                lemma_rows_of_flat(flat@, array_views(points@), N as nat);
            }
        }
        match VecIndex::new_flat(N, flat, parameters) {
            Ok(inner) => Ok(Index { inner }),
            Err(e) => Err(e),
        }
    }

    /// Adds a point to the index.
    pub fn add(&mut self, point: [E::Element; N])
        requires
            old(self).wf(),
        ensures
            final(self).wf(),
            final(self).index().extends(old(self).index(), seq![point@]),
            final(self).batches() == old(self).batches().push(point@),
    {
        let buffer = to_buffer(&point);
        proof {
            self.inner.lemma_dimension();
            lemma_rows_of_one(point@);
        }
        let _ = self.inner.add_flat(buffer);
    }

    /// Adds a batch of points to the index. A batch without points changes
    /// nothing.
    pub fn add_multiple(&mut self, points: Vec<[E::Element; N]>)
        requires
            old(self).wf(),
        ensures
            final(self).wf(),
            points@.len() == 0 ==> *final(self) == *old(self),
            points@.len() > 0 ==> {
                &&& final(self).index().extends(old(self).index(), array_views(points@))
                &&& final(self).batches() == old(self).batches().push(
                    array_views(points@).flatten(),
                )
            },
    {
        let flat = flatten_arrays(&points);
        proof {
            self.inner.lemma_dimension();
            lemma_flatten_uniform(array_views(points@), N as nat);
            lemma_rows_of_flat(flat@, array_views(points@), N as nat);
            assert(points@.len() * N == 0 <==> points@.len() == 0) by (nonlinear_arith)
                requires
                    N > 0,
            ;
        }
        let _ = self.inner.add_flat(flat);
    }

    /// A copy of the point at position `idx`; `None` where the index holds
    /// no such position.
    pub fn get(&self, idx: usize) -> (point: Option<Vec<E::Element>>)
        requires
            self.wf(),
        ensures
            idx >= self.index().points().len() ==> point is None,
            idx < self.index().points().len() && self.index().positional() ==> (point matches Some(p)
                && p@ == self.index().points()[idx as int]),
    {
        self.inner.get(idx)
    }

    /// Removes the point at position `idx` and tells whether a point left
    /// the index. A position that the index does not hold removes nothing.
    pub fn remove(&mut self, idx: usize) -> (removed: bool)
        requires
            old(self).wf(),
        ensures
            final(self).wf(),
            final(self).batches() == old(self).batches(),
            idx >= old(self).index().points().len() ==> !removed && final(self).index() == old(
                self,
            ).index(),
            removed ==> final(self).index().points().len() + 1 == old(self).index().points().len()
                && !final(self).index().positional(),
            !removed ==> final(self).index().points() == old(self).index().points()
                && final(self).index().positional() == old(self).index().positional(),
            old(self).index().positional() && idx < old(self).index().points().len() ==> removed
                && final(self).index().points() == old(self).index().points().remove(idx as int),
    {
        self.inner.remove(idx)
    }

    /// The number of points in the index.
    pub fn len(&self) -> (n: usize)
        ensures
            n == self.index().points().len(),
    {
        self.inner.len()
    }

    /// Whether the index holds no point.
    pub fn is_empty(&self) -> (empty: bool)
        ensures
            empty == (self.index().points().len() == 0),
    {
        self.inner.is_empty()
    }

    /// Searches the point closest to `point`: the first neighbor that a
    /// search for one neighbor finds, and `NoOutput` where it finds none.
    pub fn find_nearest_neighbor(&self, point: &[E::Element; N]) -> (r: Result<
        Neighbor<E::ResultType>,
        FlannError,
    >)
        requires
            self.wf(),
        ensures
            self.index().found_nearest(1, point@).len() == 0 ==> (r matches Err(e) && e
                == FlannError::NoOutput),
            self.index().found_nearest(1, point@).len() > 0 ==> (r matches Ok(n) && n
                == self.index().found_nearest(1, point@)[0]),
    {
        self.inner.find_nearest_neighbor(vstd::array::array_as_slice(point))
    }

    /// Searches the `num` points closest to `point`, or as many as the index
    /// holds if those are fewer.
    pub fn find_nearest_neighbors(&self, num: usize, point: &[E::Element; N]) -> (found: Vec<
        Neighbor<E::ResultType>,
    >)
        requires
            self.wf(),
        ensures
            found@ == self.index().found_nearest(num, point@),
            found@.len() <= self.index().clamped(num),
    {
        match self.inner.find_nearest_neighbors(num, vstd::array::array_as_slice(point)) {
            Ok(found) => found,
            Err(_) => Vec::new(),
        }
    }

    /// Searches at most `num` points within the squared distance
    /// `radius_squared` of `point`.
    pub fn find_nearest_neighbors_radius(
        &self,
        num: usize,
        radius_squared: E::Radius,
        point: &[E::Element; N],
    ) -> (found: Vec<Neighbor<E::ResultType>>)
        requires
            self.wf(),
        ensures
            found@ == self.index().found_within(num, radius_squared, point@),
            found@.len() <= self.index().clamped(num),
    {
        match self.inner.find_nearest_neighbors_radius(
            num,
            radius_squared,
            vstd::array::array_as_slice(point),
        ) {
            Ok(found) => found,
            Err(_) => Vec::new(),
        }
    }

    /// Searches the `num` nearest neighbors of each of several points, with
    /// one call of the engine: one chunk per query, in query order.
    pub fn find_many_nearest_neighbors(&self, num: usize, points: &Vec<[E::Element; N]>) -> (chunks:
        Vec<Vec<Neighbor<E::ResultType>>>)
        requires
            self.wf(),
        ensures
            crate::points::views(chunks@) == self.index().found_many(
                num,
                array_views(points@).flatten(),
            ),
            forall|q: int|
                0 <= q < chunks@.len() ==> (#[trigger] chunks@[q])@.len() <= self.index().clamped(
                    num,
                ),
    {
        let flat = flatten_arrays(points);
        proof {
            self.inner.lemma_dimension();
            lemma_flatten_uniform(array_views(points@), N as nat);
            lemma_rows_of_flat(flat@, array_views(points@), N as nat);
        }
        match self.inner.find_many_nearest_neighbors_flat(num, flat.as_slice()) {
            Ok(chunks) => chunks,
            Err(_) => Vec::new(),
        }
    }
}

} // verus!
