//! An index that owns its points.

use crate::indexable::Indexable;
use crate::parameters::Parameters;
use crate::points::{
    divides_into_points, first_mismatch, flatten, lemma_flatten_uniform, lemma_rows_of_flat,
    rows_of, uniform, views,
};
use crate::slice_index::SliceIndex;
use crate::FlannError;
use vstd::prelude::*;

verus! {

/// An index that owns the buffers of its points.
///
/// Every batch of points becomes one buffer of its own. A buffer, once the
/// engine has it, is never changed, moved or released while the engine
/// lives: batches are only ever appended. The engine is declared before the
/// buffers and so is destroyed before they are released.
///
/// Queries are those of the [`SliceIndex`] that it gives shared access to.
/// Exclusive access to that index is not given out, so that the engine
/// cannot be moved away from the buffers it addresses.
pub struct VecIndex<E: Indexable> {
    slice_index: SliceIndex<'static, E>,
    storage: Vec<Vec<E::Element>>,
}

impl<E: Indexable> std::ops::Deref for VecIndex<E> {
    type Target = SliceIndex<'static, E>;

    fn deref(&self) -> (r: &SliceIndex<'static, E>)
        ensures
            *r == self.index(),
    {
        &self.slice_index
    }
}

impl<E: Indexable> VecIndex<E> {
    /// The index over the owned buffers.
    pub closed spec fn index(&self) -> SliceIndex<'static, E> {
        self.slice_index
    }

    /// The buffers that the index owns, oldest first.
    pub closed spec fn batches(&self) -> Seq<Seq<E::Element>> {
        views(self.storage@)
    }

    /// The invariant of an owning index: that of the index over its buffers.
    pub open spec fn wf(&self) -> bool {
        self.index().wf()
    }

    /// The dimension of a well-formed index is not zero.
    pub proof fn lemma_dimension(&self)
        requires
            self.wf(),
        ensures
            self.index().dimension() > 0,
    {
        self.slice_index.lemma_dimension();
    }

    /// Builds an index over a flat buffer of points, which it takes over.
    pub(crate) fn new_flat(point_len: usize, flat: Vec<E::Element>, parameters: Parameters) -> (r:
        Result<Self, FlannError>)
        ensures
            flat@.len() == 0 ==> (r matches Err(e) && e == FlannError::ZeroInputPoints),
            flat@.len() > 0 && !divides_into_points(flat@.len(), point_len as nat) ==> (
            r matches Err(e) && e == (FlannError::InvalidFlatPointsLen {
                expected: point_len,
                got: flat@.len() as usize,
            })),
            flat@.len() > 0 && divides_into_points(flat@.len(), point_len as nat) ==> (match r {
                Ok(built) => {
                    &&& built.index().built_over(point_len, flat@, parameters)
                    &&& built.batches() == seq![flat@]
                },
                Err(e) => e == FlannError::FailedToBuildIndex,
            }),
    {
        let slice_index = match SliceIndex::over(point_len, flat.as_slice(), parameters) {
            Ok(slice_index) => slice_index,
            Err(e) => {
                return Err(e);
            },
        };
        let mut storage: Vec<Vec<E::Element>> = Vec::new();
        storage.push(flat);
        proof {
            assert(views(storage@) =~= seq![flat@]);
        }
        Ok(VecIndex { slice_index, storage })
    }

    /// Adds the points of a flat buffer, which the index takes over. An
    /// empty buffer is dropped and changes nothing.
    pub(crate) fn add_flat(&mut self, flat: Vec<E::Element>) -> (r: Result<(), FlannError>)
        requires
            old(self).wf(),
        ensures
            flat@.len() == 0 ==> r is Ok && *final(self) == *old(self),
            flat@.len() > 0 && !divides_into_points(
                flat@.len(),
                old(self).index().dimension() as nat,
            ) ==> *final(self) == *old(self) && r == Err::<(), FlannError>(
                FlannError::InvalidFlatPointsLen {
                    expected: old(self).index().dimension(),
                    got: flat@.len() as usize,
                },
            ),
            flat@.len() > 0 && divides_into_points(
                flat@.len(),
                old(self).index().dimension() as nat,
            ) ==> {
                &&& r is Ok
                &&& final(self).index().extends(
                    old(self).index(),
                    rows_of(flat@, old(self).index().dimension() as nat),
                )
                &&& final(self).batches() == old(self).batches().push(flat@)
            },
    {
        if flat.len() == 0 {
            return Ok(());
        }
        match self.slice_index.add_flat(flat.as_slice()) {
            Err(e) => Err(e),
            Ok(()) => {
                self.storage.push(flat);
                proof {
                    assert(views(self.storage@) =~= views(old(self).storage@).push(flat@));
                }
                Ok(())
            },
        }
    }

    /// Builds an index over a batch of points of `point_len` components
    /// each, which it takes over.
    ///
    /// The first point of another length is reported. A batch without any
    /// component is refused as empty. Whether the build succeeds after that
    /// is the engine's decision.
    pub fn new(point_len: usize, points: Vec<Vec<E::Element>>, parameters: Parameters) -> (r:
        Result<Self, FlannError>)
        ensures
            !uniform(views(points@), point_len as nat) ==> (r matches Err(e) && exists|i: int|
                {
                    &&& first_mismatch(views(points@), point_len as nat, i)
                    &&& e == (FlannError::InvalidPointDimensionality {
                        expected: point_len,
                        got: #[trigger] points@[i].len(),
                    })
                }),
            uniform(views(points@), point_len as nat) && (points@.len() == 0 || point_len == 0)
                ==> (r matches Err(e) && e == FlannError::ZeroInputPoints),
            uniform(views(points@), point_len as nat) && points@.len() > 0 && point_len > 0 ==> (
            match r {
                Ok(built) => {
                    &&& built.wf()
                    &&& built.index().dimension() == point_len
                    &&& built.index().points() == views(points@)
                    &&& parameters.algorithm.serves_positions() ==> built.index().positional()
                    &&& built.index().raw_parameters() == parameters.raw()
                    &&& built.index().rebuild_threshold() == parameters.rebuild_threshold
                    &&& built.batches() == seq![views(points@).flatten()]
                },
                Err(e) => e == FlannError::FailedToBuildIndex,
            }),
    {
        let flat = match flatten(point_len, &points) {
            Ok(flat) => flat,
            Err(e) => {
                proof {
                    let i = choose|i: int|
                        {
                            &&& first_mismatch(views(points@), point_len as nat, i)
                            &&& e == (FlannError::InvalidPointDimensionality {
                                expected: point_len,
                                got: #[trigger] points@[i].len(),
                            })
                        };
                    assert(views(points@)[i].len() != point_len);
                }
                return Err(e);
            },
        };
        proof {
            lemma_flatten_uniform(views(points@), point_len as nat);
            assert(points@.len() * point_len == 0 <==> (points@.len() == 0 || point_len == 0))
                by (nonlinear_arith);
            if point_len > 0 {
                lemma_rows_of_flat(flat@, views(points@), point_len as nat);
            }
        }
        Self::new_flat(point_len, flat, parameters)
    }

    /// Adds a point to the index, which takes it over.
    ///
    /// A point of another dimension than the index is refused and the index
    /// is left as it was.
    pub fn add(&mut self, point: Vec<E::Element>) -> (r: Result<(), FlannError>)
        requires
            old(self).wf(),
        ensures
            point@.len() != old(self).index().dimension() ==> *final(self) == *old(self) && r
                == Err::<(), FlannError>(
                FlannError::InvalidPointDimensionality {
                    expected: old(self).index().dimension(),
                    got: point.len(),
                },
            ),
            point@.len() == old(self).index().dimension() ==> {
                &&& r is Ok
                &&& final(self).index().extends(old(self).index(), seq![point@])
                &&& final(self).batches() == old(self).batches().push(point@)
            },
    {
        match self.slice_index.add_one(point.as_slice()) {
            Err(e) => Err(e),
            Ok(()) => {
                self.storage.push(point);
                proof {
                    assert(views(self.storage@) =~= views(old(self).storage@).push(point@));
                }
                Ok(())
            },
        }
    }

    /// Adds a batch of points to the index, which takes it over.
    ///
    /// The first point of another dimension than the index is reported, and
    /// the index is left as it was. A batch without points changes nothing.
    pub fn add_many(&mut self, points: Vec<Vec<E::Element>>) -> (r: Result<(), FlannError>)
        requires
            old(self).wf(),
        ensures
            !uniform(views(points@), old(self).index().dimension() as nat) ==> *final(self) == *old(self) && (r matches Err(e) && exists|i: int|
                {
                    &&& first_mismatch(views(points@), old(self).index().dimension() as nat, i)
                    &&& e == (FlannError::InvalidPointDimensionality {
                        expected: old(self).index().dimension(),
                        got: #[trigger] points@[i].len(),
                    })
                }),
            uniform(views(points@), old(self).index().dimension() as nat) && points@.len() == 0
                ==> r is Ok && *final(self) == *old(self),
            uniform(views(points@), old(self).index().dimension() as nat) && points@.len() > 0 ==> {
                &&& r is Ok
                &&& final(self).index().extends(old(self).index(), views(points@))
                &&& final(self).batches() == old(self).batches().push(views(points@).flatten())
            },
    {
        let point_len = self.slice_index.point_len();
        let flat = match flatten(point_len, &points) {
            Ok(flat) => flat,
            Err(e) => {
                proof {
                    let i = choose|i: int|
                        {
                            &&& first_mismatch(views(points@), point_len as nat, i)
                            &&& e == (FlannError::InvalidPointDimensionality {
                                expected: point_len,
                                got: #[trigger] points@[i].len(),
                            })
                        };
                    assert(views(points@)[i].len() != point_len);
                }
                return Err(e);
            },
        };
        proof {
            lemma_flatten_uniform(views(points@), point_len as nat);
            lemma_rows_of_flat(flat@, views(points@), point_len as nat);
            assert(points@.len() * point_len == 0 <==> points@.len() == 0) by (nonlinear_arith)
                requires
                    point_len > 0,
            ;
        }
        self.add_flat(flat)
    }

    /// Adds a point that lives as long as the program. Nothing is taken
    /// over.
    ///
    /// A point of another dimension than the index is refused and the index
    /// is left as it was.
    pub fn add_slice(&mut self, point: &'static [E::Element]) -> (r: Result<(), FlannError>)
        requires
            old(self).wf(),
        ensures
            final(self).batches() == old(self).batches(),
            point@.len() != old(self).index().dimension() ==> *final(self) == *old(self) && r
                == Err::<(), FlannError>(
                FlannError::InvalidPointDimensionality {
                    expected: old(self).index().dimension(),
                    got: point@.len() as usize,
                },
            ),
            point@.len() == old(self).index().dimension() ==> r is Ok && final(self).index().extends(old(self).index(), seq![point@]),
    {
        self.slice_index.add_slice(point)
    }

    /// Adds the points of a flat buffer that lives as long as the program.
    /// Nothing is taken over.
    ///
    /// An empty buffer changes nothing. A buffer that does not divide into
    /// points is refused and the index is left as it was.
    pub fn add_many_slices(&mut self, points: &'static [E::Element]) -> (r: Result<(), FlannError>)
        requires
            old(self).wf(),
        ensures
            final(self).batches() == old(self).batches(),
            points@.len() == 0 ==> r is Ok && *final(self) == *old(self),
            points@.len() > 0 && !divides_into_points(
                points@.len(),
                old(self).index().dimension() as nat,
            ) ==> *final(self) == *old(self) && r == Err::<(), FlannError>(
                FlannError::InvalidFlatPointsLen {
                    expected: old(self).index().dimension(),
                    got: points@.len() as usize,
                },
            ),
            points@.len() > 0 && divides_into_points(
                points@.len(),
                old(self).index().dimension() as nat,
            ) ==> r is Ok && final(self).index().extends(
                old(self).index(),
                rows_of(points@, old(self).index().dimension() as nat),
            ),
    {
        self.slice_index.add_many_slices(points)
    }

    /// Removes the point at position `idx` and tells whether a point left
    /// the index. A position that the index does not hold removes nothing.
    /// The buffers stay as they are.
    pub fn remove(&mut self, idx: usize) -> (removed: bool)
        requires
            old(self).wf(),
        ensures
            final(self).wf(),
            final(self).batches() == old(self).batches(),
            final(self).index().dimension() == old(self).index().dimension(),
            final(self).index().raw_parameters() == old(self).index().raw_parameters(),
            final(self).index().rebuild_threshold() == old(self).index().rebuild_threshold(),
            idx >= old(self).index().points().len() ==> !removed && *final(self) == *old(self),
            removed ==> final(self).index().points().len() + 1 == old(self).index().points().len()
                && !final(self).index().positional(),
            !removed ==> final(self).index().points() == old(self).index().points()
                && final(self).index().positional() == old(self).index().positional(),
            old(self).index().positional() && idx < old(self).index().points().len() ==> removed
                && final(self).index().points() == old(self).index().points().remove(idx as int),
    {
        self.slice_index.remove(idx)
    }
}

} // verus!
