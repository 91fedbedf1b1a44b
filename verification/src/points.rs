//! Point batches and raw result buffers.
//!
//! The engine takes points flattened row by row into one buffer and returns
//! its findings as two parallel buffers, positions and distances. This
//! module says what a flat buffer holds and what raw buffers mean, and
//! converts both ways.

use crate::{FlannError, Neighbor};
use vstd::prelude::*;

verus! {

/// The points of a flat buffer, cut in rows of `cols` components. With
/// `cols` zero there are no rows.
pub open spec fn rows_of<T>(flat: Seq<T>, cols: nat) -> Seq<Seq<T>> {
    Seq::new(
        if cols == 0 {
            0
        } else {
            flat.len() / cols
        },
        |i: int| flat.subrange(i * cols, i * cols + cols),
    )
}

/// Whether a flat buffer of `len` components can be cut into points of
/// `cols` components each, with nothing left over.
pub open spec fn divides_into_points(len: nat, cols: nat) -> bool {
    cols > 0 && len % cols == 0
}

/// The contents of each point of a batch.
pub open spec fn views<T>(points: Seq<Vec<T>>) -> Seq<Seq<T>> {
    Seq::new(points.len(), |i: int| points[i]@)
}

/// The contents of each point of a batch of fixed-size points.
pub open spec fn array_views<T, const N: usize>(points: Seq<[T; N]>) -> Seq<Seq<T>> {
    Seq::new(points.len(), |i: int| points[i]@)
}

/// Whether every point of a batch has `cols` components.
pub open spec fn uniform<T>(points: Seq<Seq<T>>, cols: nat) -> bool {
    forall|i: int| 0 <= i < points.len() ==> (#[trigger] points[i]).len() == cols
}

/// Whether `i` is the first point of a batch whose number of components is
/// not `cols`.
pub open spec fn first_mismatch<T>(points: Seq<Seq<T>>, cols: nat, i: int) -> bool {
    &&& 0 <= i < points.len()
    &&& points[i].len() != cols
    &&& uniform(points.subrange(0, i), cols)
}

/// Whether `flat` is the batch `points` of `cols` components each, laid out
/// row by row.
pub open spec fn is_flat_of<T>(flat: Seq<T>, points: Seq<Seq<T>>, cols: nat) -> bool {
    &&& flat.len() == points.len() * cols
    &&& forall|i: int|
        0 <= i < points.len() ==> flat.subrange(i * cols, i * cols + cols) == #[trigger] points[i]
}

/// Appending one point to a batch appends its components to the flat form.
pub proof fn lemma_flat_push<T>(flat: Seq<T>, points: Seq<Seq<T>>, point: Seq<T>, cols: nat)
    requires
        is_flat_of(flat, points, cols),
        point.len() == cols,
    ensures
        is_flat_of(flat + point, points.push(point), cols),
{
    let n = points.len() as int;
    let c = cols as int;
    let flat2 = flat + point;
    let points2 = points.push(point);
    assert((n + 1) * c == n * c + c) by (nonlinear_arith);
    assert forall|i: int| 0 <= i < points2.len() implies flat2.subrange(i * c, i * c + c)
        == #[trigger] points2[i] by {
        if i < n {
            assert(0 <= i * c && i * c + c <= n * c) by (nonlinear_arith)
                requires
                    0 <= i < n,
                    c >= 0,
            ;
            assert(flat2.subrange(i * c, i * c + c) =~= flat.subrange(i * c, i * c + c));
            assert(points2[i] == points[i]);
        } else {
            assert(flat2.subrange(n * c, n * c + c) =~= point);
        }
    }
}

/// A flat buffer that lays out a batch row by row cuts back into that batch.
pub proof fn lemma_rows_of_flat<T>(flat: Seq<T>, points: Seq<Seq<T>>, cols: nat)
    requires
        is_flat_of(flat, points, cols),
        cols > 0,
    ensures
        rows_of(flat, cols) == points,
        divides_into_points(flat.len(), cols),
{
    let n = points.len() as int;
    let c = cols as int;
    assert((n * c) / c == n && (n * c) % c == 0) by (nonlinear_arith)
        requires
            c > 0,
            n >= 0,
    ;
    assert(rows_of(flat, cols) =~= points);
}

/// A buffer that divides into points lays out its own rows.
pub proof fn lemma_flat_of_rows<T>(flat: Seq<T>, cols: nat)
    requires
        divides_into_points(flat.len(), cols),
    ensures
        is_flat_of(flat, rows_of(flat, cols), cols),
        rows_of(flat, cols).len() * cols == flat.len(),
        rows_of(flat, cols).len() == flat.len() / cols,
        flat.len() > 0 ==> rows_of(flat, cols).len() > 0,
        uniform(rows_of(flat, cols), cols),
{
    let len = flat.len() as int;
    let c = cols as int;
    assert((len / c) * c == len) by (nonlinear_arith)
        requires
            c > 0,
            len >= 0,
            len % c == 0,
    ;
    assert(len > 0 ==> len / c > 0) by (nonlinear_arith)
        requires
            (len / c) * c == len,
            c > 0,
    ;
    let rows = rows_of(flat, cols);
    assert forall|i: int| 0 <= i < rows.len() implies (#[trigger] rows[i]).len() == cols by {
        assert(0 <= i * c && i * c + c <= len) by (nonlinear_arith)
            requires
                0 <= i < len / c,
                (len / c) * c == len,
                c > 0,
        ;
    }
}

/// One point alone is its own flat form.
pub proof fn lemma_rows_of_one<T>(point: Seq<T>)
    requires
        point.len() > 0,
    ensures
        rows_of(point, point.len()) == seq![point],
{
    let c = point.len() as int;
    assert(c / c == 1) by (nonlinear_arith)
        requires
            c > 0,
    ;
    assert(point.subrange(0, c) =~= point);
    assert(rows_of(point, point.len()) =~= seq![point]);
}

/// The flat form of a batch whose points all have `cols` components lays
/// the batch out row by row.
pub proof fn lemma_flatten_uniform<T>(points: Seq<Seq<T>>, cols: nat)
    requires
        uniform(points, cols),
    ensures
        is_flat_of(points.flatten(), points, cols),
    decreases points.len(),
{
    if points.len() == 0 {
        assert(points.flatten() =~= Seq::<T>::empty());
        assert(points.len() * cols == 0) by (nonlinear_arith)
            requires
                points.len() == 0,
        ;
    } else {
        let init = points.drop_last();
        let last = points.last();
        assert forall|i: int| 0 <= i < init.len() implies (#[trigger] init[i]).len() == cols by {
            assert(init[i] == points[i]);
        }
        lemma_flatten_uniform(init, cols);
        lemma_flat_push(init.flatten(), init, last, cols);
        init.lemma_flatten_push(last);
        assert(init.push(last) =~= points);
    }
}

/// Lays a batch of points out row by row, after checking that each has
/// `point_len` components. The first point of another length is reported.
pub fn flatten<T: Copy>(point_len: usize, points: &Vec<Vec<T>>) -> (r: Result<Vec<T>, FlannError>)
    ensures
        match r {
            Ok(flat) => {
                &&& uniform(views(points@), point_len as nat)
                &&& flat@ == views(points@).flatten()
            },
            Err(e) => exists|i: int|
                {
                    &&& first_mismatch(views(points@), point_len as nat, i)
                    &&& e == (FlannError::InvalidPointDimensionality {
                        expected: point_len,
                        got: #[trigger] points@[i].len(),
                    })
                },
        },
{
    let ghost all = views(points@);
    let mut flat: Vec<T> = Vec::new();
    let mut i: usize = 0;
    proof {
        assert(all.subrange(0, 0).flatten() =~= Seq::<T>::empty());
    }
    while i < points.len()
        invariant
            i <= points.len(),
            all == views(points@),
            uniform(all.subrange(0, i as int), point_len as nat),
            flat@ == all.subrange(0, i as int).flatten(),
        decreases points.len() - i,
    {
        let point = &points[i];
        if point.len() != point_len {
            proof {
                assert(all[i as int] == points@[i as int]@);
            }
            return Err(
                FlannError::InvalidPointDimensionality { expected: point_len, got: point.len() },
            );
        }
        let ghost before = flat@;
        let mut k: usize = 0;
        while k < point_len
            invariant
                k <= point_len,
                point@.len() == point_len,
                flat@ == before + point@.subrange(0, k as int),
            decreases point_len - k,
        {
            flat.push(point[k]);
            proof {
                assert(point@.subrange(0, k + 1) =~= point@.subrange(0, k as int).push(
                    point@[k as int],
                ));
                assert(flat@ =~= before + point@.subrange(0, k + 1));
            }
            k += 1;
        }
        proof {
            assert(point@.subrange(0, point_len as int) =~= point@);
            all.subrange(0, i as int).lemma_flatten_push(point@);
            assert(all.subrange(0, i + 1) =~= all.subrange(0, i as int).push(point@));
            assert forall|j: int| 0 <= j < i + 1 implies (#[trigger] all.subrange(0, i + 1)[j]).len()
                == point_len by {
                if j < i {
                    assert(all.subrange(0, i as int)[j] == all.subrange(0, i + 1)[j]);
                }
            }
        }
        i += 1;
    }
    proof {
        assert(all.subrange(0, i as int) =~= all);
    }
    Ok(flat)
}

/// Lays a batch of fixed-size points out row by row.
pub fn flatten_arrays<T: Copy, const N: usize>(points: &Vec<[T; N]>) -> (flat: Vec<T>)
    ensures
        flat@ == array_views(points@).flatten(),
        uniform(array_views(points@), N as nat),
{
    let ghost all = array_views(points@);
    let mut flat: Vec<T> = Vec::new();
    let mut i: usize = 0;
    proof {
        assert(all.subrange(0, 0).flatten() =~= Seq::<T>::empty());
    }
    while i < points.len()
        invariant
            i <= points.len(),
            all == array_views(points@),
            flat@ == all.subrange(0, i as int).flatten(),
        decreases points.len() - i,
    {
        let point = &points[i];
        let ghost before = flat@;
        let mut k: usize = 0;
        while k < N
            invariant
                k <= N,
                point@.len() == N,
                flat@ == before + point@.subrange(0, k as int),
            decreases N - k,
        {
            flat.push(point[k]);
            proof {
                assert(point@.subrange(0, k + 1) =~= point@.subrange(0, k as int).push(
                    point@[k as int],
                ));
                assert(flat@ =~= before + point@.subrange(0, k + 1));
            }
            k += 1;
        }
        proof {
            assert(point@.subrange(0, N as int) =~= point@);
            all.subrange(0, i as int).lemma_flatten_push(point@);
            assert(all.subrange(0, i + 1) =~= all.subrange(0, i as int).push(point@));
        }
        i += 1;
    }
    proof {
        assert(all.subrange(0, i as int) =~= all);
    }
    flat
}

/// The neighbors that the raw slots `start .. start + n` of two parallel
/// result buffers report, in slot order. A slot with a negative position
/// reports no match and yields nothing.
pub open spec fn neighbors_in<D>(
    indices: Seq<i32>,
    distances: Seq<D>,
    start: int,
    n: nat,
) -> Seq<Neighbor<D>>
    decreases n,
{
    if n == 0 {
        Seq::empty()
    } else {
        let rest = neighbors_in(indices, distances, start, (n - 1) as nat);
        let slot = start + n - 1;
        if indices[slot] >= 0 {
            rest.push(Neighbor { index: indices[slot] as usize, distance_squared: distances[slot] })
        } else {
            rest
        }
    }
}

/// Slots report at most one neighbor each.
pub proof fn lemma_neighbors_in_len<D>(indices: Seq<i32>, distances: Seq<D>, start: int, n: nat)
    ensures
        neighbors_in(indices, distances, start, n).len() <= n,
    decreases n,
{
    if n > 0 {
        lemma_neighbors_in_len(indices, distances, start, (n - 1) as nat);
    }
}

/// Where no slot holds a negative position, every slot reports its
/// neighbor.
pub proof fn lemma_neighbors_in_all<D>(indices: Seq<i32>, distances: Seq<D>, start: int, n: nat)
    requires
        0 <= start,
        start + n <= indices.len(),
        forall|s: int| start <= s < start + n ==> indices[s] >= 0,
    ensures
        neighbors_in(indices, distances, start, n).len() == n,
        forall|j: int|
            0 <= j < n ==> #[trigger] neighbors_in(indices, distances, start, n)[j] == (Neighbor {
                index: indices[start + j] as usize,
                distance_squared: distances[start + j],
            }),
    decreases n,
{
    if n > 0 {
        lemma_neighbors_in_all(indices, distances, start, (n - 1) as nat);
    }
}

/// The number of slots, from `start` on, that both buffers hold, capped at
/// `limit`.
pub open spec fn slots_available(
    indices_len: nat,
    distances_len: nat,
    start: nat,
    limit: nat,
) -> nat {
    let shorter = if indices_len <= distances_len {
        indices_len
    } else {
        distances_len
    };
    if shorter <= start {
        0
    } else if shorter - start <= limit {
        (shorter - start) as nat
    } else {
        limit
    }
}

/// Reads the neighbors that up to `limit` raw slots from `start` on report,
/// as far as both buffers reach.
pub fn collect_neighbors<D: Copy>(
    indices: &Vec<i32>,
    distances: &Vec<D>,
    start: usize,
    limit: usize,
) -> (found: Vec<Neighbor<D>>)
    ensures
        found@ == neighbors_in(
            indices@,
            distances@,
            start as int,
            slots_available(indices@.len(), distances@.len(), start as nat, limit as nat),
        ),
        found@.len() <= limit,
{
    let shorter = if indices.len() <= distances.len() {
        indices.len()
    } else {
        distances.len()
    };
    let n = if shorter <= start {
        0
    } else if shorter - start <= limit {
        shorter - start
    } else {
        limit
    };
    let mut found: Vec<Neighbor<D>> = Vec::new();
    let mut k: usize = 0;
    while k < n
        invariant
            k <= n,
            n == 0 || start + n <= indices.len(),
            n == 0 || start + n <= distances.len(),
            found@ == neighbors_in(indices@, distances@, start as int, k as nat),
        decreases n - k,
    {
        let index = indices[start + k];
        if index >= 0 {
            found.push(Neighbor { index: index as usize, distance_squared: distances[start + k] });
        }
        k += 1;
    }
    proof {
        lemma_neighbors_in_len(indices@, distances@, start as int, n as nat);
    }
    found
}

} // verus!
