//! The simplex lattice: cell coordinates, the three corners of a cell's
//! triangle, and the hash that gives each lattice point its gradient index.
//!
//! A lookup `table[a + table[b]]` with `a, b <= 256` never leaves a doubled
//! table and needs no second wrap; it yields the hash of the lattice point
//! that `(a, b)` stands for.

use crate::table::is_doubled;
use crate::table::lemma_entry_wraps;
use vstd::prelude::*;

verus! {

/// Position of cell coordinate `i` in the base sequence: `i mod 256`, in `[0, 256)`.
pub open spec fn wrap(i: int) -> int {
    i % 256
}

/// Wraps a cell coordinate into the base range with a bit mask.
pub fn wrap_index(i: i64) -> (w: usize)
    ensures
        w == wrap(i as int),
        w < 256,
{
    assert((i & 255) == i % 256 && 0 <= (i & 255) < 256) by (bit_vector);
    (i & 255) as usize
}

/// Offset `(i1, j1)` of a triangle's middle corner from the cell origin:
/// `(1, 0)` in the lower triangle, where the point's `x` offset exceeds its
/// `y` offset, and `(0, 1)` in the upper triangle otherwise.
pub open spec fn middle_offset(x_exceeds_y: bool) -> (int, int) {
    if x_exceeds_y {
        (1, 0)
    } else {
        (0, 1)
    }
}

/// Picks the middle corner of the triangle a point lies in, given whether
/// its `x` offset from the cell origin exceeds its `y` offset.
pub fn middle_corner(x_exceeds_y: bool) -> (o: (usize, usize))
    ensures
        (o.0 as int, o.1 as int) == middle_offset(x_exceeds_y),
{
    if x_exceeds_y {
        (1, 0)
    } else {
        (0, 1)
    }
}

/// Gradient index of lattice point `(a, b)` under the base bytes `base`.
pub open spec fn lattice_hash(base: Seq<u8>, a: int, b: int) -> u8
    recommends
        base.len() == 256,
{
    base[wrap(a + base[wrap(b)])]
}

/// The lattice hash repeats every 256 cells in either direction.
pub proof fn lemma_lattice_hash_periodic(base: Seq<u8>, a: int, b: int, m: int, n: int)
    ensures
        lattice_hash(base, a + 256 * m, b + 256 * n) == lattice_hash(base, a, b),
{
    assert(wrap(b + 256 * n) == wrap(b));
    let inner = base[wrap(b)];
    assert(wrap(a + 256 * m + inner) == wrap(a + inner));
}

/// The gradient indices of a cell's three corners as the table yields them:
/// with `ii`, `jj` the wrapped cell coordinates and `(i1, j1)` the middle
/// corner, `t[ii + t[jj]]`, `t[ii + i1 + t[jj + j1]]` and
/// `t[ii + 1 + t[jj + 1]]`.
pub open spec fn corner_hashes(t: Seq<u8>, i: int, j: int, x_exceeds_y: bool) -> Seq<u8>
    recommends
        t.len() == 512,
{
    let ii = wrap(i);
    let jj = wrap(j);
    let (i1, j1) = middle_offset(x_exceeds_y);
    seq![t[ii + t[jj]], t[ii + i1 + t[jj + j1]], t[ii + 1 + t[jj + 1]]]
}

/// In a doubled table the unwrapped lookups give each corner the hash of
/// its own lattice point: the origin `(i, j)`, the middle corner
/// `(i + i1, j + j1)` and the far corner `(i + 1, j + 1)`. Cells that share
/// a corner therefore agree on its gradient index.
pub proof fn lemma_corners_are_lattice_points(t: Seq<u8>, i: int, j: int, x_exceeds_y: bool)
    requires
        is_doubled(t),
    ensures
        corner_hashes(t, i, j, x_exceeds_y) == seq![
            lattice_hash(t.take(256), i, j),
            lattice_hash(t.take(256), i + middle_offset(x_exceeds_y).0, j + middle_offset(x_exceeds_y).1),
            lattice_hash(t.take(256), i + 1, j + 1),
        ],
{
    let (i1, j1) = middle_offset(x_exceeds_y);
    lemma_lookup_is_lattice_hash(t, i, j, 0, 0);
    lemma_lookup_is_lattice_hash(t, i, j, i1, j1);
    lemma_lookup_is_lattice_hash(t, i, j, 1, 1);
}

/// One unwrapped lookup, for a corner at offset `(di, dj)` from the origin.
proof fn lemma_lookup_is_lattice_hash(t: Seq<u8>, i: int, j: int, di: int, dj: int)
    requires
        is_doubled(t),
        0 <= di <= 1,
        0 <= dj <= 1,
    ensures
        t[wrap(i) + di + t[wrap(j) + dj]] == lattice_hash(t.take(256), i + di, j + dj),
{
    let base = t.take(256);
    let inner = t[wrap(j) + dj];
    lemma_entry_wraps(t, wrap(j) + dj);
    assert((wrap(j) + dj) % 256 == wrap(j + dj));
    assert(inner == base[wrap(j + dj)]);
    lemma_entry_wraps(t, wrap(i) + di + inner);
    assert((wrap(i) + di + inner) % 256 == wrap(i + di + inner));
}

} // verus!
