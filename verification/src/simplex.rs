//! The noise generator: a doubled table and the lookups an evaluator makes
//! in it for one cell of the simplex lattice.

use crate::gradient::Gradient;
use crate::lattice::corner_hashes;
use crate::lattice::lattice_hash;
use crate::lattice::lemma_corners_are_lattice_points;
use crate::lattice::middle_corner;
use crate::lattice::middle_offset;
use crate::lattice::wrap_index;
use crate::source::ByteSource;
use crate::source::EntropyUnavailable;
use crate::source::XorShift;
use crate::table::double;
use crate::table::doubled;
use crate::table::is_doubled;
use crate::table::lemma_doubled_from_lower_half;
use crate::table::lemma_doubled_is_doubled;
use vstd::prelude::*;

verus! {

/// A simplex noise generator. It owns its table and nothing else.
pub struct Simplex {
    perm: [u8; 512],
}

impl View for Simplex {
    type V = Seq<u8>;

    /// The table: 512 bytes.
    closed spec fn view(&self) -> Seq<u8> {
        self.perm@
    }
}

impl Simplex {
    #[verifier::type_invariant]
    spec fn doubled_inv(&self) -> bool {
        is_doubled(self.perm@)
    }

    /// The 256 bytes the table was built from.
    pub open spec fn base(&self) -> Seq<u8> {
        self@.take(256)
    }

    /// The generator whose table is built from the given base bytes.
    pub fn from_bytes(base: &[u8; 256]) -> (s: Simplex)
        ensures
            s@ == doubled(base@),
            s.base() == base@,
            is_doubled(s@),
    {
        let perm = double(base);
        proof {
            lemma_doubled_is_doubled(base@);
        }
        Simplex { perm }
    }

    /// Draws 256 bytes from `rng` and builds the generator from them, in the
    /// order drawn.
    pub fn from_rng<R: ByteSource>(rng: &mut R) -> (s: Simplex)
        ensures
            final(rng).drawn() == old(rng).drawn() + s.base(),
            s@ == doubled(s.base()),
            is_doubled(s@),
    {
        let mut base: [u8; 256] = [0u8; 256];
        let mut n: usize = 0;
        while n < 256
            invariant
                n <= 256,
                rng.drawn() == old(rng).drawn() + base@.take(n as int),
            decreases 256 - n,
        {
            let b = rng.next_byte();
            base[n] = b;
            assert(base@.take(n + 1) =~= base@.take(n as int).push(b));
            n += 1;
        }
        assert(base@.take(256) =~= base@);
        Simplex::from_bytes(&base)
    }

    /// A generator seeded from the operating system's entropy, or
    /// `EntropyUnavailable` when there is none to be had.
    pub fn new() -> (r: Result<Simplex, EntropyUnavailable>)
        ensures
            r matches Ok(s) ==> is_doubled(s@) && s@ == doubled(s.base()),
    {
        let mut seeding = XorShift::from_entropy();
        Simplex::from_seeding(&mut seeding)
    }

    /// What becomes of an attempt to seed a source: from a source that
    /// was seeded, the generator drawn from it, the source moving on by
    /// the 256 bytes drawn; from a failure, the same failure.
    pub fn from_seeding<R: ByteSource>(seeding: &mut Result<R, EntropyUnavailable>) -> (r: Result<
        Simplex,
        EntropyUnavailable,
    >)
        ensures
            r is Ok <==> *old(seeding) is Ok,
            *final(seeding) is Ok <==> *old(seeding) is Ok,
            *old(seeding) is Err ==> *final(seeding) == *old(seeding),
            r matches Ok(s) ==> is_doubled(s@) && s@ == doubled(s.base())
                && (*final(seeding))->Ok_0.drawn() == (*old(seeding))->Ok_0.drawn() + s.base(),
    {
        match seeding {
            Ok(rng) => Ok(Simplex::from_rng(rng)),
            Err(e) => Err(*e),
        }
    }

    /// The table.
    pub fn table(&self) -> (t: &[u8; 512])
        ensures
            t@ == self@,
            is_doubled(self@),
    {
        proof {
            use_type_invariant(self);
        }
        &self.perm
    }

    /// The gradient indices of the three corners of the triangle in cell
    /// `(i, j)`: the origin, the middle corner that `x_exceeds_y` selects,
    /// and the far corner, in that order.
    pub fn corner_hashes(&self, i: i64, j: i64, x_exceeds_y: bool) -> (g: [u8; 3])
        ensures
            g@ == corner_hashes(self@, i as int, j as int, x_exceeds_y),
            g@ == seq![
                lattice_hash(self.base(), i as int, j as int),
                lattice_hash(
                    self.base(),
                    i + middle_offset(x_exceeds_y).0,
                    j + middle_offset(x_exceeds_y).1,
                ),
                lattice_hash(self.base(), i + 1, j + 1),
            ],
    {
        proof {
            use_type_invariant(self);
            lemma_corners_are_lattice_points(self@, i as int, j as int, x_exceeds_y);
        }
        let ii = wrap_index(i);
        let jj = wrap_index(j);
        let (i1, j1) = middle_corner(x_exceeds_y);
        let gi0 = self.perm[ii + self.perm[jj] as usize];
        let gi1 = self.perm[ii + i1 + self.perm[jj + j1] as usize];
        let gi2 = self.perm[ii + 1 + self.perm[jj + 1] as usize];
        let g = [gi0, gi1, gi2];
        assert(g@ =~= corner_hashes(self@, i as int, j as int, x_exceeds_y));
        g
    }

    /// The gradients of the same three corners, in the same order.
    pub fn corner_gradients(&self, i: i64, j: i64, x_exceeds_y: bool) -> (g: [Gradient; 3])
        ensures
            forall|k: int|
                0 <= k < 3 ==> g@[k] == Gradient::of(
                    corner_hashes(self@, i as int, j as int, x_exceeds_y)[k],
                ),
    {
        let h = self.corner_hashes(i, j, x_exceeds_y);
        [Gradient::from_hash(h[0]), Gradient::from_hash(h[1]), Gradient::from_hash(h[2])]
    }
}

/// Generators built from the same base bytes hold the same table, and give
/// every triangle of every cell the same corner hashes.
pub proof fn lemma_same_bytes_same_field(a: Simplex, b: Simplex)
    requires
        is_doubled(a@),
        is_doubled(b@),
        a.base() == b.base(),
    ensures
        a@ == b@,
        forall|i: int, j: int, x_exceeds_y: bool|
            corner_hashes(a@, i, j, x_exceeds_y) == corner_hashes(b@, i, j, x_exceeds_y),
{
    lemma_doubled_from_lower_half(a@);
    lemma_doubled_from_lower_half(b@);
}

/// Seed reproducibility. Let `a` be drawn from a source whose log grew from
/// `a_before` to `a_after`, and `b` from one whose log grew from `b_before`
/// to `b_after`, as `Simplex::from_rng` does it. If the two sources handed
/// out the same bytes meanwhile, `a` and `b` are the same noise field.
pub proof fn lemma_same_draws_same_field(
    a: Simplex,
    a_before: Seq<u8>,
    a_after: Seq<u8>,
    b: Simplex,
    b_before: Seq<u8>,
    b_after: Seq<u8>,
)
    requires
        is_doubled(a@),
        is_doubled(b@),
        a_after == a_before + a.base(),
        b_after == b_before + b.base(),
        a_after.skip(a_before.len() as int) == b_after.skip(b_before.len() as int),
    ensures
        a@ == b@,
        forall|i: int, j: int, x_exceeds_y: bool|
            corner_hashes(a@, i, j, x_exceeds_y) == corner_hashes(b@, i, j, x_exceeds_y),
{
    assert(a_after.skip(a_before.len() as int) =~= a.base());
    assert(b_after.skip(b_before.len() as int) =~= b.base());
    lemma_same_bytes_same_field(a, b);
}

} // verus!
