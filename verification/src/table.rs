//! The doubled lookup table.
//!
//! A table has 512 entries built from 256 base bytes: entry `k` is base byte
//! `k mod 256`.

use vstd::prelude::*;

verus! {

/// The table built from `base`: entry `k` is `base[k mod 256]`.
pub open spec fn doubled(base: Seq<u8>) -> Seq<u8>
    recommends
        base.len() == 256,
{
    Seq::new(512, |k: int| base[k % 256])
}

/// A table of 512 entries whose upper half repeats its lower half.
pub open spec fn is_doubled(t: Seq<u8>) -> bool {
    &&& t.len() == 512
    &&& forall|i: int| 0 <= i < 256 ==> t[i] == #[trigger] t[i + 256]
}

/// Builds the 512-entry table from its 256 base bytes.
pub fn double(base: &[u8; 256]) -> (t: [u8; 512])
    ensures
        t@ == doubled(base@),
{
    let mut t: [u8; 512] = [0u8; 512];
    let mut k: usize = 0;
    while k < 512
        invariant
            k <= 512,
            forall|m: int| 0 <= m < k ==> t@[m] == base@[m % 256],
        decreases 512 - k,
    {
        assert(k & 255 == k % 256) by (bit_vector);
        t[k] = base[k & 255];
        k += 1;
    }
    assert(t@ =~= doubled(base@));
    t
}

/// Doubling yields a doubled table whose lower half is the base.
pub proof fn lemma_doubled_is_doubled(base: Seq<u8>)
    requires
        base.len() == 256,
    ensures
        is_doubled(doubled(base)),
        doubled(base).take(256) == base,
{
    let t = doubled(base);
    assert forall|i: int| 0 <= i < 256 implies t[i] == #[trigger] t[i + 256] by {
        assert(i % 256 == i && (i + 256) % 256 == i);
    }
    assert forall|i: int| 0 <= i < 256 implies t.take(256)[i] == base[i] by {
        assert(i % 256 == i);
    }
    assert(t.take(256) =~= base);
}

/// A doubled table is the doubling of its lower half.
pub proof fn lemma_doubled_from_lower_half(t: Seq<u8>)
    requires
        is_doubled(t),
    ensures
        t == doubled(t.take(256)),
{
    assert forall|k: int| 0 <= k < 512 implies t[k] == doubled(t.take(256))[k] by {
        lemma_entry_wraps(t, k);
    }
    assert(t =~= doubled(t.take(256)));
}

/// The entry a doubled table holds at `k`, read from its base: `t[k] == base[k mod 256]`.
pub proof fn lemma_entry_wraps(t: Seq<u8>, k: int)
    requires
        is_doubled(t),
        0 <= k < 512,
    ensures
        t[k] == t[k % 256],
        t[k] == t.take(256)[k % 256],
        t.take(256).len() == 256,
{
    if k >= 256 {
        assert(t[k - 256] == t[(k - 256) + 256]);
    }
}

} // verus!
