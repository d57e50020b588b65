//! Gradient selection: the low three bits of a hash byte pick one of eight
//! linear forms in `(x, y)`.

use vstd::prelude::*;

verus! {

/// The gradient form a hash byte selects, evaluated at `(x, y)`.
///
/// With `h = hash & 7`: `u, v` are `x, y` when `h < 4` and `y, x` otherwise;
/// bit 0 of `h` negates `u`, bit 1 negates `2v`; the value is their sum.
pub open spec fn grad2(hash: u8, x: int, y: int) -> int {
    let h = hash & 7;
    let u = if h < 4 { x } else { y };
    let v = if h < 4 { y } else { x };
    (if h & 1 != 0 { -u } else { u }) + (if h & 2 != 0 { -2 * v } else { 2 * v })
}

/// A gradient as the coefficients of its linear form `cx * x + cy * y`.
#[derive(Clone, Copy, Debug, PartialEq, Eq, Structural)]
pub struct Gradient {
    pub cx: i8,
    pub cy: i8,
}

impl Gradient {
    /// The linear form evaluated at `(x, y)`.
    pub open spec fn dot(self, x: int, y: int) -> int {
        self.cx * x + self.cy * y
    }

    /// The gradient that `hash` selects.
    pub open spec fn of(hash: u8) -> Gradient {
        Gradient { cx: grad2(hash, 1, 0) as i8, cy: grad2(hash, 0, 1) as i8 }
    }

    /// Selects the gradient for a hash byte.
    pub fn from_hash(hash: u8) -> (g: Gradient)
        ensures
            g == Gradient::of(hash),
            forall|x: int, y: int| g.dot(x, y) == grad2(hash, x, y),
    {
        let h: u8 = hash & 7;
        let unit: i8 = if h & 1 != 0 { -1 } else { 1 };
        let double: i8 = if h & 2 != 0 { -2 } else { 2 };
        let g = if h < 4 {
            Gradient { cx: unit, cy: double }
        } else {
            Gradient { cx: double, cy: unit }
        };
        proof {
            lemma_linear(hash);
        }
        g
    }
}

/// `grad2(hash, ., .)` is the linear form whose coefficients are its values
/// at `(1, 0)` and `(0, 1)`.
pub proof fn lemma_linear(hash: u8)
    ensures
        forall|x: int, y: int| Gradient::of(hash).dot(x, y) == grad2(hash, x, y),
{
    let g = Gradient::of(hash);
    assert forall|x: int, y: int| g.dot(x, y) == grad2(hash, x, y) by {
        assert(g.cx == 1 || g.cx == -1 || g.cx == 2 || g.cx == -2);
        assert(g.cy == 1 || g.cy == -1 || g.cy == 2 || g.cy == -2);
    }
}

/// The eight gradients, in the order of the three bits that select them.
pub open spec fn forms() -> Seq<Gradient> {
    seq![
        Gradient { cx: 1, cy: 2 },
        Gradient { cx: -1i8, cy: 2 },
        Gradient { cx: 1, cy: -2i8 },
        Gradient { cx: -1i8, cy: -2i8 },
        Gradient { cx: 2, cy: 1 },
        Gradient { cx: 2, cy: -1i8 },
        Gradient { cx: -2i8, cy: 1 },
        Gradient { cx: -2i8, cy: -1i8 },
    ]
}

/// Every hash byte selects one of the eight forms, by its low three bits
/// alone; so the value at `(1, 0)` and the value at `(0, 1)` are each one of
/// `-2, -1, 1, 2`, one of them of magnitude 1 and the other of magnitude 2.
pub proof fn lemma_eight_forms(hash: u8)
    ensures
        (hash & 7) < 8,
        Gradient::of(hash) == forms()[(hash & 7) as int],
        Gradient::of(hash) == Gradient::of(hash & 7),
        forall|x: int, y: int| grad2(hash, x, y) == grad2(hash & 7, x, y),
        grad2(hash, 1, 0) == -2 || grad2(hash, 1, 0) == -1 || grad2(hash, 1, 0) == 1 || grad2(
            hash,
            1,
            0,
        ) == 2,
        grad2(hash, 0, 1) == -2 || grad2(hash, 0, 1) == -1 || grad2(hash, 0, 1) == 1 || grad2(
            hash,
            0,
            1,
        ) == 2,
        grad2(hash, 1, 0) * grad2(hash, 1, 0) + grad2(hash, 0, 1) * grad2(hash, 0, 1) == 5,
{
    let h = hash & 7;
    assert(h < 8 && h & 7 == h) by (bit_vector)
        requires
            h == hash & 7,
    ;
    assert((h & 1 != 0) == (h == 1 || h == 3 || h == 5 || h == 7) && (h & 2 != 0) == (h == 2 || h
        == 3 || h == 6 || h == 7)) by (bit_vector)
        requires
            h < 8,
    ;
}

/// The eight forms are pairwise different.
pub proof fn lemma_forms_distinct()
    ensures
        forms().len() == 8,
        forall|a: int, b: int| 0 <= a < b < 8 ==> forms()[a] != forms()[b],
{
}

} // verus!
