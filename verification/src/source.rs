//! Byte sources: where the base bytes of a table come from.
//!
//! A source hands out one byte at a time and keeps a log of what it has
//! handed out, so that a contract can name the bytes a caller drew.

use rand::Rng;
use rand::SeedableRng;
use rand::StdRng;
use rand::XorShiftRng;
use vstd::prelude::*;

verus! {

/// Something that produces one random byte on demand.
pub trait ByteSource {
    /// Every byte this source has handed out so far, oldest first.
    spec fn drawn(&self) -> Seq<u8>;

    /// Hands out the next byte and appends it to the log.
    fn next_byte(&mut self) -> (b: u8)
        ensures
            final(self).drawn() == old(self).drawn().push(b),
    ;
}

/// The default entropy source could not be initialised.
#[derive(Clone, Copy, Debug, PartialEq, Eq, Structural)]
pub struct EntropyUnavailable;

/// `rand::XorShiftRng`, carried as an opaque value.
#[verifier::external_type_specification]
#[verifier::external_body]
pub struct ExXorShiftRng(XorShiftRng);

/// `rand::StdRng`, carried as an opaque value.
#[verifier::external_type_specification]
#[verifier::external_body]
pub struct ExStdRng(StdRng);

/// `std::io::Error`, carried as an opaque value.
#[verifier::external_type_specification]
#[verifier::external_body]
pub struct ExIoError(std::io::Error);

/// Calls `rand::StdRng::new`, which seeds a generator from the operating
/// system, or from timing jitter when that cannot be opened, and returns the
/// I/O error when neither is to be had. Nothing is claimed of the outcome.
#[verifier::external_body]
fn system_rng() -> (r: Result<StdRng, std::io::Error>) {
    StdRng::new()
}

/// Calls `rand::Rng::gen` on a `StdRng` for a fresh `XorShiftRng`, whose
/// state is four random words, not all zero. Nothing is claimed of it.
#[verifier::external_body]
fn spawn_xorshift(parent: &mut StdRng) -> (rng: XorShiftRng) {
    parent.gen::<XorShiftRng>()
}

/// Calls `rand::SeedableRng::from_seed` for `XorShiftRng`, which panics on
/// a seed of four zeros; the precondition rules that seed out. Nothing is
/// claimed of the generator's state.
#[verifier::external_body]
fn seed_xorshift(seed: [u32; 4]) -> (rng: XorShiftRng)
    requires
        !(seed[0] == 0 && seed[1] == 0 && seed[2] == 0 && seed[3] == 0),
{
    XorShiftRng::from_seed(seed)
}

/// Calls `rand::Rng::gen::<u8>` on an `XorShiftRng`: the low byte of the
/// generator's next word. Nothing is claimed of the byte.
#[verifier::external_body]
fn xorshift_byte(rng: &mut XorShiftRng) -> (b: u8) {
    rng.gen::<u8>()
}

/// A byte source backed by `rand`'s xorshift generator.
pub struct XorShift {
    rng: XorShiftRng,
    log: Ghost<Seq<u8>>,
}

impl XorShift {
    /// A generator seeded at random, as `rand::weak_rng` seeds one, except
    /// that missing entropy is reported as `EntropyUnavailable`. Whether
    /// there is entropy is for the operating system to say.
    pub fn from_entropy() -> (r: Result<XorShift, EntropyUnavailable>)
        ensures
            r matches Ok(s) ==> s.drawn() == Seq::<u8>::empty(),
    {
        XorShift::from_system(system_rng())
    }

    /// What becomes of the system generator's answer: a generator that
    /// was seeded yields an xorshift generator with an empty log, and a
    /// failure to seed one is `EntropyUnavailable`.
    pub fn from_system(seeded: Result<StdRng, std::io::Error>) -> (r: Result<
        XorShift,
        EntropyUnavailable,
    >)
        ensures
            r is Ok <==> seeded is Ok,
            r matches Ok(s) ==> s.drawn() == Seq::<u8>::empty(),
    {
        match seeded {
            Ok(mut parent) => {
                let rng = spawn_xorshift(&mut parent);
                Ok(XorShift { rng, log: Ghost(Seq::empty()) })
            },
            Err(_) => Err(EntropyUnavailable),
        }
    }

    /// A generator with the given state, or `None` for the all-zero seed,
    /// from which xorshift never moves.
    pub fn from_seed(seed: [u32; 4]) -> (r: Option<XorShift>)
        ensures
            r is None <==> seed@ == seq![0u32, 0u32, 0u32, 0u32],
            r matches Some(s) ==> s.drawn() == Seq::<u8>::empty(),
    {
        if seed[0] == 0 && seed[1] == 0 && seed[2] == 0 && seed[3] == 0 {
            assert(seed@ =~= seq![0u32, 0u32, 0u32, 0u32]);
            None
        } else {
            let rng = seed_xorshift(seed);
            Some(XorShift { rng, log: Ghost(Seq::empty()) })
        }
    }
}

impl ByteSource for XorShift {
    closed spec fn drawn(&self) -> Seq<u8> {
        self.log@
    }

    fn next_byte(&mut self) -> (b: u8) {
        let b = xorshift_byte(&mut self.rng);
        proof {
            self.log@ = self.log@.push(b);
        }
        b
    }
}

} // verus!
