//! Deterministic pseudorandom word stream with an explicit seed.
//!
//! All randomness the simulation consumes (type parameters, initial particle
//! placement) flows through [`SeedStream`], so a world is a pure function of
//! its seeds. The stream itself is ChaCha8, produced by an outside crate; the
//! words it yields are named by the uninterpreted function [`chacha8_word`].

use vstd::prelude::*;
use rand::{RngCore, SeedableRng};

verus! {

#[verifier::external_type_specification]
#[verifier::external_body]
pub struct ExChaCha8Rng(rand_chacha::ChaCha8Rng);

/// The 32-bit word at position `index` of the ChaCha8 key stream grown from
/// `seed`. ChaCha8 is a fixed, portable stream cipher, so this is a function
/// of `seed` and `index` alone.
pub uninterp spec fn chacha8_word(seed: u64, index: int) -> u32;

/// A pseudorandom word source that remembers which seed it was grown from
/// and how many words it has handed out.
pub struct SeedStream {
    rng: rand_chacha::ChaCha8Rng,
    seed: u64,
    drawn: Ghost<int>,
}

impl SeedStream {
    /// The seed this stream was grown from.
    pub closed spec fn spec_seed(&self) -> u64 {
        self.seed
    }

    /// How many words have been drawn so far.
    pub closed spec fn spec_drawn(&self) -> int {
        self.drawn@
    }

    /// Grows a stream from a seed.
    pub fn new(seed: u64) -> (s: SeedStream)
        ensures
            s.spec_seed() == seed,
            s.spec_drawn() == 0,
    {
        SeedStream {
            rng: chacha8_from_seed(seed),
            seed,
            drawn: Ghost(0int),
        }
    }

    /// Hands out the next word of the stream.
    ///
    /// Relies on `rand_chacha::ChaCha8Rng::next_u32` (`rand_core::RngCore`):
    /// successive calls return the words of the seed's ChaCha8 key stream in
    /// order, deterministically on every platform. The `rng` field is
    /// private, built only by [`SeedStream::new`] and advanced only here, so
    /// it always sits `spec_drawn()` words into the stream of `spec_seed()`.
    #[verifier::external_body]
    pub fn next_word(&mut self) -> (w: u32)
        ensures
            w == chacha8_word(old(self).spec_seed(), old(self).spec_drawn()),
            final(self).spec_seed() == old(self).spec_seed(),
            final(self).spec_drawn() == old(self).spec_drawn() + 1,
    {
        self.rng.next_u32()
    }
}

/// Grows the ChaCha8 generator of a seed.
///
/// Relies on `rand_chacha::ChaCha8Rng::from_seed` through
/// `rand_core::SeedableRng::seed_from_u64`, whose default body is documented
/// as a fixed function of the `u64` seed (changing it is called a
/// value-breaking change), so equal seeds give equal generators. The value
/// is opaque; what its words are is stated where they are drawn.
#[verifier::external_body]
fn chacha8_from_seed(seed: u64) -> rand_chacha::ChaCha8Rng {
    rand_chacha::ChaCha8Rng::seed_from_u64(seed)
}

/// The draw at position `index` of the stream of `seed`, folded into the
/// range `[lo, hi)`.
pub open spec fn spec_draw(seed: u64, index: int, lo: i64, hi: i64) -> int {
    lo + (chacha8_word(seed, index) as int) % (hi - lo)
}

/// Draws one value folded into `[lo, hi)`.
pub fn draw_in_range(s: &mut SeedStream, lo: i64, hi: i64) -> (v: i64)
    requires
        lo < hi,
        -0x2000_0000_0000_0000 <= lo,
        hi <= 0x2000_0000_0000_0000,
    ensures
        v == spec_draw(old(s).spec_seed(), old(s).spec_drawn(), lo, hi),
        lo <= v < hi,
        final(s).spec_seed() == old(s).spec_seed(),
        final(s).spec_drawn() == old(s).spec_drawn() + 1,
{
    let w: u32 = s.next_word();
    let span: i64 = hi - lo;
    let folded: u64 = (w as u64) % (span as u64);
    lo + (folded as i64)
}

} // verus!
