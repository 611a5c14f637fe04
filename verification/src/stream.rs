//! Seeded pseudo-random streams and the uniform draws taken from them.
//!
//! A stream is a ChaCha generator with eight rounds. Its whole state is the
//! seed it was made from and the number of 32-bit words already consumed, so
//! a [`Stream`] holds just these two numbers and every draw is a function of
//! them.

use crate::error::{Constraint, GenError};
use rand::distr::{Distribution, Uniform};
use rand::{RngCore, SeedableRng};
use rand_chacha::ChaCha8Rng;
use vstd::prelude::*;

verus! {

/// What `Uniform::<i64>::new_inclusive(low, high)` samples from the ChaCha8
/// generator seeded with `seed` and moved to word `pos`, paired with the
/// word position of the generator after the draw.
pub uninterp spec fn uniform_at(seed: u64, pos: u128, low: i64, high: i64) -> (i64, u128);

/// The 64-bit word that the ChaCha8 generator seeded with `seed` yields at
/// word `pos`, paired with the word position of the generator after it.
pub uninterp spec fn word_at(seed: u64, pos: u128) -> (u64, u128);

/// A point in the pseudo-random stream of one seed.
#[derive(Clone, Copy, Debug)]
pub struct Stream {
    /// The seed the generator was made from.
    pub seed: u64,
    /// How many 32-bit words of the generator's output are already used.
    pub pos: u128,
}

impl Stream {
    /// The stream of `seed`, with nothing drawn yet.
    pub open spec fn start(seed: u64) -> Stream {
        Stream { seed, pos: 0 }
    }

    /// The value of a uniform draw from `low..=high` at this point, and the
    /// stream after it.
    pub open spec fn uniform(self, low: i64, high: i64) -> (i64, Stream) {
        let drawn = uniform_at(self.seed, self.pos, low, high);
        (drawn.0, Stream { seed: self.seed, pos: drawn.1 })
    }

    /// The raw 64-bit word at this point, and the stream after it.
    pub open spec fn word(self) -> (u64, Stream) {
        let drawn = word_at(self.seed, self.pos);
        (drawn.0, Stream { seed: self.seed, pos: drawn.1 })
    }

    /// Opens the stream of `seed`.
    pub fn new(seed: u64) -> (stream: Stream)
        ensures
            stream == Stream::start(seed),
    {
        Stream { seed, pos: 0 }
    }

    /// Draws an integer uniformly from the closed range `low..=high`.
    pub(crate) fn draw_between(&mut self, low: i64, high: i64) -> (value: i64)
        requires
            low <= high,
        ensures
            (value, *final(self)) == old(self).uniform(low, high),
            low <= value <= high,
    {
        let drawn = chacha_uniform(self.seed, self.pos, low, high);
        self.pos = drawn.1;
        drawn.0
    }

    /// Draws an index uniformly from `0..=last`.
    pub(crate) fn draw_index(&mut self, last: usize) -> (index: usize)
        requires
            last <= i64::MAX,
        ensures
            (index as i64, *final(self)) == old(self).uniform(0, last as i64),
            index <= last,
    {
        self.draw_between(0, last as i64) as usize
    }

    /// Draws the next raw 64-bit word.
    pub fn next_word(&mut self) -> (value: u64)
        ensures
            (value, *final(self)) == old(self).word(),
    {
        let drawn = chacha_word(self.seed, self.pos);
        self.pos = drawn.1;
        drawn.0
    }
}

/// A uniform distribution over a closed range of integers that holds at
/// least one value.
#[derive(Clone, Copy, Debug)]
pub struct UniformInt {
    low: i64,
    high: i64,
}

impl UniformInt {
    #[verifier::type_invariant]
    spec fn ordered(self) -> bool {
        self.low <= self.high
    }

    /// The least value of the range.
    pub closed spec fn low(self) -> i64 {
        self.low
    }

    /// The greatest value of the range.
    pub closed spec fn high(self) -> i64 {
        self.high
    }

    /// The distribution over `low..=high`. An empty range, `low > high`, is
    /// refused as a breach of `constraint`.
    pub fn new(low: i64, high: i64, constraint: Constraint) -> (made: Result<UniformInt, GenError>)
        ensures
            made is Ok <==> low <= high,
            made matches Ok(dist) ==> dist.low() == low && dist.high() == high,
            made matches Err(error) ==> error == GenError::InvalidRange(constraint),
    {
        if low <= high {
            Ok(UniformInt { low, high })
        } else {
            Err(GenError::InvalidRange(constraint))
        }
    }

    /// The least value of the range.
    pub fn lower(&self) -> (low: i64)
        ensures
            low == self.low(),
            low <= self.high(),
    {
        proof {
            use_type_invariant(self);
        }
        self.low
    }

    /// The greatest value of the range.
    pub fn upper(&self) -> (high: i64)
        ensures
            high == self.high(),
            self.low() <= high,
    {
        proof {
            use_type_invariant(self);
        }
        self.high
    }

    /// Draws one value of the range from `stream`.
    pub fn sample(&self, stream: &mut Stream) -> (value: i64)
        ensures
            (value, *final(stream)) == old(stream).uniform(self.low(), self.high()),
            self.low() <= value <= self.high(),
    {
        proof {
            use_type_invariant(self);
        }
        stream.draw_between(self.low, self.high)
    }
}

/// Calls `Uniform::new_inclusive(low, high)` and `Distribution::sample` of
/// rand on a `ChaCha8Rng` of rand_chacha, made by `seed_from_u64(seed)` and
/// moved by `set_word_pos(pos)`; returns the sample and `get_word_pos()`.
/// Claimed: the pair is a function of the four arguments, and the sample lies
/// in `low..=high`.
#[verifier::external_body]
fn chacha_uniform(seed: u64, pos: u128, low: i64, high: i64) -> (drawn: (i64, u128))
    requires
        low <= high,
    ensures
        drawn == uniform_at(seed, pos, low, high),
        low <= drawn.0 <= high,
{
    let mut rng = ChaCha8Rng::seed_from_u64(seed);
    rng.set_word_pos(pos);
    let value = Uniform::new_inclusive(low, high).unwrap().sample(&mut rng);
    (value, rng.get_word_pos())
}

/// Calls `RngCore::next_u64` of rand on a `ChaCha8Rng` of rand_chacha, made
/// by `seed_from_u64(seed)` and moved by `set_word_pos(pos)`; returns the word
/// and `get_word_pos()`. Claimed: the pair is a function of the two arguments.
#[verifier::external_body]
fn chacha_word(seed: u64, pos: u128) -> (drawn: (u64, u128))
    ensures
        drawn == word_at(seed, pos),
{
    let mut rng = ChaCha8Rng::seed_from_u64(seed);
    rng.set_word_pos(pos);
    let value = rng.next_u64();
    (value, rng.get_word_pos())
}

} // verus!
