//! Key pools of the join tables.
//!
//! The keys of one join column come from a domain `1..=D`, where `D` is one
//! tenth more than the population `n / scale`. The domain is permuted with a
//! stream of its own, and the pool keeps the first nine tenths of the
//! population and the tail beyond the population. The tenth in between never
//! enters the pool, so tables sampled from it leave some keys unmatched.

use crate::buffer::with_room;
use crate::error::{Constraint, GenError};
use crate::stream::Stream;
use crate::text::{decimal, decimal_len, id_prefix};
use vstd::prelude::*;

verus! {

/// How many rows share one key of a join column.
#[derive(Clone, Copy, Debug, PartialEq, Eq, Structural)]
pub enum Scale {
    /// One key per million rows.
    Millions,
    /// One key per thousand rows.
    Thousands,
    /// One key per row.
    Units,
}

impl Scale {
    /// The number of rows per key.
    pub open spec fn divisor(self) -> int {
        match self {
            Scale::Millions => 1_000_000,
            Scale::Thousands => 1_000,
            Scale::Units => 1,
        }
    }

    /// The number of rows per key.
    pub fn rows_per_key(self) -> (rows: i64)
        ensures
            rows == self.divisor(),
    {
        match self {
            Scale::Millions => 1_000_000,
            Scale::Thousands => 1_000,
            Scale::Units => 1,
        }
    }
}

/// The size `D` of the key domain: `n * 1.1 / scale`, rounded down.
pub open spec fn domain_size(n: int, scale: Scale) -> int {
    match scale {
        Scale::Millions => (n * 11) / 10_000_000,
        Scale::Thousands => (n * 11) / 10_000,
        Scale::Units => (n * 11) / 10,
    }
}

/// Where the matching slice ends: `n * 0.9 / scale`, rounded down.
pub open spec fn match_end(n: int, scale: Scale) -> int {
    match scale {
        Scale::Millions => (n * 9) / 10_000_000,
        Scale::Thousands => (n * 9) / 10_000,
        Scale::Units => (n * 9) / 10,
    }
}

/// Where the tail slice starts: the population `n / scale`, rounded down.
pub open spec fn tail_start(n: int, scale: Scale) -> int {
    match scale {
        Scale::Millions => n / 1_000_000,
        Scale::Thousands => n / 1_000,
        Scale::Units => n,
    }
}

/// Whether the slice bounds lie in the domain, in order, and the domain
/// holds 64-bit keys only.
pub open spec fn bounds_consistent(n: int, scale: Scale) -> bool {
    0 <= match_end(n, scale) <= tail_start(n, scale) <= domain_size(n, scale) <= i64::MAX
}

/// The number of keys in the pool.
pub open spec fn pool_len(n: int, scale: Scale) -> int {
    match_end(n, scale) + domain_size(n, scale) - tail_start(n, scale)
}

/// The keys `1, 2, .., d` in order.
pub open spec fn identity(d: nat) -> Seq<i64> {
    Seq::new(d, |i: int| (i + 1) as i64)
}

/// `p` with the entries at `i` and `j` exchanged; `p` itself where one of
/// them is no index of `p`.
pub open spec fn swapped(p: Seq<i64>, i: int, j: int) -> Seq<i64> {
    if 0 <= i < p.len() && 0 <= j < p.len() {
        p.update(i, p[j]).update(j, p[i])
    } else {
        p
    }
}

/// The shuffle from position `i` down: each position from `i` to 1 is
/// exchanged with a position drawn uniformly from those not above it.
pub open spec fn shuffle_from(p: Seq<i64>, stream: Stream, i: int) -> (Seq<i64>, Stream)
    decreases i,
{
    if i <= 0 {
        (p, stream)
    } else {
        let drawn = stream.uniform(0, i as i64);
        shuffle_from(swapped(p, i, drawn.0 as int), drawn.1, i - 1)
    }
}

/// The permutation of the domain `1..=d` that `stream` gives, and the stream
/// after it.
pub open spec fn permutation(d: nat, stream: Stream) -> (Seq<i64>, Stream) {
    shuffle_from(identity(d), stream, d - 1)
}

/// The pool carved from a permutation `p` of the domain: the matching slice
/// and the tail slice, without what lies between them.
pub open spec fn carve(p: Seq<i64>, n: int, scale: Scale) -> Seq<i64> {
    p.subrange(0, match_end(n, scale)) + p.subrange(tail_start(n, scale), domain_size(n, scale))
}

/// The key pool of `n` rows at `scale`, permuted by `stream`.
pub open spec fn pool_keys(n: int, scale: Scale, stream: Stream) -> Seq<i64> {
    carve(permutation(domain_size(n, scale) as nat, stream).0, n, scale)
}

/// The key drawn from `pool` at `stream`: one uniform draw over the indices,
/// and the key at that index; with the stream after the draw.
pub open spec fn sample_key(pool: Seq<i64>, stream: Stream) -> (i64, Stream) {
    let drawn = stream.uniform(0, (pool.len() - 1) as i64);
    (pool[drawn.0 as int], drawn.1)
}

/// Whether `p` holds each of its keys once, all of them in `1..=d`.
pub open spec fn distinct_in_domain(p: Seq<i64>, d: int) -> bool {
    &&& p.len() == d
    &&& forall|i: int| 0 <= i < p.len() ==> 1 <= #[trigger] p[i] <= d
    &&& forall|i: int, j: int| 0 <= i < j < p.len() ==> #[trigger] p[i] != #[trigger] p[j]
}

/// The slice bounds are consistent exactly for a row count that is not
/// negative and whose domain holds 64-bit keys only.
pub proof fn lemma_bounds_consistent(n: int, scale: Scale)
    ensures
        bounds_consistent(n, scale) <==> n >= 0 && domain_size(n, scale) <= i64::MAX,
        bounds_consistent(n, scale) ==> 0 <= pool_len(n, scale) <= domain_size(n, scale),
{
    match scale {
        Scale::Millions => {},
        Scale::Thousands => {},
        Scale::Units => {},
    }
}

/// Exchanging two entries keeps the keys distinct and in the domain.
proof fn lemma_swapped_distinct(p: Seq<i64>, d: int, i: int, j: int)
    requires
        distinct_in_domain(p, d),
    ensures
        distinct_in_domain(swapped(p, i, j), d),
{
    let q = swapped(p, i, j);
    if 0 <= i < p.len() && 0 <= j < p.len() {
        assert forall|a: int, b: int| 0 <= a < b < q.len() implies #[trigger] q[a] != #[trigger] q[b] by {
            let from_a = if a == i {
                j
            } else if a == j {
                i
            } else {
                a
            };
            let from_b = if b == i {
                j
            } else if b == j {
                i
            } else {
                b
            };
            assert(q[a] == p[from_a]);
            assert(q[b] == p[from_b]);
            assert(from_a != from_b);
            if from_a < from_b {
                assert(p[from_a] != p[from_b]);
            } else {
                assert(p[from_b] != p[from_a]);
            }
        }
        assert forall|a: int| 0 <= a < q.len() implies 1 <= #[trigger] q[a] <= d by {
            let from_a = if a == i {
                j
            } else if a == j {
                i
            } else {
                a
            };
            assert(q[a] == p[from_a]);
        }
    }
}

/// The shuffle keeps the keys distinct and in the domain.
pub proof fn lemma_shuffle_distinct(p: Seq<i64>, d: int, stream: Stream, i: int)
    requires
        distinct_in_domain(p, d),
    ensures
        distinct_in_domain(shuffle_from(p, stream, i).0, d),
    decreases i,
{
    if i > 0 {
        let drawn = stream.uniform(0, i as i64);
        lemma_swapped_distinct(p, d, i, drawn.0 as int);
        lemma_shuffle_distinct(swapped(p, i, drawn.0 as int), d, drawn.1, i - 1);
    }
}

/// The permutation of a domain holds each key of `1..=d` at most once and no
/// other key.
pub proof fn lemma_permutation_distinct(d: nat, stream: Stream)
    requires
        d <= i64::MAX,
    ensures
        distinct_in_domain(permutation(d, stream).0, d as int),
{
    assert(distinct_in_domain(identity(d), d as int));
    lemma_shuffle_distinct(identity(d), d as int, stream, d - 1);
}

/// Every key of a pool lies in the domain `1..=D`, no key occurs twice in
/// the pool, and no key of the permutation's slice between the matching
/// slice and the tail slice is in the pool.
pub proof fn lemma_pool_excludes_gap(n: int, scale: Scale, stream: Stream)
    requires
        bounds_consistent(n, scale),
    ensures
        pool_keys(n, scale, stream).len() == pool_len(n, scale),
        forall|i: int|
            0 <= i < pool_len(n, scale) ==> 1 <= #[trigger] pool_keys(n, scale, stream)[i]
                <= domain_size(n, scale),
        pool_keys(n, scale, stream).no_duplicates(),
        forall|g: int|
            match_end(n, scale) <= g < tail_start(n, scale) ==> !pool_keys(n, scale, stream).contains(
                #[trigger] permutation(domain_size(n, scale) as nat, stream).0[g],
            ),
{
    let d = domain_size(n, scale);
    let a = match_end(n, scale);
    let b = tail_start(n, scale);
    let p = permutation(d as nat, stream).0;
    let pool = pool_keys(n, scale, stream);
    lemma_permutation_distinct(d as nat, stream);
    lemma_carve_indices(p, n, scale);
    assert forall|i: int| 0 <= i < pool_len(n, scale) implies 1 <= #[trigger] pool[i] <= d by {
        assert(pool[i] == p[pool_source(i, n, scale)]);
    }
    assert forall|i: int, j: int| 0 <= i < pool.len() && 0 <= j < pool.len() && i != j implies pool[i]
        != pool[j] by {
        let from_i = pool_source(i, n, scale);
        let from_j = pool_source(j, n, scale);
        assert(pool[i] == p[from_i]);
        assert(pool[j] == p[from_j]);
        if from_i < from_j {
            assert(p[from_i] != p[from_j]);
        } else {
            assert(p[from_j] != p[from_i]);
        }
    }
    assert forall|g: int| a <= g < b implies !pool.contains(#[trigger] p[g]) by {
        if pool.contains(p[g]) {
            let i = choose|i: int| 0 <= i < pool.len() && pool[i] == p[g];
            let from_i = pool_source(i, n, scale);
            assert(pool[i] == p[from_i]);
            if from_i < g {
                assert(p[from_i] != p[g]);
            } else {
                assert(p[g] != p[from_i]);
            }
        }
    }
}

/// The index in the permutation of the key at index `i` of the pool.
pub open spec fn pool_source(i: int, n: int, scale: Scale) -> int {
    if i < match_end(n, scale) {
        i
    } else {
        i - match_end(n, scale) + tail_start(n, scale)
    }
}

/// Each key of a carved pool is the key of the permutation at its source
/// index, which lies outside the slice left out.
proof fn lemma_carve_indices(p: Seq<i64>, n: int, scale: Scale)
    requires
        bounds_consistent(n, scale),
        p.len() == domain_size(n, scale),
    ensures
        carve(p, n, scale).len() == pool_len(n, scale),
        forall|i: int|
            0 <= i < pool_len(n, scale) ==> #[trigger] carve(p, n, scale)[i] == p[pool_source(
                i,
                n,
                scale,
            )],
        forall|i: int|
            0 <= i < pool_len(n, scale) ==> 0 <= #[trigger] pool_source(i, n, scale) < p.len() && !(
            match_end(n, scale) <= pool_source(i, n, scale) < tail_start(n, scale)),
{
}

/// Why no pool can be made for `n` rows at `scale`, if there is a reason:
/// inconsistent slice bounds come first, an empty pool second.
pub open spec fn pool_refusal(n: i64, scale: Scale) -> Option<GenError> {
    if !bounds_consistent(n as int, scale) {
        Some(GenError::IndexingError { rows: n, scale })
    } else if pool_len(n as int, scale) < 1 {
        Some(GenError::InvalidRange(Constraint::KeyCount))
    } else {
        None
    }
}

/// Why no plain pool can be made for `n` rows at `scale`, if there is a
/// reason: the population `n / scale` holds no key.
pub open spec fn plain_refusal(n: i64, scale: Scale) -> Option<GenError> {
    if tail_start(n as int, scale) < 1 {
        Some(GenError::InvalidRange(Constraint::KeyCount))
    } else {
        None
    }
}

/// The greatest key that a table of `n` rows can hold in its first key
/// column: the size of the domain at one key per million rows, and 0 for a
/// negative `n`.
pub open spec fn greatest_key(n: int) -> nat {
    if n < 0 {
        0
    } else {
        domain_size(n, Scale::Millions) as nat
    }
}

/// The length of the id string of the greatest key of `n` rows: the two
/// letters of `id` and the decimal digits of the key.
pub open spec fn key_text_width(n: int) -> nat {
    id_prefix().len() + decimal(greatest_key(n)).len()
}

/// The length of the id string of the greatest key that a table of `n` rows
/// can hold in its first key column. It serves to size text buffers once for
/// a call.
pub fn key_text_len(n: i64) -> (width: usize)
    ensures
        width == key_text_width(n as int),
        3 <= width <= 22,
{
    let greatest: u64 = if n < 0 {
        0
    } else {
        ((n as i128) * 11 / 10_000_000) as u64
    };
    decimal_len(greatest) + 2
}

/// The keys `1, 2, .., d` in order.
fn identity_keys(d: i64) -> (keys: Vec<i64>)
    requires
        0 <= d,
    ensures
        keys@ == identity(d as nat),
{
    let mut keys: Vec<i64> = with_room(d);
    let mut last: i64 = 0;
    while last < d
        invariant
            0 <= last <= d,
            keys@ == identity(last as nat),
        decreases d - last,
    {
        last = last + 1;
        keys.push(last);
        assert(keys@ =~= identity(last as nat));
    }
    keys
}

/// Shuffles `keys` in place with draws from `stream`.
fn shuffle(keys: &mut Vec<i64>, stream: &mut Stream)
    requires
        old(keys)@.len() <= i64::MAX,
    ensures
        (final(keys)@, *final(stream)) == shuffle_from(
            old(keys)@,
            *old(stream),
            old(keys)@.len() - 1,
        ),
{
    let mut i: usize = keys.len();
    while i > 1
        invariant
            i <= keys@.len(),
            keys@.len() == old(keys)@.len(),
            keys@.len() <= i64::MAX,
            shuffle_from(keys@, *stream, i - 1) == shuffle_from(
                old(keys)@,
                *old(stream),
                old(keys)@.len() - 1,
            ),
        decreases i,
    {
        i = i - 1;
        let ghost before = keys@;
        let j = stream.draw_index(i);
        let upper = keys[i];
        let lower = keys[j];
        keys[i] = lower;
        keys[j] = upper;
        assert(keys@ =~= swapped(before, i as int, j as int));
    }
}

/// The keys of `p` without those from index `from` up to index `to`.
fn without_slice(p: &Vec<i64>, from: usize, to: usize) -> (rest: Vec<i64>)
    requires
        from <= to <= p@.len(),
    ensures
        rest@ == p@.subrange(0, from as int) + p@.subrange(to as int, p@.len() as int),
{
    let mut rest: Vec<i64> = Vec::new();
    let mut i: usize = 0;
    while i < from
        invariant
            i <= from <= to <= p@.len(),
            rest@ == p@.subrange(0, i as int),
        decreases from - i,
    {
        rest.push(p[i]);
        i = i + 1;
        assert(rest@ =~= p@.subrange(0, i as int));
    }
    let mut i: usize = to;
    while i < p.len()
        invariant
            from <= to <= i <= p@.len(),
            rest@ == p@.subrange(0, from as int) + p@.subrange(to as int, i as int),
        decreases p@.len() - i,
    {
        rest.push(p[i]);
        i = i + 1;
        assert(rest@ =~= p@.subrange(0, from as int) + p@.subrange(to as int, i as int));
    }
    rest
}

/// The keys of a pool: listed one by one, or all of `1..=count`.
#[derive(Debug)]
enum Keys {
    Listed(Vec<i64>),
    Counted(i64),
}

/// The keys that one join column is sampled from: distinct, in a fixed
/// order, and at least one.
#[derive(Debug)]
pub struct KeyPool {
    keys: Keys,
}

impl View for KeyPool {
    type V = Seq<i64>;

    closed spec fn view(&self) -> Seq<i64> {
        match self.keys {
            Keys::Listed(listed) => listed@,
            Keys::Counted(count) => identity(count as nat),
        }
    }
}

impl KeyPool {
    #[verifier::type_invariant]
    spec fn populated(self) -> bool {
        &&& 1 <= self@.len() <= i64::MAX
        &&& self@.no_duplicates()
        &&& self.keys matches Keys::Counted(count) ==> count >= 1
    }

    /// The pool of `n` rows at `scale`: the domain permuted with draws from
    /// `keys`, without the slice between the matching keys and the tail.
    /// Refused without a draw where the slice bounds are inconsistent or the
    /// pool would be empty.
    pub fn permuted(n: i64, scale: Scale, keys: &mut Stream) -> (made: Result<KeyPool, GenError>)
        ensures
            made is Ok <==> pool_refusal(n, scale) is None,
            made matches Ok(pool) ==> pool@ == pool_keys(n as int, scale, *old(keys)) && pool@.len()
                == pool_len(n as int, scale) && pool@.no_duplicates(),
            made is Ok ==> *final(keys) == permutation(
                domain_size(n as int, scale) as nat,
                *old(keys),
            ).1,
            made matches Err(error) ==> pool_refusal(n, scale) == Some(error),
            made is Err ==> *final(keys) == *old(keys),
    {
        proof {
            lemma_bounds_consistent(n as int, scale);
        }
        if n < 0 {
            return Err(GenError::IndexingError { rows: n, scale });
        }
        let wide = n as i128;
        let (wide_domain, wide_matched, population): (i128, i128, i64) = match scale {
            Scale::Millions => (wide * 11 / 10_000_000, wide * 9 / 10_000_000, n / 1_000_000),
            Scale::Thousands => (wide * 11 / 10_000, wide * 9 / 10_000, n / 1_000),
            Scale::Units => (wide * 11 / 10, wide * 9 / 10, n),
        };
        if wide_domain > i64::MAX as i128 {
            return Err(GenError::IndexingError { rows: n, scale });
        }
        let domain = wide_domain as i64;
        let matched = wide_matched as i64;
        if matched + (domain - population) < 1 {
            return Err(GenError::InvalidRange(Constraint::KeyCount));
        }
        let mut p = identity_keys(domain);
        shuffle(&mut p, keys);
        proof {
            lemma_permutation_distinct(domain as nat, *old(keys));
            lemma_pool_excludes_gap(n as int, scale, *old(keys));
            assert(p@ == permutation(domain as nat, *old(keys)).0);
            assert(p@.len() == p.len());
        }
        let listed = without_slice(&p, matched as usize, population as usize);
        assert(listed@ == pool_keys(n as int, scale, *old(keys)));
        Ok(KeyPool { keys: Keys::Listed(listed) })
    }

    /// The pool of the keys `1..=n / scale` in order, not permuted. Refused
    /// where the population holds no key.
    pub fn plain(n: i64, scale: Scale) -> (made: Result<KeyPool, GenError>)
        ensures
            made is Ok <==> plain_refusal(n, scale) is None,
            made matches Ok(pool) ==> pool@ == identity(tail_start(n as int, scale) as nat)
                && pool@.len() == tail_start(n as int, scale) && pool@.no_duplicates(),
            made matches Err(error) ==> plain_refusal(n, scale) == Some(error),
    {
        if n < scale.rows_per_key() {
            return Err(GenError::InvalidRange(Constraint::KeyCount));
        }
        let count = match scale {
            Scale::Millions => n / 1_000_000,
            Scale::Thousands => n / 1_000,
            Scale::Units => n,
        };
        assert(identity(count as nat).no_duplicates());
        Ok(KeyPool { keys: Keys::Counted(count) })
    }

    /// The number of keys.
    pub fn len(&self) -> (count: i64)
        ensures
            count == self@.len(),
            count >= 1,
    {
        proof {
            use_type_invariant(self);
        }
        match &self.keys {
            Keys::Listed(listed) => listed.len() as i64,
            Keys::Counted(count) => *count,
        }
    }

    /// The key at `index`, if the pool has one there.
    pub fn get(&self, index: i64) -> (key: Option<i64>)
        ensures
            key is Some <==> 0 <= index < self@.len(),
            key matches Some(k) ==> k == self@[index as int],
    {
        proof {
            use_type_invariant(self);
        }
        if index < 0 || index >= self.len() {
            return None;
        }
        match &self.keys {
            Keys::Listed(listed) => {
                assert(listed@.len() == listed.len());
                Some(listed[index as usize])
            },
            Keys::Counted(_) => Some(index + 1),
        }
    }

    /// Samples one key, with replacement: one uniform draw over the indices
    /// of the pool, and the key at the index drawn.
    pub fn sample(&self, stream: &mut Stream) -> (key: i64)
        ensures
            (key, *final(stream)) == sample_key(self@, *old(stream)),
            self@.contains(key),
    {
        proof {
            use_type_invariant(self);
        }
        let last = self.len() - 1;
        let index = stream.draw_between(0, last);
        let key = match &self.keys {
            Keys::Listed(listed) => {
                assert(listed@.len() == listed.len());
                listed[index as usize]
            },
            Keys::Counted(_) => index + 1,
        };
        assert(key == self@[index as int]);
        key
    }
}

} // verus!
