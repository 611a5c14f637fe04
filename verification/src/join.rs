//! The join tables whose keys are sampled from key pools.
//!
//! The small and the medium table sample their keys from permuted pools,
//! which leave a slice of the key domain out. The big table samples from the
//! plain ranges `1..=n / scale` and nulls some of its keys instead.

use crate::buffer::with_room;
use crate::batch::{
    column_views, outcome_view, Batch, BatchView, Column, ColumnView, FloatColumn, Variant,
};
use crate::error::{Constraint, GenError};
use crate::field::{gate, gated_word, row_count, unfold, NullGate};
use crate::keys::{
    identity, plain_refusal, pool_keys, pool_refusal, sample_key, tail_start, KeyPool,
    Scale, permutation, domain_size,
};
use crate::stream::Stream;
use crate::text::{format_id, id_text};
use vstd::prelude::*;

verus! {

/// The draws of one row of the small join table.
#[derive(Clone, Copy, Debug, PartialEq, Eq)]
pub struct JoinSmallRow {
    /// The key sampled from the pool.
    pub key1: i64,
    /// The word of a floating-point value of `1..=100`.
    pub v2: u64,
}

/// The draws of one row of the medium join table.
#[derive(Clone, Copy, Debug, PartialEq, Eq)]
pub struct JoinMediumRow {
    /// The key sampled from the first pool.
    pub key1: i64,
    /// The key sampled from the second pool.
    pub key2: i64,
    /// The word of a floating-point value of `1..=100`.
    pub v2: u64,
}

/// The draws of one row of the big join table.
#[derive(Clone, Copy, Debug, PartialEq, Eq)]
pub struct JoinBigRow {
    /// The key sampled from the first range.
    pub key1: i64,
    /// The key sampled from the second range.
    pub key2: i64,
    /// The key sampled from the third range.
    pub key3: i64,
    /// Whether `id1` is null.
    pub null1: bool,
    /// Whether `id2` is null.
    pub null2: bool,
    /// Whether `id3` is null.
    pub null3: bool,
    /// The word of a floating-point value of `1..=100`, or a null.
    pub v2: Option<u64>,
}

/// The row of the small table drawn at `stream`, and the stream after it:
/// the key first, then the value.
pub open spec fn join_small_row(stream: Stream, pool: Seq<i64>) -> (JoinSmallRow, Stream) {
    let key1 = sample_key(pool, stream);
    let v2 = key1.1.word();
    (JoinSmallRow { key1: key1.0, v2: v2.0 }, v2.1)
}

/// The row of the medium table drawn at `stream`, and the stream after it:
/// the two keys first, then the value.
pub open spec fn join_medium_row(stream: Stream, pool1: Seq<i64>, pool2: Seq<i64>) -> (
    JoinMediumRow,
    Stream,
) {
    let key1 = sample_key(pool1, stream);
    let key2 = sample_key(pool2, key1.1);
    let v2 = key2.1.word();
    (JoinMediumRow { key1: key1.0, key2: key2.0, v2: v2.0 }, v2.1)
}

/// The row of the big table drawn at `stream`, and the stream after it: the
/// three keys first, then the null gate of each key column, then the gated
/// value.
pub open spec fn join_big_row(
    stream: Stream,
    pool1: Seq<i64>,
    pool2: Seq<i64>,
    pool3: Seq<i64>,
    nas: i64,
) -> (JoinBigRow, Stream) {
    let key1 = sample_key(pool1, stream);
    let key2 = sample_key(pool2, key1.1);
    let key3 = sample_key(pool3, key2.1);
    let null1 = gate(key3.1, nas);
    let null2 = gate(null1.1, nas);
    let null3 = gate(null2.1, nas);
    let v2 = gated_word(null3.1, nas);
    (
        JoinBigRow {
            key1: key1.0,
            key2: key2.0,
            key3: key3.0,
            null1: null1.0,
            null2: null2.0,
            null3: null3.0,
            v2: v2.0,
        },
        v2.1,
    )
}

/// The step that draws one row of the small table.
pub open spec fn join_small_step(pool: Seq<i64>) -> spec_fn(Stream) -> (JoinSmallRow, Stream) {
    |stream: Stream| join_small_row(stream, pool)
}

/// The step that draws one row of the medium table.
pub open spec fn join_medium_step(pool1: Seq<i64>, pool2: Seq<i64>) -> spec_fn(Stream) -> (
    JoinMediumRow,
    Stream,
) {
    |stream: Stream| join_medium_row(stream, pool1, pool2)
}

/// The step that draws one row of the big table.
pub open spec fn join_big_step(pool1: Seq<i64>, pool2: Seq<i64>, pool3: Seq<i64>, nas: i64) -> spec_fn(
    Stream,
) -> (JoinBigRow, Stream) {
    |stream: Stream| join_big_row(stream, pool1, pool2, pool3, nas)
}

/// A key, or a null where the key is nulled.
pub open spec fn nulled(key: i64, null: bool) -> Option<i64> {
    if null {
        None
    } else {
        Some(key)
    }
}

/// The columns of the small table that holds `rows`.
pub open spec fn join_small_columns(rows: Seq<JoinSmallRow>) -> Seq<ColumnView> {
    seq![
        ColumnView::Int64(Seq::new(rows.len(), |i: int| Some(rows[i].key1))),
        ColumnView::Utf8(Seq::new(rows.len(), |i: int| Some(id_text(rows[i].key1 as int)))),
        ColumnView::Float64 {
            low: 1,
            high: 100,
            draws: Seq::new(rows.len(), |i: int| Some(rows[i].v2)),
        },
    ]
}

/// The columns of the medium table that holds `rows`.
pub open spec fn join_medium_columns(rows: Seq<JoinMediumRow>) -> Seq<ColumnView> {
    seq![
        ColumnView::Int64(Seq::new(rows.len(), |i: int| Some(rows[i].key1))),
        ColumnView::Int64(Seq::new(rows.len(), |i: int| Some(rows[i].key2))),
        ColumnView::Utf8(Seq::new(rows.len(), |i: int| Some(id_text(rows[i].key1 as int)))),
        ColumnView::Utf8(Seq::new(rows.len(), |i: int| Some(id_text(rows[i].key2 as int)))),
        ColumnView::Float64 {
            low: 1,
            high: 100,
            draws: Seq::new(rows.len(), |i: int| Some(rows[i].v2)),
        },
    ]
}

/// The columns of the big table that holds `rows`. The text columns hold
/// the keys sampled, also where the integer column of the key is null.
/// `id6` holds the second key, as `id5` does, and not the third.
pub open spec fn join_big_columns(rows: Seq<JoinBigRow>) -> Seq<ColumnView> {
    seq![
        ColumnView::Int64(Seq::new(rows.len(), |i: int| nulled(rows[i].key1, rows[i].null1))),
        ColumnView::Int64(Seq::new(rows.len(), |i: int| nulled(rows[i].key2, rows[i].null2))),
        ColumnView::Int64(Seq::new(rows.len(), |i: int| nulled(rows[i].key3, rows[i].null3))),
        ColumnView::Utf8(Seq::new(rows.len(), |i: int| Some(id_text(rows[i].key1 as int)))),
        ColumnView::Utf8(Seq::new(rows.len(), |i: int| Some(id_text(rows[i].key2 as int)))),
        ColumnView::Utf8(Seq::new(rows.len(), |i: int| Some(id_text(rows[i].key2 as int)))),
        ColumnView::Float64 { low: 1, high: 100, draws: Seq::new(rows.len(), |i: int| rows[i].v2) },
    ]
}

/// The pool of the first key column of the small and the medium table.
pub open spec fn first_pool(n: i64, keys_seed: u64) -> Seq<i64> {
    pool_keys(n as int, Scale::Millions, Stream::start(keys_seed))
}

/// The pool of the second key column of the medium table. Its permutation
/// goes on in the stream where that of the first pool ended.
pub open spec fn second_pool(n: i64, keys_seed: u64) -> Seq<i64> {
    pool_keys(
        n as int,
        Scale::Thousands,
        permutation(domain_size(n as int, Scale::Millions) as nat, Stream::start(keys_seed)).1,
    )
}

/// The range that the keys of the big table at `scale` are sampled from.
pub open spec fn plain_pool(n: i64, scale: Scale) -> Seq<i64> {
    identity(tail_start(n as int, scale) as nat)
}

/// Why no small join table is made, if there is a reason: a negative batch
/// size, or else what refuses the pool.
pub open spec fn join_small_refusal(n: i64, batch_size: i64) -> Option<GenError> {
    if batch_size < 0 {
        Some(GenError::InvalidRange(Constraint::BatchSize))
    } else {
        pool_refusal(n, Scale::Millions)
    }
}

/// Why no medium join table is made, if there is a reason: a negative batch
/// size, or else what refuses the first pool, or else the second.
pub open spec fn join_medium_refusal(n: i64, batch_size: i64) -> Option<GenError> {
    if batch_size < 0 {
        Some(GenError::InvalidRange(Constraint::BatchSize))
    } else if pool_refusal(n, Scale::Millions) is Some {
        pool_refusal(n, Scale::Millions)
    } else {
        pool_refusal(n, Scale::Thousands)
    }
}

/// Why no big join table is made, if there is a reason: a null percentage
/// outside `0..=100`, or else a negative batch size, or else a key range
/// without a key, the range of fewest keys first.
pub open spec fn join_big_refusal(n: i64, nas: i64, batch_size: i64) -> Option<GenError> {
    if !(0 <= nas <= 100) {
        Some(GenError::InvalidRange(Constraint::NullPercent))
    } else if batch_size < 0 {
        Some(GenError::InvalidRange(Constraint::BatchSize))
    } else if plain_refusal(n, Scale::Millions) is Some {
        plain_refusal(n, Scale::Millions)
    } else if plain_refusal(n, Scale::Thousands) is Some {
        plain_refusal(n, Scale::Thousands)
    } else {
        plain_refusal(n, Scale::Units)
    }
}

/// The rows of the small join table of the given parameters.
pub open spec fn join_small_rows(n: i64, seed: u64, keys_seed: u64, batch_size: i64) -> Seq<
    JoinSmallRow,
> {
    unfold(join_small_step(first_pool(n, keys_seed)), Stream::start(seed), batch_size as nat).0
}

/// The rows of the medium join table of the given parameters.
pub open spec fn join_medium_rows(n: i64, seed: u64, keys_seed: u64, batch_size: i64) -> Seq<
    JoinMediumRow,
> {
    unfold(
        join_medium_step(first_pool(n, keys_seed), second_pool(n, keys_seed)),
        Stream::start(seed),
        batch_size as nat,
    ).0
}

/// The rows of the big join table of the given parameters.
pub open spec fn join_big_rows(n: i64, nas: i64, seed: u64, batch_size: i64) -> Seq<JoinBigRow> {
    unfold(
        join_big_step(
            plain_pool(n, Scale::Millions),
            plain_pool(n, Scale::Thousands),
            plain_pool(n, Scale::Units),
            nas,
        ),
        Stream::start(seed),
        batch_size as nat,
    ).0
}

/// What a call for a small join table returns: the refusal if there is one,
/// else the table.
pub open spec fn join_small_outcome(n: i64, seed: u64, keys_seed: u64, batch_size: i64) -> Result<
    BatchView,
    GenError,
> {
    match join_small_refusal(n, batch_size) {
        Some(error) => Err(error),
        None => Ok(
            BatchView {
                variant: Variant::JoinSmall,
                columns: join_small_columns(join_small_rows(n, seed, keys_seed, batch_size)),
            },
        ),
    }
}

/// What a call for a medium join table returns: the refusal if there is
/// one, else the table.
pub open spec fn join_medium_outcome(n: i64, seed: u64, keys_seed: u64, batch_size: i64) -> Result<
    BatchView,
    GenError,
> {
    match join_medium_refusal(n, batch_size) {
        Some(error) => Err(error),
        None => Ok(
            BatchView {
                variant: Variant::JoinMedium,
                columns: join_medium_columns(join_medium_rows(n, seed, keys_seed, batch_size)),
            },
        ),
    }
}

/// What a call for a big join table returns: the refusal if there is one,
/// else the table.
pub open spec fn join_big_outcome(n: i64, nas: i64, seed: u64, batch_size: i64) -> Result<
    BatchView,
    GenError,
> {
    match join_big_refusal(n, nas, batch_size) {
        Some(error) => Err(error),
        None => Ok(
            BatchView {
                variant: Variant::JoinBig,
                columns: join_big_columns(join_big_rows(n, nas, seed, batch_size)),
            },
        ),
    }
}

/// Whether the key of every row is a key of the pool.
pub open spec fn join_small_within(rows: Seq<JoinSmallRow>, pool: Seq<i64>) -> bool {
    forall|i: int| 0 <= i < rows.len() ==> pool.contains((#[trigger] rows[i]).key1)
}

/// Whether the keys of every row are keys of their pools.
pub open spec fn join_medium_within(rows: Seq<JoinMediumRow>, pool1: Seq<i64>, pool2: Seq<i64>) -> bool {
    forall|i: int|
        0 <= i < rows.len() ==> pool1.contains((#[trigger] rows[i]).key1) && pool2.contains(
            rows[i].key2,
        )
}

/// Whether the keys of every row are keys of their pools.
pub open spec fn join_big_within(
    rows: Seq<JoinBigRow>,
    pool1: Seq<i64>,
    pool2: Seq<i64>,
    pool3: Seq<i64>,
) -> bool {
    forall|i: int|
        0 <= i < rows.len() ==> pool1.contains((#[trigger] rows[i]).key1) && pool2.contains(
            rows[i].key2,
        ) && pool3.contains(rows[i].key3)
}

/// The columns of a small join table follow its schema, whatever the rows.
pub proof fn lemma_join_small_shape(rows: Seq<JoinSmallRow>)
    ensures
        (BatchView { variant: Variant::JoinSmall, columns: join_small_columns(rows) }).wf(),
        (BatchView { variant: Variant::JoinSmall, columns: join_small_columns(rows) }).rows()
            == rows.len(),
{
    let view = BatchView { variant: Variant::JoinSmall, columns: join_small_columns(rows) };
    assert(view.rows() == rows.len());
    assert forall|c: int| 0 <= c < view.columns.len() implies (#[trigger] view.columns[c]).conforms(
        view.variant,
        view.variant.fields()[c],
        view.rows(),
    ) by {
        assert(view.columns[c].no_nulls());
    }
}

/// The columns of a medium join table follow its schema, whatever the rows.
pub proof fn lemma_join_medium_shape(rows: Seq<JoinMediumRow>)
    ensures
        (BatchView { variant: Variant::JoinMedium, columns: join_medium_columns(rows) }).wf(),
        (BatchView { variant: Variant::JoinMedium, columns: join_medium_columns(rows) }).rows()
            == rows.len(),
{
    let view = BatchView { variant: Variant::JoinMedium, columns: join_medium_columns(rows) };
    assert(view.rows() == rows.len());
    assert forall|c: int| 0 <= c < view.columns.len() implies (#[trigger] view.columns[c]).conforms(
        view.variant,
        view.variant.fields()[c],
        view.rows(),
    ) by {
        assert(view.columns[c].no_nulls());
    }
}

/// The columns of a big join table follow its schema, whatever the rows: no
/// text column holds a null.
pub proof fn lemma_join_big_shape(rows: Seq<JoinBigRow>)
    ensures
        (BatchView { variant: Variant::JoinBig, columns: join_big_columns(rows) }).wf(),
        (BatchView { variant: Variant::JoinBig, columns: join_big_columns(rows) }).rows()
            == rows.len(),
{
    let view = BatchView { variant: Variant::JoinBig, columns: join_big_columns(rows) };
    assert(view.rows() == rows.len());
    assert forall|c: int| 0 <= c < view.columns.len() implies (#[trigger] view.columns[c]).conforms(
        view.variant,
        view.variant.fields()[c],
        view.rows(),
    ) by {
        if 3 <= c <= 5 {
            assert(view.columns[c].no_nulls());
        }
    }
}

/// In a small join table `id4` mirrors `id1`, whatever the rows.
pub proof fn lemma_join_small_mirrored(rows: Seq<JoinSmallRow>)
    ensures
        (BatchView { variant: Variant::JoinSmall, columns: join_small_columns(rows) }).mirrored(),
{
}

/// In a medium join table `id4` mirrors `id1` and `id5` mirrors `id2`,
/// whatever the rows.
pub proof fn lemma_join_medium_mirrored(rows: Seq<JoinMediumRow>)
    ensures
        (BatchView { variant: Variant::JoinMedium, columns: join_medium_columns(rows) }).mirrored(),
{
}

/// In a big join table `id4` mirrors `id1`, and `id5` and `id6` both mirror
/// `id2`, whatever the rows.
pub proof fn lemma_join_big_mirrored(rows: Seq<JoinBigRow>)
    ensures
        (BatchView { variant: Variant::JoinBig, columns: join_big_columns(rows) }).mirrored(),
{
}

/// Where the key of every row is a key of the pool, the key column of the
/// small join table holds keys of the pool only.
pub proof fn lemma_join_small_keys(rows: Seq<JoinSmallRow>, pool: Seq<i64>)
    requires
        join_small_within(rows, pool),
    ensures
        join_small_columns(rows)[0].keys_in(pool),
{
    let cells = join_small_columns(rows)[0]->Int64_0;
    assert forall|row: int| 0 <= row < cells.len() implies ((#[trigger] cells[row]) matches Some(
        key,
    ) ==> pool.contains(key)) by {
        assert(pool.contains(rows[row].key1));
    }
}

/// Where the keys of every row are keys of their pools, the key columns of
/// the medium join table hold keys of their pools only.
pub proof fn lemma_join_medium_keys(rows: Seq<JoinMediumRow>, pool1: Seq<i64>, pool2: Seq<i64>)
    requires
        join_medium_within(rows, pool1, pool2),
    ensures
        join_medium_columns(rows)[0].keys_in(pool1),
        join_medium_columns(rows)[1].keys_in(pool2),
{
    let first = join_medium_columns(rows)[0]->Int64_0;
    assert forall|row: int| 0 <= row < first.len() implies ((#[trigger] first[row]) matches Some(
        key,
    ) ==> pool1.contains(key)) by {
        assert(pool1.contains(rows[row].key1));
    }
    let second = join_medium_columns(rows)[1]->Int64_0;
    assert forall|row: int| 0 <= row < second.len() implies ((#[trigger] second[row]) matches Some(
        key,
    ) ==> pool2.contains(key)) by {
        assert(pool1.contains(rows[row].key1));
    }
}

/// Where the keys of every row are keys of their ranges, the key columns of
/// the big join table hold, beside nulls, keys of their ranges only.
pub proof fn lemma_join_big_keys(
    rows: Seq<JoinBigRow>,
    pool1: Seq<i64>,
    pool2: Seq<i64>,
    pool3: Seq<i64>,
)
    requires
        join_big_within(rows, pool1, pool2, pool3),
    ensures
        join_big_columns(rows)[0].keys_in(pool1),
        join_big_columns(rows)[1].keys_in(pool2),
        join_big_columns(rows)[2].keys_in(pool3),
{
    let first = join_big_columns(rows)[0]->Int64_0;
    assert forall|row: int| 0 <= row < first.len() implies ((#[trigger] first[row]) matches Some(
        key,
    ) ==> pool1.contains(key)) by {
        assert(pool1.contains(rows[row].key1));
    }
    let second = join_big_columns(rows)[1]->Int64_0;
    assert forall|row: int| 0 <= row < second.len() implies ((#[trigger] second[row]) matches Some(
        key,
    ) ==> pool2.contains(key)) by {
        assert(pool1.contains(rows[row].key1));
    }
    let third = join_big_columns(rows)[2]->Int64_0;
    assert forall|row: int| 0 <= row < third.len() implies ((#[trigger] third[row]) matches Some(
        key,
    ) ==> pool3.contains(key)) by {
        assert(pool1.contains(rows[row].key1));
    }
}

/// Every key of a plain range `1..=n / scale` lies in that range.
pub proof fn lemma_plain_pool_range(n: i64, scale: Scale, key: i64)
    requires
        plain_refusal(n, scale) is None,
        plain_pool(n, scale).contains(key),
    ensures
        1 <= key <= tail_start(n as int, scale),
{
    assert(1 <= tail_start(n as int, scale) <= i64::MAX) by {
        match scale {
            Scale::Millions => {},
            Scale::Thousands => {},
            Scale::Units => {},
        }
    }
    let pool = plain_pool(n, scale);
    let at = choose|i: int| 0 <= i < pool.len() && pool[i] == key;
    assert(pool[at] == (at + 1) as i64);
}

/// Draws one row of the small table: the key, then the value.
pub fn draw_small_row(pool: &KeyPool, stream: &mut Stream) -> (row: JoinSmallRow)
    ensures
        (row, *final(stream)) == join_small_row(*old(stream), pool@),
        pool@.contains(row.key1),
{
    let key1 = pool.sample(stream);
    let v2 = stream.next_word();
    JoinSmallRow { key1, v2 }
}

/// Draws one row of the medium table: the two keys, then the value.
pub fn draw_medium_row(pool1: &KeyPool, pool2: &KeyPool, stream: &mut Stream) -> (row:
    JoinMediumRow)
    ensures
        (row, *final(stream)) == join_medium_row(*old(stream), pool1@, pool2@),
        pool1@.contains(row.key1),
        pool2@.contains(row.key2),
{
    let key1 = pool1.sample(stream);
    let key2 = pool2.sample(stream);
    let v2 = stream.next_word();
    JoinMediumRow { key1, key2, v2 }
}

/// Draws one row of the big table: the three keys, then the null gate of
/// each key column, then the gated value.
pub fn draw_big_row(
    pool1: &KeyPool,
    pool2: &KeyPool,
    pool3: &KeyPool,
    nulls: &NullGate,
    stream: &mut Stream,
) -> (row: JoinBigRow)
    ensures
        (row, *final(stream)) == join_big_row(
            *old(stream),
            pool1@,
            pool2@,
            pool3@,
            nulls.percent(),
        ),
        pool1@.contains(row.key1),
        pool2@.contains(row.key2),
        pool3@.contains(row.key3),
{
    let key1 = pool1.sample(stream);
    let key2 = pool2.sample(stream);
    let key3 = pool3.sample(stream);
    let null1 = nulls.closes(stream);
    let null2 = nulls.closes(stream);
    let null3 = nulls.closes(stream);
    let v2 = nulls.maybe_word(stream);
    JoinBigRow { key1, key2, key3, null1, null2, null3, v2 }
}

/// Draws `count` rows of the small table one after another from `stream`;
/// none for a negative count.
pub fn draw_small_rows(pool: &KeyPool, stream: &mut Stream, count: i64) -> (rows: Vec<
    JoinSmallRow,
>)
    ensures
        (rows@, *final(stream)) == unfold(
            join_small_step(pool@),
            *old(stream),
            row_count(count),
        ),
        rows@.len() == row_count(count),
        join_small_within(rows@, pool@),
{
    let ghost step = join_small_step(pool@);
    let mut rows: Vec<JoinSmallRow> = with_room(count);
    let mut i: i64 = 0;
    while i < count
        invariant
            0 <= i <= row_count(count),
            step == join_small_step(pool@),
            (rows@, *stream) == unfold(step, *old(stream), i as nat),
            rows@.len() == i,
            join_small_within(rows@, pool@),
        decreases count - i,
    {
        let row = draw_small_row(pool, stream);
        rows.push(row);
        i = i + 1;
    }
    rows
}

/// Draws `count` rows of the medium table one after another from `stream`;
/// none for a negative count.
pub fn draw_medium_rows(pool1: &KeyPool, pool2: &KeyPool, stream: &mut Stream, count: i64) -> (rows:
    Vec<JoinMediumRow>)
    ensures
        (rows@, *final(stream)) == unfold(
            join_medium_step(pool1@, pool2@),
            *old(stream),
            row_count(count),
        ),
        rows@.len() == row_count(count),
        join_medium_within(rows@, pool1@, pool2@),
{
    let ghost step = join_medium_step(pool1@, pool2@);
    let mut rows: Vec<JoinMediumRow> = with_room(count);
    let mut i: i64 = 0;
    while i < count
        invariant
            0 <= i <= row_count(count),
            step == join_medium_step(pool1@, pool2@),
            (rows@, *stream) == unfold(step, *old(stream), i as nat),
            rows@.len() == i,
            join_medium_within(rows@, pool1@, pool2@),
        decreases count - i,
    {
        let row = draw_medium_row(pool1, pool2, stream);
        rows.push(row);
        i = i + 1;
    }
    rows
}

/// Draws `count` rows of the big table one after another from `stream`;
/// none for a negative count.
pub fn draw_big_rows(
    pool1: &KeyPool,
    pool2: &KeyPool,
    pool3: &KeyPool,
    nulls: &NullGate,
    stream: &mut Stream,
    count: i64,
) -> (rows: Vec<JoinBigRow>)
    ensures
        (rows@, *final(stream)) == unfold(
            join_big_step(pool1@, pool2@, pool3@, nulls.percent()),
            *old(stream),
            row_count(count),
        ),
        rows@.len() == row_count(count),
        join_big_within(rows@, pool1@, pool2@, pool3@),
{
    let ghost step = join_big_step(pool1@, pool2@, pool3@, nulls.percent());
    let mut rows: Vec<JoinBigRow> = with_room(count);
    let mut i: i64 = 0;
    while i < count
        invariant
            0 <= i <= row_count(count),
            step == join_big_step(pool1@, pool2@, pool3@, nulls.percent()),
            (rows@, *stream) == unfold(step, *old(stream), i as nat),
            rows@.len() == i,
            join_big_within(rows@, pool1@, pool2@, pool3@),
        decreases count - i,
    {
        let row = draw_big_row(pool1, pool2, pool3, nulls, stream);
        rows.push(row);
        i = i + 1;
    }
    rows
}

/// A key where `null` is false, else a null.
fn nulled_key(key: i64, null: bool) -> (cell: Option<i64>)
    ensures
        cell == nulled(key, null),
{
    if null {
        None
    } else {
        Some(key)
    }
}

/// The small join table that holds `rows`: the key, its id string, and the
/// value.
pub fn join_small_table(rows: &Vec<JoinSmallRow>) -> (batch: Batch)
    ensures
        batch@ == (BatchView { variant: Variant::JoinSmall, columns: join_small_columns(rows@) }),
{
    let mut id1: Vec<Option<i64>> = Vec::new();
    let mut id4: Vec<Option<String>> = Vec::new();
    let mut v2: Vec<Option<u64>> = Vec::new();
    let mut i: usize = 0;
    while i < rows.len()
        invariant
            i <= rows@.len(),
            id1@.len() == i,
            id4@.len() == i,
            v2@.len() == i,
            forall|j: int| 0 <= j < i ==> #[trigger] id1@[j] == Some(rows@[j].key1),
            forall|j: int|
                0 <= j < i ==> (#[trigger] id4@[j]).deep_view() == Some(
                    id_text(rows@[j].key1 as int),
                ),
            forall|j: int| 0 <= j < i ==> #[trigger] v2@[j] == Some(rows@[j].v2),
        decreases rows@.len() - i,
    {
        let row = rows[i];
        id1.push(Some(row.key1));
        id4.push(Some(format_id(row.key1)));
        v2.push(Some(row.v2));
        i = i + 1;
    }
    let ghost expected = join_small_columns(rows@);
    assert(ColumnView::Int64(id1@) == expected[0]) by {
        assert(id1@ =~= expected[0]->Int64_0);
    }
    assert(ColumnView::Utf8(id4.deep_view()) == expected[1]) by {
        assert(id4.deep_view() =~= expected[1]->Utf8_0);
    }
    assert((ColumnView::Float64 { low: 1, high: 100, draws: v2@ }) == expected[2]) by {
        assert(v2@ =~= expected[2]->Float64_draws);
    }
    let columns = vec![
        Column::Int64(id1),
        Column::Utf8(id4),
        Column::Float64(FloatColumn { low: 1, high: 100, draws: v2 }),
    ];
    proof {
        lemma_join_small_shape(rows@);
        assert(column_views(columns@) =~= expected);
    }
    let made = Batch::try_new(Variant::JoinSmall, columns);
    made.unwrap()
}

/// The medium join table that holds `rows`: the two keys, their id strings,
/// and the value.
pub fn join_medium_table(rows: &Vec<JoinMediumRow>) -> (batch: Batch)
    ensures
        batch@ == (BatchView {
            variant: Variant::JoinMedium,
            columns: join_medium_columns(rows@),
        }),
{
    let mut id1: Vec<Option<i64>> = Vec::new();
    let mut id2: Vec<Option<i64>> = Vec::new();
    let mut id4: Vec<Option<String>> = Vec::new();
    let mut id5: Vec<Option<String>> = Vec::new();
    let mut v2: Vec<Option<u64>> = Vec::new();
    let mut i: usize = 0;
    while i < rows.len()
        invariant
            i <= rows@.len(),
            id1@.len() == i,
            id2@.len() == i,
            id4@.len() == i,
            id5@.len() == i,
            v2@.len() == i,
            forall|j: int| 0 <= j < i ==> #[trigger] id1@[j] == Some(rows@[j].key1),
            forall|j: int| 0 <= j < i ==> #[trigger] id2@[j] == Some(rows@[j].key2),
            forall|j: int|
                0 <= j < i ==> (#[trigger] id4@[j]).deep_view() == Some(
                    id_text(rows@[j].key1 as int),
                ),
            forall|j: int|
                0 <= j < i ==> (#[trigger] id5@[j]).deep_view() == Some(
                    id_text(rows@[j].key2 as int),
                ),
            forall|j: int| 0 <= j < i ==> #[trigger] v2@[j] == Some(rows@[j].v2),
        decreases rows@.len() - i,
    {
        let row = rows[i];
        id1.push(Some(row.key1));
        id2.push(Some(row.key2));
        id4.push(Some(format_id(row.key1)));
        id5.push(Some(format_id(row.key2)));
        v2.push(Some(row.v2));
        i = i + 1;
    }
    let ghost expected = join_medium_columns(rows@);
    assert(ColumnView::Int64(id1@) == expected[0]) by {
        assert(id1@ =~= expected[0]->Int64_0);
    }
    assert(ColumnView::Int64(id2@) == expected[1]) by {
        assert(id2@ =~= expected[1]->Int64_0);
    }
    assert(ColumnView::Utf8(id4.deep_view()) == expected[2]) by {
        assert(id4.deep_view() =~= expected[2]->Utf8_0);
    }
    assert(ColumnView::Utf8(id5.deep_view()) == expected[3]) by {
        assert(id5.deep_view() =~= expected[3]->Utf8_0);
    }
    assert((ColumnView::Float64 { low: 1, high: 100, draws: v2@ }) == expected[4]) by {
        assert(v2@ =~= expected[4]->Float64_draws);
    }
    let columns = vec![
        Column::Int64(id1),
        Column::Int64(id2),
        Column::Utf8(id4),
        Column::Utf8(id5),
        Column::Float64(FloatColumn { low: 1, high: 100, draws: v2 }),
    ];
    proof {
        lemma_join_medium_shape(rows@);
        assert(column_views(columns@) =~= expected);
    }
    let made = Batch::try_new(Variant::JoinMedium, columns);
    made.unwrap()
}

/// The big join table that holds `rows`: the three keys, each nulled where
/// its null gate closed, the id strings of the first key, the second key
/// and the second key again, and the value.
pub fn join_big_table(rows: &Vec<JoinBigRow>) -> (batch: Batch)
    ensures
        batch@ == (BatchView { variant: Variant::JoinBig, columns: join_big_columns(rows@) }),
{
    let mut id1: Vec<Option<i64>> = Vec::new();
    let mut id2: Vec<Option<i64>> = Vec::new();
    let mut id3: Vec<Option<i64>> = Vec::new();
    let mut id4: Vec<Option<String>> = Vec::new();
    let mut id5: Vec<Option<String>> = Vec::new();
    let mut id6: Vec<Option<String>> = Vec::new();
    let mut v2: Vec<Option<u64>> = Vec::new();
    let mut i: usize = 0;
    while i < rows.len()
        invariant
            i <= rows@.len(),
            id1@.len() == i,
            id2@.len() == i,
            id3@.len() == i,
            id4@.len() == i,
            id5@.len() == i,
            id6@.len() == i,
            v2@.len() == i,
            forall|j: int| 0 <= j < i ==> #[trigger] id1@[j] == nulled(rows@[j].key1, rows@[j].null1),
            forall|j: int| 0 <= j < i ==> #[trigger] id2@[j] == nulled(rows@[j].key2, rows@[j].null2),
            forall|j: int| 0 <= j < i ==> #[trigger] id3@[j] == nulled(rows@[j].key3, rows@[j].null3),
            forall|j: int|
                0 <= j < i ==> (#[trigger] id4@[j]).deep_view() == Some(
                    id_text(rows@[j].key1 as int),
                ),
            forall|j: int|
                0 <= j < i ==> (#[trigger] id5@[j]).deep_view() == Some(
                    id_text(rows@[j].key2 as int),
                ),
            forall|j: int|
                0 <= j < i ==> (#[trigger] id6@[j]).deep_view() == Some(
                    id_text(rows@[j].key2 as int),
                ),
            forall|j: int| 0 <= j < i ==> #[trigger] v2@[j] == rows@[j].v2,
        decreases rows@.len() - i,
    {
        let row = rows[i];
        id1.push(nulled_key(row.key1, row.null1));
        id2.push(nulled_key(row.key2, row.null2));
        id3.push(nulled_key(row.key3, row.null3));
        id4.push(Some(format_id(row.key1)));
        id5.push(Some(format_id(row.key2)));
        id6.push(Some(format_id(row.key2)));
        v2.push(row.v2);
        i = i + 1;
    }
    let ghost expected = join_big_columns(rows@);
    assert(ColumnView::Int64(id1@) == expected[0]) by {
        assert(id1@ =~= expected[0]->Int64_0);
    }
    assert(ColumnView::Int64(id2@) == expected[1]) by {
        assert(id2@ =~= expected[1]->Int64_0);
    }
    assert(ColumnView::Int64(id3@) == expected[2]) by {
        assert(id3@ =~= expected[2]->Int64_0);
    }
    assert(ColumnView::Utf8(id4.deep_view()) == expected[3]) by {
        assert(id4.deep_view() =~= expected[3]->Utf8_0);
    }
    assert(ColumnView::Utf8(id5.deep_view()) == expected[4]) by {
        assert(id5.deep_view() =~= expected[4]->Utf8_0);
    }
    assert(ColumnView::Utf8(id6.deep_view()) == expected[5]) by {
        assert(id6.deep_view() =~= expected[5]->Utf8_0);
    }
    assert((ColumnView::Float64 { low: 1, high: 100, draws: v2@ }) == expected[6]) by {
        assert(v2@ =~= expected[6]->Float64_draws);
    }
    let columns = vec![
        Column::Int64(id1),
        Column::Int64(id2),
        Column::Int64(id3),
        Column::Utf8(id4),
        Column::Utf8(id5),
        Column::Utf8(id6),
        Column::Float64(FloatColumn { low: 1, high: 100, draws: v2 }),
    ];
    proof {
        lemma_join_big_shape(rows@);
        assert(column_views(columns@) =~= expected);
    }
    let made = Batch::try_new(Variant::JoinBig, columns);
    made.unwrap()
}

/// Generates `batch_size` rows of the small join table of `n` rows. The key
/// pool is permuted with the stream of `keys_seed`, the rows are drawn from
/// the stream of `seed`. The same arguments give the same batch. Nothing is
/// generated where a parameter is refused.
pub fn generate_join_small(n: i64, seed: u64, keys_seed: u64, batch_size: i64) -> (made: Result<
    Batch,
    GenError,
>)
    ensures
        outcome_view(made) == join_small_outcome(n, seed, keys_seed, batch_size),
        made matches Ok(batch) ==> batch@.wf() && batch@.rows() == batch_size && batch@.mirrored()
            && batch@.columns[0].keys_in(first_pool(n, keys_seed)),
{
    if batch_size < 0 {
        return Err(GenError::InvalidRange(Constraint::BatchSize));
    }
    let mut keys = Stream::new(keys_seed);
    let pool = match KeyPool::permuted(n, Scale::Millions, &mut keys) {
        Ok(pool) => pool,
        Err(error) => {
            return Err(error);
        },
    };
    let mut stream = Stream::new(seed);
    let rows = draw_small_rows(&pool, &mut stream, batch_size);
    proof {
        lemma_join_small_shape(rows@);
        lemma_join_small_mirrored(rows@);
        lemma_join_small_keys(rows@, pool@);
    }
    Ok(join_small_table(&rows))
}

/// Generates `batch_size` rows of the medium join table of `n` rows. The
/// two key pools are permuted one after the other with the stream of
/// `keys_seed`, the rows are drawn from the stream of `seed`. The same
/// arguments give the same batch. Nothing is generated where a parameter is
/// refused.
pub fn generate_join_medium(n: i64, seed: u64, keys_seed: u64, batch_size: i64) -> (made: Result<
    Batch,
    GenError,
>)
    ensures
        outcome_view(made) == join_medium_outcome(n, seed, keys_seed, batch_size),
        made matches Ok(batch) ==> batch@.wf() && batch@.rows() == batch_size && batch@.mirrored()
            && batch@.columns[0].keys_in(first_pool(n, keys_seed)) && batch@.columns[1].keys_in(
            second_pool(n, keys_seed),
        ),
{
    if batch_size < 0 {
        return Err(GenError::InvalidRange(Constraint::BatchSize));
    }
    let mut keys = Stream::new(keys_seed);
    let pool1 = match KeyPool::permuted(n, Scale::Millions, &mut keys) {
        Ok(pool) => pool,
        Err(error) => {
            return Err(error);
        },
    };
    let pool2 = match KeyPool::permuted(n, Scale::Thousands, &mut keys) {
        Ok(pool) => pool,
        Err(error) => {
            return Err(error);
        },
    };
    let mut stream = Stream::new(seed);
    let rows = draw_medium_rows(&pool1, &pool2, &mut stream, batch_size);
    proof {
        lemma_join_medium_shape(rows@);
        lemma_join_medium_mirrored(rows@);
        lemma_join_medium_keys(rows@, pool1@, pool2@);
    }
    Ok(join_medium_table(&rows))
}

/// Generates `batch_size` rows of the big join table of `n` rows, with
/// `nas` percent of nulls in the three key columns and in the value column,
/// from the stream of `seed`. The key ranges are not permuted, so
/// `keys_seed` has no part in the batch. The same arguments give the same
/// batch. Nothing is generated where a parameter is refused.
pub fn generate_join_big(n: i64, nas: i64, seed: u64, keys_seed: u64, batch_size: i64) -> (made:
    Result<Batch, GenError>)
    ensures
        outcome_view(made) == join_big_outcome(n, nas, seed, batch_size),
        made matches Ok(batch) ==> batch@.wf() && batch@.rows() == batch_size && batch@.mirrored()
            && batch@.columns[0].keys_in(plain_pool(n, Scale::Millions))
            && batch@.columns[1].keys_in(plain_pool(n, Scale::Thousands))
            && batch@.columns[2].keys_in(plain_pool(n, Scale::Units)),
{
    let nulls = match NullGate::new(nas) {
        Ok(nulls) => nulls,
        Err(error) => {
            return Err(error);
        },
    };
    if batch_size < 0 {
        return Err(GenError::InvalidRange(Constraint::BatchSize));
    }
    let pool1 = match KeyPool::plain(n, Scale::Millions) {
        Ok(pool) => pool,
        Err(error) => {
            return Err(error);
        },
    };
    let pool2 = match KeyPool::plain(n, Scale::Thousands) {
        Ok(pool) => pool,
        Err(error) => {
            return Err(error);
        },
    };
    let pool3 = match KeyPool::plain(n, Scale::Units) {
        Ok(pool) => pool,
        Err(error) => {
            return Err(error);
        },
    };
    let mut stream = Stream::new(seed);
    let rows = draw_big_rows(&pool1, &pool2, &pool3, &nulls, &mut stream, batch_size);
    proof {
        lemma_join_big_shape(rows@);
        lemma_join_big_mirrored(rows@);
        lemma_join_big_keys(rows@, pool1@, pool2@, pool3@);
    }
    Ok(join_big_table(&rows))
}

} // verus!
