//! The join tables over key columns that the caller hands in.
//!
//! The key columns become the first columns of the batch as they are. Each
//! is mirrored in a text column that holds `id` and the key. The last
//! column holds one floating-point value of `1..=100` for each row, drawn
//! from the stream of the seed, which nothing else draws from.

use crate::buffer::with_room;
use crate::batch::{
    column_views, outcome_view, Batch, BatchView, Column, ColumnView, FloatColumn, Variant,
};
use crate::error::{Constraint, GenError};
use crate::field::{unfold, word_step};
use crate::stream::Stream;
use crate::text::{format_id, id_text};
use vstd::prelude::*;

verus! {

/// The integer column of the keys: no row is null.
pub open spec fn key_cells(keys: Seq<i64>) -> Seq<Option<i64>> {
    Seq::new(keys.len(), |i: int| Some(keys[i]))
}

/// The text column that mirrors the keys: `id` and the key, unpadded.
pub open spec fn mirrored_cells(keys: Seq<i64>) -> Seq<Option<Seq<char>>> {
    Seq::new(keys.len(), |i: int| Some(id_text(keys[i] as int)))
}

/// The column of the `rows` raw words drawn one after another at `stream`.
pub open spec fn word_cells(stream: Stream, rows: nat) -> Seq<Option<u64>> {
    Seq::new(rows, |i: int| Some(unfold(word_step(), stream, rows).0[i]))
}

/// The columns of the table over `keys`: the key columns, then the text
/// column of each, then the floating-point column.
pub open spec fn presplit_columns(keys: Seq<Seq<i64>>, seed: u64, rows: nat) -> Seq<ColumnView> {
    Seq::new(keys.len(), |c: int| ColumnView::Int64(key_cells(keys[c]))) + Seq::new(
        keys.len(),
        |c: int| ColumnView::Utf8(mirrored_cells(keys[c])),
    ) + seq![
        ColumnView::Float64 { low: 1, high: 100, draws: word_cells(Stream::start(seed), rows) },
    ]
}

/// The error that names key column `column`, counted from 1, for its length.
pub open spec fn mismatch(column: u8, keys: Seq<i64>, batch_size: i64) -> GenError {
    GenError::LengthMismatch { column, expected: batch_size, found: keys.len() as u64 }
}

/// The error for the first of up to three key columns whose length is not
/// `batch_size`, if there is one.
pub open spec fn first_mismatch(keys: Seq<Seq<i64>>, batch_size: i64) -> Option<GenError> {
    if keys.len() >= 1 && keys[0].len() != batch_size {
        Some(mismatch(1, keys[0], batch_size))
    } else if keys.len() >= 2 && keys[1].len() != batch_size {
        Some(mismatch(2, keys[1], batch_size))
    } else if keys.len() >= 3 && keys[2].len() != batch_size {
        Some(mismatch(3, keys[2], batch_size))
    } else {
        None
    }
}

/// Why no table is made over `keys`, if there is a reason: a negative batch
/// size, or else the first key column of another length.
pub open spec fn presplit_refusal(keys: Seq<Seq<i64>>, batch_size: i64) -> Option<GenError> {
    if batch_size < 0 {
        Some(GenError::InvalidRange(Constraint::BatchSize))
    } else {
        first_mismatch(keys, batch_size)
    }
}

/// What a call for a table over `keys` returns: the refusal if there is one,
/// else the table.
pub open spec fn presplit_outcome(
    variant: Variant,
    keys: Seq<Seq<i64>>,
    seed: u64,
    batch_size: i64,
) -> Result<BatchView, GenError> {
    match presplit_refusal(keys, batch_size) {
        Some(error) => Err(error),
        None => Ok(
            BatchView { variant, columns: presplit_columns(keys, seed, batch_size as nat) },
        ),
    }
}

/// The number of key columns of a variant whose keys are handed in; 0 for
/// the other variants.
pub open spec fn key_columns(variant: Variant) -> nat {
    match variant {
        Variant::JoinRhsSmall => 1,
        Variant::JoinRhsMedium => 2,
        Variant::JoinLhs | Variant::JoinRhsBig => 3,
        _ => 0,
    }
}

/// The columns of a table over key columns of one length follow the schema
/// of its variant.
pub proof fn lemma_presplit_shape(variant: Variant, keys: Seq<Seq<i64>>, seed: u64, rows: nat)
    requires
        key_columns(variant) == keys.len(),
        keys.len() >= 1,
        forall|c: int| 0 <= c < keys.len() ==> (#[trigger] keys[c]).len() == rows,
    ensures
        (BatchView { variant, columns: presplit_columns(keys, seed, rows) }).wf(),
        (BatchView { variant, columns: presplit_columns(keys, seed, rows) }).rows() == rows,
{
    let view = BatchView { variant, columns: presplit_columns(keys, seed, rows) };
    let m = keys.len() as int;
    assert(view.columns.len() == 2 * m + 1);
    assert(view.columns[0] == ColumnView::Int64(key_cells(keys[0])));
    assert(view.rows() == rows);
    assert forall|c: int| 0 <= c < view.columns.len() implies (#[trigger] view.columns[c]).conforms(
        variant,
        variant.fields()[c],
        view.rows(),
    ) by {
        if c < m {
            assert(view.columns[c] == ColumnView::Int64(key_cells(keys[c])));
            assert(view.columns[c].no_nulls());
        } else if c < 2 * m {
            assert(view.columns[c] == ColumnView::Utf8(mirrored_cells(keys[c - m])));
            assert(view.columns[c].no_nulls());
        } else {
            assert(view.columns[c] == ColumnView::Float64 {
                low: 1,
                high: 100,
                draws: word_cells(Stream::start(seed), rows),
            });
            assert(view.columns[c].no_nulls());
        }
    }
}

/// In a table over `keys` the text column of each key column mirrors it.
pub proof fn lemma_presplit_mirrored(variant: Variant, keys: Seq<Seq<i64>>, seed: u64, rows: nat)
    requires
        key_columns(variant) == keys.len(),
        keys.len() >= 1,
    ensures
        (BatchView { variant, columns: presplit_columns(keys, seed, rows) }).mirrored(),
{
    let view = BatchView { variant, columns: presplit_columns(keys, seed, rows) };
    let m = keys.len() as int;
    assert(view.columns[0] == ColumnView::Int64(key_cells(keys[0])));
    assert(view.columns[m] == ColumnView::Utf8(mirrored_cells(keys[0])));
    assert(view.mirrors(0, m));
    if m >= 2 {
        assert(view.columns[1] == ColumnView::Int64(key_cells(keys[1])));
        assert(view.columns[m + 1] == ColumnView::Utf8(mirrored_cells(keys[1])));
        assert(view.mirrors(1, m + 1));
    }
    if m >= 3 {
        assert(view.columns[2] == ColumnView::Int64(key_cells(keys[2])));
        assert(view.columns[m + 2] == ColumnView::Utf8(mirrored_cells(keys[2])));
        assert(view.mirrors(2, m + 2));
    }
}

/// The integer column of the keys.
fn key_column(keys: &Vec<i64>) -> (column: Column)
    ensures
        column@ == ColumnView::Int64(key_cells(keys@)),
{
    let mut cells: Vec<Option<i64>> = Vec::new();
    let mut i: usize = 0;
    while i < keys.len()
        invariant
            i <= keys@.len(),
            cells@.len() == i,
            forall|j: int| 0 <= j < i ==> #[trigger] cells@[j] == Some(keys@[j]),
        decreases keys@.len() - i,
    {
        cells.push(Some(keys[i]));
        i = i + 1;
    }
    assert(cells@ =~= key_cells(keys@));
    Column::Int64(cells)
}

/// The text column that mirrors the keys.
fn mirrored_column(keys: &Vec<i64>) -> (column: Column)
    ensures
        column@ == ColumnView::Utf8(mirrored_cells(keys@)),
{
    let mut cells: Vec<Option<String>> = Vec::new();
    let mut i: usize = 0;
    while i < keys.len()
        invariant
            i <= keys@.len(),
            cells@.len() == i,
            forall|j: int|
                0 <= j < i ==> (#[trigger] cells@[j]).deep_view() == Some(id_text(keys@[j] as int)),
        decreases keys@.len() - i,
    {
        cells.push(Some(format_id(keys[i])));
        i = i + 1;
    }
    assert(cells.deep_view() =~= mirrored_cells(keys@));
    Column::Utf8(cells)
}

/// The floating-point column of `rows` words drawn from `stream`.
fn word_column(stream: &mut Stream, low: i64, high: i64, rows: i64) -> (column: Column)
    requires
        0 <= rows,
    ensures
        column@ == (ColumnView::Float64 {
            low,
            high,
            draws: word_cells(*old(stream), rows as nat),
        }),
        *final(stream) == unfold(word_step(), *old(stream), rows as nat).1,
{
    let ghost mut done: Seq<u64> = Seq::empty();
    let mut draws: Vec<Option<u64>> = with_room(rows);
    let mut i: i64 = 0;
    while i < rows
        invariant
            0 <= i <= rows,
            (done, *stream) == unfold(word_step(), *old(stream), i as nat),
            done.len() == i,
            draws@.len() == i,
            forall|j: int| 0 <= j < i ==> #[trigger] draws@[j] == Some(done[j]),
        decreases rows - i,
    {
        let word = stream.next_word();
        proof {
            done = done.push(word);
        }
        draws.push(Some(word));
        i = i + 1;
    }
    assert(draws@ =~= word_cells(*old(stream), rows as nat));
    Column::Float64(FloatColumn { low, high, draws })
}

/// The error that names the first key column whose length is not
/// `batch_size`, if there is one.
fn check_lengths(keys: &Vec<Vec<i64>>, batch_size: i64) -> (refusal: Option<GenError>)
    requires
        0 <= batch_size,
        keys@.len() <= 3,
    ensures
        refusal == first_mismatch(keys.deep_view(), batch_size),
{
    let mut c: usize = 0;
    while c < keys.len()
        invariant
            c <= keys@.len() <= 3,
            0 <= batch_size,
            forall|j: int| 0 <= j < c ==> (#[trigger] keys.deep_view()[j]).len() == batch_size,
        decreases keys@.len() - c,
    {
        let found = keys[c].len() as u64;
        assert(keys.deep_view()[c as int] == keys@[c as int]@);
        if found != batch_size as u64 {
            return Some(
                GenError::LengthMismatch { column: (c + 1) as u8, expected: batch_size, found },
            );
        }
        c = c + 1;
    }
    None
}

/// Generates the table of `variant` over `keys`.
fn generate_presplit(variant: Variant, keys: Vec<Vec<i64>>, seed: u64, batch_size: i64) -> (made:
    Result<Batch, GenError>)
    requires
        key_columns(variant) == keys@.len(),
        keys@.len() >= 1,
    ensures
        outcome_view(made) == presplit_outcome(variant, keys.deep_view(), seed, batch_size),
        made matches Ok(batch) ==> batch@.wf() && batch@.rows() == batch_size && batch@.mirrored(),
{
    if batch_size < 0 {
        return Err(GenError::InvalidRange(Constraint::BatchSize));
    }
    match check_lengths(&keys, batch_size) {
        Some(error) => {
            return Err(error);
        },
        None => {},
    }
    let ghost views = keys.deep_view();
    let ghost expected = presplit_columns(views, seed, batch_size as nat);
    proof {
        lemma_presplit_shape(variant, views, seed, batch_size as nat);
        lemma_presplit_mirrored(variant, views, seed, batch_size as nat);
    }
    let mut columns: Vec<Column> = Vec::new();
    let mut c: usize = 0;
    while c < keys.len()
        invariant
            c <= keys@.len(),
            views == keys.deep_view(),
            columns@.len() == c,
            forall|j: int| 0 <= j < c ==> (#[trigger] columns@[j])@ == expected[j],
            expected == presplit_columns(views, seed, batch_size as nat),
        decreases keys@.len() - c,
    {
        assert(views[c as int] == keys@[c as int]@);
        columns.push(key_column(&keys[c]));
        c = c + 1;
    }
    let mut c: usize = 0;
    while c < keys.len()
        invariant
            c <= keys@.len(),
            views == keys.deep_view(),
            columns@.len() == keys@.len() + c,
            forall|j: int| 0 <= j < keys@.len() + c ==> (#[trigger] columns@[j])@ == expected[j],
            expected == presplit_columns(views, seed, batch_size as nat),
        decreases keys@.len() - c,
    {
        assert(views[c as int] == keys@[c as int]@);
        columns.push(mirrored_column(&keys[c]));
        c = c + 1;
    }
    let mut stream = Stream::new(seed);
    columns.push(word_column(&mut stream, 1, 100, batch_size));
    assert(column_views(columns@) =~= expected);
    let made = Batch::try_new(variant, columns);
    Ok(made.unwrap())
}

/// Generates `batch_size` rows of the left join table over the key columns
/// `k1`, `k2` and `k3`, each of which must have `batch_size` entries. The
/// row count `n` of the whole table has no part in the rows of a batch.
pub fn generate_join_lhs(
    n: i64,
    seed: u64,
    k1: Vec<i64>,
    k2: Vec<i64>,
    k3: Vec<i64>,
    batch_size: i64,
) -> (made: Result<Batch, GenError>)
    ensures
        outcome_view(made) == presplit_outcome(
            Variant::JoinLhs,
            seq![k1@, k2@, k3@],
            seed,
            batch_size,
        ),
        made matches Ok(batch) ==> batch@.wf() && batch@.rows() == batch_size && batch@.mirrored(),
{
    let ghost keys = seq![k1@, k2@, k3@];
    let columns = vec![k1, k2, k3];
    assert(columns.deep_view() =~= keys) by {
        assert(columns@[0].deep_view() =~= keys[0]);
        assert(columns@[1].deep_view() =~= keys[1]);
        assert(columns@[2].deep_view() =~= keys[2]);
    }
    generate_presplit(Variant::JoinLhs, columns, seed, batch_size)
}

/// Generates `batch_size` rows of the small right join table over the key
/// column `k1`, which must have `batch_size` entries.
pub fn generate_join_rhs_small(n: i64, seed: u64, k1: Vec<i64>, batch_size: i64) -> (made: Result<
    Batch,
    GenError,
>)
    ensures
        outcome_view(made) == presplit_outcome(
            Variant::JoinRhsSmall,
            seq![k1@],
            seed,
            batch_size,
        ),
        made matches Ok(batch) ==> batch@.wf() && batch@.rows() == batch_size && batch@.mirrored(),
{
    let ghost keys = seq![k1@];
    let columns = vec![k1];
    assert(columns.deep_view() =~= keys) by {
        assert(columns@[0].deep_view() =~= keys[0]);
    }
    generate_presplit(Variant::JoinRhsSmall, columns, seed, batch_size)
}

/// Generates `batch_size` rows of the medium right join table over the key
/// columns `k1` and `k2`, each of which must have `batch_size` entries.
pub fn generate_join_rhs_medium(
    n: i64,
    seed: u64,
    k1: Vec<i64>,
    k2: Vec<i64>,
    batch_size: i64,
) -> (made: Result<Batch, GenError>)
    ensures
        outcome_view(made) == presplit_outcome(
            Variant::JoinRhsMedium,
            seq![k1@, k2@],
            seed,
            batch_size,
        ),
        made matches Ok(batch) ==> batch@.wf() && batch@.rows() == batch_size && batch@.mirrored(),
{
    let ghost keys = seq![k1@, k2@];
    let columns = vec![k1, k2];
    assert(columns.deep_view() =~= keys) by {
        assert(columns@[0].deep_view() =~= keys[0]);
        assert(columns@[1].deep_view() =~= keys[1]);
    }
    generate_presplit(Variant::JoinRhsMedium, columns, seed, batch_size)
}

/// Generates `batch_size` rows of the big right join table over the key
/// columns `k1`, `k2` and `k3`, each of which must have `batch_size`
/// entries.
pub fn generate_join_rhs_big(
    n: i64,
    seed: u64,
    k1: Vec<i64>,
    k2: Vec<i64>,
    k3: Vec<i64>,
    batch_size: i64,
) -> (made: Result<Batch, GenError>)
    ensures
        outcome_view(made) == presplit_outcome(
            Variant::JoinRhsBig,
            seq![k1@, k2@, k3@],
            seed,
            batch_size,
        ),
        made matches Ok(batch) ==> batch@.wf() && batch@.rows() == batch_size && batch@.mirrored(),
{
    let ghost keys = seq![k1@, k2@, k3@];
    let columns = vec![k1, k2, k3];
    assert(columns.deep_view() =~= keys) by {
        assert(columns@[0].deep_view() =~= keys[0]);
        assert(columns@[1].deep_view() =~= keys[1]);
        assert(columns@[2].deep_view() =~= keys[2]);
    }
    generate_presplit(Variant::JoinRhsBig, columns, seed, batch_size)
}

} // verus!
