//! The group-by table.
//!
//! Each row is drawn in the order of the schema: six gated ids, the first
//! three of which are written as zero-padded strings, then two small integers
//! and one floating-point value that are never null.

use crate::buffer::with_room;
use crate::batch::{
    column_views, outcome_view, Batch, BatchView, Column, ColumnView, FloatColumn, Variant,
};
use crate::error::{Constraint, GenError};
use crate::field::{
    cell_within, format_padded_id_cell, gated_int, padded_id_cell, row_count, unfold, NullGate,
};
use crate::stream::{Stream, UniformInt};
use crate::text::padded_id_text;
use vstd::prelude::*;

verus! {

/// The draws of one row of the group-by table.
#[derive(Clone, Copy, Debug, PartialEq, Eq)]
pub struct GroupbyRow {
    /// A group id of `1..=k`, written with three digits.
    pub id1: Option<i64>,
    /// A member id of `1..=n/k`, written with three digits.
    pub id2: Option<i64>,
    /// A member id of `1..=n/k`, written with ten digits.
    pub id3: Option<i64>,
    /// A group id of `1..=k`.
    pub id4: Option<i64>,
    /// A group id of `1..=k`.
    pub id5: Option<i64>,
    /// A member id of `1..=n/k`.
    pub id6: Option<i64>,
    /// A value of `1..=5`.
    pub v1: i64,
    /// A value of `1..=15`.
    pub v2: i64,
    /// The word of a floating-point value of `0..=100`.
    pub v3: u64,
}

/// The row drawn at `stream` for `k` groups of `members` rows each and the
/// null percentage `nas`, and the stream after it.
pub open spec fn groupby_row(stream: Stream, k: i64, members: i64, nas: i64) -> (
    GroupbyRow,
    Stream,
) {
    let id1 = gated_int(stream, nas, 1, k);
    let id2 = gated_int(id1.1, nas, 1, members);
    let id3 = gated_int(id2.1, nas, 1, members);
    let id4 = gated_int(id3.1, nas, 1, k);
    let id5 = gated_int(id4.1, nas, 1, k);
    let id6 = gated_int(id5.1, nas, 1, members);
    let v1 = id6.1.uniform(1, 5);
    let v2 = v1.1.uniform(1, 15);
    let v3 = v2.1.word();
    (
        GroupbyRow {
            id1: id1.0,
            id2: id2.0,
            id3: id3.0,
            id4: id4.0,
            id5: id5.0,
            id6: id6.0,
            v1: v1.0,
            v2: v2.0,
            v3: v3.0,
        },
        v3.1,
    )
}

/// The step that draws one row.
pub open spec fn groupby_step(k: i64, members: i64, nas: i64) -> spec_fn(Stream) -> (
    GroupbyRow,
    Stream,
) {
    |stream: Stream| groupby_row(stream, k, members, nas)
}

/// Whether every value of the row lies in its range.
pub open spec fn groupby_row_within(row: GroupbyRow, k: i64, members: i64) -> bool {
    &&& cell_within(row.id1, 1, k as int)
    &&& cell_within(row.id2, 1, members as int)
    &&& cell_within(row.id3, 1, members as int)
    &&& cell_within(row.id4, 1, k as int)
    &&& cell_within(row.id5, 1, k as int)
    &&& cell_within(row.id6, 1, members as int)
    &&& 1 <= row.v1 <= 5
    &&& 1 <= row.v2 <= 15
}

/// The cell of `row` in column `which` of the schema, for the integer and
/// id columns: `id1` at 0 up to `v2` at 7.
pub open spec fn id_of(row: GroupbyRow, which: int) -> Option<i64> {
    if which == 0 {
        row.id1
    } else if which == 1 {
        row.id2
    } else if which == 2 {
        row.id3
    } else if which == 3 {
        row.id4
    } else if which == 4 {
        row.id5
    } else if which == 5 {
        row.id6
    } else if which == 6 {
        Some(row.v1)
    } else {
        Some(row.v2)
    }
}

/// The columns of the table that holds `rows`.
pub open spec fn groupby_columns(rows: Seq<GroupbyRow>) -> Seq<ColumnView> {
    seq![
        ColumnView::Utf8(Seq::new(rows.len(), |i: int| padded_id_cell(rows[i].id1, 3))),
        ColumnView::Utf8(Seq::new(rows.len(), |i: int| padded_id_cell(rows[i].id2, 3))),
        ColumnView::Utf8(Seq::new(rows.len(), |i: int| padded_id_cell(rows[i].id3, 10))),
        ColumnView::Int64(Seq::new(rows.len(), |i: int| rows[i].id4)),
        ColumnView::Int64(Seq::new(rows.len(), |i: int| rows[i].id5)),
        ColumnView::Int64(Seq::new(rows.len(), |i: int| rows[i].id6)),
        ColumnView::Int64(Seq::new(rows.len(), |i: int| Some(rows[i].v1))),
        ColumnView::Int64(Seq::new(rows.len(), |i: int| Some(rows[i].v2))),
        ColumnView::Float64 {
            low: 0,
            high: 100,
            draws: Seq::new(rows.len(), |i: int| Some(rows[i].v3)),
        },
    ]
}

/// Why no group-by table is made, if there is a reason. The conditions are
/// tried in this order: `k >= 1`, `n >= k`, `0 <= nas <= 100`,
/// `batch_size >= 0`.
pub open spec fn groupby_refusal(n: i64, k: i64, nas: i64, batch_size: i64) -> Option<GenError> {
    if k < 1 {
        Some(GenError::InvalidRange(Constraint::GroupCount))
    } else if n < k {
        Some(GenError::InvalidRange(Constraint::RowsPerGroup))
    } else if !(0 <= nas <= 100) {
        Some(GenError::InvalidRange(Constraint::NullPercent))
    } else if batch_size < 0 {
        Some(GenError::InvalidRange(Constraint::BatchSize))
    } else {
        None
    }
}

/// The rows of the group-by table of the given parameters.
pub open spec fn groupby_rows(n: i64, k: i64, nas: i64, seed: u64, batch_size: i64) -> Seq<
    GroupbyRow,
> {
    unfold(groupby_step(k, (n / k) as i64, nas), Stream::start(seed), batch_size as nat).0
}

/// The group-by table of the given parameters.
pub open spec fn groupby_batch(n: i64, k: i64, nas: i64, seed: u64, batch_size: i64) -> BatchView {
    BatchView {
        variant: Variant::Groupby,
        columns: groupby_columns(groupby_rows(n, k, nas, seed, batch_size)),
    }
}

/// What a call for a group-by table returns: the refusal if there is one,
/// else the table.
pub open spec fn groupby_outcome(n: i64, k: i64, nas: i64, seed: u64, batch_size: i64) -> Result<
    BatchView,
    GenError,
> {
    match groupby_refusal(n, k, nas, batch_size) {
        Some(error) => Err(error),
        None => Ok(groupby_batch(n, k, nas, seed, batch_size)),
    }
}

/// Whether every value of every row lies in its range.
pub open spec fn groupby_within(rows: Seq<GroupbyRow>, k: i64, members: i64) -> bool {
    forall|i: int| 0 <= i < rows.len() ==> groupby_row_within(#[trigger] rows[i], k, members)
}

/// Whether every value of the group-by table `view` lies in the range of
/// its column: `id1`, `id4` and `id5` in `1..=k`, `id2`, `id3` and `id6` in
/// `1..=members`, `v1` in `1..=5`, `v2` in `1..=15`, and `v3` over `0..=100`.
pub open spec fn groupby_in_range(view: BatchView, k: i64, members: i64) -> bool {
    &&& view.columns.len() == 9
    &&& view.columns[0].padded_ids_within(1, k as int, 3)
    &&& view.columns[1].padded_ids_within(1, members as int, 3)
    &&& view.columns[2].padded_ids_within(1, members as int, 10)
    &&& view.columns[3].ints_within(1, k as int)
    &&& view.columns[4].ints_within(1, k as int)
    &&& view.columns[5].ints_within(1, members as int)
    &&& view.columns[6].ints_within(1, 5)
    &&& view.columns[7].ints_within(1, 15)
    &&& view.columns[8] matches ColumnView::Float64 { low: 0, high: 100, .. }
}

/// A column of integer cells that all lie in `low..=high` is within that
/// range.
proof fn lemma_ints_within(cells: Seq<Option<i64>>, low: int, high: int)
    requires
        forall|row: int| 0 <= row < cells.len() ==> cell_within(#[trigger] cells[row], low, high),
    ensures
        ColumnView::Int64(cells).ints_within(low, high),
{
    assert forall|row: int| 0 <= row < cells.len() implies ((#[trigger] cells[row]) matches Some(
        value,
    ) ==> low <= value <= high) by {
        assert(cell_within(cells[row], low, high));
    }
}

/// The padded id strings of cells that all lie in `low..=high` are id
/// strings of numbers of that range.
proof fn lemma_padded_ids_within(
    cells: Seq<Option<i64>>,
    texts: Seq<Option<Seq<char>>>,
    low: int,
    high: int,
    width: nat,
)
    requires
        texts.len() == cells.len(),
        forall|row: int| 0 <= row < cells.len() ==> cell_within(#[trigger] cells[row], low, high),
        forall|row: int|
            0 <= row < cells.len() ==> #[trigger] texts[row] == padded_id_cell(cells[row], width),
    ensures
        ColumnView::Utf8(texts).padded_ids_within(low, high, width),
{
    assert forall|row: int| 0 <= row < texts.len() implies ((#[trigger] texts[row]) matches Some(
        text,
    ) ==> exists|value: int| low <= value <= high && text == padded_id_text(value, width)) by {
        assert(cell_within(cells[row], low, high));
        if let Some(value) = cells[row] {
            assert(texts[row] == Some(padded_id_text(value as int, width)));
        }
    }
}

/// A table of rows that are all in range holds, in each column, only values
/// of the column's range.
pub proof fn lemma_groupby_in_range(rows: Seq<GroupbyRow>, k: i64, members: i64)
    requires
        groupby_within(rows, k, members),
    ensures
        groupby_in_range(
            BatchView { variant: Variant::Groupby, columns: groupby_columns(rows) },
            k,
            members,
        ),
{
    let columns = groupby_columns(rows);
    let len = rows.len();
    assert forall|row: int| 0 <= row < len implies groupby_row_within(
        #[trigger] rows[row],
        k,
        members,
    ) by {}
    lemma_padded_ids_within(
        Seq::new(len, |i: int| rows[i].id1),
        columns[0]->Utf8_0,
        1,
        k as int,
        3,
    );
    lemma_padded_ids_within(
        Seq::new(len, |i: int| rows[i].id2),
        columns[1]->Utf8_0,
        1,
        members as int,
        3,
    );
    lemma_padded_ids_within(
        Seq::new(len, |i: int| rows[i].id3),
        columns[2]->Utf8_0,
        1,
        members as int,
        10,
    );
    lemma_ints_within(columns[3]->Int64_0, 1, k as int);
    lemma_ints_within(columns[4]->Int64_0, 1, k as int);
    lemma_ints_within(columns[5]->Int64_0, 1, members as int);
    lemma_ints_within(columns[6]->Int64_0, 1, 5);
    lemma_ints_within(columns[7]->Int64_0, 1, 15);
}

/// The columns of a group-by table follow its schema, whatever the rows:
/// nine columns of one length, and no null in `v1`, `v2` and `v3`.
pub proof fn lemma_groupby_shape(rows: Seq<GroupbyRow>)
    ensures
        (BatchView { variant: Variant::Groupby, columns: groupby_columns(rows) }).wf(),
        (BatchView { variant: Variant::Groupby, columns: groupby_columns(rows) }).rows()
            == rows.len(),
{
    let view = BatchView { variant: Variant::Groupby, columns: groupby_columns(rows) };
    assert(view.rows() == rows.len());
    assert forall|c: int| 0 <= c < view.columns.len() implies (#[trigger] view.columns[c]).conforms(
        view.variant,
        view.variant.fields()[c],
        view.rows(),
    ) by {
        if c == 6 {
            assert(view.columns[6].no_nulls());
        } else if c == 7 {
            assert(view.columns[7].no_nulls());
        } else if c == 8 {
            assert(view.columns[8].no_nulls());
        }
    }
}

/// The distributions of one call for a group-by table.
pub struct GroupbyPlan {
    groups: UniformInt,
    members: UniformInt,
    small: UniformInt,
    medium: UniformInt,
    gate: NullGate,
}

impl GroupbyPlan {
    /// The number of groups `k`.
    pub closed spec fn k(self) -> i64 {
        self.groups.high()
    }

    /// The number of rows per group, `n / k`.
    pub closed spec fn members(self) -> i64 {
        self.members.high()
    }

    /// The null percentage.
    pub closed spec fn nas(self) -> i64 {
        self.gate.percent()
    }

    #[verifier::type_invariant]
    spec fn ranges(self) -> bool {
        &&& self.groups.low() == 1
        &&& self.members.low() == 1
        &&& self.small.low() == 1
        &&& self.small.high() == 5
        &&& self.medium.low() == 1
        &&& self.medium.high() == 15
    }

    /// Checks the parameters and makes the distributions. The conditions are
    /// tried in the order `k >= 1`, `n >= k`, `0 <= nas <= 100`.
    pub fn new(n: i64, k: i64, nas: i64) -> (made: Result<GroupbyPlan, GenError>)
        ensures
            made is Ok <==> groupby_refusal(n, k, nas, 0) is None,
            made matches Err(error) ==> groupby_refusal(n, k, nas, 0) == Some(error),
            made matches Ok(plan) ==> plan.k() == k && plan.members() == n / k && plan.nas()
                == nas,
    {
        let groups = match UniformInt::new(1, k, Constraint::GroupCount) {
            Ok(dist) => dist,
            Err(error) => {
                return Err(error);
            },
        };
        if n < k {
            return Err(GenError::InvalidRange(Constraint::RowsPerGroup));
        }
        assert(n / k >= 1) by (nonlinear_arith)
            requires
                n >= k >= 1,
        ;
        let members = UniformInt::new(1, n / k, Constraint::RowsPerGroup).unwrap();
        let small = UniformInt::new(1, 5, Constraint::GroupCount).unwrap();
        let medium = UniformInt::new(1, 15, Constraint::GroupCount).unwrap();
        let gate = match NullGate::new(nas) {
            Ok(gate) => gate,
            Err(error) => {
                return Err(error);
            },
        };
        Ok(GroupbyPlan { groups, members, small, medium, gate })
    }

    /// Draws one row: the null gate of each id before its value, the fields
    /// in the order of the schema.
    pub fn next_row(&self, stream: &mut Stream) -> (row: GroupbyRow)
        ensures
            (row, *final(stream)) == groupby_row(*old(stream), self.k(), self.members(), self.nas()),
            groupby_row_within(row, self.k(), self.members()),
    {
        proof {
            use_type_invariant(self);
        }
        let id1 = self.gate.maybe_int(&self.groups, stream);
        let id2 = self.gate.maybe_int(&self.members, stream);
        let id3 = self.gate.maybe_int(&self.members, stream);
        let id4 = self.gate.maybe_int(&self.groups, stream);
        let id5 = self.gate.maybe_int(&self.groups, stream);
        let id6 = self.gate.maybe_int(&self.members, stream);
        let v1 = self.small.sample(stream);
        let v2 = self.medium.sample(stream);
        let v3 = stream.next_word();
        GroupbyRow { id1, id2, id3, id4, id5, id6, v1, v2, v3 }
    }
}

impl GroupbyPlan {
    /// Draws `count` rows one after another from `stream`; none for a
    /// negative count.
    pub fn draw_rows(&self, stream: &mut Stream, count: i64) -> (rows: Vec<GroupbyRow>)
        ensures
            (rows@, *final(stream)) == unfold(
                groupby_step(self.k(), self.members(), self.nas()),
                *old(stream),
                row_count(count),
            ),
            rows@.len() == row_count(count),
            groupby_within(rows@, self.k(), self.members()),
    {
        let ghost step = groupby_step(self.k(), self.members(), self.nas());
        let mut rows: Vec<GroupbyRow> = with_room(count);
        let mut i: i64 = 0;
        while i < count
            invariant
                0 <= i <= row_count(count),
                step == groupby_step(self.k(), self.members(), self.nas()),
                (rows@, *stream) == unfold(step, *old(stream), i as nat),
                rows@.len() == i,
                groupby_within(rows@, self.k(), self.members()),
            decreases count - i,
        {
            let row = self.next_row(stream);
            rows.push(row);
            i = i + 1;
        }
        rows
    }
}

/// The text column of the ids of `rows` at `which`, zero-padded to `width`:
/// `id1`, `id2` and `id3` at 0, 1 and 2.
fn padded_column(rows: &Vec<GroupbyRow>, which: usize, width: usize) -> (cells: Vec<Option<String>>)
    requires
        which < 3,
    ensures
        cells.deep_view() == Seq::new(
            rows@.len(),
            |i: int| padded_id_cell(id_of(rows@[i], which as int), width as nat),
        ),
{
    let mut cells: Vec<Option<String>> = Vec::new();
    let _ = cells.try_reserve(rows.len());
    let mut i: usize = 0;
    while i < rows.len()
        invariant
            which < 3,
            i <= rows@.len(),
            cells@.len() == i,
            forall|j: int|
                0 <= j < i ==> (#[trigger] cells@[j]).deep_view() == padded_id_cell(
                    id_of(rows@[j], which as int),
                    width as nat,
                ),
        decreases rows@.len() - i,
    {
        let row = rows[i];
        let id = if which == 0 {
            row.id1
        } else if which == 1 {
            row.id2
        } else {
            row.id3
        };
        cells.push(format_padded_id_cell(id, width));
        i = i + 1;
    }
    assert(cells.deep_view() =~= Seq::new(
        rows@.len(),
        |i: int| padded_id_cell(id_of(rows@[i], which as int), width as nat),
    ));
    cells
}

/// The integer column of the values of `rows` at `which`: the ids `id4`,
/// `id5` and `id6` at 3, 4 and 5, the values `v1` and `v2` at 6 and 7.
fn int_column(rows: &Vec<GroupbyRow>, which: usize) -> (cells: Vec<Option<i64>>)
    requires
        3 <= which < 8,
    ensures
        cells@ == Seq::new(rows@.len(), |i: int| id_of(rows@[i], which as int)),
{
    let mut cells: Vec<Option<i64>> = Vec::new();
    let _ = cells.try_reserve(rows.len());
    let mut i: usize = 0;
    while i < rows.len()
        invariant
            3 <= which < 8,
            i <= rows@.len(),
            cells@.len() == i,
            forall|j: int| 0 <= j < i ==> #[trigger] cells@[j] == id_of(rows@[j], which as int),
        decreases rows@.len() - i,
    {
        let row = rows[i];
        let cell = if which == 3 {
            row.id4
        } else if which == 4 {
            row.id5
        } else if which == 5 {
            row.id6
        } else if which == 6 {
            Some(row.v1)
        } else {
            Some(row.v2)
        };
        cells.push(cell);
        i = i + 1;
    }
    assert(cells@ =~= Seq::new(rows@.len(), |i: int| id_of(rows@[i], which as int)));
    cells
}

/// The column of the words of `v3` of `rows`.
fn word_column(rows: &Vec<GroupbyRow>) -> (cells: Vec<Option<u64>>)
    ensures
        cells@ == Seq::new(rows@.len(), |i: int| Some(rows@[i].v3)),
{
    let mut cells: Vec<Option<u64>> = Vec::new();
    let _ = cells.try_reserve(rows.len());
    let mut i: usize = 0;
    while i < rows.len()
        invariant
            i <= rows@.len(),
            cells@.len() == i,
            forall|j: int| 0 <= j < i ==> #[trigger] cells@[j] == Some(rows@[j].v3),
        decreases rows@.len() - i,
    {
        cells.push(Some(rows[i].v3));
        i = i + 1;
    }
    assert(cells@ =~= Seq::new(rows@.len(), |i: int| Some(rows@[i].v3)));
    cells
}

/// The group-by table that holds `rows`: the first three ids as zero-padded
/// strings of three, three and ten digits, the other values as they are.
pub fn groupby_table(rows: &Vec<GroupbyRow>) -> (batch: Batch)
    ensures
        batch@ == (BatchView { variant: Variant::Groupby, columns: groupby_columns(rows@) }),
{
    let id1 = padded_column(rows, 0, 3);
    let id2 = padded_column(rows, 1, 3);
    let id3 = padded_column(rows, 2, 10);
    let id4 = int_column(rows, 3);
    let id5 = int_column(rows, 4);
    let id6 = int_column(rows, 5);
    let v1 = int_column(rows, 6);
    let v2 = int_column(rows, 7);
    let v3 = word_column(rows);
    let ghost expected = groupby_columns(rows@);
    assert(ColumnView::Utf8(id1.deep_view()) == expected[0]) by {
        assert(id1.deep_view() =~= expected[0]->Utf8_0);
    }
    assert(ColumnView::Utf8(id2.deep_view()) == expected[1]) by {
        assert(id2.deep_view() =~= expected[1]->Utf8_0);
    }
    assert(ColumnView::Utf8(id3.deep_view()) == expected[2]) by {
        assert(id3.deep_view() =~= expected[2]->Utf8_0);
    }
    assert(ColumnView::Int64(id4@) == expected[3]) by {
        assert(id4@ =~= expected[3]->Int64_0);
    }
    assert(ColumnView::Int64(id5@) == expected[4]) by {
        assert(id5@ =~= expected[4]->Int64_0);
    }
    assert(ColumnView::Int64(id6@) == expected[5]) by {
        assert(id6@ =~= expected[5]->Int64_0);
    }
    assert(ColumnView::Int64(v1@) == expected[6]) by {
        assert(v1@ =~= expected[6]->Int64_0);
    }
    assert(ColumnView::Int64(v2@) == expected[7]) by {
        assert(v2@ =~= expected[7]->Int64_0);
    }
    assert((ColumnView::Float64 { low: 0, high: 100, draws: v3@ }) == expected[8]) by {
        assert(v3@ =~= expected[8]->Float64_draws);
    }
    let columns = vec![
        Column::Utf8(id1),
        Column::Utf8(id2),
        Column::Utf8(id3),
        Column::Int64(id4),
        Column::Int64(id5),
        Column::Int64(id6),
        Column::Int64(v1),
        Column::Int64(v2),
        Column::Float64(FloatColumn { low: 0, high: 100, draws: v3 }),
    ];
    proof {
        lemma_groupby_shape(rows@);
        assert(column_views(columns@) =~= expected);
    }
    let made = Batch::try_new(Variant::Groupby, columns);
    made.unwrap()
}

/// Generates `batch_size` rows of the group-by table of `n` rows in `k`
/// groups, with `nas` percent of nulls in the six id columns, from the
/// stream of `seed`. The same arguments give the same batch. Nothing is
/// generated where a parameter is refused.
pub fn generate_groupby(n: i64, k: i64, nas: i64, seed: u64, batch_size: i64) -> (made: Result<
    Batch,
    GenError,
>)
    ensures
        outcome_view(made) == groupby_outcome(n, k, nas, seed, batch_size),
        made matches Ok(batch) ==> batch@.wf() && batch@.rows() == batch_size && groupby_in_range(
            batch@,
            k,
            (n / k) as i64,
        ),
{
    let plan = match GroupbyPlan::new(n, k, nas) {
        Ok(plan) => plan,
        Err(error) => {
            return Err(error);
        },
    };
    if batch_size < 0 {
        return Err(GenError::InvalidRange(Constraint::BatchSize));
    }
    let mut stream = Stream::new(seed);
    let rows = plan.draw_rows(&mut stream, batch_size);
    proof {
        lemma_groupby_shape(rows@);
        lemma_groupby_in_range(rows@, k, (n / k) as i64);
    }
    Ok(groupby_table(&rows))
}

} // verus!
