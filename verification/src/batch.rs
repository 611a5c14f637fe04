//! Typed column batches and the fixed schemas of the dataset variants.
//!
//! A batch is an ordered set of columns of one length. Row `i` of every
//! column belongs to the same record. A `Float64` column does not hold
//! floating-point numbers: it holds, for each row, the 64-bit word drawn for
//! that row and the closed interval of the column. The value of the row is
//! what a uniform distribution over that interval makes of the word.

use crate::error::GenError;
use crate::text::{id_text, padded_id_text};
use vstd::prelude::*;
use vstd::string::StrSliceExecFns;

verus! {

/// The dataset shapes. Each has a fixed schema.
#[derive(Clone, Copy, Debug, PartialEq, Eq, Structural)]
pub enum Variant {
    /// The group-by table.
    Groupby,
    /// The small join table, keys sampled from a permuted pool.
    JoinSmall,
    /// The medium join table, keys sampled from two permuted pools.
    JoinMedium,
    /// The big join table, keys sampled from plain ranges, with nulls.
    JoinBig,
    /// The left join table over three key columns handed in.
    JoinLhs,
    /// The small right join table over one key column handed in.
    JoinRhsSmall,
    /// The medium right join table over two key columns handed in.
    JoinRhsMedium,
    /// The big right join table over three key columns handed in.
    JoinRhsBig,
}

/// The type of the values of a column.
#[derive(Clone, Copy, Debug, PartialEq, Eq, Structural)]
pub enum DataType {
    /// 64-bit signed integers.
    Int64,
    /// Text.
    Utf8,
    /// 64-bit floating-point numbers, held as the words they are made from.
    Float64,
}

/// The names that columns bear.
#[derive(Clone, Copy, Debug, PartialEq, Eq, Structural)]
pub enum ColumnName {
    Id1,
    Id2,
    Id3,
    Id4,
    Id5,
    Id6,
    V1,
    V2,
    V3,
}

/// One entry of a schema.
#[derive(Clone, Copy, Debug, PartialEq, Eq, Structural)]
pub struct Field {
    /// The name of the column.
    pub name: ColumnName,
    /// The type of its values.
    pub data_type: DataType,
    /// Whether a row of it may be null.
    pub nullable: bool,
}

/// A column of integers.
pub open spec fn int64(name: ColumnName, nullable: bool) -> Field {
    Field { name, data_type: DataType::Int64, nullable }
}

/// A column of text.
pub open spec fn utf8(name: ColumnName, nullable: bool) -> Field {
    Field { name, data_type: DataType::Utf8, nullable }
}

/// A column of floating-point numbers.
pub open spec fn float64(name: ColumnName, nullable: bool) -> Field {
    Field { name, data_type: DataType::Float64, nullable }
}

impl ColumnName {
    /// The name as text.
    pub open spec fn text(self) -> Seq<char> {
        match self {
            ColumnName::Id1 => "id1"@,
            ColumnName::Id2 => "id2"@,
            ColumnName::Id3 => "id3"@,
            ColumnName::Id4 => "id4"@,
            ColumnName::Id5 => "id5"@,
            ColumnName::Id6 => "id6"@,
            ColumnName::V1 => "v1"@,
            ColumnName::V2 => "v2"@,
            ColumnName::V3 => "v3"@,
        }
    }

    /// The name as text.
    pub fn as_str(self) -> (name: &'static str)
        ensures
            name@ == self.text(),
    {
        match self {
            ColumnName::Id1 => "id1",
            ColumnName::Id2 => "id2",
            ColumnName::Id3 => "id3",
            ColumnName::Id4 => "id4",
            ColumnName::Id5 => "id5",
            ColumnName::Id6 => "id6",
            ColumnName::V1 => "v1",
            ColumnName::V2 => "v2",
            ColumnName::V3 => "v3",
        }
    }
}

impl Field {
    /// A schema entry.
    pub fn new(name: ColumnName, data_type: DataType, nullable: bool) -> (field: Field)
        ensures
            field == (Field { name, data_type, nullable }),
    {
        Field { name, data_type, nullable }
    }
}

impl Variant {
    /// The schema of the variant: its columns in order.
    pub open spec fn fields(self) -> Seq<Field> {
        match self {
            Variant::Groupby => seq![
                utf8(ColumnName::Id1, true),
                utf8(ColumnName::Id2, true),
                utf8(ColumnName::Id3, true),
                int64(ColumnName::Id4, true),
                int64(ColumnName::Id5, true),
                int64(ColumnName::Id6, true),
                int64(ColumnName::V1, false),
                int64(ColumnName::V2, false),
                float64(ColumnName::V3, false),
            ],
            Variant::JoinSmall | Variant::JoinRhsSmall => seq![
                int64(ColumnName::Id1, false),
                utf8(ColumnName::Id4, false),
                float64(ColumnName::V2, false),
            ],
            Variant::JoinMedium | Variant::JoinRhsMedium => seq![
                int64(ColumnName::Id1, false),
                int64(ColumnName::Id2, false),
                utf8(ColumnName::Id4, false),
                utf8(ColumnName::Id5, false),
                float64(ColumnName::V2, false),
            ],
            Variant::JoinBig => seq![
                int64(ColumnName::Id1, true),
                int64(ColumnName::Id2, true),
                int64(ColumnName::Id3, true),
                utf8(ColumnName::Id4, false),
                utf8(ColumnName::Id5, false),
                utf8(ColumnName::Id6, false),
                float64(ColumnName::V2, true),
            ],
            Variant::JoinLhs => seq![
                int64(ColumnName::Id1, false),
                int64(ColumnName::Id2, false),
                int64(ColumnName::Id3, false),
                utf8(ColumnName::Id4, false),
                utf8(ColumnName::Id5, false),
                utf8(ColumnName::Id6, false),
                float64(ColumnName::V1, false),
            ],
            Variant::JoinRhsBig => seq![
                int64(ColumnName::Id1, false),
                int64(ColumnName::Id2, false),
                int64(ColumnName::Id3, false),
                utf8(ColumnName::Id4, false),
                utf8(ColumnName::Id5, false),
                utf8(ColumnName::Id6, false),
                float64(ColumnName::V2, false),
            ],
        }
    }

    /// The least value of the variant's floating-point column.
    pub open spec fn float_low(self) -> i64 {
        match self {
            Variant::Groupby => 0,
            _ => 1,
        }
    }

    /// The greatest value of the variant's floating-point column.
    pub open spec fn float_high(self) -> i64 {
        100
    }

    /// The least value of the variant's floating-point column: 0 in the
    /// group-by table, 1 in the join tables.
    pub fn float_lower(self) -> (low: i64)
        ensures
            low == self.float_low(),
    {
        match self {
            Variant::Groupby => 0,
            _ => 1,
        }
    }

    /// The greatest value of the variant's floating-point column: 100.
    pub fn float_upper(self) -> (high: i64)
        ensures
            high == self.float_high(),
    {
        100
    }

    /// The schema of the variant: its columns in order.
    pub fn schema(self) -> (fields: Vec<Field>)
        ensures
            fields@ == self.fields(),
    {
        let fields = match self {
            Variant::Groupby => vec![
                Field::new(ColumnName::Id1, DataType::Utf8, true),
                Field::new(ColumnName::Id2, DataType::Utf8, true),
                Field::new(ColumnName::Id3, DataType::Utf8, true),
                Field::new(ColumnName::Id4, DataType::Int64, true),
                Field::new(ColumnName::Id5, DataType::Int64, true),
                Field::new(ColumnName::Id6, DataType::Int64, true),
                Field::new(ColumnName::V1, DataType::Int64, false),
                Field::new(ColumnName::V2, DataType::Int64, false),
                Field::new(ColumnName::V3, DataType::Float64, false),
            ],
            Variant::JoinSmall | Variant::JoinRhsSmall => vec![
                Field::new(ColumnName::Id1, DataType::Int64, false),
                Field::new(ColumnName::Id4, DataType::Utf8, false),
                Field::new(ColumnName::V2, DataType::Float64, false),
            ],
            Variant::JoinMedium | Variant::JoinRhsMedium => vec![
                Field::new(ColumnName::Id1, DataType::Int64, false),
                Field::new(ColumnName::Id2, DataType::Int64, false),
                Field::new(ColumnName::Id4, DataType::Utf8, false),
                Field::new(ColumnName::Id5, DataType::Utf8, false),
                Field::new(ColumnName::V2, DataType::Float64, false),
            ],
            Variant::JoinBig => vec![
                Field::new(ColumnName::Id1, DataType::Int64, true),
                Field::new(ColumnName::Id2, DataType::Int64, true),
                Field::new(ColumnName::Id3, DataType::Int64, true),
                Field::new(ColumnName::Id4, DataType::Utf8, false),
                Field::new(ColumnName::Id5, DataType::Utf8, false),
                Field::new(ColumnName::Id6, DataType::Utf8, false),
                Field::new(ColumnName::V2, DataType::Float64, true),
            ],
            Variant::JoinLhs => vec![
                Field::new(ColumnName::Id1, DataType::Int64, false),
                Field::new(ColumnName::Id2, DataType::Int64, false),
                Field::new(ColumnName::Id3, DataType::Int64, false),
                Field::new(ColumnName::Id4, DataType::Utf8, false),
                Field::new(ColumnName::Id5, DataType::Utf8, false),
                Field::new(ColumnName::Id6, DataType::Utf8, false),
                Field::new(ColumnName::V1, DataType::Float64, false),
            ],
            Variant::JoinRhsBig => vec![
                Field::new(ColumnName::Id1, DataType::Int64, false),
                Field::new(ColumnName::Id2, DataType::Int64, false),
                Field::new(ColumnName::Id3, DataType::Int64, false),
                Field::new(ColumnName::Id4, DataType::Utf8, false),
                Field::new(ColumnName::Id5, DataType::Utf8, false),
                Field::new(ColumnName::Id6, DataType::Utf8, false),
                Field::new(ColumnName::V2, DataType::Float64, false),
            ],
        };
        assert(fields@ =~= self.fields());
        fields
    }
}

/// A column of floating-point numbers, as the words they are made from.
#[derive(Debug)]
pub struct FloatColumn {
    /// The least value of the column.
    pub low: i64,
    /// The greatest value of the column.
    pub high: i64,
    /// For each row the 64-bit word drawn for it, or nothing for a null.
    pub draws: Vec<Option<u64>>,
}

/// The values of one column of a batch.
#[derive(Debug)]
pub enum Column {
    /// Integers.
    Int64(Vec<Option<i64>>),
    /// Text.
    Utf8(Vec<Option<String>>),
    /// Floating-point numbers.
    Float64(FloatColumn),
}

/// What a column holds.
pub enum ColumnView {
    /// Integers.
    Int64(Seq<Option<i64>>),
    /// Text.
    Utf8(Seq<Option<Seq<char>>>),
    /// Floating-point numbers over `low..=high`, each as its word.
    Float64 { low: i64, high: i64, draws: Seq<Option<u64>> },
}

impl ColumnView {
    /// The number of rows.
    pub open spec fn len(self) -> nat {
        match self {
            ColumnView::Int64(values) => values.len(),
            ColumnView::Utf8(values) => values.len(),
            ColumnView::Float64 { draws, .. } => draws.len(),
        }
    }

    /// The type of the values.
    pub open spec fn data_type(self) -> DataType {
        match self {
            ColumnView::Int64(_) => DataType::Int64,
            ColumnView::Utf8(_) => DataType::Utf8,
            ColumnView::Float64 { .. } => DataType::Float64,
        }
    }

    /// Whether the given row is null.
    pub open spec fn is_null(self, row: int) -> bool {
        match self {
            ColumnView::Int64(values) => values[row] is None,
            ColumnView::Utf8(values) => values[row] is None,
            ColumnView::Float64 { draws, .. } => draws[row] is None,
        }
    }

    /// Whether no row is null.
    pub open spec fn no_nulls(self) -> bool {
        forall|row: int| 0 <= row < self.len() ==> !#[trigger] self.is_null(row)
    }

    /// Whether the column holds integers, and every one that is not null
    /// lies in `low..=high`.
    pub open spec fn ints_within(self, low: int, high: int) -> bool {
        self matches ColumnView::Int64(cells) && forall|row: int|
            0 <= row < cells.len() ==> ((#[trigger] cells[row]) matches Some(value) ==> low <= value
                <= high)
    }

    /// Whether the column holds text, and every cell that is not null is the
    /// id string, zero-padded to `width`, of a number in `low..=high`.
    pub open spec fn padded_ids_within(self, low: int, high: int, width: nat) -> bool {
        self matches ColumnView::Utf8(cells) && forall|row: int|
            0 <= row < cells.len() ==> ((#[trigger] cells[row]) matches Some(text) ==> exists|
                value: int,
            |
                low <= value <= high && text == padded_id_text(value, width))
    }

    /// Whether the column holds integers, and every one that is not null is
    /// a key of `pool`.
    pub open spec fn keys_in(self, pool: Seq<i64>) -> bool {
        self matches ColumnView::Int64(cells) && forall|row: int|
            0 <= row < cells.len() ==> ((#[trigger] cells[row]) matches Some(key) ==> pool.contains(
                key,
            ))
    }

    /// Whether the column fits the schema entry `field` in a batch of `rows`
    /// rows of the given variant.
    pub open spec fn conforms(self, variant: Variant, field: Field, rows: nat) -> bool {
        &&& self.data_type() == field.data_type
        &&& self.len() == rows
        &&& !field.nullable ==> self.no_nulls()
        &&& self matches ColumnView::Float64 { low, high, .. } ==> low == variant.float_low() && high
            == variant.float_high()
    }
}

impl View for Column {
    type V = ColumnView;

    open spec fn view(&self) -> ColumnView {
        match self {
            Column::Int64(values) => ColumnView::Int64(values@),
            Column::Utf8(values) => ColumnView::Utf8(values.deep_view()),
            Column::Float64(column) => ColumnView::Float64 {
                low: column.low,
                high: column.high,
                draws: column.draws@,
            },
        }
    }
}

/// The views of a run of columns.
pub open spec fn column_views(columns: Seq<Column>) -> Seq<ColumnView> {
    Seq::new(columns.len(), |i: int| columns[i]@)
}

/// What a batch holds.
pub struct BatchView {
    /// The variant whose schema the batch follows.
    pub variant: Variant,
    /// The columns, in the order of the schema.
    pub columns: Seq<ColumnView>,
}

impl BatchView {
    /// The number of rows: the length of the first column.
    pub open spec fn rows(self) -> nat {
        if self.columns.len() == 0 {
            0
        } else {
            self.columns[0].len()
        }
    }

    /// Whether the text column at `text_column` mirrors the integer column
    /// at `key_column`: in every row where the key is not null the text is
    /// `id` and the key, unpadded.
    pub open spec fn mirrors(self, key_column: int, text_column: int) -> bool {
        &&& 0 <= key_column < self.columns.len()
        &&& 0 <= text_column < self.columns.len()
        &&& self.columns[key_column] matches ColumnView::Int64(keys)
        &&& self.columns[text_column] matches ColumnView::Utf8(texts)
        &&& keys.len() == texts.len()
        &&& forall|row: int|
            0 <= row < keys.len() ==> ((#[trigger] keys[row]) matches Some(key) ==> texts[row]
                == Some(id_text(key as int)))
    }

    /// Whether every text column of a join table mirrors its key column:
    /// `id4` mirrors `id1`, `id5` mirrors `id2`, and `id6` mirrors `id3`,
    /// but in the big join table `id6` mirrors `id2`. The group-by table has
    /// no such pair.
    pub open spec fn mirrored(self) -> bool {
        match self.variant {
            Variant::Groupby => true,
            Variant::JoinSmall | Variant::JoinRhsSmall => self.mirrors(0, 1),
            Variant::JoinMedium | Variant::JoinRhsMedium => self.mirrors(0, 2) && self.mirrors(
                1,
                3,
            ),
            Variant::JoinBig => self.mirrors(0, 3) && self.mirrors(1, 4) && self.mirrors(1, 5),
            Variant::JoinLhs | Variant::JoinRhsBig => self.mirrors(0, 3) && self.mirrors(1, 4)
                && self.mirrors(2, 5),
        }
    }

    /// Whether the columns follow the schema of the variant: as many columns
    /// as schema entries, each of the entry's type, all of one length, and
    /// no null in a column that is not nullable.
    pub open spec fn wf(self) -> bool {
        &&& self.columns.len() == self.variant.fields().len()
        &&& forall|c: int|
            0 <= c < self.columns.len() ==> (#[trigger] self.columns[c]).conforms(
                self.variant,
                self.variant.fields()[c],
                self.rows(),
            )
    }
}

/// Whether some entry of `values` is absent.
fn any_none<T>(values: &Vec<Option<T>>) -> (found: bool)
    ensures
        found == exists|row: int| 0 <= row < values@.len() && #[trigger] values@[row] is None,
{
    let mut row: usize = 0;
    while row < values.len()
        invariant
            row <= values@.len(),
            forall|r: int| 0 <= r < row ==> #[trigger] values@[r] is Some,
        decreases values@.len() - row,
    {
        if values[row].is_none() {
            return true;
        }
        row = row + 1;
    }
    false
}

impl Column {
    /// The number of rows.
    pub fn len(&self) -> (rows: usize)
        ensures
            rows == self@.len(),
    {
        match self {
            Column::Int64(values) => values.len(),
            Column::Utf8(values) => values.len(),
            Column::Float64(column) => column.draws.len(),
        }
    }

    /// The type of the values.
    pub fn data_type(&self) -> (data_type: DataType)
        ensures
            data_type == self@.data_type(),
    {
        match self {
            Column::Int64(_) => DataType::Int64,
            Column::Utf8(_) => DataType::Utf8,
            Column::Float64(_) => DataType::Float64,
        }
    }

    /// Whether some row is null.
    pub fn has_null(&self) -> (found: bool)
        ensures
            found == !self@.no_nulls(),
    {
        match self {
            Column::Int64(values) => {
                let found = any_none(values);
                proof {
                    if found {
                        let at = choose|row: int|
                            0 <= row < values@.len() && #[trigger] values@[row] is None;
                        assert(self@.is_null(at));
                    } else {
                        assert forall|row: int| 0 <= row < self@.len() implies !#[trigger] self@.is_null(
                            row,
                        ) by {
                            assert(values@[row] is Some);
                        }
                    }
                }
                found
            },
            Column::Utf8(values) => {
                let found = any_none(values);
                proof {
                    if found {
                        let at = choose|row: int|
                            0 <= row < values@.len() && #[trigger] values@[row] is None;
                        assert(self@.is_null(at));
                    } else {
                        assert forall|row: int| 0 <= row < self@.len() implies !#[trigger] self@.is_null(
                            row,
                        ) by {
                            assert(values@[row] is Some);
                        }
                    }
                }
                found
            },
            Column::Float64(column) => {
                let found = any_none(&column.draws);
                proof {
                    if found {
                        let at = choose|row: int|
                            0 <= row < column.draws@.len() && #[trigger] column.draws@[row] is None;
                        assert(self@.is_null(at));
                    } else {
                        assert forall|row: int| 0 <= row < self@.len() implies !#[trigger] self@.is_null(
                            row,
                        ) by {
                            assert(column.draws@[row] is Some);
                        }
                    }
                }
                found
            },
        }
    }

    /// Whether the column fits the schema entry `field` in a batch of `rows`
    /// rows of the given variant.
    pub fn conforms(&self, variant: Variant, field: Field, rows: usize) -> (fits: bool)
        ensures
            fits == self@.conforms(variant, field, rows as nat),
    {
        if self.data_type() != field.data_type {
            return false;
        }
        if self.len() != rows {
            return false;
        }
        if !field.nullable && self.has_null() {
            return false;
        }
        match self {
            Column::Float64(column) => column.low == variant.float_lower() && column.high
                == variant.float_upper(),
            _ => true,
        }
    }
}

/// A batch of rows in columns, following the schema of its variant.
#[derive(Debug)]
pub struct Batch {
    variant: Variant,
    columns: Vec<Column>,
}

impl View for Batch {
    type V = BatchView;

    closed spec fn view(&self) -> BatchView {
        BatchView { variant: self.variant, columns: column_views(self.columns@) }
    }
}

impl Batch {
    #[verifier::type_invariant]
    spec fn well_formed(self) -> bool {
        self@.wf()
    }

    /// Makes a batch of the given columns, if they follow the schema of the
    /// variant.
    pub fn try_new(variant: Variant, columns: Vec<Column>) -> (made: Option<Batch>)
        ensures
            made is Some <==> (BatchView { variant, columns: column_views(columns@) }).wf(),
            made matches Some(batch) ==> batch@ == (BatchView {
                variant,
                columns: column_views(columns@),
            }),
    {
        let ghost view = BatchView { variant, columns: column_views(columns@) };
        let fields = variant.schema();
        if columns.len() != fields.len() {
            return None;
        }
        let rows = columns[0].len();
        let mut c: usize = 0;
        while c < columns.len()
            invariant
                c <= columns@.len(),
                columns@.len() == fields@.len(),
                fields@ == variant.fields(),
                view == (BatchView { variant, columns: column_views(columns@) }),
                rows == view.rows(),
                forall|j: int|
                    0 <= j < c ==> (#[trigger] view.columns[j]).conforms(
                        variant,
                        variant.fields()[j],
                        rows as nat,
                    ),
            decreases columns@.len() - c,
        {
            let field = fields[c];
            if !columns[c].conforms(variant, field, rows) {
                assert(!view.columns[c as int].conforms(variant, variant.fields()[c as int], view.rows()));
                return None;
            }
            c = c + 1;
        }
        Some(Batch { variant, columns })
    }

    /// The variant whose schema the batch follows.
    pub fn variant(&self) -> (variant: Variant)
        ensures
            variant == self@.variant,
    {
        self.variant
    }

    /// The schema of the batch: one entry for each column, in order.
    pub fn schema(&self) -> (fields: Vec<Field>)
        ensures
            fields@ == self@.variant.fields(),
            fields@.len() == self@.columns.len(),
    {
        proof {
            use_type_invariant(self);
        }
        self.variant.schema()
    }

    /// The number of columns.
    pub fn num_columns(&self) -> (count: usize)
        ensures
            count == self@.columns.len(),
            count == self@.variant.fields().len(),
    {
        proof {
            use_type_invariant(self);
        }
        self.columns.len()
    }

    /// The number of rows, which every column has.
    pub fn num_rows(&self) -> (rows: usize)
        ensures
            rows == self@.rows(),
            forall|c: int| 0 <= c < self@.columns.len() ==> (#[trigger] self@.columns[c]).len() == rows,
    {
        proof {
            use_type_invariant(self);
        }
        self.columns[0].len()
    }

    /// The column at position `index` of the schema, if there is one.
    pub fn column(&self, index: usize) -> (column: Option<&Column>)
        ensures
            column is Some <==> index < self@.columns.len(),
            column matches Some(found) ==> found@ == self@.columns[index as int],
    {
        if index < self.columns.len() {
            Some(&self.columns[index])
        } else {
            None
        }
    }

    /// The column that bears `name` in the schema, if there is one.
    pub fn column_by_name(&self, name: &str) -> (column: Option<&Column>)
        ensures
            column is Some <==> position_of(self@.variant.fields(), name@, 0) is Some,
            column matches Some(found) ==> found@ == self@.columns[position_of(
                self@.variant.fields(),
                name@,
                0,
            )->0],
    {
        proof {
            use_type_invariant(self);
        }
        match self.variant.position(name) {
            Some(index) => Some(&self.columns[index]),
            None => None,
        }
    }

    /// The columns, in the order of the schema.
    pub fn columns(&self) -> (columns: &Vec<Column>)
        ensures
            column_views(columns@) == self@.columns,
    {
        &self.columns
    }

    /// Gives up the batch for its columns, in the order of the schema.
    pub fn into_columns(self) -> (columns: Vec<Column>)
        ensures
            column_views(columns@) == self@.columns,
    {
        self.columns
    }
}

/// What a generation call returned, with the batch as what it holds.
pub open spec fn outcome_view(made: Result<Batch, GenError>) -> Result<BatchView, GenError> {
    match made {
        Ok(batch) => Ok(batch@),
        Err(error) => Err(error),
    }
}

/// The first position from `from` on at which `fields` has an entry named
/// `name`, if there is one.
pub open spec fn position_of(fields: Seq<Field>, name: Seq<char>, from: int) -> Option<int>
    decreases fields.len() - from,
{
    if from < 0 || from >= fields.len() {
        None
    } else if fields[from].name.text() == name {
        Some(from)
    } else {
        position_of(fields, name, from + 1)
    }
}

/// Whether two strings hold the same text.
pub fn same_text(a: &str, b: &str) -> (same: bool)
    ensures
        same == (a@ == b@),
{
    let len = a.unicode_len();
    if len != b.unicode_len() {
        return false;
    }
    let mut at: usize = 0;
    while at < len
        invariant
            at <= len,
            len == a@.len(),
            len == b@.len(),
            forall|i: int| 0 <= i < at ==> a@[i] == b@[i],
        decreases len - at,
    {
        if a.get_char(at) != b.get_char(at) {
            return false;
        }
        at = at + 1;
    }
    assert(a@ =~= b@);
    true
}

impl Variant {
    /// The position in the schema of the column named `name`, if there is
    /// one.
    pub fn position(self, name: &str) -> (at: Option<usize>)
        ensures
            at is Some <==> position_of(self.fields(), name@, 0) is Some,
            at matches Some(index) ==> index == position_of(self.fields(), name@, 0)->0 && index
                < self.fields().len(),
    {
        let fields = self.schema();
        let mut index: usize = 0;
        while index < fields.len()
            invariant
                index <= fields@.len(),
                fields@ == self.fields(),
                position_of(self.fields(), name@, 0) == position_of(
                    self.fields(),
                    name@,
                    index as int,
                ),
            decreases fields@.len() - index,
        {
            if same_text(fields[index].name.as_str(), name) {
                return Some(index);
            }
            index = index + 1;
        }
        None
    }
}

} // verus!
