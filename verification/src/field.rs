//! Field generators: the null gate, the gated draws, the padded id string of
//! a cell, and the row-by-row unfolding of a stream.
//!
//! A gated field first draws its null gate from `0..=100`. Where the draw is
//! below the null percentage the field is null and nothing more is drawn for
//! it; otherwise the value is drawn next.

use crate::error::{Constraint, GenError};
use crate::stream::{Stream, UniformInt};
use crate::text::{format_id_padded, padded_id_text};
use vstd::prelude::*;

verus! {

/// Whether the null gate at `stream` closes for the null percentage `nas`,
/// and the stream after that draw.
pub open spec fn gate(stream: Stream, nas: i64) -> (bool, Stream) {
    let drawn = stream.uniform(0, 100);
    (drawn.0 < nas, drawn.1)
}

/// A gated integer from `low..=high`: null where its null gate closes, else
/// the next uniform draw.
pub open spec fn gated_int(stream: Stream, nas: i64, low: i64, high: i64) -> (Option<i64>, Stream) {
    let gated = gate(stream, nas);
    if gated.0 {
        (None, gated.1)
    } else {
        let drawn = gated.1.uniform(low, high);
        (Some(drawn.0), drawn.1)
    }
}

/// A gated raw word: null where its null gate closes, else the next word.
pub open spec fn gated_word(stream: Stream, nas: i64) -> (Option<u64>, Stream) {
    let gated = gate(stream, nas);
    if gated.0 {
        (None, gated.1)
    } else {
        let drawn = gated.1.word();
        (Some(drawn.0), drawn.1)
    }
}

/// The number of rows of a batch of `batch_size` rows: none for a negative
/// size.
pub open spec fn row_count(batch_size: i64) -> nat {
    if batch_size < 0 {
        0
    } else {
        batch_size as nat
    }
}

/// Whether an integer cell, if it holds a value, holds one of `low..=high`.
pub open spec fn cell_within(cell: Option<i64>, low: int, high: int) -> bool {
    cell matches Some(value) ==> low <= value <= high
}

/// The rows that `count` steps make from `stream`, in order, and the stream
/// after the last of them. One step makes one row and moves the stream.
pub open spec fn unfold<R>(
    step: spec_fn(Stream) -> (R, Stream),
    stream: Stream,
    count: nat,
) -> (Seq<R>, Stream)
    decreases count,
{
    if count == 0 {
        (Seq::empty(), stream)
    } else {
        let before = unfold(step, stream, (count - 1) as nat);
        let next = step(before.1);
        (before.0.push(next.0), next.1)
    }
}

/// Unfolding `count` steps makes `count` rows.
pub proof fn lemma_unfold_len<R>(step: spec_fn(Stream) -> (R, Stream), stream: Stream, count: nat)
    ensures
        unfold(step, stream, count).0.len() == count,
    decreases count,
{
    if count > 0 {
        lemma_unfold_len(step, stream, (count - 1) as nat);
    }
}

/// The step that draws one raw word.
pub open spec fn word_step() -> spec_fn(Stream) -> (u64, Stream) {
    |stream: Stream| stream.word()
}

/// The zero-padded id string of a cell: null for a null.
pub open spec fn padded_id_cell(cell: Option<i64>, width: nat) -> Option<Seq<char>> {
    match cell {
        Some(value) => Some(padded_id_text(value as int, width)),
        None => None,
    }
}

/// The null gate of one generation call: a percentage in `0..=100`.
#[derive(Clone, Copy, Debug)]
pub struct NullGate {
    nas: i64,
}

impl NullGate {
    #[verifier::type_invariant]
    spec fn in_percent(self) -> bool {
        0 <= self.nas <= 100
    }

    /// The null percentage.
    pub closed spec fn percent(self) -> i64 {
        self.nas
    }

    /// A null gate for the null percentage `nas`, refused outside `0..=100`.
    pub fn new(nas: i64) -> (made: Result<NullGate, GenError>)
        ensures
            made is Ok <==> 0 <= nas <= 100,
            made matches Ok(gate) ==> gate.percent() == nas,
            made matches Err(error) ==> error == GenError::InvalidRange(Constraint::NullPercent),
    {
        if 0 <= nas && nas <= 100 {
            Ok(NullGate { nas })
        } else {
            Err(GenError::InvalidRange(Constraint::NullPercent))
        }
    }

    /// Whether a field is null whose null gate drew `drawn`: where the draw
    /// is below the null percentage.
    pub fn closes_on(&self, drawn: i64) -> (null: bool)
        ensures
            null == (drawn < self.percent()),
    {
        drawn < self.nas
    }

    /// Draws once from `0..=100`: true where the field is null.
    pub fn closes(&self, stream: &mut Stream) -> (null: bool)
        ensures
            (null, *final(stream)) == gate(*old(stream), self.percent()),
    {
        let drawn = stream.draw_between(0, 100);
        self.closes_on(drawn)
    }

    /// Draws a gated integer of `dist`: the null gate first, and the value
    /// only where it is open.
    pub fn maybe_int(&self, dist: &UniformInt, stream: &mut Stream) -> (cell: Option<i64>)
        ensures
            (cell, *final(stream)) == gated_int(
                *old(stream),
                self.percent(),
                dist.low(),
                dist.high(),
            ),
            cell_within(cell, dist.low() as int, dist.high() as int),
    {
        if self.closes(stream) {
            None
        } else {
            Some(dist.sample(stream))
        }
    }

    /// Draws a gated raw word: the null gate first, and the word only where
    /// it is open.
    pub fn maybe_word(&self, stream: &mut Stream) -> (cell: Option<u64>)
        ensures
            (cell, *final(stream)) == gated_word(*old(stream), self.percent()),
    {
        if self.closes(stream) {
            None
        } else {
            Some(stream.next_word())
        }
    }
}

/// The zero-padded id string of a cell: null for a null.
pub fn format_padded_id_cell(cell: Option<i64>, width: usize) -> (text: Option<String>)
    ensures
        text.deep_view() == padded_id_cell(cell, width as nat),
{
    match cell {
        Some(value) => Some(format_id_padded(value, width)),
        None => None,
    }
}

} // verus!
