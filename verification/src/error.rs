//! The errors of a generation call. All of them are found before the first
//! row is generated.

use crate::keys::Scale;
use crate::text::{decimal, push_decimal, push_signed, signed_decimal};
use vstd::prelude::*;
use vstd::string::StringExecFns;

verus! {

/// A condition on the parameters under which a sampling range has at least
/// one value.
#[derive(Clone, Copy, Debug, PartialEq, Eq, Structural)]
pub enum Constraint {
    /// The number of groups `k` is at least 1, so `1..=k` is not empty.
    GroupCount,
    /// The row count `n` is at least `k`, so `1..=n/k` is not empty.
    RowsPerGroup,
    /// The null percentage lies in `0..=100`.
    NullPercent,
    /// The batch size is not negative.
    BatchSize,
    /// The row count `n` leaves at least one key to sample.
    KeyCount,
}

/// Why a generation call returned no batch.
#[derive(Clone, Copy, Debug, PartialEq, Eq, Structural)]
pub enum GenError {
    /// A sampling range derived from the parameters is empty, or a parameter
    /// lies outside its range.
    InvalidRange(Constraint),
    /// A key column handed in has not as many entries as the batch has rows.
    /// `column` counts the key columns from 1.
    LengthMismatch { column: u8, expected: i64, found: u64 },
    /// A slice bound of the key domain of `rows` rows at `scale` falls
    /// outside the domain, or the domain outside the 64-bit keys.
    IndexingError { rows: i64, scale: Scale },
}

impl Constraint {
    /// The sentence that states the violated condition.
    pub open spec fn text(self) -> Seq<char> {
        match self {
            Constraint::GroupCount => "k must be at least 1"@,
            Constraint::RowsPerGroup => "n must be at least k"@,
            Constraint::NullPercent => "nas must lie between 0 and 100"@,
            Constraint::BatchSize => "batch_size must not be negative"@,
            Constraint::KeyCount => "n leaves no key to sample"@,
        }
    }

    /// The sentence that states the violated condition.
    pub fn as_str(self) -> (s: &'static str)
        ensures
            s@ == self.text(),
    {
        match self {
            Constraint::GroupCount => "k must be at least 1",
            Constraint::RowsPerGroup => "n must be at least k",
            Constraint::NullPercent => "nas must lie between 0 and 100",
            Constraint::BatchSize => "batch_size must not be negative",
            Constraint::KeyCount => "n leaves no key to sample",
        }
    }
}

impl GenError {
    /// The message of the error.
    pub open spec fn text(self) -> Seq<char> {
        match self {
            GenError::InvalidRange(constraint) => "invalid range: "@ + constraint.text(),
            GenError::LengthMismatch { column, expected, found } => "length mismatch: key column "@
                + decimal(column as nat) + " holds "@ + decimal(found as nat)
                + " entries, the batch "@ + signed_decimal(expected as int),
            GenError::IndexingError { rows, scale } => "indexing error: no key domain for n = "@
                + signed_decimal(rows as int) + " at rows per key "@ + signed_decimal(
                scale.divisor(),
            ),
        }
    }

    /// The message of the error, naming the parameter or bound at fault.
    pub fn message(&self) -> (text: String)
        ensures
            text@ == self.text(),
    {
        match *self {
            GenError::InvalidRange(constraint) => {
                let mut out = String::from_str("invalid range: ");
                out.append(constraint.as_str());
                out
            },
            GenError::LengthMismatch { column, expected, found } => {
                let mut out = String::from_str("length mismatch: key column ");
                push_decimal(&mut out, column as u64);
                out.append(" holds ");
                push_decimal(&mut out, found);
                out.append(" entries, the batch ");
                push_signed(&mut out, expected);
                out
            },
            GenError::IndexingError { rows, scale } => {
                let mut out = String::from_str("indexing error: no key domain for n = ");
                push_signed(&mut out, rows);
                out.append(" at rows per key ");
                push_signed(&mut out, scale.rows_per_key());
                out
            },
        }
    }
}

} // verus!
