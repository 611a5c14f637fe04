//! Buffers sized ahead of the rows that fill them.

use vstd::prelude::*;

verus! {

/// An empty vector, with room for `rows` entries where the memory has it.
pub fn with_room<T>(rows: i64) -> (empty: Vec<T>)
    ensures
        empty@ == Seq::<T>::empty(),
{
    let mut empty: Vec<T> = Vec::new();
    if 0 <= rows && rows as u64 <= usize::MAX as u64 {
        let _ = empty.try_reserve(rows as usize);
    }
    empty
}

} // verus!
