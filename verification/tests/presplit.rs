use h2o_datagen::batch::{Batch, Column, DataType, Variant};
use h2o_datagen::error::{Constraint, GenError};
use h2o_datagen::presplit::{
    generate_join_lhs, generate_join_rhs_big, generate_join_rhs_medium, generate_join_rhs_small,
};
use rand::distr::{Distribution, Uniform};
use rand::{RngCore, SeedableRng};
use rand_chacha::ChaCha8Rng;

/// A generator that yields one given word, as the float distribution asks
/// for exactly one.
struct OneWord(u64);

impl RngCore for OneWord {
    fn next_u32(&mut self) -> u32 {
        self.0 as u32
    }

    fn next_u64(&mut self) -> u64 {
        self.0
    }

    fn fill_bytes(&mut self, dest: &mut [u8]) {
        for (i, byte) in dest.iter_mut().enumerate() {
            *byte = self.0.to_le_bytes()[i % 8];
        }
    }
}

fn float_of(low: i64, high: i64, word: u64) -> f64 {
    Uniform::new_inclusive(low as f64, high as f64).unwrap().sample(&mut OneWord(word))
}

fn ints(batch: &Batch, index: usize) -> Vec<Option<i64>> {
    match batch.column(index).unwrap() {
        Column::Int64(values) => values.clone(),
        other => panic!("column {} is {:?}", index, other.data_type()),
    }
}

fn texts(batch: &Batch, index: usize) -> Vec<Option<String>> {
    match batch.column(index).unwrap() {
        Column::Utf8(values) => values.clone(),
        other => panic!("column {} is {:?}", index, other.data_type()),
    }
}

fn floats(batch: &Batch, index: usize) -> Vec<Option<f64>> {
    match batch.column(index).unwrap() {
        Column::Float64(column) => {
            assert_eq!((column.low, column.high), (1, 100));
            column
                .draws
                .iter()
                .map(|draw| draw.map(|word| float_of(column.low, column.high, word)))
                .collect()
        }
        other => panic!("column {} is {:?}", index, other.data_type()),
    }
}

fn cells(keys: &[i64]) -> Vec<Option<i64>> {
    keys.iter().map(|&key| Some(key)).collect()
}

fn ids(keys: &[i64]) -> Vec<Option<String>> {
    keys.iter().map(|&key| Some(format!("id{}", key))).collect()
}

fn values(seed: u64, rows: usize) -> Vec<Option<f64>> {
    let distr_float = Uniform::<f64>::try_from(1.0..=100.0).unwrap();
    let mut rng = ChaCha8Rng::seed_from_u64(seed);
    (0..rows).map(|_| Some(distr_float.sample(&mut rng))).collect()
}

fn schema_of(batch: &Batch) -> Vec<(String, DataType, bool)> {
    batch
        .schema()
        .iter()
        .map(|field| (field.name.as_str().to_string(), field.data_type, field.nullable))
        .collect()
}

fn entry(name: &str, data_type: DataType) -> (String, DataType, bool) {
    (name.to_string(), data_type, false)
}

fn mismatch(column: u8, expected: i64, found: u64) -> Option<GenError> {
    Some(GenError::LengthMismatch { column, expected, found })
}

#[test]
fn join_lhs_holds_the_keys_their_ids_and_one_value_per_row() {
    let k1 = vec![3, 1, 4, 1, 5];
    let k2 = vec![9, 2, 6, 5, 3];
    let k3 = vec![-5, 0, i64::MAX, i64::MIN, 1_000_000];
    let batch =
        generate_join_lhs(10_000_000, 42, k1.clone(), k2.clone(), k3.clone(), 5).unwrap();
    assert_eq!(batch.variant(), Variant::JoinLhs);
    assert_eq!(batch.num_rows(), 5);
    assert_eq!(
        schema_of(&batch),
        vec![
            entry("id1", DataType::Int64),
            entry("id2", DataType::Int64),
            entry("id3", DataType::Int64),
            entry("id4", DataType::Utf8),
            entry("id5", DataType::Utf8),
            entry("id6", DataType::Utf8),
            entry("v1", DataType::Float64),
        ]
    );
    assert_eq!(ints(&batch, 0), cells(&k1));
    assert_eq!(ints(&batch, 1), cells(&k2));
    assert_eq!(ints(&batch, 2), cells(&k3));
    assert_eq!(texts(&batch, 3), ids(&k1));
    assert_eq!(texts(&batch, 4), ids(&k2));
    assert_eq!(texts(&batch, 5), ids(&k3));
    assert_eq!(texts(&batch, 5)[3], Some("id-9223372036854775808".to_string()));
    assert_eq!(floats(&batch, 6), values(42, 5));
    for cell in floats(&batch, 6) {
        assert!((1.0..=100.0).contains(&cell.unwrap()));
    }
    for index in 0..7 {
        assert!(!batch.column(index).unwrap().has_null());
    }
}

#[test]
fn join_rhs_small_holds_one_key_column() {
    let k1: Vec<i64> = (1..=50).collect();
    let batch = generate_join_rhs_small(1_000, 7, k1.clone(), 50).unwrap();
    assert_eq!(batch.variant(), Variant::JoinRhsSmall);
    assert_eq!(
        schema_of(&batch),
        vec![
            entry("id1", DataType::Int64),
            entry("id4", DataType::Utf8),
            entry("v2", DataType::Float64),
        ]
    );
    assert_eq!(ints(&batch, 0), cells(&k1));
    assert_eq!(texts(&batch, 1), ids(&k1));
    assert_eq!(floats(&batch, 2), values(7, 50));
}

#[test]
fn join_rhs_medium_holds_two_key_columns() {
    let k1: Vec<i64> = (1..=20).collect();
    let k2: Vec<i64> = (101..=120).rev().collect();
    let batch = generate_join_rhs_medium(1_000, 8, k1.clone(), k2.clone(), 20).unwrap();
    assert_eq!(batch.variant(), Variant::JoinRhsMedium);
    assert_eq!(
        schema_of(&batch),
        vec![
            entry("id1", DataType::Int64),
            entry("id2", DataType::Int64),
            entry("id4", DataType::Utf8),
            entry("id5", DataType::Utf8),
            entry("v2", DataType::Float64),
        ]
    );
    assert_eq!(ints(&batch, 0), cells(&k1));
    assert_eq!(ints(&batch, 1), cells(&k2));
    assert_eq!(texts(&batch, 2), ids(&k1));
    assert_eq!(texts(&batch, 3), ids(&k2));
    assert_eq!(floats(&batch, 4), values(8, 20));
}

#[test]
fn join_rhs_big_holds_three_key_columns() {
    let k1 = vec![1, 2, 3];
    let k2 = vec![10, 20, 30];
    let k3 = vec![100, 200, 300];
    let batch = generate_join_rhs_big(1_000, 9, k1.clone(), k2.clone(), k3.clone(), 3).unwrap();
    assert_eq!(batch.variant(), Variant::JoinRhsBig);
    assert_eq!(
        schema_of(&batch),
        vec![
            entry("id1", DataType::Int64),
            entry("id2", DataType::Int64),
            entry("id3", DataType::Int64),
            entry("id4", DataType::Utf8),
            entry("id5", DataType::Utf8),
            entry("id6", DataType::Utf8),
            entry("v2", DataType::Float64),
        ]
    );
    assert_eq!(ints(&batch, 2), cells(&k3));
    assert_eq!(texts(&batch, 3), ids(&k1));
    assert_eq!(texts(&batch, 4), ids(&k2));
    assert_eq!(texts(&batch, 5), ids(&k3));
    assert_eq!(floats(&batch, 6), values(9, 3));
}

#[test]
fn presplit_tables_do_not_depend_on_the_row_count() {
    let k1 = vec![4, 5, 6];
    let first = generate_join_rhs_small(0, 3, k1.clone(), 3).unwrap();
    let second = generate_join_rhs_small(i64::MAX, 3, k1.clone(), 3).unwrap();
    let third = generate_join_rhs_small(-1, 3, k1, 3).unwrap();
    assert_eq!(floats(&first, 2), floats(&second, 2));
    assert_eq!(floats(&first, 2), floats(&third, 2));
    assert_eq!(texts(&first, 1), texts(&second, 1));
}

#[test]
fn presplit_tables_are_deterministic() {
    let make = |seed| generate_join_lhs(100, seed, vec![1, 2], vec![3, 4], vec![5, 6], 2).unwrap();
    assert_eq!(floats(&make(1), 6), floats(&make(1), 6));
    assert_ne!(floats(&make(1), 6), floats(&make(2), 6));
    assert_eq!(ints(&make(1), 1), ints(&make(2), 1));
}

#[test]
fn empty_presplit_batch() {
    let batch = generate_join_lhs(100, 1, vec![], vec![], vec![], 0).unwrap();
    assert_eq!(batch.num_rows(), 0);
    assert_eq!(batch.num_columns(), 7);
}

#[test]
fn every_key_column_must_have_the_batch_size() {
    let lhs = |a: usize, b: usize, c: usize, rows| {
        generate_join_lhs(100, 1, vec![0; a], vec![0; b], vec![0; c], rows).err()
    };
    assert_eq!(lhs(2, 3, 3, 3), mismatch(1, 3, 2));
    assert_eq!(lhs(3, 4, 3, 3), mismatch(2, 3, 4));
    assert_eq!(lhs(3, 3, 0, 3), mismatch(3, 3, 0));
    assert_eq!(lhs(1, 2, 5, 3), mismatch(1, 3, 1));
    assert_eq!(lhs(3, 2, 5, 3), mismatch(2, 3, 2));
    assert_eq!(lhs(3, 3, 3, 3), None);
    assert_eq!(lhs(3, 3, 3, -1), Some(GenError::InvalidRange(Constraint::BatchSize)));
    assert_eq!(lhs(0, 0, 0, -1), Some(GenError::InvalidRange(Constraint::BatchSize)));

    let big = |a: usize, b: usize, c: usize, rows| {
        generate_join_rhs_big(100, 1, vec![0; a], vec![0; b], vec![0; c], rows).err()
    };
    assert_eq!(big(3, 3, 2, 3), mismatch(3, 3, 2));
    assert_eq!(big(3, 3, 3, 3), None);

    let medium = |a: usize, b: usize, rows| {
        generate_join_rhs_medium(100, 1, vec![0; a], vec![0; b], rows).err()
    };
    assert_eq!(medium(5, 6, 5), mismatch(2, 5, 6));
    assert_eq!(medium(4, 5, 5), mismatch(1, 5, 4));
    assert_eq!(medium(5, 5, 5), None);

    let small = |a: usize, rows| generate_join_rhs_small(100, 1, vec![0; a], rows).err();
    assert_eq!(small(0, 1), mismatch(1, 1, 0));
    assert_eq!(small(1, 0), mismatch(1, 0, 1));
    assert_eq!(small(1, 1), None);
    assert_eq!(small(1, -1), Some(GenError::InvalidRange(Constraint::BatchSize)));
}
