use h2o_datagen::batch::{Batch, Column, ColumnName, DataType, Variant};
use h2o_datagen::error::{Constraint, GenError};
use h2o_datagen::groupby::{generate_groupby, groupby_table, GroupbyPlan, GroupbyRow};
use h2o_datagen::stream::Stream;
use rand::distr::{Distribution, Uniform};
use rand::{RngCore, SeedableRng};
use rand_chacha::ChaCha8Rng;

/// A generator that yields one given word, as the float distribution asks
/// for exactly one.
struct OneWord(u64);

impl RngCore for OneWord {
    fn next_u32(&mut self) -> u32 {
        self.0 as u32
    }

    fn next_u64(&mut self) -> u64 {
        self.0
    }

    fn fill_bytes(&mut self, dest: &mut [u8]) {
        for (i, byte) in dest.iter_mut().enumerate() {
            *byte = self.0.to_le_bytes()[i % 8];
        }
    }
}

fn float_of(low: i64, high: i64, word: u64) -> f64 {
    Uniform::new_inclusive(low as f64, high as f64).unwrap().sample(&mut OneWord(word))
}

fn ints(batch: &Batch, index: usize) -> Vec<Option<i64>> {
    match batch.column(index).unwrap() {
        Column::Int64(values) => values.clone(),
        other => panic!("column {} is {:?}", index, other.data_type()),
    }
}

fn texts(batch: &Batch, index: usize) -> Vec<Option<String>> {
    match batch.column(index).unwrap() {
        Column::Utf8(values) => values.clone(),
        other => panic!("column {} is {:?}", index, other.data_type()),
    }
}

fn floats(batch: &Batch, index: usize) -> Vec<Option<f64>> {
    match batch.column(index).unwrap() {
        Column::Float64(column) => column
            .draws
            .iter()
            .map(|draw| draw.map(|word| float_of(column.low, column.high, word)))
            .collect(),
        other => panic!("column {} is {:?}", index, other.data_type()),
    }
}

struct Sequential {
    id1: Vec<Option<String>>,
    id2: Vec<Option<String>>,
    id3: Vec<Option<String>>,
    id4: Vec<Option<i64>>,
    id5: Vec<Option<i64>>,
    id6: Vec<Option<i64>>,
    v1: Vec<Option<i64>>,
    v2: Vec<Option<i64>>,
    v3: Vec<Option<f64>>,
}

/// The table as one sequential generator draws it.
fn sequential(n: i64, k: i64, nas: i64, seed: u64, batch_size: i64) -> Sequential {
    let distr_k = Uniform::<i64>::try_from(1..=k).unwrap();
    let distr_nk = Uniform::<i64>::try_from(1..=(n / k)).unwrap();
    let distr_5 = Uniform::<i64>::try_from(1..=5).unwrap();
    let distr_15 = Uniform::<i64>::try_from(1..=15).unwrap();
    let distr_float = Uniform::<f64>::try_from(0.0..=100.0).unwrap();
    let distr_nas = Uniform::<i64>::try_from(0..=100).unwrap();
    let mut rng = ChaCha8Rng::seed_from_u64(seed);
    let mut out = Sequential {
        id1: vec![],
        id2: vec![],
        id3: vec![],
        id4: vec![],
        id5: vec![],
        id6: vec![],
        v1: vec![],
        v2: vec![],
        v3: vec![],
    };
    for _ in 0..batch_size {
        out.id1.push(if distr_nas.sample(&mut rng) >= nas {
            Some(format!("id{:03}", distr_k.sample(&mut rng)))
        } else {
            None
        });
        out.id2.push(if distr_nas.sample(&mut rng) >= nas {
            Some(format!("id{:03}", distr_nk.sample(&mut rng)))
        } else {
            None
        });
        out.id3.push(if distr_nas.sample(&mut rng) >= nas {
            Some(format!("id{:010}", distr_nk.sample(&mut rng)))
        } else {
            None
        });
        out.id4.push(if distr_nas.sample(&mut rng) >= nas {
            Some(distr_k.sample(&mut rng))
        } else {
            None
        });
        out.id5.push(if distr_nas.sample(&mut rng) >= nas {
            Some(distr_k.sample(&mut rng))
        } else {
            None
        });
        out.id6.push(if distr_nas.sample(&mut rng) >= nas {
            Some(distr_nk.sample(&mut rng))
        } else {
            None
        });
        out.v1.push(Some(distr_5.sample(&mut rng)));
        out.v2.push(Some(distr_15.sample(&mut rng)));
        out.v3.push(Some(distr_float.sample(&mut rng)));
    }
    out
}

fn assert_matches_sequential(n: i64, k: i64, nas: i64, seed: u64, batch_size: i64) {
    let batch = generate_groupby(n, k, nas, seed, batch_size).unwrap();
    let expected = sequential(n, k, nas, seed, batch_size);
    assert_eq!(texts(&batch, 0), expected.id1);
    assert_eq!(texts(&batch, 1), expected.id2);
    assert_eq!(texts(&batch, 2), expected.id3);
    assert_eq!(ints(&batch, 3), expected.id4);
    assert_eq!(ints(&batch, 4), expected.id5);
    assert_eq!(ints(&batch, 5), expected.id6);
    assert_eq!(ints(&batch, 6), expected.v1);
    assert_eq!(ints(&batch, 7), expected.v2);
    assert_eq!(floats(&batch, 8), expected.v3);
}

#[test]
fn groupby_scenario_of_five_rows() {
    let batch = generate_groupby(100, 10, 0, 42, 5).unwrap();
    assert_eq!(batch.variant(), Variant::Groupby);
    assert_eq!(batch.num_rows(), 5);
    assert_eq!(batch.num_columns(), 9);
    for index in 0..3 {
        let column = texts(&batch, index);
        assert_eq!(column.len(), 5);
        assert!(column.iter().all(|cell| cell.is_some()));
    }
    for index in 3..6 {
        let column = ints(&batch, index);
        assert_eq!(column.len(), 5);
        for cell in column {
            let value = cell.expect("no nulls for nas = 0");
            assert!((1..=10).contains(&value));
        }
    }
    for cell in ints(&batch, 6) {
        assert!((1..=5).contains(&cell.unwrap()));
    }
    for cell in ints(&batch, 7) {
        assert!((1..=15).contains(&cell.unwrap()));
    }
    for cell in floats(&batch, 8) {
        let value = cell.unwrap();
        assert!((0.0..=100.0).contains(&value));
    }
    let again = generate_groupby(100, 10, 0, 42, 5).unwrap();
    for index in 0..3 {
        assert_eq!(texts(&batch, index), texts(&again, index));
    }
    for index in 3..8 {
        assert_eq!(ints(&batch, index), ints(&again, index));
    }
    assert_eq!(floats(&batch, 8), floats(&again, 8));
}

#[test]
fn groupby_equals_one_sequential_generator() {
    assert_matches_sequential(100, 10, 0, 42, 5);
    assert_matches_sequential(1_000_000, 100, 5, 7, 300);
    assert_matches_sequential(10_000, 3, 50, 0, 200);
    assert_matches_sequential(10, 10, 100, u64::MAX, 50);
}

#[test]
fn groupby_id_strings_are_zero_padded() {
    let batch = generate_groupby(1_000_000, 100, 0, 3, 200).unwrap();
    for cell in texts(&batch, 0) {
        let text = cell.unwrap();
        assert_eq!(text.len(), 5);
        assert!(text.starts_with("id"));
        let value: i64 = text[2..].parse().unwrap();
        assert!((1..=100).contains(&value));
    }
    for cell in texts(&batch, 1) {
        let text = cell.unwrap();
        assert!(text.starts_with("id"));
        assert!(text.len() >= 5);
        let value: i64 = text[2..].parse().unwrap();
        assert!((1..=10_000).contains(&value));
        if value < 1000 {
            assert_eq!(text.len(), 5);
        } else {
            assert_eq!(text, format!("id{}", value));
        }
    }
    for cell in texts(&batch, 2) {
        let text = cell.unwrap();
        assert_eq!(text.len(), 12);
        let value: i64 = text[2..].parse().unwrap();
        assert!((1..=10_000).contains(&value));
    }
}

#[test]
fn groupby_schema_is_fixed() {
    let batch = generate_groupby(100, 10, 0, 1, 0).unwrap();
    let schema = batch.schema();
    let names: Vec<&str> = schema.iter().map(|field| field.name.as_str()).collect();
    assert_eq!(names, vec!["id1", "id2", "id3", "id4", "id5", "id6", "v1", "v2", "v3"]);
    let types: Vec<DataType> = schema.iter().map(|field| field.data_type).collect();
    assert_eq!(
        types,
        vec![
            DataType::Utf8,
            DataType::Utf8,
            DataType::Utf8,
            DataType::Int64,
            DataType::Int64,
            DataType::Int64,
            DataType::Int64,
            DataType::Int64,
            DataType::Float64,
        ]
    );
    let nullable: Vec<bool> = schema.iter().map(|field| field.nullable).collect();
    assert_eq!(nullable, vec![true, true, true, true, true, true, false, false, false]);
    assert_eq!(schema[8].name, ColumnName::V3);
}

#[test]
fn groupby_empty_batch_has_all_columns() {
    let batch = generate_groupby(100, 10, 0, 1, 0).unwrap();
    assert_eq!(batch.num_rows(), 0);
    assert_eq!(batch.num_columns(), 9);
    for index in 0..9 {
        assert_eq!(batch.column(index).unwrap().len(), 0);
    }
    assert!(batch.column(9).is_none());
}

#[test]
fn groupby_columns_are_found_by_name() {
    let batch = generate_groupby(100, 10, 20, 11, 30).unwrap();
    let by_name = batch.column_by_name("id5").unwrap();
    match (by_name, batch.column(4).unwrap()) {
        (Column::Int64(a), Column::Int64(b)) => assert_eq!(a, b),
        _ => panic!("id5 is an integer column"),
    }
    assert!(matches!(batch.column_by_name("v3"), Some(Column::Float64(_))));
    assert!(batch.column_by_name("v4").is_none());
    assert!(batch.column_by_name("").is_none());
    assert!(batch.column_by_name("id").is_none());
}

#[test]
fn groupby_nulls_only_in_id_columns() {
    let batch = generate_groupby(1000, 10, 100, 5, 400).unwrap();
    for index in 0..6 {
        assert!(batch.column(index).unwrap().has_null());
    }
    for index in 6..9 {
        assert!(!batch.column(index).unwrap().has_null());
    }
}

#[test]
fn groupby_refuses_bad_parameters() {
    let refusal = |n, k, nas, batch_size| generate_groupby(n, k, nas, 1, batch_size).err();
    assert_eq!(refusal(100, 0, 0, 5), Some(GenError::InvalidRange(Constraint::GroupCount)));
    assert_eq!(refusal(100, -3, 0, 5), Some(GenError::InvalidRange(Constraint::GroupCount)));
    assert_eq!(refusal(5, 10, 0, 5), Some(GenError::InvalidRange(Constraint::RowsPerGroup)));
    assert_eq!(refusal(-1, 1, 0, 5), Some(GenError::InvalidRange(Constraint::RowsPerGroup)));
    assert_eq!(refusal(100, 10, -1, 5), Some(GenError::InvalidRange(Constraint::NullPercent)));
    assert_eq!(refusal(100, 10, 101, 5), Some(GenError::InvalidRange(Constraint::NullPercent)));
    assert_eq!(refusal(100, 10, 0, -1), Some(GenError::InvalidRange(Constraint::BatchSize)));
    // The first violated condition is the one reported.
    assert_eq!(refusal(5, 0, 200, -1), Some(GenError::InvalidRange(Constraint::GroupCount)));
    assert_eq!(refusal(5, 10, 200, -1), Some(GenError::InvalidRange(Constraint::RowsPerGroup)));
    assert_eq!(refusal(50, 10, 200, -1), Some(GenError::InvalidRange(Constraint::NullPercent)));
    assert!(generate_groupby(10, 10, 100, 1, 0).is_ok());
}

#[test]
fn groupby_null_rate_converges() {
    let rows = 20_000;
    for &percent in &[10i64, 50] {
        let batch = generate_groupby(1_000_000, 100, percent, 2024, rows).unwrap();
        for index in 0..6 {
            let nulls = match batch.column(index).unwrap() {
                Column::Int64(values) => values.iter().filter(|cell| cell.is_none()).count(),
                Column::Utf8(values) => values.iter().filter(|cell| cell.is_none()).count(),
                Column::Float64(column) => {
                    column.draws.iter().filter(|cell| cell.is_none()).count()
                }
            };
            let rate = nulls as f64 / rows as f64;
            assert!(
                (rate - percent as f64 / 100.0).abs() <= 0.015,
                "column {} has null rate {} for nas = {}",
                index,
                rate,
                percent
            );
        }
    }
}

#[test]
fn groupby_table_of_given_rows() {
    let rows = vec![
        GroupbyRow {
            id1: Some(7),
            id2: None,
            id3: Some(1234),
            id4: Some(9),
            id5: None,
            id6: Some(10),
            v1: 3,
            v2: 12,
            v3: 0,
        },
        GroupbyRow {
            id1: None,
            id2: Some(1000),
            id3: None,
            id4: None,
            id5: Some(1),
            id6: None,
            v1: 5,
            v2: 1,
            v3: u64::MAX,
        },
    ];
    let batch = groupby_table(&rows);
    assert_eq!(batch.variant(), Variant::Groupby);
    assert_eq!(batch.num_rows(), 2);
    assert_eq!(texts(&batch, 0), vec![Some("id007".to_string()), None]);
    assert_eq!(texts(&batch, 1), vec![None, Some("id1000".to_string())]);
    assert_eq!(texts(&batch, 2), vec![Some("id0000001234".to_string()), None]);
    assert_eq!(ints(&batch, 3), vec![Some(9), None]);
    assert_eq!(ints(&batch, 4), vec![None, Some(1)]);
    assert_eq!(ints(&batch, 5), vec![Some(10), None]);
    assert_eq!(ints(&batch, 6), vec![Some(3), Some(5)]);
    assert_eq!(ints(&batch, 7), vec![Some(12), Some(1)]);
    match batch.column(8).unwrap() {
        Column::Float64(column) => {
            assert_eq!((column.low, column.high), (0, 100));
            assert_eq!(column.draws, vec![Some(0), Some(u64::MAX)]);
        }
        _ => panic!("v3 holds floating-point values"),
    }
    let values = floats(&batch, 8);
    assert_eq!(values[0], Some(0.0));
    assert!(values[1].unwrap() <= 100.0 && values[1].unwrap() > 99.99);
    assert_eq!(groupby_table(&vec![]).num_rows(), 0);
}

#[test]
fn groupby_rows_are_drawn_one_after_another() {
    let plan = GroupbyPlan::new(1000, 10, 30).unwrap();
    let mut all = Stream::new(6);
    let mut one = Stream::new(6);
    let rows = plan.draw_rows(&mut all, 25);
    assert_eq!(rows.len(), 25);
    for row in &rows {
        assert_eq!(plan.next_row(&mut one), *row);
    }
    assert_eq!(all.pos, one.pos);
    let before = all;
    assert!(plan.draw_rows(&mut all, -3).is_empty());
    assert!(plan.draw_rows(&mut all, 0).is_empty());
    assert_eq!(all.pos, before.pos);
}

#[test]
fn groupby_plan_refuses_in_order() {
    assert_eq!(
        GroupbyPlan::new(10, 0, 500).err(),
        Some(GenError::InvalidRange(Constraint::GroupCount))
    );
    assert_eq!(
        GroupbyPlan::new(1, 2, 500).err(),
        Some(GenError::InvalidRange(Constraint::RowsPerGroup))
    );
    assert_eq!(
        GroupbyPlan::new(2, 2, 500).err(),
        Some(GenError::InvalidRange(Constraint::NullPercent))
    );
    assert!(GroupbyPlan::new(2, 2, 50).is_ok());
}
