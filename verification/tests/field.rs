use h2o_datagen::error::{Constraint, GenError};
use h2o_datagen::field::{format_padded_id_cell, NullGate};
use h2o_datagen::stream::{Stream, UniformInt};
use rand::distr::{Distribution, Uniform};
use rand::{RngCore, SeedableRng};
use rand_chacha::ChaCha8Rng;

#[test]
fn null_rate_converges_over_a_hundred_thousand_rows() {
    let rows = 100_000;
    let gate = NullGate::new(30).unwrap();
    let mut stream = Stream::new(99);
    let mut nulls = 0;
    for _ in 0..rows {
        if gate.closes(&mut stream) {
            nulls += 1;
        }
    }
    let rate = nulls as f64 / rows as f64;
    assert!((rate - 0.30).abs() <= 0.015, "null rate {}", rate);
}

#[test]
fn null_percent_outside_the_range_is_refused() {
    assert_eq!(NullGate::new(-1).err(), Some(GenError::InvalidRange(Constraint::NullPercent)));
    assert_eq!(NullGate::new(101).err(), Some(GenError::InvalidRange(Constraint::NullPercent)));
    assert!(NullGate::new(0).is_ok());
    assert!(NullGate::new(100).is_ok());
}

#[test]
fn a_closed_gate_draws_once_and_an_open_one_twice() {
    let plain_gate = Uniform::<i64>::try_from(0..=100).unwrap();
    let plain_value = Uniform::<i64>::try_from(1..=50).unwrap();
    let dist = UniformInt::new(1, 50, Constraint::GroupCount).unwrap();
    let gate = NullGate::new(40).unwrap();
    let mut rng = ChaCha8Rng::seed_from_u64(5);
    let mut stream = Stream::new(5);
    let mut seen_null = false;
    let mut seen_value = false;
    for _ in 0..300 {
        let expected = if plain_gate.sample(&mut rng) >= 40 {
            Some(plain_value.sample(&mut rng))
        } else {
            None
        };
        let cell = gate.maybe_int(&dist, &mut stream);
        assert_eq!(cell, expected);
        assert_eq!(stream.pos, rng.get_word_pos());
        seen_null |= cell.is_none();
        seen_value |= cell.is_some();
    }
    assert!(seen_null && seen_value);
}

#[test]
fn gated_words_follow_the_sequential_generator() {
    let plain_gate = Uniform::<i64>::try_from(0..=100).unwrap();
    let gate = NullGate::new(25).unwrap();
    let mut rng = ChaCha8Rng::seed_from_u64(8);
    let mut stream = Stream::new(8);
    for _ in 0..300 {
        let expected =
            if plain_gate.sample(&mut rng) >= 25 { Some(rng.next_u64()) } else { None };
        assert_eq!(gate.maybe_word(&mut stream), expected);
    }
}

#[test]
fn nas_zero_never_nulls_and_nas_hundred_rarely_passes() {
    let open = NullGate::new(0).unwrap();
    let shut = NullGate::new(100).unwrap();
    let mut stream = Stream::new(3);
    let mut passed = 0;
    for _ in 0..2000 {
        assert!(!open.closes(&mut stream));
        if !shut.closes(&mut stream) {
            passed += 1;
        }
    }
    // Only the draw 100 of 0..=100 passes a null gate of 100 percent.
    assert!(passed < 60);
}

#[test]
fn padded_id_cells_are_formatted_or_null() {
    assert_eq!(format_padded_id_cell(Some(17), 3), Some("id017".to_string()));
    assert_eq!(format_padded_id_cell(Some(17), 10), Some("id0000000017".to_string()));
    assert_eq!(format_padded_id_cell(None, 3), None);
}

#[test]
fn a_draw_below_the_percentage_nulls() {
    let gate = NullGate::new(40).unwrap();
    assert!(gate.closes_on(0));
    assert!(gate.closes_on(39));
    assert!(!gate.closes_on(40));
    assert!(!gate.closes_on(100));
    let never = NullGate::new(0).unwrap();
    assert!(!never.closes_on(0));
    let nearly = NullGate::new(100).unwrap();
    assert!(nearly.closes_on(99));
    assert!(!nearly.closes_on(100));
}
