use h2o_datagen::error::{Constraint, GenError};
use h2o_datagen::stream::{Stream, UniformInt};
use rand::distr::{Distribution, Uniform};
use rand::{RngCore, SeedableRng};
use rand_chacha::ChaCha8Rng;

#[test]
fn uniform_int_follows_the_sequential_generator() {
    let mut rng = ChaCha8Rng::seed_from_u64(42);
    let plain = Uniform::<i64>::try_from(1..=1000).unwrap();
    let dist = UniformInt::new(1, 1000, Constraint::GroupCount).unwrap();
    let mut stream = Stream::new(42);
    for _ in 0..200 {
        assert_eq!(dist.sample(&mut stream), plain.sample(&mut rng));
    }
}

#[test]
fn words_and_integers_interleave_as_in_one_generator() {
    let mut rng = ChaCha8Rng::seed_from_u64(7);
    let plain = Uniform::<i64>::try_from(0..=100).unwrap();
    let dist = UniformInt::new(0, 100, Constraint::NullPercent).unwrap();
    let mut stream = Stream::new(7);
    for _ in 0..100 {
        assert_eq!(dist.sample(&mut stream), plain.sample(&mut rng));
        assert_eq!(stream.next_word(), rng.next_u64());
    }
}

#[test]
fn a_new_stream_starts_at_word_zero() {
    let stream = Stream::new(9);
    assert_eq!(stream.seed, 9);
    assert_eq!(stream.pos, 0);
}

#[test]
fn a_draw_moves_the_stream() {
    let mut stream = Stream::new(9);
    let dist = UniformInt::new(-5, 5, Constraint::GroupCount).unwrap();
    let before = stream;
    let value = dist.sample(&mut stream);
    assert!((-5..=5).contains(&value));
    assert_ne!(stream.pos, before.pos);
}

#[test]
fn an_inverted_range_is_refused() {
    assert_eq!(
        UniformInt::new(1, 0, Constraint::GroupCount).err(),
        Some(GenError::InvalidRange(Constraint::GroupCount))
    );
    assert!(UniformInt::new(3, 3, Constraint::GroupCount).is_ok());
}

#[test]
fn a_single_value_range_yields_that_value() {
    let dist = UniformInt::new(3, 3, Constraint::GroupCount).unwrap();
    let mut stream = Stream::new(1);
    for _ in 0..10 {
        assert_eq!(dist.sample(&mut stream), 3);
    }
}

#[test]
fn a_distribution_knows_its_bounds() {
    let dist = UniformInt::new(-7, 12, Constraint::GroupCount).unwrap();
    assert_eq!(dist.lower(), -7);
    assert_eq!(dist.upper(), 12);
    let full = UniformInt::new(i64::MIN, i64::MAX, Constraint::GroupCount).unwrap();
    let mut stream = Stream::new(0);
    let mut rng = ChaCha8Rng::seed_from_u64(0);
    for _ in 0..20 {
        assert_eq!(full.sample(&mut stream) as u64, rng.next_u64());
    }
}
