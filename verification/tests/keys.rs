use h2o_datagen::error::{Constraint, GenError};
use h2o_datagen::buffer::with_room;
use h2o_datagen::keys::{key_text_len, KeyPool, Scale};
use h2o_datagen::stream::Stream;
use rand::distr::{Distribution, Uniform};
use rand::SeedableRng;
use rand_chacha::ChaCha8Rng;

fn listed(pool: &KeyPool) -> Vec<i64> {
    (0..pool.len()).map(|index| pool.get(index).unwrap()).collect()
}

/// The permutation of `1..=d` by exchanges from the top down, drawn from one
/// sequential generator.
fn sequential_permutation(d: usize, rng: &mut ChaCha8Rng) -> Vec<i64> {
    let mut p: Vec<i64> = (1..=d as i64).collect();
    for i in (1..d).rev() {
        let j = Uniform::<i64>::new_inclusive(0, i as i64).unwrap().sample(rng) as usize;
        p.swap(i, j);
    }
    p
}

#[test]
fn pool_of_ten_million_rows_leaves_one_key_out() {
    let mut keys = Stream::new(17);
    let pool = KeyPool::permuted(10_000_000, Scale::Millions, &mut keys).unwrap();
    // D = 11, the matching slice ends at 9, the tail starts at 10.
    assert_eq!(pool.len(), 10);
    let mut rng = ChaCha8Rng::seed_from_u64(17);
    let p = sequential_permutation(11, &mut rng);
    let mut expected: Vec<i64> = p[0..9].to_vec();
    expected.extend_from_slice(&p[10..11]);
    assert_eq!(listed(&pool), expected);
    assert!(!listed(&pool).contains(&p[9]));
    assert_eq!(keys.pos, rng.get_word_pos());
}

#[test]
fn pool_keys_are_distinct_and_in_the_domain() {
    let mut keys = Stream::new(4);
    let pool = KeyPool::permuted(10_000_000, Scale::Thousands, &mut keys).unwrap();
    // D = 11000, the matching slice ends at 9000, the tail starts at 10000.
    assert_eq!(pool.len(), 10_000);
    let mut seen = vec![false; 11_001];
    for key in listed(&pool) {
        assert!((1..=11_000).contains(&key));
        assert!(!seen[key as usize], "key {} occurs twice", key);
        seen[key as usize] = true;
    }
    let mut rng = ChaCha8Rng::seed_from_u64(4);
    let p = sequential_permutation(11_000, &mut rng);
    for gap in 9000..10_000 {
        assert!(!seen[p[gap] as usize]);
    }
    assert_eq!(&listed(&pool)[..9000], &p[..9000]);
    assert_eq!(&listed(&pool)[9000..], &p[10_000..]);
}

#[test]
fn second_pool_goes_on_in_the_same_stream() {
    let mut keys = Stream::new(23);
    let first = KeyPool::permuted(20_000_000, Scale::Millions, &mut keys).unwrap();
    let second = KeyPool::permuted(20_000, Scale::Thousands, &mut keys).unwrap();
    let mut rng = ChaCha8Rng::seed_from_u64(23);
    let first_p = sequential_permutation(22, &mut rng);
    let second_p = sequential_permutation(22, &mut rng);
    let carve = |p: &Vec<i64>| {
        let mut pool = p[0..18].to_vec();
        pool.extend_from_slice(&p[20..22]);
        pool
    };
    assert_eq!(listed(&first), carve(&first_p));
    assert_eq!(listed(&second), carve(&second_p));
}

#[test]
fn pool_is_the_same_for_the_same_seed() {
    let mut a = Stream::new(5);
    let mut b = Stream::new(5);
    let mut c = Stream::new(6);
    let first = KeyPool::permuted(50_000_000, Scale::Millions, &mut a).unwrap();
    let second = KeyPool::permuted(50_000_000, Scale::Millions, &mut b).unwrap();
    let third = KeyPool::permuted(50_000_000, Scale::Millions, &mut c).unwrap();
    assert_eq!(listed(&first), listed(&second));
    assert_eq!(first.len(), 50);
    assert_ne!(listed(&first), listed(&third));
}

#[test]
fn smallest_pool_has_one_key() {
    let mut keys = Stream::new(1);
    let pool = KeyPool::permuted(909_091, Scale::Millions, &mut keys).unwrap();
    assert_eq!(listed(&pool), vec![1]);
    assert_eq!(keys.pos, 0);
    let mut stream = Stream::new(2);
    for _ in 0..5 {
        assert_eq!(pool.sample(&mut stream), 1);
    }
}

#[test]
fn pools_without_a_key_are_refused() {
    let refusal = |n: i64, scale: Scale| {
        let mut keys = Stream::new(1);
        let made = KeyPool::permuted(n, scale, &mut keys);
        assert!(made.is_ok() || keys.pos == 0);
        made.err()
    };
    let empty = Some(GenError::InvalidRange(Constraint::KeyCount));
    assert_eq!(refusal(0, Scale::Millions), empty);
    assert_eq!(refusal(909_090, Scale::Millions), empty);
    // The domain has one key, and it lies in the slice left out.
    assert_eq!(refusal(1_000_000, Scale::Millions), empty);
    assert_eq!(refusal(1_111_111, Scale::Millions), empty);
    assert_eq!(refusal(1_111_112, Scale::Millions), None);
    assert_eq!(refusal(0, Scale::Units), empty);
    assert_eq!(refusal(1, Scale::Units), empty);
    assert_eq!(refusal(2, Scale::Units), None);
}

#[test]
fn inconsistent_bounds_are_an_indexing_error() {
    let mut keys = Stream::new(1);
    assert_eq!(
        KeyPool::permuted(-1, Scale::Millions, &mut keys).err(),
        Some(GenError::IndexingError { rows: -1, scale: Scale::Millions })
    );
    assert_eq!(
        KeyPool::permuted(i64::MIN, Scale::Thousands, &mut keys).err(),
        Some(GenError::IndexingError { rows: i64::MIN, scale: Scale::Thousands })
    );
    // At one key per row the domain of the greatest n holds keys beyond 64 bits.
    assert_eq!(
        KeyPool::permuted(i64::MAX, Scale::Units, &mut keys).err(),
        Some(GenError::IndexingError { rows: i64::MAX, scale: Scale::Units })
    );
    assert_eq!(keys.pos, 0);
}

#[test]
fn plain_pool_counts_up_from_one() {
    let pool = KeyPool::plain(5_500_000, Scale::Millions).unwrap();
    assert_eq!(listed(&pool), vec![1, 2, 3, 4, 5]);
    let pool = KeyPool::plain(5_500, Scale::Thousands).unwrap();
    assert_eq!(pool.len(), 5);
    let pool = KeyPool::plain(i64::MAX, Scale::Units).unwrap();
    assert_eq!(pool.len(), i64::MAX);
    assert_eq!(pool.get(0), Some(1));
    assert_eq!(pool.get(i64::MAX - 1), Some(i64::MAX));
    assert_eq!(pool.get(i64::MAX), None);
    assert_eq!(
        KeyPool::plain(999_999, Scale::Millions).err(),
        Some(GenError::InvalidRange(Constraint::KeyCount))
    );
    assert_eq!(
        KeyPool::plain(-3, Scale::Units).err(),
        Some(GenError::InvalidRange(Constraint::KeyCount))
    );
    assert!(KeyPool::plain(1, Scale::Units).is_ok());
}

#[test]
fn get_outside_the_pool_is_none() {
    let mut keys = Stream::new(3);
    let pool = KeyPool::permuted(10_000_000, Scale::Millions, &mut keys).unwrap();
    assert_eq!(pool.get(-1), None);
    assert_eq!(pool.get(10), None);
    assert!(pool.get(9).is_some());
}

#[test]
fn sampling_draws_an_index_and_takes_the_key_there() {
    let mut keys = Stream::new(8);
    let pool = KeyPool::permuted(30_000_000, Scale::Millions, &mut keys).unwrap();
    let all = listed(&pool);
    assert_eq!(all.len(), 30);
    let index = Uniform::<i64>::new_inclusive(0, 29).unwrap();
    let mut rng = ChaCha8Rng::seed_from_u64(77);
    let mut stream = Stream::new(77);
    let mut distinct = std::collections::BTreeSet::new();
    for _ in 0..500 {
        let key = pool.sample(&mut stream);
        assert_eq!(key, all[index.sample(&mut rng) as usize]);
        distinct.insert(key);
    }
    // Sampling is with replacement.
    assert!(distinct.len() <= 30);
    assert!(distinct.len() > 20);
}

#[test]
fn sampling_a_plain_pool_is_a_uniform_draw_of_the_range() {
    let pool = KeyPool::plain(42_000_000, Scale::Millions).unwrap();
    let range = Uniform::<i64>::new_inclusive(1, 42).unwrap();
    let mut rng = ChaCha8Rng::seed_from_u64(9);
    let mut stream = Stream::new(9);
    for _ in 0..300 {
        assert_eq!(pool.sample(&mut stream), range.sample(&mut rng));
    }
}

#[test]
fn key_text_length_counts_the_prefix_and_the_digits() {
    assert_eq!(key_text_len(0), 3);
    assert_eq!(key_text_len(-5), 3);
    assert_eq!(key_text_len(909_090), 3);
    assert_eq!(key_text_len(10_000_000), 4);
    assert_eq!(key_text_len(1_000_000_000), 6);
    for &n in &[1i64, 1_000_000, 9_090_909, 9_090_910, 123_456_789_012, i64::MAX / 11] {
        assert_eq!(key_text_len(n), (n * 11 / 10 / 1_000_000).to_string().len() + 2);
    }
    assert_eq!(key_text_len(i64::MAX), 16);
}

#[test]
fn scales_have_their_divisors() {
    assert_eq!(Scale::Millions.rows_per_key(), 1_000_000);
    assert_eq!(Scale::Thousands.rows_per_key(), 1_000);
    assert_eq!(Scale::Units.rows_per_key(), 1);
}

#[test]
fn with_room_is_empty() {
    let v: Vec<i64> = with_room(100);
    assert!(v.is_empty());
    assert!(v.capacity() >= 100);
    let v: Vec<i64> = with_room(-1);
    assert!(v.is_empty());
    let v: Vec<String> = with_room(i64::MAX);
    assert!(v.is_empty());
}
