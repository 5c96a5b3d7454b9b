use quick_random::{init_state, Generator, RandomNumber};
use std::fmt::Debug;
use std::ops::Range;
use std::time::Duration;

fn generator() -> Generator {
    init_state(1_700_000_000_123_456_789, 0x7ffc_9a3b_1c40)
}

fn test_not_the_same<T: RandomNumber + PartialEq>() {
    const GENERATED_NUMBER_COUNT: usize = 3200;

    let mut g = generator();
    let mut random_numbers: Vec<T> =
        (0..GENERATED_NUMBER_COUNT).map(|_| T::random(&mut g)).collect::<Vec<T>>();
    random_numbers.dedup();
    assert_eq!(random_numbers.len(), GENERATED_NUMBER_COUNT, "Duplicate numbers were found");
}

fn test_within_range<T: RandomNumber + PartialOrd + Clone + Debug>(range: Range<T>) {
    const GENERATED_NUMBER_COUNT: usize = 3200;

    let mut g = generator();
    let random_numbers: Vec<T> = (0..GENERATED_NUMBER_COUNT)
        .map(|_| T::random_range(&mut g, range.clone()))
        .collect::<Vec<T>>();
    let amount_out_of_range: usize = random_numbers
        .into_iter()
        .filter(|value: &T| value < &range.start || value > &range.end)
        .count();
    assert_eq!(amount_out_of_range, 0, "Found {amount_out_of_range} values out of range.");
}

fn test_distribution<T: RandomNumber + Debug + PartialOrd>(half_max: T, factor_range: Range<f32>) {
    const GENERATED_NUMBER_COUNT: usize = 3200;

    let mut g = generator();
    let random_numbers: Vec<T> =
        (0..GENERATED_NUMBER_COUNT).map(|_| T::random(&mut g)).collect::<Vec<T>>();
    let amount: usize = random_numbers.into_iter().filter(|n: &T| n > &half_max).count();
    let factor: f32 = amount as f32 / GENERATED_NUMBER_COUNT as f32;
    assert!(
        factor >= factor_range.start && factor <= factor_range.end,
        "Bad distribution factor: {factor}"
    );
}

#[test]
fn test_u64_not_the_same() {
    test_not_the_same::<u64>()
}

#[test]
fn test_u64_distribution() {
    test_distribution::<u64>(u64::MAX / 2, 0.35..0.65)
}

#[test]
fn test_u64_within_range() {
    test_within_range::<u64>(50..100)
}

#[test]
fn test_u32_not_the_same() {
    test_not_the_same::<u32>()
}

#[test]
fn test_u32_distribution() {
    test_distribution::<u32>(u32::MAX / 2, 0.35..0.65)
}

#[test]
fn test_u32_within_range() {
    test_within_range::<u32>(50..100)
}

#[test]
fn test_u16_not_the_same() {
    test_not_the_same::<u16>()
}

#[test]
fn test_u16_distribution() {
    test_distribution::<u16>(u16::MAX / 2, 0.35..0.65)
}

#[test]
fn test_u16_within_range() {
    test_within_range::<u16>(50..100)
}

#[test]
fn unsigned_range_is_start_plus_word_modulo_width() {
    let mut g = init_state(1000, 0x10);
    assert_eq!(u64::random_range(&mut g, 50..100), 88);
    let mut g = init_state(1000, 0x10);
    assert_eq!(u32::random_range(&mut g, 50..100), 88);
    let mut g = init_state(1000, 0x10);
    assert_eq!(u16::random(&mut g), 50232);
}

#[test]
fn unsigned_range_upper_bound_is_excluded() {
    let mut g = generator();
    for _ in 0..3200 {
        let v = u8::random_range(&mut g, 7..9);
        assert!(v == 7 || v == 8);
    }
    let mut g = generator();
    for _ in 0..1000 {
        assert!(u64::random(&mut g) < u64::MAX);
    }
}

#[test]
fn one_value_range_gives_its_start() {
    let mut g = generator();
    assert_eq!(u64::random_range(&mut g, 41..42), 41);
    assert_eq!(usize::random_range(&mut g, 0..1), 0);
}

#[test]
fn u128_joins_two_words() {
    let mut g = init_state(1000, 0x10);
    assert_eq!(u128::random(&mut g), 134838065216164163194220905831477954870);
    let mut g = init_state(1000, 0x10);
    assert_eq!(u128::random_range(&mut g, 5..1000), 755);
    assert_eq!(g.value_modifier, init_state(1000, 0x10).value_modifier.wrapping_add(0x9E37_79B9_7F4A_7C15u64.wrapping_mul(2)));
}

#[test]
fn signed_draws_use_both_shift_branches() {
    let mut g = init_state(1000, 0x10);
    assert_eq!(i8::random(&mut g), 56);
    let mut g = init_state(1000, 0x10);
    assert_eq!(i8::random_range(&mut g, -10..10), 9);
}

#[test]
fn signed_full_range_stays_within_bounds() {
    let mut g = generator();
    for _ in 0..3200 {
        let a = i8::random(&mut g);
        assert!(a >= i8::MIN && a < i8::MAX);
        let b = i16::random(&mut g);
        assert!(b >= i16::MIN && b < i16::MAX);
        let c = i32::random(&mut g);
        assert!(c >= i32::MIN && c < i32::MAX);
        let d = i64::random(&mut g);
        assert!(d >= i64::MIN && d < i64::MAX);
        let e = i128::random(&mut g);
        assert!(e >= i128::MIN && e < i128::MAX);
    }
}

#[test]
fn bool_random_is_always_true() {
    let mut g = generator();
    for _ in 0..3200 {
        assert!(bool::random(&mut g));
        assert!(bool::random_range(&mut g, false..true));
    }
}

#[test]
fn char_range_maps_bytes() {
    let mut g = init_state(1000, 0x10);
    assert_eq!(char::random_range(&mut g, 'a'..'z'), 'g');
    let mut g = generator();
    for _ in 0..1000 {
        let c = char::random_range(&mut g, 'a'..'z');
        assert!(('a'..'z').contains(&c));
        assert!((char::random(&mut g) as u32) < 255);
    }
}

#[test]
fn duration_range_counts_milliseconds() {
    let mut g = init_state(1000, 0x10);
    let d = Duration::random_range(&mut g, Duration::from_millis(10)..Duration::from_millis(20));
    assert_eq!(d, Duration::from_millis(18));
    let mut g = init_state(1000, 0x10);
    assert_eq!(Duration::random(&mut g), Duration::from_millis(0x6570_DDE2_F46B_C438));
}

#[test]
fn valid_ranges_are_recognised() {
    assert!(u8::is_valid_range(&(5..6)));
    assert!(!u8::is_valid_range(&(5..5)));
    assert!(!u64::is_valid_range(&(9..3)));
    assert!(i8::is_valid_range(&(i8::MIN..i8::MAX)));
    assert!(i8::is_valid_range(&(-10..10)));
    assert!(!i8::is_valid_range(&(-1..0)));
    assert!(char::is_valid_range(&('a'..'b')));
    assert!(!Duration::is_valid_range(&(Duration::from_millis(4)..Duration::from_millis(4))));
}
