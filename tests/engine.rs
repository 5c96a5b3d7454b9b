use quick_random::{generate_random_u64, init_state, mix, Generator};

const STEP: u64 = 0x9E37_79B9_7F4A_7C15;

fn generator() -> Generator {
    init_state(1_700_000_000_123_456_789, 0x7ffc_9a3b_1c40)
}

#[test]
fn test_numbers_not_the_same() {
    const GENERATED_NUMBER_COUNT: usize = 3200;

    let mut g = generator();
    let mut random_numbers: Vec<u64> =
        (0..GENERATED_NUMBER_COUNT).map(|_| generate_random_u64(&mut g)).collect::<Vec<u64>>();
    random_numbers.dedup();
    assert_eq!(random_numbers.len(), GENERATED_NUMBER_COUNT, "Duplicate numbers were found");
}

#[test]
fn test_numbers_distribution() {
    const GENERATED_NUMBER_COUNT: usize = 3200;
    const HALF: u64 = u64::MAX / 2;

    let mut g = generator();
    let random_numbers: Vec<u64> =
        (0..GENERATED_NUMBER_COUNT).map(|_| generate_random_u64(&mut g)).collect::<Vec<u64>>();
    let numbers_above_half: usize = random_numbers.iter().filter(|number| **number > HALF).count();
    let numbers_above_half_factor: f32 = numbers_above_half as f32 / GENERATED_NUMBER_COUNT as f32;
    assert!(
        (0.35..0.65).contains(&numbers_above_half_factor),
        "Bad distribution factor: {numbers_above_half_factor}"
    );
}

#[test]
fn mix_matches_known_words() {
    assert_eq!(mix(0), 0x6E78_9E6A_A1B9_65F4);
    assert_eq!(mix(1), 0xBEEB_8DA1_658E_EC67);
}

#[test]
fn seed_combines_time_address_and_constant() {
    let g = init_state(1000, 0x10);
    assert_eq!(g.value_modifier, 0xC748_F11F_7104_CA6B);
    let plain = init_state(0, 0);
    assert_eq!(plain.value_modifier, 0x243F_6A88_85A3_08D3);
}

#[test]
fn zero_seed_is_replaced() {
    let g = init_state(0x243F_6A88_85A3_08D3, 0);
    assert_eq!(g.value_modifier, 0xDA3E_39CB_94B9_5BDB);
}

#[test]
fn each_draw_mixes_the_counter_and_steps_it() {
    let mut g = init_state(1000, 0x10);
    assert_eq!(generate_random_u64(&mut g), 0x6570_DDE2_F46B_C438);
    assert_eq!(g.value_modifier, 0xC748_F11F_7104_CA6Bu64.wrapping_add(STEP));
    assert_eq!(generate_random_u64(&mut g), 0xF562_1305_ABB6_4936);
    assert_eq!(g.value_modifier, 0xC748_F11F_7104_CA6Bu64.wrapping_add(STEP).wrapping_add(STEP));
}

#[test]
fn counter_wraps_at_the_top() {
    let mut g = Generator { value_modifier: u64::MAX };
    assert_eq!(generate_random_u64(&mut g), mix(u64::MAX));
    assert_eq!(g.value_modifier, STEP - 1);
}
