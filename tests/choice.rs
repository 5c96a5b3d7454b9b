use quick_random::{init_state, RandomChoice};

#[test]
fn empty_list_gives_none() {
    let mut g = init_state(1000, 0x10);
    let before = g.value_modifier;
    let empty: Vec<u32> = Vec::new();
    assert_eq!(empty.choose_random(&mut g), None);
    let mut empty_array: [u32; 0] = [];
    assert_eq!(empty_array.choose_random_mut(&mut g), None);
    assert_eq!(g.value_modifier, before);
}

#[test]
fn choice_picks_drawn_index() {
    let items: Vec<u32> = vec![10, 11, 12, 13, 14];
    let mut g = init_state(1000, 0x10);
    assert_eq!(items.choose_random(&mut g), Some(&13));
    let array: [u32; 5] = [10, 11, 12, 13, 14];
    let mut g = init_state(1000, 0x10);
    assert_eq!(array.choose_random(&mut g), Some(&13));
}

#[test]
fn mutable_choice_changes_that_element() {
    let mut items: Vec<u32> = vec![10, 11, 12, 13, 14];
    let mut g = init_state(1000, 0x10);
    if let Some(x) = items.choose_random_mut(&mut g) {
        *x = 99;
    }
    assert_eq!(items, vec![10, 11, 12, 99, 14]);
}
