use seqlogic::counter::RippleCounter;

#[test]
fn test_ripple_counter() {
    const WIDTH: usize = 8;
    let mut counter = RippleCounter::<WIDTH>::new();
    assert_eq!(counter.value::<u64>().unwrap(), 0);

    // Count up to a number within the range of a counter
    let num_toggles = 100;
    for _ in 0..num_toggles {
        counter.update(true);
        counter.update(false);
    }
    assert_eq!(counter.value::<u64>().unwrap(), num_toggles);

    // Clear the counter
    counter.clear();
    assert_eq!(counter.value::<u64>().unwrap(), 0);

    // Count up to a number above the capacity of the counter. The value should overflow
    let num_toggles = 300;
    for _ in 0..num_toggles {
        counter.update(true);
        counter.update(false);
    }
    let max_count: u64 = 2u64.pow(WIDTH as u32);
    assert_eq!(counter.value::<u64>().unwrap(), num_toggles % max_count);
}

#[test]
fn counter_wraps_to_forty_four_after_three_hundred_pulses() {
    let mut counter = RippleCounter::<8>::new();
    for _ in 0..300 {
        counter.update(true);
        counter.update(false);
    }
    assert_eq!(counter.value::<u64>().unwrap(), 44);
}

#[test]
fn counter_counts_modulo_two_to_the_width() {
    let mut counter = RippleCounter::<3>::new();
    for t in 1..=40u64 {
        counter.update(true);
        counter.update(false);
        assert_eq!(counter.value::<u64>().unwrap(), t % 8);
    }
}

#[test]
fn counter_of_one_bit_alternates() {
    let mut counter = RippleCounter::<1>::new();
    assert_eq!(counter.value::<u8>().unwrap(), 0);
    counter.update(true);
    assert_eq!(counter.value::<u8>().unwrap(), 1);
    counter.update(false);
    assert_eq!(counter.value::<u8>().unwrap(), 1);
    counter.update(true);
    assert_eq!(counter.value::<u8>().unwrap(), 0);
}

#[test]
fn counter_without_stages_reads_zero() {
    let mut counter = RippleCounter::<0>::new();
    assert_eq!(counter.value::<u64>().unwrap(), 0);
    counter.update(true);
    counter.update(false);
    counter.update(true);
    assert_eq!(counter.value::<u64>().unwrap(), 0);
    counter.clear();
    assert_eq!(counter.value::<u64>().unwrap(), 0);
}

#[test]
fn counter_counts_the_first_rising_edge_after_construction() {
    let mut counter = RippleCounter::<4>::new();
    counter.update(true);
    assert_eq!(counter.value::<u32>().unwrap(), 1);
}

#[test]
fn counter_counts_edges_not_calls() {
    let mut counter = RippleCounter::<4>::new();
    counter.update(false);
    counter.update(false);
    assert_eq!(counter.value::<u32>().unwrap(), 0);
    counter.update(true);
    counter.update(true);
    counter.update(true);
    assert_eq!(counter.value::<u32>().unwrap(), 1);
    counter.update(false);
    counter.update(false);
    assert_eq!(counter.value::<u32>().unwrap(), 1);
    counter.update(true);
    assert_eq!(counter.value::<u32>().unwrap(), 2);
}

#[test]
fn counter_carry_ripples_through_the_chain_in_one_update() {
    let mut counter = RippleCounter::<4>::new();
    for _ in 0..7 {
        counter.update(true);
        counter.update(false);
    }
    assert_eq!(counter.value::<u8>().unwrap(), 0b0111);
    counter.update(true);
    assert_eq!(counter.value::<u8>().unwrap(), 0b1000);
    counter.update(false);
    for _ in 0..7 {
        counter.update(true);
        counter.update(false);
    }
    assert_eq!(counter.value::<u8>().unwrap(), 0b1111);
    counter.update(true);
    assert_eq!(counter.value::<u8>().unwrap(), 0);
}

#[test]
fn counter_clear_resets_whatever_came_before() {
    let mut counter = RippleCounter::<5>::new();
    for pulses in [0u32, 1, 7, 31, 32, 45] {
        for _ in 0..pulses {
            counter.update(true);
            counter.update(false);
        }
        counter.clear();
        assert_eq!(counter.value::<u64>().unwrap(), 0);
    }
}

#[test]
fn counter_clear_with_clock_left_high_counts_the_next_edge() {
    let mut counter = RippleCounter::<4>::new();
    counter.update(true);
    counter.update(false);
    counter.update(true);
    assert_eq!(counter.value::<u8>().unwrap(), 2);
    counter.clear();
    assert_eq!(counter.value::<u8>().unwrap(), 0);
    counter.update(true);
    assert_eq!(counter.value::<u8>().unwrap(), 1);
}

#[test]
fn counter_value_fails_when_the_type_is_too_narrow() {
    let mut counter = RippleCounter::<16>::new();
    for _ in 0..255 {
        counter.update(true);
        counter.update(false);
    }
    assert_eq!(counter.value::<u8>().unwrap(), 255);
    assert_eq!(counter.value::<i8>().ok(), None);
    counter.update(true);
    counter.update(false);
    assert!(counter.value::<u8>().is_err());
    assert_eq!(counter.value::<u16>().unwrap(), 256);
    assert_eq!(counter.value::<i32>().unwrap(), 256);
    assert_eq!(counter.value::<u64>().unwrap(), 256);
}

#[test]
fn counter_value_converts_to_signed_types() {
    let mut counter = RippleCounter::<8>::new();
    for _ in 0..127 {
        counter.update(true);
        counter.update(false);
    }
    assert_eq!(counter.value::<i8>().unwrap(), 127);
    counter.update(true);
    assert!(counter.value::<i8>().is_err());
    assert_eq!(counter.value::<i16>().unwrap(), 128);
}

#[test]
fn counter_of_sixty_four_bits_counts() {
    let mut counter = RippleCounter::<64>::new();
    for _ in 0..1000 {
        counter.update(true);
        counter.update(false);
    }
    assert_eq!(counter.value::<u64>().unwrap(), 1000);
    assert_eq!(counter.value::<u128>().unwrap(), 1000);
}

#[test]
fn counter_default_reads_zero() {
    let mut counter: RippleCounter<8> = Default::default();
    assert_eq!(counter.value::<u64>().unwrap(), 0);
    counter.update(true);
    assert_eq!(counter.value::<u64>().unwrap(), 1);
}
