use flappy::renderer::{
    choose_alpha_mode, choose_format, choose_present_mode, doubled_capacity, ensure_capacity, next_power_of_two,
    PresentMode, COLOR_OFFSET, INITIAL_BUFFER_BYTES, INITIAL_CAPACITY, INITIAL_SCREEN_CAPACITY,
    INSTANCE_STRIDE,
    POSITION_OFFSET, SIZE_OFFSET, UNIFORM_SIZE, VERTICES_PER_INSTANCE,
};

#[test]
fn instance_layout_is_the_shaders() {
    assert_eq!(INSTANCE_STRIDE, 32);
    assert_eq!(POSITION_OFFSET, 0);
    assert_eq!(SIZE_OFFSET, 8);
    assert_eq!(COLOR_OFFSET, 16);
    assert_eq!(UNIFORM_SIZE, 16);
    assert_eq!(VERTICES_PER_INSTANCE, 6);
    assert_eq!(INITIAL_CAPACITY, 64);
    assert_eq!(INITIAL_BUFFER_BYTES / INSTANCE_STRIDE as usize, INITIAL_SCREEN_CAPACITY);
    assert_eq!(INITIAL_SCREEN_CAPACITY, 32);
}

#[test]
fn next_power_of_two_is_the_least_one_at_or_above() {
    assert_eq!(next_power_of_two(0), 1);
    assert_eq!(next_power_of_two(1), 1);
    assert_eq!(next_power_of_two(2), 2);
    assert_eq!(next_power_of_two(3), 4);
    assert_eq!(next_power_of_two(4), 4);
    assert_eq!(next_power_of_two(5), 8);
    assert_eq!(next_power_of_two(1023), 1024);
    assert_eq!(next_power_of_two(1025), 2048);
    for n in 0..5000usize {
        assert_eq!(next_power_of_two(n), n.next_power_of_two());
    }
    assert_eq!(next_power_of_two(usize::MAX / 2), usize::MAX / 2 + 1);
    assert_eq!(next_power_of_two(usize::MAX / 4 + 2), usize::MAX / 2 + 1);
}

#[test]
fn capacity_grows_to_the_next_power_of_two_that_holds_the_count() {
    assert_eq!(ensure_capacity(64, 0), 64);
    assert_eq!(ensure_capacity(64, 10), 64);
    assert_eq!(ensure_capacity(64, 64), 64);
    assert_eq!(ensure_capacity(64, 65), 128);
    assert_eq!(ensure_capacity(64, 128), 128);
    assert_eq!(ensure_capacity(64, 129), 256);
    assert_eq!(ensure_capacity(256, 129), 256);
    assert_eq!(ensure_capacity(0, 0), 0);
    assert_eq!(ensure_capacity(0, 1), 1);
    assert_eq!(ensure_capacity(100, 101), 128);
    assert_eq!(ensure_capacity(100, 100), 100);
    assert_eq!(ensure_capacity(1, usize::MAX / 2), usize::MAX / 2 + 1);
}

#[test]
fn capacity_doubles_until_the_count_fits() {
    assert_eq!(doubled_capacity(32, 0), 32);
    assert_eq!(doubled_capacity(32, 32), 32);
    assert_eq!(doubled_capacity(32, 33), 64);
    assert_eq!(doubled_capacity(32, 64), 64);
    assert_eq!(doubled_capacity(32, 65), 128);
    assert_eq!(doubled_capacity(32, 200), 256);
    assert_eq!(doubled_capacity(3, 20), 24);
    assert_eq!(doubled_capacity(1, usize::MAX / 2), usize::MAX / 2 + 1);
}

#[test]
fn present_mode_is_immediate_only_when_asked_and_offered() {
    assert_eq!(choose_present_mode(true, true), PresentMode::Immediate);
    assert_eq!(choose_present_mode(true, false), PresentMode::Fifo);
    assert_eq!(choose_present_mode(false, true), PresentMode::Fifo);
    assert_eq!(choose_present_mode(false, false), PresentMode::Fifo);
}

#[test]
fn first_srgb_format_is_taken_or_else_the_first() {
    assert_eq!(choose_format(&vec![true]), 0);
    assert_eq!(choose_format(&vec![false]), 0);
    assert_eq!(choose_format(&vec![false, true, true]), 1);
    assert_eq!(choose_format(&vec![false, false, true]), 2);
    assert_eq!(choose_format(&vec![false, false, false]), 0);
    assert_eq!(choose_format(&vec![true, false, true]), 0);
}

#[test]
fn opaque_alpha_mode_is_taken_or_else_the_first() {
    assert_eq!(choose_alpha_mode(&vec![true]), 0);
    assert_eq!(choose_alpha_mode(&vec![false]), 0);
    assert_eq!(choose_alpha_mode(&vec![false, true]), 1);
    assert_eq!(choose_alpha_mode(&vec![false, false]), 0);
}
