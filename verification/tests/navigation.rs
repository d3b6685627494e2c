use inquire::navigation::{clamp_cursor, move_down, move_up};

#[test]
fn single_step_up_wraps_to_the_last_row() {
    assert_eq!(4, move_up(0, 5, 1, true));
    assert_eq!(2, move_up(3, 5, 1, true));
    assert_eq!(0, move_up(0, 1, 1, true));
}

#[test]
fn single_step_down_wraps_to_the_first_row() {
    assert_eq!(0, move_down(4, 5, 1, true));
    assert_eq!(4, move_down(3, 5, 1, true));
    assert_eq!(0, move_down(0, 1, 1, true));
}

#[test]
fn block_moves_stop_at_the_ends() {
    assert_eq!(0, move_up(3, 20, 7, false));
    assert_eq!(3, move_up(10, 20, 7, false));
    assert_eq!(0, move_up(10, 20, usize::MAX, false));
    assert_eq!(19, move_down(15, 20, 7, false));
    assert_eq!(17, move_down(10, 20, 7, false));
    assert_eq!(19, move_down(10, 20, usize::MAX, false));
    assert_eq!(19, move_down(19, 20, usize::MAX, false));
}

#[test]
fn moves_in_an_empty_view_stay_at_zero() {
    assert_eq!(0, move_down(0, 0, 1, true));
    assert_eq!(0, move_down(0, 0, 7, false));
    assert_eq!(0, move_down(0, 0, usize::MAX, false));
    assert_eq!(0, move_up(0, 0, 1, true));
    assert_eq!(0, move_up(0, 0, usize::MAX, false));
}

#[test]
fn wrapping_moves_of_more_than_one_row() {
    assert_eq!(3, move_up(1, 5, 3, true));
    assert_eq!(0, move_up(1, 5, 9, true));
    assert_eq!(1, move_down(3, 5, 3, true));
}

#[test]
fn clamp_brings_the_cursor_back_into_the_view() {
    assert_eq!(2, clamp_cursor(2, 5));
    assert_eq!(4, clamp_cursor(5, 5));
    assert_eq!(4, clamp_cursor(9, 5));
    assert_eq!(0, clamp_cursor(3, 0));
    assert_eq!(0, clamp_cursor(0, 0));
}
