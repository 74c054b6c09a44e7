use todo_list_rust::cursor::{clamp, step_back, step_forward};

#[test]
fn step_forward_wraps_after_the_last() {
    assert_eq!(1, step_forward(0, 3));
    assert_eq!(2, step_forward(1, 3));
    assert_eq!(0, step_forward(2, 3));
    assert_eq!(0, step_forward(0, 1));
}

#[test]
fn step_back_wraps_before_the_first() {
    assert_eq!(2, step_back(0, 3));
    assert_eq!(0, step_back(1, 3));
    assert_eq!(1, step_back(2, 3));
    assert_eq!(0, step_back(0, 1));
}

#[test]
fn nothing_moves_over_an_empty_collection() {
    assert_eq!(0, step_forward(0, 0));
    assert_eq!(0, step_back(0, 0));
    assert_eq!(4, step_forward(4, 0));
    assert_eq!(4, step_back(4, 0));
}

#[test]
fn a_cursor_past_the_end_comes_back_into_range() {
    assert_eq!(0, step_forward(7, 3));
    assert_eq!(2, step_back(7, 3));
    assert_eq!(2, step_back(3, 3));
    assert_eq!(2, clamp(7, 3));
    assert_eq!(1, clamp(1, 3));
    // over an empty collection nothing is valid and the cursor stays
    assert_eq!(5, clamp(5, 0));
    assert_eq!(0, clamp(0, 0));
}

#[test]
fn a_full_turn_returns_to_the_start() {
    for n in 1..6usize {
        for start in 0..n {
            let mut cursor = start;
            for _ in 0..n {
                cursor = step_forward(cursor, n);
            }
            assert_eq!(start, cursor);
            for _ in 0..n {
                cursor = step_back(cursor, n);
            }
            assert_eq!(start, cursor);
        }
    }
}
