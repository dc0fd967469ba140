use catalog_nav::screen::{move_down, move_up};

#[test]
fn move_up_stops_at_the_first_row() {
    assert_eq!(move_up(0), 0);
    assert_eq!(move_up(1), 0);
    assert_eq!(move_up(7), 6);
    assert_eq!(move_up(usize::MAX), usize::MAX - 1);
}

#[test]
fn move_down_stops_at_the_last_row() {
    assert_eq!(move_down(0, 3), 1);
    assert_eq!(move_down(1, 3), 2);
    assert_eq!(move_down(2, 3), 2);
    assert_eq!(move_down(0, 1), 0);
    assert_eq!(move_down(0, 0), 0);
    assert_eq!(move_down(usize::MAX, usize::MAX), usize::MAX);
    assert_eq!(move_down(usize::MAX - 2, usize::MAX), usize::MAX - 1);
}
