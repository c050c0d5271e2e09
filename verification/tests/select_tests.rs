use cli_prompt::keys::KeyEvent;
use cli_prompt::select::apply;

#[test]
fn move_up_clamps_at_zero() {
    assert_eq!(apply(0, 3, KeyEvent::MoveUp), 0);
    assert_eq!(apply(1, 3, KeyEvent::MoveUp), 0);
    assert_eq!(apply(2, 3, KeyEvent::MoveUp), 1);
}

#[test]
fn move_down_clamps_at_last_row() {
    assert_eq!(apply(0, 3, KeyEvent::MoveDown), 1);
    assert_eq!(apply(1, 3, KeyEvent::MoveDown), 2);
    assert_eq!(apply(2, 3, KeyEvent::MoveDown), 2);
}

#[test]
fn confirm_abort_and_ignore_leave_the_index_unchanged() {
    assert_eq!(apply(1, 3, KeyEvent::Confirm), 1);
    assert_eq!(apply(1, 3, KeyEvent::Abort), 1);
    assert_eq!(apply(1, 3, KeyEvent::Ignore), 1);
}

#[test]
fn single_row_menu_never_moves() {
    assert_eq!(apply(0, 1, KeyEvent::MoveUp), 0);
    assert_eq!(apply(0, 1, KeyEvent::MoveDown), 0);
}

#[test]
fn repeated_move_up_converges_to_zero_and_stays() {
    let mut index = 4;
    for _ in 0..10 {
        index = apply(index, 5, KeyEvent::MoveUp);
    }
    assert_eq!(index, 0);
    assert_eq!(apply(index, 5, KeyEvent::MoveUp), 0);
}

#[test]
fn repeated_move_down_converges_to_last_row_and_stays() {
    let mut index = 0;
    for _ in 0..10 {
        index = apply(index, 5, KeyEvent::MoveDown);
    }
    assert_eq!(index, 4);
    assert_eq!(apply(index, 5, KeyEvent::MoveDown), 4);
}
