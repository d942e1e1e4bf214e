use air::smoother::{smooth_move, MoveType};

#[test]
fn step_two_scenario() {
    assert_eq!(smooth_move((0, 0), (5, 0), 2), vec![(2, 0), (4, 0), (5, 0)]);
}

#[test]
fn step_zero_is_one_jump() {
    assert_eq!(smooth_move((10, 10), (-4, 7), 0), vec![(-4, 7)]);
    assert_eq!(smooth_move((1, 1), (1, 1), 0), vec![(1, 1)]);
}

#[test]
fn already_there_is_empty() {
    assert_eq!(smooth_move((3, 3), (3, 3), 2), Vec::<(i32, i32)>::new());
}

#[test]
fn length_is_ceiling_of_longest_axis() {
    let path = smooth_move((0, 0), (-7, 3), 3);
    assert_eq!(path, vec![(-3, 3), (-6, 3), (-7, 3)]);
    let path = smooth_move((0, 0), (10, -10), 1);
    assert_eq!(path.len(), 10);
    assert_eq!(*path.last().unwrap(), (10, -10));
}

#[test]
fn far_moves_do_not_overflow() {
    let path = smooth_move((i32::MAX - 1, i32::MIN + 1), (i32::MAX, i32::MIN), 5);
    assert_eq!(path, vec![(i32::MAX, i32::MIN)]);
}

#[test]
fn step_sizes() {
    assert_eq!(MoveType::Immediate.step_size(), 0);
    assert_eq!(MoveType::Smooth.step_size(), 1);
    assert_eq!(MoveType::Faster.step_size(), 2);
    assert_eq!(MoveType::VeryFast.step_size(), 3);
}
