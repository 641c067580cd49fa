use learn_opengl::camera::{Axis, Movement};

#[test]
fn forward_moves_along_front() {
    assert_eq!(Movement::Forward.axis(), Axis::Front);
    assert_eq!(Movement::Forward.sign(), 1);
}

#[test]
fn backward_moves_against_front() {
    assert_eq!(Movement::BackWard.axis(), Axis::Front);
    assert_eq!(Movement::BackWard.sign(), -1);
}

#[test]
fn left_moves_against_side() {
    assert_eq!(Movement::Left.axis(), Axis::Side);
    assert_eq!(Movement::Left.sign(), -1);
}

#[test]
fn right_moves_along_side() {
    assert_eq!(Movement::Right.axis(), Axis::Side);
    assert_eq!(Movement::Right.sign(), 1);
}
