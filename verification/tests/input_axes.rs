use bucky_game::input::{movement_axes, DirectionKeys, MoveAxes};

fn keys(forward: bool, backwards: bool, left: bool, right: bool) -> DirectionKeys {
    DirectionKeys { forward, backwards, left, right }
}

#[test]
fn no_keys_no_motion() {
    assert_eq!(movement_axes(keys(false, false, false, false)), MoveAxes { forward: 0, right: 0 });
}

#[test]
fn forward_and_right() {
    assert_eq!(movement_axes(keys(true, false, false, true)), MoveAxes { forward: 1, right: 1 });
}

#[test]
fn backwards_and_left() {
    assert_eq!(movement_axes(keys(false, true, true, false)), MoveAxes { forward: -1, right: -1 });
}

#[test]
fn opposite_keys_cancel() {
    assert_eq!(movement_axes(keys(true, true, true, true)), MoveAxes { forward: 0, right: 0 });
    assert_eq!(movement_axes(keys(true, true, false, true)), MoveAxes { forward: 0, right: 1 });
}
