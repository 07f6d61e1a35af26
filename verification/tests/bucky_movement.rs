use bucky_game::bucky::{Bucky, BuckyClip, GravityKind, JumpKind, MovementInput, MovementPlan};

fn input(on_floor: bool, falling: bool, rising: bool, wall: bool, jump: bool, moving: bool) -> MovementInput {
    MovementInput {
        on_floor,
        falling,
        rising,
        wall_contact: wall,
        jump_pressed: jump,
        moving,
    }
}

#[test]
fn fresh_bucky_has_two_jumps() {
    let b = Bucky::new();
    assert_eq!(b.jumps_remaining(), 2);
    assert!(!b.is_wall_sliding());
    assert!(!b.has_wall_jumped());
}

#[test]
fn standing_still_on_floor() {
    let mut b = Bucky::new();
    let plan = b.handle_movement(input(true, false, false, false, false, false));
    assert_eq!(
        plan,
        MovementPlan {
            pose: Some(BuckyClip::ResetSoft),
            gravity: None,
            cap_slide_speed: false,
            jump_effects: false,
            impulse: None,
        }
    );
    assert_eq!(b.jumps_remaining(), 2);
}

#[test]
fn walking_on_floor_plays_walk() {
    let mut b = Bucky::new();
    let plan = b.handle_movement(input(true, false, false, false, false, true));
    assert_eq!(plan.pose, Some(BuckyClip::Walk));
}

#[test]
fn ground_jump_then_double_jump_then_nothing() {
    let mut b = Bucky::new();
    let plan = b.handle_movement(input(true, false, false, false, true, false));
    assert_eq!(plan.impulse, Some(JumpKind::Ground));
    assert!(plan.jump_effects);
    assert_eq!(b.jumps_remaining(), 1);

    let plan = b.handle_movement(input(false, false, true, false, true, false));
    assert_eq!(plan.impulse, Some(JumpKind::Double));
    assert_eq!(plan.gravity, Some(GravityKind::Rising));
    assert_eq!(plan.pose, None);
    assert_eq!(b.jumps_remaining(), 0);

    let plan = b.handle_movement(input(false, true, false, false, true, false));
    assert_eq!(plan.impulse, None);
    assert!(plan.jump_effects);
    assert_eq!(plan.gravity, Some(GravityKind::Falling));
    assert_eq!(plan.pose, Some(BuckyClip::Drop));
    assert_eq!(b.jumps_remaining(), 0);
}

#[test]
fn landing_restores_jumps() {
    let mut b = Bucky::new();
    b.handle_movement(input(true, false, false, false, true, false));
    b.handle_movement(input(false, false, true, false, true, false));
    assert_eq!(b.jumps_remaining(), 0);
    b.handle_movement(input(true, false, false, false, false, false));
    assert_eq!(b.jumps_remaining(), 2);
}

#[test]
fn wall_slide_needs_falling_and_contact() {
    let mut b = Bucky::new();
    assert!(b.wants_wall_probe(false, true));
    assert!(!b.wants_wall_probe(true, true));
    assert!(!b.wants_wall_probe(false, false));
    let plan = b.handle_movement(input(false, false, true, true, false, false));
    assert!(!b.is_wall_sliding());
    assert_eq!(plan.gravity, Some(GravityKind::Rising));
    let plan = b.handle_movement(input(false, true, false, true, false, false));
    assert!(b.is_wall_sliding());
    assert_eq!(plan.pose, Some(BuckyClip::HangLedge));
    assert_eq!(plan.gravity, Some(GravityKind::WallSlide));
    assert!(plan.cap_slide_speed);
}

#[test]
fn wall_hop_only_once_per_airtime() {
    let mut b = Bucky::new();
    b.handle_movement(input(false, true, false, true, false, false));
    assert!(b.is_wall_sliding());
    let plan = b.handle_movement(input(false, true, false, true, true, false));
    assert_eq!(plan.impulse, Some(JumpKind::WallHop));
    assert!(!b.is_wall_sliding());
    assert!(b.has_wall_jumped());
    assert_eq!(b.jumps_remaining(), 2);
    // Falling against a wall again: no probe, no slide.
    assert!(!b.wants_wall_probe(false, true));
    let plan = b.handle_movement(input(false, true, false, true, false, false));
    assert!(!b.is_wall_sliding());
    assert_eq!(plan.gravity, Some(GravityKind::Falling));
    // A jump now is a mid-air jump, not a second wall hop.
    let plan = b.handle_movement(input(false, true, false, true, true, false));
    assert_eq!(plan.impulse, Some(JumpKind::Double));
    assert_eq!(b.jumps_remaining(), 1);
    // Landing clears the wall hop.
    b.handle_movement(input(true, false, false, false, false, false));
    assert!(!b.has_wall_jumped());
    assert!(b.wants_wall_probe(false, true));
}

#[test]
fn wall_contact_ignored_on_floor() {
    let mut b = Bucky::new();
    let plan = b.handle_movement(input(true, true, false, true, false, false));
    assert!(!b.is_wall_sliding());
    assert!(!plan.cap_slide_speed);
    assert_eq!(plan.gravity, None);
}
