use bucky_game::animation::{clip_name, jump_clip_name, play_animation, AnimationCommand};
use bucky_game::bucky::BuckyClip;

#[test]
fn stop_stops() {
    assert_eq!(play_animation("stop", true, "walk"), AnimationCommand::Stop);
    assert_eq!(play_animation("stop", false, ""), AnimationCommand::Stop);
}

#[test]
fn reset_soft_only_while_playing() {
    assert_eq!(
        play_animation("reset_soft", true, "walk"),
        AnimationCommand::SetCurrent("RESET".to_string())
    );
    assert_eq!(play_animation("reset_soft", false, "walk"), AnimationCommand::Nothing);
}

#[test]
fn hang_ledge_is_not_restarted() {
    assert_eq!(play_animation("hang_ledge", true, "hang_ledge"), AnimationCommand::Nothing);
    assert_eq!(
        play_animation("hang_ledge", true, "drop"),
        AnimationCommand::SetCurrentAndPlay("hang_ledge".to_string())
    );
}

#[test]
fn other_clips_are_played() {
    assert_eq!(
        play_animation("walk", true, "walk"),
        AnimationCommand::SetCurrentAndPlay("walk".to_string())
    );
    assert_eq!(
        play_animation("jump", false, ""),
        AnimationCommand::SetCurrentAndPlay("jump".to_string())
    );
}

#[test]
fn clip_names() {
    assert_eq!(clip_name(BuckyClip::HangLedge), "hang_ledge");
    assert_eq!(clip_name(BuckyClip::Drop), "drop");
    assert_eq!(clip_name(BuckyClip::Walk), "walk");
    assert_eq!(clip_name(BuckyClip::ResetSoft), "reset_soft");
    assert_eq!(jump_clip_name(), "jump");
}
