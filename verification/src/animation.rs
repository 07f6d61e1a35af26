//! How a request to play a named clip on Bucky's animation player becomes
//! a command for that player.
use vstd::prelude::*;

use crate::bucky::BuckyClip;

verus! {

/// A command for the animation player.
#[derive(Debug, PartialEq, Eq)]
pub enum AnimationCommand {
    /// Leave the player as it is.
    Nothing,
    /// Stop the current animation.
    Stop,
    /// Make the named animation current without starting it.
    SetCurrent(String),
    /// Make the named animation current and start playing it.
    SetCurrentAndPlay(String),
}

/// An animation command as mathematical values.
pub enum AnimationCommandView {
    Nothing,
    Stop,
    SetCurrent(Seq<char>),
    SetCurrentAndPlay(Seq<char>),
}

impl View for AnimationCommand {
    type V = AnimationCommandView;

    open spec fn view(&self) -> AnimationCommandView {
        match self {
            AnimationCommand::Nothing => AnimationCommandView::Nothing,
            AnimationCommand::Stop => AnimationCommandView::Stop,
            AnimationCommand::SetCurrent(n) => AnimationCommandView::SetCurrent(n@),
            AnimationCommand::SetCurrentAndPlay(n) => AnimationCommandView::SetCurrentAndPlay(n@),
        }
    }
}

/// The command for a request to play `name`, given whether the player is
/// playing and which animation is current:
/// - `"stop"` stops the player;
/// - `"reset_soft"` makes `"RESET"` current, but only while something plays;
/// - `"hang_ledge"` restarts nothing when it is already current, and is
///   made current and played otherwise;
/// - any other name is made current and played.
pub open spec fn animation_command_for(name: Seq<char>, is_playing: bool, current: Seq<char>)
    -> AnimationCommandView
{
    if name == "stop"@ {
        AnimationCommandView::Stop
    } else if name == "reset_soft"@ {
        if is_playing {
            AnimationCommandView::SetCurrent("RESET"@)
        } else {
            AnimationCommandView::Nothing
        }
    } else if name == "hang_ledge"@ && current == name {
        AnimationCommandView::Nothing
    } else {
        AnimationCommandView::SetCurrentAndPlay(name)
    }
}

/// Every clip name other than "stop", "reset_soft" and "hang_ledge" is made
/// current and played, whether or not the player is playing and whatever
/// clip is current (even the same one).
pub proof fn lemma_other_clips_always_play(name: Seq<char>, is_playing: bool, current: Seq<char>)
    requires
        name != "stop"@,
        name != "reset_soft"@,
        name != "hang_ledge"@,
    ensures
        animation_command_for(name, is_playing, current) == AnimationCommandView::SetCurrentAndPlay(name),
{
}

/// "stop" always stops; "reset_soft" makes "RESET" current (without playing
/// it) exactly while something plays and does nothing otherwise;
/// "hang_ledge" does nothing exactly when it is already current and is made
/// current and played otherwise.
pub proof fn lemma_special_clips(is_playing: bool, current: Seq<char>)
    ensures
        animation_command_for("stop"@, is_playing, current) == AnimationCommandView::Stop,
        animation_command_for("reset_soft"@, is_playing, current) == if is_playing {
            AnimationCommandView::SetCurrent("RESET"@)
        } else {
            AnimationCommandView::Nothing
        },
        animation_command_for("hang_ledge"@, is_playing, current) == if current == "hang_ledge"@ {
            AnimationCommandView::Nothing
        } else {
            AnimationCommandView::SetCurrentAndPlay("hang_ledge"@)
        },
{
    reveal_strlit("stop");
    reveal_strlit("reset_soft");
    reveal_strlit("hang_ledge");
    assert("stop"@.len() != "reset_soft"@.len());
    assert("stop"@.len() != "hang_ledge"@.len());
    assert("reset_soft"@[0] != "hang_ledge"@[0]);
}

/// Only the current clip's name matters for "hang_ledge", and only whether
/// something plays matters for "reset_soft": two requests for the same name
/// that differ in neither give the same command.
pub proof fn lemma_command_depends_on_state_only_for_reset_and_ledge(
    name: Seq<char>,
    p1: bool,
    c1: Seq<char>,
    p2: bool,
    c2: Seq<char>,
)
    requires
        name == "reset_soft"@ ==> p1 == p2,
        name == "hang_ledge"@ ==> (c1 == name) == (c2 == name),
    ensures
        animation_command_for(name, p1, c1) == animation_command_for(name, p2, c2),
{
}

/// The command for a request to play the clip `anim_name`, given whether the
/// player is playing and the name of its current animation.
pub fn play_animation(anim_name: &str, is_playing: bool, current: &str) -> (cmd: AnimationCommand)
    ensures
        cmd@ == animation_command_for(anim_name@, is_playing, current@),
{
    let name = anim_name.to_owned();
    if name == "stop".to_owned() {
        AnimationCommand::Stop
    } else if name == "reset_soft".to_owned() {
        if is_playing {
            AnimationCommand::SetCurrent("RESET".to_owned())
        } else {
            AnimationCommand::Nothing
        }
    } else if name == "hang_ledge".to_owned() {
        if current.to_owned() == name {
            AnimationCommand::Nothing
        } else {
            AnimationCommand::SetCurrentAndPlay(name)
        }
    } else {
        AnimationCommand::SetCurrentAndPlay(name)
    }
}

/// The clip name under which the animation player knows a pose clip.
pub open spec fn clip_name_spec(clip: BuckyClip) -> Seq<char> {
    match clip {
        BuckyClip::HangLedge => "hang_ledge"@,
        BuckyClip::Drop => "drop"@,
        BuckyClip::Walk => "walk"@,
        BuckyClip::ResetSoft => "reset_soft"@,
    }
}

/// The clip name under which the animation player knows a pose clip.
pub fn clip_name(clip: BuckyClip) -> (name: &'static str)
    ensures
        name@ == clip_name_spec(clip),
{
    match clip {
        BuckyClip::HangLedge => "hang_ledge",
        BuckyClip::Drop => "drop",
        BuckyClip::Walk => "walk",
        BuckyClip::ResetSoft => "reset_soft",
    }
}

/// The clip played, with the jump particles, when jump is pressed.
pub fn jump_clip_name() -> (name: &'static str)
    ensures
        name@ == "jump"@,
{
    "jump"
}

} // verus!
