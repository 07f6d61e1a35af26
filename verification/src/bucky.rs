//! Bucky's jump rules: the jump budget, wall sliding and wall hops.
//!
//! Each frame the caller observes the body (on the floor? moving up or
//! down? touching a wall? jump pressed? steering?) and hands those facts
//! to [`Bucky::handle_movement`], which updates the jump state and returns
//! a [`MovementPlan`]: which pose clip to play, which gravity applies,
//! whether the slide speed is capped, and which jump impulse to apply.
//! The vector arithmetic that carries the plan out stays with the caller.
use vstd::prelude::*;

verus! {

/// Jumps granted on each landing: one from the ground and one in the air.
pub const MAX_JUMPS: i32 = 2;

/// The pose clips that a movement frame can request.
#[derive(Clone, Copy, Debug, PartialEq, Eq, Structural)]
pub enum BuckyClip {
    /// Clinging to a wall while sliding down it.
    HangLedge,
    /// Falling through the air.
    Drop,
    /// Walking on the ground.
    Walk,
    /// Standing on the ground.
    ResetSoft,
}

/// The gravity that pulls Bucky during an airborne frame.
#[derive(Clone, Copy, Debug, PartialEq, Eq, Structural)]
pub enum GravityKind {
    /// Weak pull while sliding down a wall.
    WallSlide,
    /// Pull while still moving upwards after a jump.
    Rising,
    /// Pull while falling.
    Falling,
}

/// The vertical impulse that a pressed jump produces.
#[derive(Clone, Copy, Debug, PartialEq, Eq, Structural)]
pub enum JumpKind {
    /// Push off the wall along its normal and upwards.
    WallHop,
    /// Jump from the ground.
    Ground,
    /// Jump in mid-air, spending the remaining jump.
    Double,
}

/// What the caller observed about Bucky this frame.
#[derive(Clone, Copy, Debug, PartialEq, Eq, Structural)]
pub struct MovementInput {
    /// The body stands on the floor.
    pub on_floor: bool,
    /// The vertical velocity is below zero.
    pub falling: bool,
    /// The vertical velocity is above zero.
    pub rising: bool,
    /// The wall probe hit a wall (only meaningful when the probe was wanted,
    /// see [`Bucky::wants_wall_probe`]; ignored otherwise).
    pub wall_contact: bool,
    /// The jump action was pressed this frame.
    pub jump_pressed: bool,
    /// A movement direction is held.
    pub moving: bool,
}

/// What the caller must do with the body this frame.
#[derive(Clone, Copy, Debug, PartialEq, Eq, Structural)]
pub struct MovementPlan {
    /// The pose clip to play (none while rising through the air).
    pub pose: Option<BuckyClip>,
    /// The gravity to apply; none on the floor.
    pub gravity: Option<GravityKind>,
    /// After gravity, cap the downward speed at the wall-slide maximum.
    pub cap_slide_speed: bool,
    /// Play the jump clip and the jump particles (jump was pressed).
    pub jump_effects: bool,
    /// The jump impulse to apply, if any.
    pub impulse: Option<JumpKind>,
}

/// Bucky's jump state as mathematical values.
pub struct BuckyView {
    pub jumps_remaining: int,
    pub is_wall_sliding: bool,
    pub has_wall_jumped: bool,
}

/// Bucky's jump state.
pub struct Bucky {
    jumps_remaining: i32,
    is_wall_sliding: bool,
    has_wall_jumped: bool,
}


/// The jump state after running the frames of `inputs` in order from `s`.
pub open spec fn run(s: BuckyView, inputs: Seq<MovementInput>) -> BuckyView
    decreases inputs.len(),
{
    if inputs.len() == 0 {
        s
    } else {
        run(next_state(s, inputs[0]), inputs.drop_first())
    }
}

/// How many frames of `inputs`, run in order from `s`, apply the impulse `kind`.
pub open spec fn impulse_count(s: BuckyView, inputs: Seq<MovementInput>, kind: JumpKind) -> nat
    decreases inputs.len(),
{
    if inputs.len() == 0 {
        0
    } else {
        (if impulse_for(s, inputs[0]) == Some(kind) {
            1nat
        } else {
            0nat
        }) + impulse_count(next_state(s, inputs[0]), inputs.drop_first(), kind)
    }
}

/// No frame of `inputs` finds the body on the floor.
pub open spec fn airborne(inputs: Seq<MovementInput>) -> bool {
    forall|j: int| 0 <= j < inputs.len() ==> !(#[trigger] inputs[j]).on_floor
}

/// Every frame keeps the jump state valid: the budget stays between none
/// and two jumps, and no wall slide coexists with a wall hop.
pub proof fn lemma_frame_keeps_state_valid(s: BuckyView, i: MovementInput)
    requires
        valid_state(s),
    ensures
        valid_state(next_state(s, i)),
{
}

/// Landing restores the jump budget and clears both wall flags; a jump
/// pressed on the landing frame spends one jump of the restored budget.
pub proof fn lemma_landing_restores_jumps(s: BuckyView, i: MovementInput)
    requires
        i.on_floor,
    ensures
        next_state(s, i).jumps_remaining == if i.jump_pressed {
            1int
        } else {
            2int
        },
        !next_state(s, i).is_wall_sliding,
        !next_state(s, i).has_wall_jumped,
        impulse_for(s, i) == if i.jump_pressed {
            Some(JumpKind::Ground)
        } else {
            None::<JumpKind>
        },
{
}

/// A wall slide happens only in the air, while falling, against a wall,
/// and not on a frame where jump is pressed (that frame hops off instead).
pub proof fn lemma_wall_slide_needs_falling_against_wall(s: BuckyView, i: MovementInput)
    ensures
        next_state(s, i).is_wall_sliding ==> !i.on_floor && i.falling && i.wall_contact
            && !i.jump_pressed && !s.has_wall_jumped,
        impulse_for(s, i) == Some(JumpKind::WallHop) ==> !i.on_floor && i.falling
            && i.wall_contact && !s.has_wall_jumped,
{
}

/// Airborne, falling, against a wall and with no wall hop since the last
/// landing, Bucky slides down the wall, whatever direction is held and
/// whatever jump budget he has: the frame plays the ledge clip under the
/// weak wall-slide gravity with the slide speed capped. If jump is pressed
/// on that frame he hops off the wall (budget untouched, hop recorded);
/// otherwise he is still sliding after the frame.
pub proof fn lemma_falling_against_wall_slides(s: BuckyView, i: MovementInput)
    requires
        !i.on_floor,
        i.falling,
        i.wall_contact,
        !s.has_wall_jumped,
    ensures
        plan_for(s, i).pose == Some(BuckyClip::HangLedge),
        plan_for(s, i).gravity == Some(GravityKind::WallSlide),
        plan_for(s, i).cap_slide_speed,
        next_state(s, i).jumps_remaining == s.jumps_remaining,
        !i.jump_pressed ==> next_state(s, i).is_wall_sliding && !next_state(s, i).has_wall_jumped
            && plan_for(s, i).impulse is None,
        i.jump_pressed ==> plan_for(s, i).impulse == Some(JumpKind::WallHop)
            && next_state(s, i).has_wall_jumped && !next_state(s, i).is_wall_sliding,
{
}

/// Without all of "airborne, falling, touching a wall, no hop yet", there is
/// no wall slide, no ledge clip, no wall-slide gravity, no cap and no hop.
pub proof fn lemma_no_slide_off_the_wall(s: BuckyView, i: MovementInput)
    requires
        i.on_floor || !i.falling || !i.wall_contact || s.has_wall_jumped,
    ensures
        !next_state(s, i).is_wall_sliding,
        !plan_for(s, i).cap_slide_speed,
        plan_for(s, i).impulse != Some(JumpKind::WallHop),
        plan_for(s, i).gravity != Some(GravityKind::WallSlide),
        plan_for(s, i).pose != Some(BuckyClip::HangLedge),
{
}

/// Rising through the air (and not sliding, which needs a fall), no pose
/// clip is requested and the rising gravity applies; the drop clip is only
/// ever requested in the air while not rising.
pub proof fn lemma_rising_plays_no_clip(s: BuckyView, i: MovementInput)
    ensures
        !i.on_floor && i.rising && !i.falling ==> plan_for(s, i).pose is None
            && plan_for(s, i).gravity == Some(GravityKind::Rising),
        plan_for(s, i).pose == Some(BuckyClip::Drop) ==> !i.on_floor && !i.rising,
        plan_for(s, i).gravity == Some(GravityKind::Rising) ==> !i.on_floor && i.rising,
{
}

/// In the air, neither rising nor sliding, Bucky drops: the drop clip under
/// the falling gravity.
pub proof fn lemma_free_fall_drops(s: BuckyView, i: MovementInput)
    requires
        !i.on_floor,
        !i.rising,
        !(i.falling && i.wall_contact && !s.has_wall_jumped),
    ensures
        plan_for(s, i).pose == Some(BuckyClip::Drop),
        plan_for(s, i).gravity == Some(GravityKind::Falling),
{
}

/// On the floor there is no gravity and no cap; the walk clip plays while
/// steering and the standing clip otherwise; a pressed jump is a ground jump.
pub proof fn lemma_ground_frame(s: BuckyView, i: MovementInput)
    requires
        i.on_floor,
    ensures
        plan_for(s, i).gravity is None,
        !plan_for(s, i).cap_slide_speed,
        plan_for(s, i).pose == Some(if i.moving {
            BuckyClip::Walk
        } else {
            BuckyClip::ResetSoft
        }),
        i.jump_pressed ==> plan_for(s, i).impulse == Some(JumpKind::Ground),
        !i.jump_pressed ==> plan_for(s, i).impulse is None,
{
}

/// In the air and not sliding, a pressed jump is a mid-air jump that spends
/// one jump when one is left, and does nothing otherwise.
pub proof fn lemma_air_jump_spends_one(s: BuckyView, i: MovementInput)
    requires
        !i.on_floor,
        i.jump_pressed,
        !(i.falling && i.wall_contact && !s.has_wall_jumped),
    ensures
        s.jumps_remaining > 0 ==> plan_for(s, i).impulse == Some(JumpKind::Double)
            && next_state(s, i).jumps_remaining == s.jumps_remaining - 1,
        s.jumps_remaining <= 0 ==> plan_for(s, i).impulse is None
            && next_state(s, i).jumps_remaining == s.jumps_remaining,
        next_state(s, i).has_wall_jumped == s.has_wall_jumped,
{
}

/// In the air without a jump press, nothing is spent and no hop is recorded.
pub proof fn lemma_no_press_no_jump(s: BuckyView, i: MovementInput)
    requires
        !i.on_floor,
        !i.jump_pressed,
    ensures
        plan_for(s, i).impulse is None,
        !plan_for(s, i).jump_effects,
        next_state(s, i).jumps_remaining == s.jumps_remaining,
        next_state(s, i).has_wall_jumped == s.has_wall_jumped,
{
}

/// The jump clip and particles play exactly on frames where jump is pressed,
/// even when no jump impulse follows.
pub proof fn lemma_jump_effects_follow_press(s: BuckyView, i: MovementInput)
    ensures
        plan_for(s, i).jump_effects == i.jump_pressed,
        plan_for(s, i).impulse is Some ==> i.jump_pressed,
{
}

/// The held direction only chooses between the walk and standing clips on
/// the floor: two frames that differ only in steering end in the same state
/// and plan the same gravity, cap, effects and impulse; in the air they
/// plan the same pose too.
pub proof fn lemma_steering_only_picks_ground_clip(s: BuckyView, i: MovementInput, j: MovementInput)
    requires
        i.on_floor == j.on_floor,
        i.falling == j.falling,
        i.rising == j.rising,
        i.wall_contact == j.wall_contact,
        i.jump_pressed == j.jump_pressed,
    ensures
        next_state(s, i) == next_state(s, j),
        plan_for(s, i).gravity == plan_for(s, j).gravity,
        plan_for(s, i).cap_slide_speed == plan_for(s, j).cap_slide_speed,
        plan_for(s, i).jump_effects == plan_for(s, j).jump_effects,
        plan_for(s, i).impulse == plan_for(s, j).impulse,
        !i.on_floor ==> plan_for(s, i).pose == plan_for(s, j).pose,
{
}

/// Between landings, every mid-air jump spends one jump of the budget and
/// nothing refills it: the mid-air jumps made plus the jumps left equal the
/// budget held at take-off, and no ground jump happens.
pub proof fn lemma_air_jumps_spend_budget(s: BuckyView, inputs: Seq<MovementInput>)
    requires
        valid_state(s),
        airborne(inputs),
    ensures
        impulse_count(s, inputs, JumpKind::Double) + run(s, inputs).jumps_remaining
            == s.jumps_remaining,
        impulse_count(s, inputs, JumpKind::Ground) == 0,
        valid_state(run(s, inputs)),
    decreases inputs.len(),
{
    if inputs.len() > 0 {
        let rest = inputs.drop_first();
        assert(!inputs[0].on_floor);
        assert forall|j: int| 0 <= j < rest.len() implies !(#[trigger] rest[j]).on_floor by {
            assert(rest[j] == inputs[j + 1]);
        }
        lemma_frame_keeps_state_valid(s, inputs[0]);
        lemma_air_jumps_spend_budget(next_state(s, inputs[0]), rest);
    }
}

/// Between landings Bucky hops off a wall at most once, and not at all
/// once he has already hopped since the last landing.
pub proof fn lemma_one_wall_hop_per_airtime(s: BuckyView, inputs: Seq<MovementInput>)
    requires
        valid_state(s),
        airborne(inputs),
    ensures
        impulse_count(s, inputs, JumpKind::WallHop) + (if s.has_wall_jumped {
            1nat
        } else {
            0nat
        }) <= 1,
        run(s, inputs).has_wall_jumped == (s.has_wall_jumped || impulse_count(
            s,
            inputs,
            JumpKind::WallHop,
        ) > 0),
    decreases inputs.len(),
{
    if inputs.len() > 0 {
        let rest = inputs.drop_first();
        assert(!inputs[0].on_floor);
        assert forall|j: int| 0 <= j < rest.len() implies !(#[trigger] rest[j]).on_floor by {
            assert(rest[j] == inputs[j + 1]);
        }
        lemma_frame_keeps_state_valid(s, inputs[0]);
        lemma_one_wall_hop_per_airtime(next_state(s, inputs[0]), rest);
    }
}

impl Bucky {
    /// Every `Bucky` is in a valid state.
    #[verifier::type_invariant]
    closed spec fn inv(&self) -> bool {
        valid_state(self@)
    }
}

impl View for Bucky {
    type V = BuckyView;

    closed spec fn view(&self) -> BuckyView {
        BuckyView {
            jumps_remaining: self.jumps_remaining as int,
            is_wall_sliding: self.is_wall_sliding,
            has_wall_jumped: self.has_wall_jumped,
        }
    }
}

/// The states Bucky can be in: the jump budget lies between none and
/// [`MAX_JUMPS`], and a wall slide never follows a wall hop in the same
/// airtime.
pub open spec fn valid_state(s: BuckyView) -> bool {
    &&& 0 <= s.jumps_remaining <= MAX_JUMPS
    &&& !(s.is_wall_sliding && s.has_wall_jumped)
}

/// The state in which Bucky starts and to which every landing returns.
pub open spec fn rested() -> BuckyView {
    BuckyView { jumps_remaining: MAX_JUMPS as int, is_wall_sliding: false, has_wall_jumped: false }
}

/// The state after the floor check at the start of a frame.
pub open spec fn after_floor_check(s: BuckyView, i: MovementInput) -> BuckyView {
    if i.on_floor {
        rested()
    } else {
        s
    }
}

/// Whether the wall probe is run this frame: airborne, falling, and no wall
/// hop since the last landing.
pub open spec fn probe_wanted(s: BuckyView, i: MovementInput) -> bool {
    !i.on_floor && i.falling && !s.has_wall_jumped
}

/// Whether Bucky slides down a wall this frame.
pub open spec fn slides(s: BuckyView, i: MovementInput) -> bool {
    probe_wanted(s, i) && i.wall_contact
}

/// The state after the floor check and the wall probe.
pub open spec fn after_probe(s: BuckyView, i: MovementInput) -> BuckyView {
    let l = after_floor_check(s, i);
    BuckyView { is_wall_sliding: slides(s, i), ..l }
}

/// The jump impulse of a frame.
pub open spec fn impulse_for(s: BuckyView, i: MovementInput) -> Option<JumpKind> {
    let p = after_probe(s, i);
    if !i.jump_pressed {
        None
    } else if p.is_wall_sliding {
        Some(JumpKind::WallHop)
    } else if i.on_floor {
        Some(JumpKind::Ground)
    } else if p.jumps_remaining > 0 {
        Some(JumpKind::Double)
    } else {
        None
    }
}

/// The jump state at the end of a frame.
pub open spec fn next_state(s: BuckyView, i: MovementInput) -> BuckyView {
    let p = after_probe(s, i);
    match impulse_for(s, i) {
        Some(JumpKind::WallHop) => BuckyView { is_wall_sliding: false, has_wall_jumped: true, ..p },
        Some(JumpKind::Ground) => BuckyView { jumps_remaining: p.jumps_remaining - 1, ..p },
        Some(JumpKind::Double) => BuckyView { jumps_remaining: p.jumps_remaining - 1, ..p },
        None => p,
    }
}

/// The plan of a frame.
pub open spec fn plan_for(s: BuckyView, i: MovementInput) -> MovementPlan {
    let sliding = slides(s, i);
    MovementPlan {
        pose: if i.on_floor {
            if i.moving {
                Some(BuckyClip::Walk)
            } else {
                Some(BuckyClip::ResetSoft)
            }
        } else if sliding {
            Some(BuckyClip::HangLedge)
        } else if i.rising {
            None
        } else {
            Some(BuckyClip::Drop)
        },
        gravity: if i.on_floor {
            None
        } else if sliding {
            Some(GravityKind::WallSlide)
        } else if i.rising {
            Some(GravityKind::Rising)
        } else {
            Some(GravityKind::Falling)
        },
        cap_slide_speed: sliding,
        jump_effects: i.jump_pressed,
        impulse: impulse_for(s, i),
    }
}

impl Bucky {
    /// A freshly spawned Bucky has both jumps and is not touching a wall.
    pub fn new() -> (b: Bucky)
        ensures
            b@ == rested(),
            b@.jumps_remaining == 2,
            !b@.is_wall_sliding,
            !b@.has_wall_jumped,
            valid_state(b@),
    {
        Bucky { jumps_remaining: MAX_JUMPS, is_wall_sliding: false, has_wall_jumped: false }
    }

    /// Jumps left before the next landing.
    pub fn jumps_remaining(&self) -> (n: i32)
        ensures
            n == self@.jumps_remaining,
    {
        self.jumps_remaining
    }

    /// Whether Bucky slid down a wall in the last frame.
    pub fn is_wall_sliding(&self) -> (b: bool)
        ensures
            b == self@.is_wall_sliding,
    {
        self.is_wall_sliding
    }

    /// Whether Bucky hopped off a wall since the last landing.
    pub fn has_wall_jumped(&self) -> (b: bool)
        ensures
            b == self@.has_wall_jumped,
    {
        self.has_wall_jumped
    }

    /// Whether the wall probe should be run this frame, given whether the
    /// body is on the floor and whether it is falling.
    pub fn wants_wall_probe(&self, on_floor: bool, falling: bool) -> (wanted: bool)
        ensures
            wanted == (!on_floor && falling && !self@.has_wall_jumped),
    {
        !on_floor && falling && !self.has_wall_jumped
    }

    /// One movement frame: updates the jump state from the observations in
    /// `input` and returns what to do with the body.
    pub fn handle_movement(&mut self, input: MovementInput) -> (plan: MovementPlan)
        ensures
            final(self)@ == next_state(old(self)@, input),
            plan == plan_for(old(self)@, input),
            valid_state(final(self)@),
    {
        proof {
            use_type_invariant(&*self);
        }
        let on_floor = input.on_floor;
        if on_floor {
            self.jumps_remaining = MAX_JUMPS;
            self.is_wall_sliding = false;
            self.has_wall_jumped = false;
        }
        self.is_wall_sliding = false;
        if !on_floor && input.falling && !self.has_wall_jumped {
            if input.wall_contact {
                self.is_wall_sliding = true;
            }
        }
        let mut pose: Option<BuckyClip> = None;
        let mut gravity: Option<GravityKind> = None;
        let mut cap_slide_speed = false;
        if !on_floor {
            if self.is_wall_sliding {
                pose = Some(BuckyClip::HangLedge);
                gravity = Some(GravityKind::WallSlide);
            } else if input.rising {
                gravity = Some(GravityKind::Rising);
            } else {
                pose = Some(BuckyClip::Drop);
                gravity = Some(GravityKind::Falling);
            }
            cap_slide_speed = self.is_wall_sliding;
        } else {
            if input.moving {
                pose = Some(BuckyClip::Walk);
            } else {
                pose = Some(BuckyClip::ResetSoft);
            }
        }
        let mut impulse: Option<JumpKind> = None;
        if input.jump_pressed {
            if self.is_wall_sliding {
                impulse = Some(JumpKind::WallHop);
                self.is_wall_sliding = false;
                self.has_wall_jumped = true;
            } else if on_floor {
                impulse = Some(JumpKind::Ground);
                self.jumps_remaining = self.jumps_remaining - 1;
            } else if self.jumps_remaining > 0 {
                impulse = Some(JumpKind::Double);
                self.jumps_remaining = self.jumps_remaining - 1;
            }
        }
        MovementPlan {
            pose,
            gravity,
            cap_slide_speed,
            jump_effects: input.jump_pressed,
            impulse,
        }
    }
}

} // verus!
