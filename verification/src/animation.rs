//! Which animation a character plays, from whether it is in the air and how fast it moves.
//! Speeds are compared with their thresholds by the caller; the decisions are made here.
use vstd::prelude::*;

verus! {

/// The motion of a character controller, by kind (its speed is kept by the caller).
#[derive(Debug, Clone, Copy, PartialEq, Eq, Structural)]
pub enum MotionState {
    Standing,
    Airborne,
    Walking,
    Running,
}

/// The clips an animated character has.
#[derive(Debug, Clone, Copy, PartialEq, Eq, Structural)]
pub enum AnimationClip {
    Idle,
    Walk,
    Aerial,
}

/// The motion of the character controller: in the air it is airborne; on the ground it runs
/// above the running speed, walks above the walking speed, and stands otherwise.
pub open spec fn motion_of(airborne: bool, above_running_speed: bool, above_walking_speed: bool) -> MotionState {
    if airborne {
        MotionState::Airborne
    } else if above_running_speed {
        MotionState::Running
    } else if above_walking_speed {
        MotionState::Walking
    } else {
        MotionState::Standing
    }
}

/// The clip the character controller switches to when its motion changes: the aerial clip in
/// the air and when running, the idle clip when standing, the walk clip when walking.
pub open spec fn clip_of(state: MotionState) -> AnimationClip {
    match state {
        MotionState::Airborne | MotionState::Running => AnimationClip::Aerial,
        MotionState::Standing => AnimationClip::Idle,
        MotionState::Walking => AnimationClip::Walk,
    }
}

/// The motion of the character controller.
pub fn character_motion_state(airborne: bool, above_running_speed: bool, above_walking_speed: bool) -> (r:
    MotionState)
    ensures
        r == motion_of(airborne, above_running_speed, above_walking_speed),
{
    if airborne {
        MotionState::Airborne
    } else if above_running_speed {
        MotionState::Running
    } else if above_walking_speed {
        MotionState::Walking
    } else {
        MotionState::Standing
    }
}

/// The clip the character controller switches to when its motion changes.
pub fn character_clip(state: MotionState) -> (r: AnimationClip)
    ensures
        r == clip_of(state),
{
    match state {
        MotionState::Airborne | MotionState::Running => AnimationClip::Aerial,
        MotionState::Standing => AnimationClip::Idle,
        MotionState::Walking => AnimationClip::Walk,
    }
}

/// How long, in milliseconds, the character controller blends into the clip of a new motion:
/// 200 into the aerial and idle clips, 100 into the walk clip.
pub fn character_clip_transition_ms(state: MotionState) -> (r: u32)
    ensures
        r == (if clip_of(state) == AnimationClip::Walk {
            100u32
        } else {
            200u32
        }),
{
    match character_clip(state) {
        AnimationClip::Walk => 100,
        _ => 200,
    }
}

/// The motion of a generally moving character, which knows no walking: in the air it is
/// airborne; on the ground it runs when it moves at all, and stands otherwise.
pub fn general_motion_state(airborne: bool, moving: bool) -> (r: MotionState)
    ensures
        r == (if airborne {
            MotionState::Airborne
        } else if moving {
            MotionState::Running
        } else {
            MotionState::Standing
        }),
        r != MotionState::Walking,
{
    if airborne {
        MotionState::Airborne
    } else if moving {
        MotionState::Running
    } else {
        MotionState::Standing
    }
}

/// The clip a generally moving character switches to: aerial in the air, idle when standing,
/// and the walk clip when running.
pub fn general_clip(state: MotionState) -> (r: AnimationClip)
    requires
        state != MotionState::Walking,
    ensures
        r == (match state {
            MotionState::Airborne => AnimationClip::Aerial,
            MotionState::Standing => AnimationClip::Idle,
            _ => AnimationClip::Walk,
        }),
{
    match state {
        MotionState::Airborne => AnimationClip::Aerial,
        MotionState::Standing => AnimationClip::Idle,
        _ => AnimationClip::Walk,
    }
}

/// The clips of the player's model.
#[derive(Debug, Clone, Copy, PartialEq, Eq, Structural)]
pub enum PlayerClip {
    Idle,
    Walking,
    Running,
}

/// The clip the player's model plays in a frame: the running clip while in the air, the walking
/// clip while moving on the ground, and the idle clip otherwise.
pub fn player_clip(is_in_air: bool, has_horizontal_movement: bool) -> (r: PlayerClip)
    ensures
        r == (if is_in_air {
            PlayerClip::Running
        } else if has_horizontal_movement {
            PlayerClip::Walking
        } else {
            PlayerClip::Idle
        }),
{
    if is_in_air {
        PlayerClip::Running
    } else if has_horizontal_movement {
        PlayerClip::Walking
    } else {
        PlayerClip::Idle
    }
}

/// Being in the air decides the motion whatever the speed; on the ground, running beats
/// walking, and a character at neither speed stands. Each motion has its own clip: aerial in
/// the air and when running, idle when standing, walk when walking.
pub proof fn lemma_motion_rules(above_running_speed: bool, above_walking_speed: bool)
    ensures
        motion_of(true, above_running_speed, above_walking_speed) == MotionState::Airborne,
        motion_of(false, true, above_walking_speed) == MotionState::Running,
        motion_of(false, false, true) == MotionState::Walking,
        motion_of(false, false, false) == MotionState::Standing,
        clip_of(MotionState::Airborne) == AnimationClip::Aerial,
        clip_of(MotionState::Running) == AnimationClip::Aerial,
        clip_of(MotionState::Standing) == AnimationClip::Idle,
        clip_of(MotionState::Walking) == AnimationClip::Walk,
{
}

/// A character in the air plays the aerial clip whatever its speed, and one that stands plays
/// the idle clip only when it moves at neither speed.
pub proof fn lemma_airborne_plays_aerial(above_running_speed: bool, above_walking_speed: bool)
    ensures
        clip_of(motion_of(true, above_running_speed, above_walking_speed)) == AnimationClip::Aerial,
        clip_of(motion_of(false, above_running_speed, above_walking_speed)) == AnimationClip::Idle
            <==> !above_running_speed && !above_walking_speed,
{
}

} // verus!
