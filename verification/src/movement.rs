//! Jump requests, and the effects that follow a character's movement: the walking sound and
//! the sprint particles.
use vstd::prelude::*;

verus! {

/// Latches a jump request: once requested in a frame it stays requested until the controller
/// consumes it.
pub fn handle_jump(requested: &mut bool, jump_pressed: bool)
    ensures
        *final(requested) == (*old(requested) || jump_pressed),
{
    *requested = *requested || jump_pressed;
}

/// Consumes a jump request: returns whether a jump is started, and clears the request.
pub fn apply_jumping(requested: &mut bool) -> (jump: bool)
    ensures
        jump == *old(requested),
        !*final(requested),
{
    let jump = *requested;
    *requested = false;
    jump
}

/// Whether the walking sound plays: only while the character moves horizontally on the ground
/// and the game is not paused.
pub fn control_walking_sound(has_horizontal_movement: bool, airborne: bool, paused: bool) -> (r:
    bool)
    ensures
        r == (has_horizontal_movement && !airborne && !paused),
{
    let is_moving_on_ground = has_horizontal_movement && !airborne;
    is_moving_on_ground && !paused
}

/// Whether the sprint particles are emitted: while the character is not in the air and its
/// horizontal speed is above the configured threshold. A controller whose air state cannot be
/// read counts as on the ground.
pub fn play_sprinting_effect(airborne: Option<bool>, above_sprint_threshold: bool) -> (r: bool)
    ensures
        r == (!(airborne == Some(true)) && above_sprint_threshold),
{
    let in_air = match airborne {
        Some(a) => a,
        None => false,
    };
    !in_air && above_sprint_threshold
}

} // verus!
