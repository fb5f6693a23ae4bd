use foxtrot::animation::{
    character_clip, character_motion_state, general_clip, general_motion_state, player_clip,
    AnimationClip, MotionState, PlayerClip,
};
use foxtrot::movement::{control_walking_sound, play_sprinting_effect};

#[test]
fn character_motion() {
    assert_eq!(character_motion_state(true, true, true), MotionState::Airborne);
    assert_eq!(character_motion_state(false, true, true), MotionState::Running);
    assert_eq!(character_motion_state(false, false, true), MotionState::Walking);
    assert_eq!(character_motion_state(false, false, false), MotionState::Standing);
}

#[test]
fn character_clips() {
    assert_eq!(character_clip(MotionState::Airborne), AnimationClip::Aerial);
    assert_eq!(character_clip(MotionState::Running), AnimationClip::Aerial);
    assert_eq!(character_clip(MotionState::Walking), AnimationClip::Walk);
    assert_eq!(character_clip(MotionState::Standing), AnimationClip::Idle);
}

#[test]
fn airborne_always_aerial() {
    for run in [false, true] {
        for walk in [false, true] {
            assert_eq!(character_clip(character_motion_state(true, run, walk)), AnimationClip::Aerial);
        }
    }
}

#[test]
fn general_motion_and_clips() {
    assert_eq!(general_motion_state(true, true), MotionState::Airborne);
    assert_eq!(general_motion_state(false, true), MotionState::Running);
    assert_eq!(general_motion_state(false, false), MotionState::Standing);
    assert_eq!(general_clip(MotionState::Running), AnimationClip::Walk);
    assert_eq!(general_clip(MotionState::Airborne), AnimationClip::Aerial);
    assert_eq!(general_clip(MotionState::Standing), AnimationClip::Idle);
}

#[test]
fn player_clips() {
    assert_eq!(player_clip(true, false), PlayerClip::Running);
    assert_eq!(player_clip(false, true), PlayerClip::Walking);
    assert_eq!(player_clip(false, false), PlayerClip::Idle);
}

#[test]
fn walking_sound() {
    assert!(control_walking_sound(true, false, false));
    assert!(!control_walking_sound(true, true, false));
    assert!(!control_walking_sound(true, false, true));
    assert!(!control_walking_sound(false, false, false));
}

#[test]
fn sprint_effect() {
    assert!(play_sprinting_effect(Some(false), true));
    assert!(play_sprinting_effect(None, true));
    assert!(!play_sprinting_effect(Some(true), true));
    assert!(!play_sprinting_effect(Some(false), false));
}

use foxtrot::animation::character_clip_transition_ms;
use foxtrot::movement::{apply_jumping, handle_jump};

#[test]
fn clip_transition_times() {
    assert_eq!(character_clip_transition_ms(MotionState::Airborne), 200);
    assert_eq!(character_clip_transition_ms(MotionState::Running), 200);
    assert_eq!(character_clip_transition_ms(MotionState::Standing), 200);
    assert_eq!(character_clip_transition_ms(MotionState::Walking), 100);
}

#[test]
fn jump_request_latches_until_consumed() {
    let mut requested = false;
    handle_jump(&mut requested, false);
    assert!(!requested);
    handle_jump(&mut requested, true);
    handle_jump(&mut requested, false);
    assert!(requested);
    assert!(apply_jumping(&mut requested));
    assert!(!requested);
    assert!(!apply_jumping(&mut requested));
}
