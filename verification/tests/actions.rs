use foxtrot::actions::{grab_cursor, ActionsFrozen, CursorGrabMode, CursorState, ForceCursorGrabMode};

#[test]
fn default_is_not_frozen() {
    assert!(!ActionsFrozen::default().is_frozen());
}

#[test]
fn freezes_nest() {
    let mut frozen = ActionsFrozen::default();
    frozen.freeze();
    assert!(frozen.is_frozen());
    frozen.freeze();
    frozen.unfreeze();
    assert!(frozen.is_frozen());
    frozen.unfreeze();
    assert!(!frozen.is_frozen());
}

fn cursor() -> CursorState {
    CursorState { grab_mode: CursorGrabMode::Confined, visible: false }
}

#[test]
fn live_input_locks_cursor() {
    let mut c = cursor();
    grab_cursor(&mut c, &ActionsFrozen::default(), &ForceCursorGrabMode(None));
    assert_eq!(c, CursorState { grab_mode: CursorGrabMode::Locked, visible: false });
}

#[test]
fn frozen_input_frees_cursor() {
    let mut frozen = ActionsFrozen::default();
    frozen.freeze();
    let mut c = cursor();
    grab_cursor(&mut c, &frozen, &ForceCursorGrabMode(None));
    assert_eq!(c, CursorState { grab_mode: CursorGrabMode::NoGrab, visible: true });
}

#[test]
fn forced_mode_wins() {
    let mut frozen = ActionsFrozen::default();
    frozen.freeze();
    let mut c = cursor();
    grab_cursor(&mut c, &frozen, &ForceCursorGrabMode(Some(CursorGrabMode::Locked)));
    assert_eq!(c, CursorState { grab_mode: CursorGrabMode::Locked, visible: false });
    grab_cursor(&mut c, &ActionsFrozen::default(), &ForceCursorGrabMode(Some(CursorGrabMode::Confined)));
    assert_eq!(c, CursorState { grab_mode: CursorGrabMode::Confined, visible: true });
    grab_cursor(&mut c, &ActionsFrozen::default(), &ForceCursorGrabMode(Some(CursorGrabMode::NoGrab)));
    assert_eq!(c, CursorState { grab_mode: CursorGrabMode::NoGrab, visible: true });
}

use foxtrot::actions::{
    create_camera_action_input_manager_bundle, create_player_action_input_manager_bundle,
    create_ui_action_input_manager_bundle, CameraAction, MouseAxis, PlayerAction, PlayerInput,
    UiAction,
};
use foxtrot::game_control::Key;

#[test]
fn player_bindings() {
    let b = create_player_action_input_manager_bundle();
    assert_eq!(b.len(), 15);
    assert_eq!(b[0], (PlayerInput::Key(Key::Space), PlayerAction::Jump));
    assert_eq!(b[3], (PlayerInput::Key(Key::Space), PlayerAction::SpeedUpDialog));
    assert_eq!(b[4], (PlayerInput::Key(Key::Digit1), PlayerAction::NumberedChoice(1)));
    assert_eq!(b[13], (PlayerInput::Key(Key::Digit0), PlayerAction::NumberedChoice(0)));
    assert_eq!(b[14], (PlayerInput::WasdPad, PlayerAction::Move));
    assert_eq!(PlayerAction::default(), PlayerAction::Move);
}

#[test]
fn camera_and_ui_bindings() {
    assert_eq!(
        create_camera_action_input_manager_bundle(),
        vec![(MouseAxis::Motion, CameraAction::Pan), (MouseAxis::WheelY, CameraAction::Zoom)]
    );
    assert_eq!(create_ui_action_input_manager_bundle(), vec![(Key::Escape, UiAction::TogglePause)]);
    assert_eq!(CameraAction::default(), CameraAction::Pan);
}

use foxtrot::actions::remove_actions_when_frozen;

#[test]
fn can_freeze_and_clear_when_frozen() {
    let mut frozen = ActionsFrozen::default();
    assert!(frozen.can_freeze());
    let (p, c) = remove_actions_when_frozen(&frozen);
    assert!(p.is_empty() && c.is_empty());
    frozen.freeze();
    let (p, c) = remove_actions_when_frozen(&frozen);
    assert_eq!(p, vec![PlayerAction::Move, PlayerAction::Jump, PlayerAction::Interact, PlayerAction::Sprint]);
    assert_eq!(c, vec![CameraAction::Pan, CameraAction::Zoom]);
}

#[test]
fn frozen_until_every_freeze_is_matched() {
    let calls = [true, true, false, true, false, false, true, false];
    let mut frozen = ActionsFrozen::default();
    let (mut n, mut m) = (0, 0);
    for call in calls {
        if call {
            frozen.freeze();
            n += 1;
        } else {
            frozen.unfreeze();
            m += 1;
        }
        assert_eq!(frozen.is_frozen(), n > m);
    }
    assert!(!frozen.is_frozen());
}
