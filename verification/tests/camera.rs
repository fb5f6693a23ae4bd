use foxtrot::camera::{
    get_arm_distance, get_zoom_smoothness, handle_camera_kind, look_at_target, position_target,
    set_camera_focus, update_kind, ArmDistance, DistanceLimits, IngameCameraKind, PlayerView,
    ZoomDirection, ZoomSmoothing,
};

const NONE: DistanceLimits = DistanceLimits {
    at_third_person_min: false,
    at_third_person_max: false,
    at_fixed_angle_min: false,
};
const ALL: DistanceLimits = DistanceLimits {
    at_third_person_min: true,
    at_third_person_max: true,
    at_fixed_angle_min: true,
};

fn after(kind: IngameCameraKind, zoom: ZoomDirection, limits: DistanceLimits) -> IngameCameraKind {
    let mut k = kind;
    update_kind(&mut k, zoom, limits);
    k
}

#[test]
fn default_kind_is_third_person() {
    assert_eq!(IngameCameraKind::default(), IngameCameraKind::ThirdPerson);
}

#[test]
fn first_person_leaves_on_zoom_out() {
    assert_eq!(after(IngameCameraKind::FirstPerson, ZoomDirection::Out, NONE), IngameCameraKind::ThirdPerson);
    assert_eq!(after(IngameCameraKind::FirstPerson, ZoomDirection::In, ALL), IngameCameraKind::FirstPerson);
}

#[test]
fn third_person_switches_at_its_limits() {
    let at_min = DistanceLimits { at_third_person_min: true, ..NONE };
    let at_max = DistanceLimits { at_third_person_max: true, ..NONE };
    assert_eq!(after(IngameCameraKind::ThirdPerson, ZoomDirection::In, at_min), IngameCameraKind::FirstPerson);
    assert_eq!(after(IngameCameraKind::ThirdPerson, ZoomDirection::In, NONE), IngameCameraKind::ThirdPerson);
    assert_eq!(after(IngameCameraKind::ThirdPerson, ZoomDirection::Out, at_max), IngameCameraKind::FixedAngle);
    assert_eq!(after(IngameCameraKind::ThirdPerson, ZoomDirection::Out, at_min), IngameCameraKind::ThirdPerson);
}

#[test]
fn fixed_angle_returns_at_its_minimum() {
    let at_min = DistanceLimits { at_fixed_angle_min: true, ..NONE };
    assert_eq!(after(IngameCameraKind::FixedAngle, ZoomDirection::In, at_min), IngameCameraKind::ThirdPerson);
    assert_eq!(after(IngameCameraKind::FixedAngle, ZoomDirection::Out, ALL), IngameCameraKind::FixedAngle);
}

#[test]
fn no_zoom_keeps_kind() {
    for kind in [IngameCameraKind::FirstPerson, IngameCameraKind::ThirdPerson, IngameCameraKind::FixedAngle] {
        assert_eq!(after(kind, ZoomDirection::Still, ALL), kind);
    }
}

#[test]
fn zoom_round_trip_from_first_person() {
    let at_min = DistanceLimits { at_third_person_min: true, ..NONE };
    let k = after(IngameCameraKind::FirstPerson, ZoomDirection::Out, at_min);
    assert_eq!(after(k, ZoomDirection::In, at_min), IngameCameraKind::FirstPerson);
}

#[test]
fn look_at_prefers_secondary_target() {
    assert_eq!(look_at_target(IngameCameraKind::FirstPerson, 1, Some(2)), Some(2));
    assert_eq!(look_at_target(IngameCameraKind::ThirdPerson, 1, None), Some(1));
    assert_eq!(look_at_target(IngameCameraKind::FixedAngle, 1, None), Some(1));
    assert_eq!(look_at_target(IngameCameraKind::FirstPerson, 1, None), None);
}

#[test]
fn position_ignores_secondary_in_first_person() {
    assert_eq!(position_target(IngameCameraKind::FirstPerson, 1, Some(2)), 1);
    assert_eq!(position_target(IngameCameraKind::ThirdPerson, 1, Some(2)), 2);
    assert_eq!(position_target(IngameCameraKind::FixedAngle, 1, None), 1);
}

#[test]
fn arm_distance_by_kind() {
    assert_eq!(get_arm_distance(IngameCameraKind::ThirdPerson), Some(ArmDistance::CollisionLimited));
    assert_eq!(get_arm_distance(IngameCameraKind::FixedAngle), Some(ArmDistance::Desired));
    assert_eq!(get_arm_distance(IngameCameraKind::FirstPerson), None);
}

#[test]
fn zoom_smoothness_by_kind_and_direction() {
    assert_eq!(get_zoom_smoothness(IngameCameraKind::ThirdPerson, true), ZoomSmoothing::ThirdPersonZoomIn);
    assert_eq!(get_zoom_smoothness(IngameCameraKind::ThirdPerson, false), ZoomSmoothing::ThirdPersonZoomOut);
    assert_eq!(get_zoom_smoothness(IngameCameraKind::FixedAngle, true), ZoomSmoothing::FixedAngleZoomIn);
    assert_eq!(get_zoom_smoothness(IngameCameraKind::FixedAngle, false), ZoomSmoothing::FixedAngleZoomOut);
}

#[test]
fn player_hidden_only_in_first_person() {
    assert_eq!(handle_camera_kind(IngameCameraKind::FirstPerson), PlayerView::HiddenFacingCamera);
    assert_eq!(handle_camera_kind(IngameCameraKind::ThirdPerson), PlayerView::Inherited);
    assert_eq!(handle_camera_kind(IngameCameraKind::FixedAngle), PlayerView::Inherited);
}

#[test]
fn camera_focus() {
    let mut secondary = Some(1);
    set_camera_focus(&mut secondary, None, false);
    assert_eq!(secondary, Some(1));
    set_camera_focus(&mut secondary, Some(7), false);
    assert_eq!(secondary, Some(7));
    set_camera_focus(&mut secondary, Some(9), true);
    assert_eq!(secondary, None);
}

use foxtrot::camera::{
    forward_speed_percent, movement_forward, set_smoothness, update_rig, ForwardSource,
    LookAtSmoothing, RigError, RigRotation, SmoothingProfile,
};

#[test]
fn movement_direction_by_kind() {
    assert_eq!(movement_forward(IngameCameraKind::FixedAngle), ForwardSource::CameraUp);
    assert_eq!(movement_forward(IngameCameraKind::ThirdPerson), ForwardSource::CameraForward);
    assert_eq!(movement_forward(IngameCameraKind::FirstPerson), ForwardSource::CameraForward);
    assert_eq!(forward_speed_percent(IngameCameraKind::FirstPerson, true), 70);
    assert_eq!(forward_speed_percent(IngameCameraKind::FirstPerson, false), 100);
    assert_eq!(forward_speed_percent(IngameCameraKind::ThirdPerson, true), 100);
}

#[test]
fn smoothing_by_kind() {
    assert_eq!(set_smoothness(IngameCameraKind::ThirdPerson), (SmoothingProfile::ThirdPerson, LookAtSmoothing::Required));
    assert_eq!(set_smoothness(IngameCameraKind::FirstPerson), (SmoothingProfile::FirstPerson, LookAtSmoothing::IfPresent));
    assert_eq!(set_smoothness(IngameCameraKind::FixedAngle), (SmoothingProfile::FixedAngle, LookAtSmoothing::Untouched));
}

#[test]
fn rig_rotation() {
    assert_eq!(update_rig(IngameCameraKind::FixedAngle, false, false), Ok(RigRotation::FixedAngle));
    assert_eq!(update_rig(IngameCameraKind::ThirdPerson, false, true), Err(RigError::CameraMovementNotAnAxisPair));
    assert_eq!(update_rig(IngameCameraKind::FirstPerson, true, true), Ok(RigRotation::Keep));
    assert_eq!(update_rig(IngameCameraKind::ThirdPerson, true, false), Ok(RigRotation::Pan));
}
