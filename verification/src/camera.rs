//! The in-game camera: which kind of camera is active and what it follows and looks at.
use vstd::prelude::*;

verus! {

/// The kind of the in-game camera. Zooming in far enough from third person switches to first
/// person; zooming out far enough switches to a fixed angle from above.
#[derive(Debug, Clone, Copy, PartialEq, Eq, Structural)]
pub enum IngameCameraKind {
    ThirdPerson,
    FirstPerson,
    FixedAngle,
}

impl Default for IngameCameraKind {
    fn default() -> (r: IngameCameraKind)
        ensures
            r == IngameCameraKind::ThirdPerson,
    {
        IngameCameraKind::ThirdPerson
    }
}

/// The direction of the zoom input of one frame, after its dead zone.
#[derive(Debug, Clone, Copy, PartialEq, Eq, Structural)]
pub enum ZoomDirection {
    In,
    Out,
    Still,
}

/// Where the camera's desired distance stands against the limits of the kinds that it can
/// leave by zooming.
#[derive(Debug, Clone, Copy, PartialEq, Eq, Structural)]
pub struct DistanceLimits {
    /// At (or below) the third-person minimum distance.
    pub at_third_person_min: bool,
    /// At (or above) the third-person maximum distance.
    pub at_third_person_max: bool,
    /// At (or below) the fixed-angle minimum distance.
    pub at_fixed_angle_min: bool,
}

/// The kind that the camera switches to, or `None` when it keeps its kind.
pub open spec fn next_kind(
    kind: IngameCameraKind,
    zoom: ZoomDirection,
    limits: DistanceLimits,
) -> Option<IngameCameraKind> {
    match kind {
        IngameCameraKind::FirstPerson => if zoom == ZoomDirection::Out {
            Some(IngameCameraKind::ThirdPerson)
        } else {
            None
        },
        IngameCameraKind::ThirdPerson => if limits.at_third_person_min && zoom
            == ZoomDirection::In {
            Some(IngameCameraKind::FirstPerson)
        } else if limits.at_third_person_max && zoom == ZoomDirection::Out {
            Some(IngameCameraKind::FixedAngle)
        } else {
            None
        },
        IngameCameraKind::FixedAngle => if limits.at_fixed_angle_min && zoom == ZoomDirection::In {
            Some(IngameCameraKind::ThirdPerson)
        } else {
            None
        },
    }
}

/// The kind after this frame's zoom.
pub open spec fn kind_after(
    kind: IngameCameraKind,
    zoom: ZoomDirection,
    limits: DistanceLimits,
) -> IngameCameraKind {
    match next_kind(kind, zoom, limits) {
        Some(k) => k,
        None => kind,
    }
}

/// Switches the camera's kind according to this frame's zoom.
pub fn update_kind(kind: &mut IngameCameraKind, zoom: ZoomDirection, limits: DistanceLimits)
    ensures
        *final(kind) == kind_after(*old(kind), zoom, limits),
{
    let zoomed_out = zoom == ZoomDirection::Out;
    let zoomed_in = zoom == ZoomDirection::In;
    let new_kind = match *kind {
        IngameCameraKind::FirstPerson if zoomed_out => Some(IngameCameraKind::ThirdPerson),
        IngameCameraKind::ThirdPerson if limits.at_third_person_min && zoomed_in => {
            Some(IngameCameraKind::FirstPerson)
        },
        IngameCameraKind::ThirdPerson if limits.at_third_person_max && zoomed_out => {
            Some(IngameCameraKind::FixedAngle)
        },
        IngameCameraKind::FixedAngle if limits.at_fixed_angle_min && zoomed_in => {
            Some(IngameCameraKind::ThirdPerson)
        },
        _ => None,
    };
    if let Some(new_kind) = new_kind {
        *kind = new_kind;
    }
}

/// How far the camera of a kind is from the player: first person is nearest, the fixed angle
/// farthest.
pub open spec fn distance_rank(kind: IngameCameraKind) -> int {
    match kind {
        IngameCameraKind::FirstPerson => 0,
        IngameCameraKind::ThirdPerson => 1,
        IngameCameraKind::FixedAngle => 2,
    }
}

/// Zooming in never moves the camera to a farther kind, zooming out never to a nearer one, no
/// zoom keeps the kind, and one frame moves at most one kind away.
pub proof fn lemma_zoom_is_monotone(
    kind: IngameCameraKind,
    zoom: ZoomDirection,
    limits: DistanceLimits,
)
    ensures
        zoom == ZoomDirection::In ==> distance_rank(kind_after(kind, zoom, limits))
            <= distance_rank(kind),
        zoom == ZoomDirection::Out ==> distance_rank(kind_after(kind, zoom, limits))
            >= distance_rank(kind),
        zoom == ZoomDirection::Still ==> kind_after(kind, zoom, limits) == kind,
        -1 <= distance_rank(kind_after(kind, zoom, limits)) - distance_rank(kind) <= 1,
{
}

/// The switching rules in full. Zooming out of first person always reaches third person,
/// whatever the distance (a first-person camera has no distance of its own). Third person
/// switches to first person when zoomed in at its minimum distance and to the fixed angle when
/// zoomed out at its maximum, and the fixed angle returns to third person when zoomed in at its
/// minimum. In every other case the kind stays.
pub proof fn lemma_kind_switching_rules(zoom: ZoomDirection, limits: DistanceLimits)
    ensures
        kind_after(IngameCameraKind::FirstPerson, ZoomDirection::Out, limits)
            == IngameCameraKind::ThirdPerson,
        zoom != ZoomDirection::Out ==> kind_after(IngameCameraKind::FirstPerson, zoom, limits)
            == IngameCameraKind::FirstPerson,
        kind_after(IngameCameraKind::ThirdPerson, zoom, limits) == (if zoom == ZoomDirection::In
            && limits.at_third_person_min {
            IngameCameraKind::FirstPerson
        } else if zoom == ZoomDirection::Out && limits.at_third_person_max {
            IngameCameraKind::FixedAngle
        } else {
            IngameCameraKind::ThirdPerson
        }),
        kind_after(IngameCameraKind::FixedAngle, zoom, limits) == (if zoom == ZoomDirection::In
            && limits.at_fixed_angle_min {
            IngameCameraKind::ThirdPerson
        } else {
            IngameCameraKind::FixedAngle
        }),
{
}

/// Zooming out from first person always reaches third person, and zooming back in at the
/// third-person minimum returns to first person.
pub proof fn lemma_first_person_round_trip(limits: DistanceLimits)
    requires
        limits.at_third_person_min,
    ensures
        kind_after(
            kind_after(IngameCameraKind::FirstPerson, ZoomDirection::Out, limits),
            ZoomDirection::In,
            limits,
        ) == IngameCameraKind::FirstPerson,
{
}

/// The point the camera looks at, or `None` when it keeps the one it has: a secondary target
/// (a dialog partner) wins; otherwise every kind but first person looks at the primary target.
pub fn look_at_target<T: Copy>(kind: IngameCameraKind, target: T, secondary_target: Option<T>) -> (r:
    Option<T>)
    ensures
        secondary_target is Some ==> r == secondary_target,
        secondary_target is None && kind != IngameCameraKind::FirstPerson ==> r == Some(target),
        secondary_target is None && kind == IngameCameraKind::FirstPerson ==> r is None,
{
    if let Some(secondary_target) = secondary_target {
        Some(secondary_target)
    } else if kind != IngameCameraKind::FirstPerson {
        Some(target)
    } else {
        None
    }
}

/// The point the camera rig is placed at: the secondary target when there is one and the
/// camera is not first person, else the primary target.
pub fn position_target<T: Copy>(kind: IngameCameraKind, target: T, secondary_target: Option<T>) -> (r:
    T)
    ensures
        r == (if kind != IngameCameraKind::FirstPerson && secondary_target is Some {
            secondary_target->0
        } else {
            target
        }),
{
    match secondary_target {
        Some(secondary) if kind != IngameCameraKind::FirstPerson => secondary,
        _ => target,
    }
}

/// What fixes the length of the camera arm.
#[derive(Debug, Clone, Copy, PartialEq, Eq, Structural)]
pub enum ArmDistance {
    /// The desired distance, shortened so that the camera stays clear of obstacles.
    CollisionLimited,
    /// The desired distance as is.
    Desired,
}

/// What fixes the arm length of a kind of camera; a first-person camera has no arm.
pub fn get_arm_distance(kind: IngameCameraKind) -> (r: Option<ArmDistance>)
    ensures
        kind == IngameCameraKind::ThirdPerson ==> r == Some(ArmDistance::CollisionLimited),
        kind == IngameCameraKind::FixedAngle ==> r == Some(ArmDistance::Desired),
        kind == IngameCameraKind::FirstPerson ==> r is None,
{
    match kind {
        IngameCameraKind::ThirdPerson => Some(ArmDistance::CollisionLimited),
        IngameCameraKind::FixedAngle => Some(ArmDistance::Desired),
        _ => None,
    }
}

/// Which configured smoothing a change of arm length uses.
#[derive(Debug, Clone, Copy, PartialEq, Eq, Structural)]
pub enum ZoomSmoothing {
    ThirdPersonZoomIn,
    ThirdPersonZoomOut,
    FixedAngleZoomIn,
    FixedAngleZoomOut,
}

/// The smoothing for a change of arm length of a camera with an arm: the zoom-in one when the
/// new length is shorter than the current one, else the zoom-out one, of the camera's kind.
pub fn get_zoom_smoothness(kind: IngameCameraKind, shortening: bool) -> (r: ZoomSmoothing)
    requires
        kind != IngameCameraKind::FirstPerson,
    ensures
        r == (if kind == IngameCameraKind::ThirdPerson {
            if shortening {
                ZoomSmoothing::ThirdPersonZoomIn
            } else {
                ZoomSmoothing::ThirdPersonZoomOut
            }
        } else if shortening {
            ZoomSmoothing::FixedAngleZoomIn
        } else {
            ZoomSmoothing::FixedAngleZoomOut
        }),
{
    if shortening {
        match kind {
            IngameCameraKind::ThirdPerson => ZoomSmoothing::ThirdPersonZoomIn,
            _ => ZoomSmoothing::FixedAngleZoomIn,
        }
    } else {
        match kind {
            IngameCameraKind::ThirdPerson => ZoomSmoothing::ThirdPersonZoomOut,
            _ => ZoomSmoothing::FixedAngleZoomOut,
        }
    }
}

/// How the player's body is shown for a kind of camera.
#[derive(Debug, Clone, Copy, PartialEq, Eq, Structural)]
pub enum PlayerView {
    /// Hidden, and turned to face where the camera looks.
    HiddenFacingCamera,
    /// Shown as its parent is.
    Inherited,
}

/// The player's body is hidden and turned with the camera in first person, and shown otherwise.
pub fn handle_camera_kind(kind: IngameCameraKind) -> (r: PlayerView)
    ensures
        r == (if kind == IngameCameraKind::FirstPerson {
            PlayerView::HiddenFacingCamera
        } else {
            PlayerView::Inherited
        }),
{
    match kind {
        IngameCameraKind::FirstPerson => PlayerView::HiddenFacingCamera,
        IngameCameraKind::ThirdPerson | IngameCameraKind::FixedAngle => PlayerView::Inherited,
    }
}

/// Which direction of the camera counts as "forward" for the player's movement.
#[derive(Debug, Clone, Copy, PartialEq, Eq, Structural)]
pub enum ForwardSource {
    /// The camera's up direction: the fixed-angle camera looks down, so its up points ahead.
    CameraUp,
    /// The camera's forward direction.
    CameraForward,
}

/// The forward direction of movement for a kind of camera.
pub fn movement_forward(kind: IngameCameraKind) -> (r: ForwardSource)
    ensures
        r == (if kind == IngameCameraKind::FixedAngle {
            ForwardSource::CameraUp
        } else {
            ForwardSource::CameraForward
        }),
{
    if kind == IngameCameraKind::FixedAngle {
        ForwardSource::CameraUp
    } else {
        ForwardSource::CameraForward
    }
}

/// The share, in percent, of the forward input kept: a first-person player walking backward
/// moves at 70 percent, everyone else at full speed.
pub fn forward_speed_percent(kind: IngameCameraKind, is_looking_backward: bool) -> (r: u32)
    ensures
        r == (if is_looking_backward && kind == IngameCameraKind::FirstPerson {
            70u32
        } else {
            100u32
        }),
{
    if is_looking_backward && kind == IngameCameraKind::FirstPerson {
        70
    } else {
        100
    }
}

/// Which configured smoothing a camera rig uses.
#[derive(Debug, Clone, Copy, PartialEq, Eq, Structural)]
pub enum SmoothingProfile {
    ThirdPerson,
    FirstPerson,
    FixedAngle,
}

/// What happens to the smoothing of the rig's look-at driver.
#[derive(Debug, Clone, Copy, PartialEq, Eq, Structural)]
pub enum LookAtSmoothing {
    /// Set; the rig must have a look-at driver.
    Required,
    /// Set when the rig has a look-at driver.
    IfPresent,
    /// Left as is.
    Untouched,
}

/// The smoothing of a rig of each kind: the kind's own translation and rotation smoothing;
/// tracking smoothing is set on the look-at driver in third person (which must have one), in
/// first person when there is one, and never for the fixed angle.
pub fn set_smoothness(kind: IngameCameraKind) -> (r: (SmoothingProfile, LookAtSmoothing))
    ensures
        kind == IngameCameraKind::ThirdPerson ==> r == (
            SmoothingProfile::ThirdPerson,
            LookAtSmoothing::Required,
        ),
        kind == IngameCameraKind::FirstPerson ==> r == (
            SmoothingProfile::FirstPerson,
            LookAtSmoothing::IfPresent,
        ),
        kind == IngameCameraKind::FixedAngle ==> r == (
            SmoothingProfile::FixedAngle,
            LookAtSmoothing::Untouched,
        ),
{
    match kind {
        IngameCameraKind::ThirdPerson => (SmoothingProfile::ThirdPerson, LookAtSmoothing::Required),
        IngameCameraKind::FirstPerson => (SmoothingProfile::FirstPerson, LookAtSmoothing::IfPresent),
        IngameCameraKind::FixedAngle => (SmoothingProfile::FixedAngle, LookAtSmoothing::Untouched),
    }
}

/// How a camera rig turns in a frame.
#[derive(Debug, Clone, Copy, PartialEq, Eq, Structural)]
pub enum RigRotation {
    /// Yaw zero and the configured fixed-angle pitch.
    FixedAngle,
    /// Turned by the pan input, with the pitch kept within the kind's limits.
    Pan,
    /// Left as it is.
    Keep,
}

/// Why a camera rig cannot be updated.
#[derive(Debug, Clone, Copy, PartialEq, Eq, Structural)]
pub enum RigError {
    /// The pan action does not hold an axis pair.
    CameraMovementNotAnAxisPair,
}

/// The rotation of a rig in a frame. A fixed-angle camera takes its fixed orientation whatever
/// the input; any other kind reads the pan input, which must be an axis pair (else the update
/// fails), and turns only when the pan is not zero.
pub fn update_rig(kind: IngameCameraKind, pan_is_axis_pair: bool, pan_is_zero: bool) -> (r: Result<
    RigRotation,
    RigError,
>)
    ensures
        kind == IngameCameraKind::FixedAngle ==> r == Ok::<RigRotation, RigError>(
            RigRotation::FixedAngle,
        ),
        kind != IngameCameraKind::FixedAngle && !pan_is_axis_pair ==> r == Err::<
            RigRotation,
            RigError,
        >(RigError::CameraMovementNotAnAxisPair),
        kind != IngameCameraKind::FixedAngle && pan_is_axis_pair && pan_is_zero ==> r == Ok::<
            RigRotation,
            RigError,
        >(RigRotation::Keep),
        kind != IngameCameraKind::FixedAngle && pan_is_axis_pair && !pan_is_zero ==> r == Ok::<
            RigRotation,
            RigError,
        >(RigRotation::Pan),
{
    if kind == IngameCameraKind::FixedAngle {
        Ok(RigRotation::FixedAngle)
    } else if !pan_is_axis_pair {
        Err(RigError::CameraMovementNotAnAxisPair)
    } else if pan_is_zero {
        Ok(RigRotation::Keep)
    } else {
        Ok(RigRotation::Pan)
    }
}

/// The camera's secondary target after this frame: cleared when a dialogue completed in this
/// frame; otherwise the current dialog partner when there is one; otherwise unchanged.
pub fn set_camera_focus<T: Copy>(
    secondary_target: &mut Option<T>,
    dialog_target: Option<T>,
    dialogue_completed: bool,
)
    ensures
        dialogue_completed ==> *final(secondary_target) is None,
        !dialogue_completed && dialog_target is Some ==> *final(secondary_target) == dialog_target,
        !dialogue_completed && dialog_target is None ==> *final(secondary_target) == *old(
            secondary_target,
        ),
{
    if let Some(dialog_target) = dialog_target {
        *secondary_target = Some(dialog_target);
    }
    if dialogue_completed {
        *secondary_target = None;
    }
}

} // verus!
