//! Freezing of player input (while a dialog or a menu owns it) and the cursor that follows it.
use crate::game_control::Key;
use vstd::prelude::*;

verus! {

/// How many parties currently want player input frozen. Input is frozen while any of them does.
pub struct ActionsFrozen {
    freeze_count: usize,
}

impl ActionsFrozen {
    /// The number of freezes not yet undone.
    pub closed spec fn count(&self) -> nat {
        self.freeze_count as nat
    }

    /// Adds one freeze.
    pub fn freeze(&mut self)
        requires
            old(self).count() < usize::MAX,
        ensures
            final(self).count() == old(self).count() + 1,
    {
        self.freeze_count += 1;
    }

    /// Undoes one freeze.
    pub fn unfreeze(&mut self)
        requires
            old(self).count() > 0,
        ensures
            final(self).count() == old(self).count() - 1,
    {
        self.freeze_count -= 1;
    }

    /// Whether one more freeze can be counted.
    pub fn can_freeze(&self) -> (r: bool)
        ensures
            r == (self.count() < usize::MAX),
    {
        self.freeze_count < usize::MAX
    }

    /// The count of freezes fits the counter.
    pub proof fn lemma_count_bounded(&self)
        ensures
            self.count() <= usize::MAX,
    {
    }

    /// Whether some freeze is not yet undone.
    pub fn is_frozen(&self) -> (r: bool)
        ensures
            r == (self.count() > 0),
    {
        self.freeze_count > 0
    }
}

impl Default for ActionsFrozen {
    fn default() -> (r: ActionsFrozen)
        ensures
            r.count() == 0,
    {
        ActionsFrozen { freeze_count: 0 }
    }
}

/// Number of freezes (`true`) among the first `n` calls of `calls`.
pub open spec fn freezes_in(calls: Seq<bool>, n: int) -> int
    decreases n,
{
    if n <= 0 {
        0
    } else {
        freezes_in(calls, n - 1) + if calls[n - 1] {
            1int
        } else {
            0int
        }
    }
}

/// Number of unfreezes (`false`) among the first `n` calls of `calls`.
pub open spec fn unfreezes_in(calls: Seq<bool>, n: int) -> int {
    n - freezes_in(calls, n)
}

/// Freezes nest: start from the default value and make the calls of `calls` in order (`true`
/// a `freeze`, `false` an `unfreeze`), never more unfreezes than freezes so far, `counts[i]`
/// being the count before call `i` as the contracts of `default`, `freeze` and `unfreeze` give
/// it. Then the count after every prefix is its freezes minus its unfreezes, and input is
/// frozen (`is_frozen`) exactly when more freezes than unfreezes were made.
pub proof fn lemma_freezes_nest(calls: Seq<bool>, counts: Seq<nat>)
    requires
        counts.len() == calls.len() + 1,
        counts[0] == 0,
        forall|i: int|
            0 <= i < calls.len() ==> #[trigger] counts[i + 1] == if calls[i] {
                counts[i] as int + 1
            } else {
                counts[i] as int - 1
            },
        forall|n: int| 0 <= n <= calls.len() ==> unfreezes_in(calls, n) <= #[trigger] freezes_in(calls, n),
    ensures
        forall|n: int|
            0 <= n <= calls.len() ==> #[trigger] counts[n] == freezes_in(calls, n) - unfreezes_in(
                calls,
                n,
            ),
        (counts[calls.len() as int] > 0) <==> freezes_in(calls, calls.len() as int) > unfreezes_in(
            calls,
            calls.len() as int,
        ),
{
    assert forall|n: int| 0 <= n <= calls.len() implies #[trigger] counts[n] == freezes_in(calls, n)
        - unfreezes_in(calls, n) by {
        lemma_prefix_count(calls, counts, n);
    }
}

proof fn lemma_prefix_count(calls: Seq<bool>, counts: Seq<nat>, n: int)
    requires
        counts.len() == calls.len() + 1,
        counts[0] == 0,
        forall|i: int|
            0 <= i < calls.len() ==> #[trigger] counts[i + 1] == if calls[i] {
                counts[i] as int + 1
            } else {
                counts[i] as int - 1
            },
        forall|n: int| 0 <= n <= calls.len() ==> unfreezes_in(calls, n) <= #[trigger] freezes_in(calls, n),
        0 <= n <= calls.len(),
    ensures
        counts[n] == freezes_in(calls, n) - unfreezes_in(calls, n),
    decreases n,
{
    if n > 0 {
        lemma_prefix_count(calls, counts, n - 1);
        assert(counts[(n - 1) + 1] == if calls[n - 1] {
            counts[n - 1] as int + 1
        } else {
            counts[n - 1] as int - 1
        });
        assert(unfreezes_in(calls, n) <= freezes_in(calls, n));
    }
}

/// How the window holds the mouse cursor.
#[derive(Debug, Clone, Copy, PartialEq, Eq, Structural)]
pub enum CursorGrabMode {
    /// The cursor moves freely.
    NoGrab,
    /// The cursor is kept inside the window.
    Confined,
    /// The cursor is kept in place.
    Locked,
}

/// A grab mode that, when set, overrides the one that follows from the input state.
#[derive(Debug, Clone, Copy, PartialEq, Eq, Structural)]
pub struct ForceCursorGrabMode(pub Option<CursorGrabMode>);

/// The cursor of the primary window.
#[derive(Debug, Clone, Copy, PartialEq, Eq, Structural)]
pub struct CursorState {
    pub grab_mode: CursorGrabMode,
    pub visible: bool,
}

/// The cursor that follows from a forced mode and the input state: a forced mode is applied
/// as is, with the cursor hidden only when it is locked; otherwise a frozen input frees and
/// shows the cursor, and a live input locks and hides it.
pub open spec fn cursor_for(force: ForceCursorGrabMode, frozen: bool) -> CursorState {
    match force.0 {
        Some(mode) => CursorState { grab_mode: mode, visible: mode != CursorGrabMode::Locked },
        None => if frozen {
            CursorState { grab_mode: CursorGrabMode::NoGrab, visible: true }
        } else {
            CursorState { grab_mode: CursorGrabMode::Locked, visible: false }
        },
    }
}

/// Sets the window's cursor for this frame.
pub fn grab_cursor(
    cursor: &mut CursorState,
    actions_frozen: &ActionsFrozen,
    force_cursor_grab: &ForceCursorGrabMode,
)
    ensures
        *final(cursor) == cursor_for(*force_cursor_grab, actions_frozen.count() > 0),
{
    if let Some(mode) = force_cursor_grab.0 {
        cursor.grab_mode = mode;
        cursor.visible = mode != CursorGrabMode::Locked;
    } else if actions_frozen.is_frozen() {
        cursor.grab_mode = CursorGrabMode::NoGrab;
        cursor.visible = true;
    } else {
        cursor.grab_mode = CursorGrabMode::Locked;
        cursor.visible = false;
    }
}

/// The cursor rules in full: a forced mode is applied as is, visible unless locked; without
/// one, frozen input frees and shows the cursor and live input locks and hides it.
pub proof fn lemma_cursor_rules(mode: CursorGrabMode, frozen: bool)
    ensures
        cursor_for(ForceCursorGrabMode(Some(mode)), frozen) == (CursorState {
            grab_mode: mode,
            visible: mode != CursorGrabMode::Locked,
        }),
        cursor_for(ForceCursorGrabMode(None), true) == (CursorState {
            grab_mode: CursorGrabMode::NoGrab,
            visible: true,
        }),
        cursor_for(ForceCursorGrabMode(None), false) == (CursorState {
            grab_mode: CursorGrabMode::Locked,
            visible: false,
        }),
{
}

/// Unless a mode is forced, the cursor is visible exactly while input is frozen, and it is
/// never both visible and locked.
pub proof fn lemma_cursor_follows_freeze(force: ForceCursorGrabMode, frozen: bool)
    ensures
        force.0 is None ==> cursor_for(force, frozen).visible == frozen,
        !(cursor_for(force, frozen).visible && cursor_for(force, frozen).grab_mode
            == CursorGrabMode::Locked),
{
}

/// The actions of the player character.
#[derive(Debug, Clone, Copy, PartialEq, Eq, Structural)]
pub enum PlayerAction {
    Move,
    Sprint,
    Jump,
    Interact,
    SpeedUpDialog,
    NumberedChoice(u16),
}

impl Default for PlayerAction {
    fn default() -> (r: PlayerAction)
        ensures
            r == PlayerAction::Move,
    {
        PlayerAction::Move
    }
}

/// The actions of the user interface.
#[derive(Debug, Clone, Copy, PartialEq, Eq, Structural)]
pub enum UiAction {
    TogglePause,
}

/// An input that triggers a player action.
#[derive(Debug, Clone, Copy, PartialEq, Eq, Structural)]
pub enum PlayerInput {
    /// A single key, by its position on a QWERTY keyboard.
    Key(Key),
    /// The W, A, S and D keys read as a direction pad.
    WasdPad,
}

/// The default bindings of the player's actions, in the order they are registered.
pub open spec fn player_action_bindings() -> Seq<(PlayerInput, PlayerAction)> {
    seq![
        (PlayerInput::Key(Key::Space), PlayerAction::Jump),
        (PlayerInput::Key(Key::ShiftLeft), PlayerAction::Sprint),
        (PlayerInput::Key(Key::E), PlayerAction::Interact),
        (PlayerInput::Key(Key::Space), PlayerAction::SpeedUpDialog),
        (PlayerInput::Key(Key::Digit1), PlayerAction::NumberedChoice(1)),
        (PlayerInput::Key(Key::Digit2), PlayerAction::NumberedChoice(2)),
        (PlayerInput::Key(Key::Digit3), PlayerAction::NumberedChoice(3)),
        (PlayerInput::Key(Key::Digit4), PlayerAction::NumberedChoice(4)),
        (PlayerInput::Key(Key::Digit5), PlayerAction::NumberedChoice(5)),
        (PlayerInput::Key(Key::Digit6), PlayerAction::NumberedChoice(6)),
        (PlayerInput::Key(Key::Digit7), PlayerAction::NumberedChoice(7)),
        (PlayerInput::Key(Key::Digit8), PlayerAction::NumberedChoice(8)),
        (PlayerInput::Key(Key::Digit9), PlayerAction::NumberedChoice(9)),
        (PlayerInput::Key(Key::Digit0), PlayerAction::NumberedChoice(0)),
        (PlayerInput::WasdPad, PlayerAction::Move),
    ]
}

/// The default bindings of the player's actions.
pub fn create_player_action_input_manager_bundle() -> (r: Vec<(PlayerInput, PlayerAction)>)
    ensures
        r@ == player_action_bindings(),
{
    let r = vec![
        (PlayerInput::Key(Key::Space), PlayerAction::Jump),
        (PlayerInput::Key(Key::ShiftLeft), PlayerAction::Sprint),
        (PlayerInput::Key(Key::E), PlayerAction::Interact),
        (PlayerInput::Key(Key::Space), PlayerAction::SpeedUpDialog),
        (PlayerInput::Key(Key::Digit1), PlayerAction::NumberedChoice(1)),
        (PlayerInput::Key(Key::Digit2), PlayerAction::NumberedChoice(2)),
        (PlayerInput::Key(Key::Digit3), PlayerAction::NumberedChoice(3)),
        (PlayerInput::Key(Key::Digit4), PlayerAction::NumberedChoice(4)),
        (PlayerInput::Key(Key::Digit5), PlayerAction::NumberedChoice(5)),
        (PlayerInput::Key(Key::Digit6), PlayerAction::NumberedChoice(6)),
        (PlayerInput::Key(Key::Digit7), PlayerAction::NumberedChoice(7)),
        (PlayerInput::Key(Key::Digit8), PlayerAction::NumberedChoice(8)),
        (PlayerInput::Key(Key::Digit9), PlayerAction::NumberedChoice(9)),
        (PlayerInput::Key(Key::Digit0), PlayerAction::NumberedChoice(0)),
        (PlayerInput::WasdPad, PlayerAction::Move),
    ];
    assert(r@ =~= player_action_bindings());
    r
}

/// The actions of the camera.
#[derive(Debug, Clone, Copy, PartialEq, Eq, Structural)]
pub enum CameraAction {
    Pan,
    Zoom,
}

impl Default for CameraAction {
    fn default() -> (r: CameraAction)
        ensures
            r == CameraAction::Pan,
    {
        CameraAction::Pan
    }
}

/// A mouse axis that drives a camera action.
#[derive(Debug, Clone, Copy, PartialEq, Eq, Structural)]
pub enum MouseAxis {
    /// The motion of the mouse, on both axes.
    Motion,
    /// The vertical axis of the mouse wheel.
    WheelY,
}

/// The default bindings of the camera: mouse motion pans, the wheel zooms.
pub fn create_camera_action_input_manager_bundle() -> (r: Vec<(MouseAxis, CameraAction)>)
    ensures
        r@ == seq![(MouseAxis::Motion, CameraAction::Pan), (MouseAxis::WheelY, CameraAction::Zoom)],
{
    let r = vec![(MouseAxis::Motion, CameraAction::Pan), (MouseAxis::WheelY, CameraAction::Zoom)];
    assert(r@ =~= seq![
        (MouseAxis::Motion, CameraAction::Pan),
        (MouseAxis::WheelY, CameraAction::Zoom),
    ]);
    r
}

/// The actions that are cleared while input is frozen: the player's movement axis, jump,
/// interact and sprint, and the camera's pan axis and zoom value. Nothing is cleared while
/// input is live.
pub fn remove_actions_when_frozen(actions_frozen: &ActionsFrozen) -> (r: (
    Vec<PlayerAction>,
    Vec<CameraAction>,
))
    ensures
        actions_frozen.count() > 0 ==> r.0@ == seq![
            PlayerAction::Move,
            PlayerAction::Jump,
            PlayerAction::Interact,
            PlayerAction::Sprint,
        ] && r.1@ == seq![CameraAction::Pan, CameraAction::Zoom],
        actions_frozen.count() == 0 ==> r.0@.len() == 0 && r.1@.len() == 0,
{
    if actions_frozen.is_frozen() {
        let p = vec![
            PlayerAction::Move,
            PlayerAction::Jump,
            PlayerAction::Interact,
            PlayerAction::Sprint,
        ];
        let c = vec![CameraAction::Pan, CameraAction::Zoom];
        assert(p@ =~= seq![
            PlayerAction::Move,
            PlayerAction::Jump,
            PlayerAction::Interact,
            PlayerAction::Sprint,
        ]);
        assert(c@ =~= seq![CameraAction::Pan, CameraAction::Zoom]);
        (p, c)
    } else {
        (Vec::new(), Vec::new())
    }
}

/// The default binding of the user interface: Escape toggles the pause menu.
pub fn create_ui_action_input_manager_bundle() -> (r: Vec<(Key, UiAction)>)
    ensures
        r@ == seq![(Key::Escape, UiAction::TogglePause)],
{
    let r = vec![(Key::Escape, UiAction::TogglePause)];
    assert(r@ =~= seq![(Key::Escape, UiAction::TogglePause)]);
    r
}

/// The default player bindings in full: space jumps, left shift sprints, E interacts, space
/// also speeds up dialog, digit key `n` picks numbered choice `n` (1 to 9, then 0), and the WASD
/// pad moves.
pub proof fn lemma_player_bindings_table(n: int)
    requires
        1 <= n <= 9,
    ensures
        player_action_bindings().len() == 15,
        player_action_bindings()[0] == (PlayerInput::Key(Key::Space), PlayerAction::Jump),
        player_action_bindings()[1] == (PlayerInput::Key(Key::ShiftLeft), PlayerAction::Sprint),
        player_action_bindings()[2] == (PlayerInput::Key(Key::E), PlayerAction::Interact),
        player_action_bindings()[3] == (PlayerInput::Key(Key::Space), PlayerAction::SpeedUpDialog),
        player_action_bindings()[n + 3].1 == PlayerAction::NumberedChoice(n as u16),
        player_action_bindings()[13] == (PlayerInput::Key(Key::Digit0), PlayerAction::NumberedChoice(0)),
        player_action_bindings()[14] == (PlayerInput::WasdPad, PlayerAction::Move),
        player_action_bindings()[4].0 == PlayerInput::Key(Key::Digit1),
        player_action_bindings()[5].0 == PlayerInput::Key(Key::Digit2),
        player_action_bindings()[6].0 == PlayerInput::Key(Key::Digit3),
        player_action_bindings()[7].0 == PlayerInput::Key(Key::Digit4),
        player_action_bindings()[8].0 == PlayerInput::Key(Key::Digit5),
        player_action_bindings()[9].0 == PlayerInput::Key(Key::Digit6),
        player_action_bindings()[10].0 == PlayerInput::Key(Key::Digit7),
        player_action_bindings()[11].0 == PlayerInput::Key(Key::Digit8),
        player_action_bindings()[12].0 == PlayerInput::Key(Key::Digit9),
{
}

/// Every player action has a default binding, and the space bar both jumps and speeds up
/// dialog.
pub proof fn lemma_every_player_action_is_bound(action: PlayerAction)
    ensures
        (match action {
            PlayerAction::NumberedChoice(n) => n <= 9,
            _ => true,
        }) ==> exists|i: int|
            0 <= i < player_action_bindings().len() && (#[trigger] player_action_bindings()[i]).1
                == action,
        player_action_bindings()[0] == (PlayerInput::Key(Key::Space), PlayerAction::Jump),
        player_action_bindings()[3] == (PlayerInput::Key(Key::Space), PlayerAction::SpeedUpDialog),
{
    let b = player_action_bindings();
    match action {
        PlayerAction::Jump => assert(b[0].1 == action),
        PlayerAction::Sprint => assert(b[1].1 == action),
        PlayerAction::Interact => assert(b[2].1 == action),
        PlayerAction::SpeedUpDialog => assert(b[3].1 == action),
        PlayerAction::Move => assert(b[14].1 == action),
        PlayerAction::NumberedChoice(n) => {
            if n == 0 {
                assert(b[13].1 == action);
            } else if 1 <= n <= 9 {
                assert(b[(n + 3) as int].1 == action);
            }
        },
    }
}

} // verus!
