//! Keyboard bindings of the game's controls, by physical key and by platform scan code.
use vstd::prelude::*;

verus! {

/// The platforms whose keyboard scan codes the bindings know.
#[derive(Debug, Clone, Copy, PartialEq, Eq, Structural)]
pub enum Platform {
    MacOs,
    Windows,
    Linux,
    Wasm,
}

/// A physical key that some control is bound to.
#[derive(Debug, Clone, Copy, PartialEq, Eq, Structural)]
pub enum Key {
    W,
    ArrowUp,
    S,
    ArrowDown,
    A,
    ArrowLeft,
    D,
    ArrowRight,
    ShiftLeft,
    Space,
    Q,
    Escape,
    E,
    Digit0,
    Digit1,
    Digit2,
    Digit3,
    Digit4,
    Digit5,
    Digit6,
    Digit7,
    Digit8,
    Digit9,
    Numpad0,
    Numpad1,
    Numpad2,
    Numpad3,
    Numpad4,
    Numpad5,
    Numpad6,
    Numpad7,
    Numpad8,
    Numpad9,
    /// The placeholder of numbered choices that have no key; its code is zero.
    Unbound,
}

/// The scan code of `key` on macOS (sampled by hand).
pub open spec fn mac_scan_code(key: Key) -> u32 {
    match key {
        Key::W => 13,
        Key::ArrowUp => 126,
        Key::S => 1,
        Key::ArrowDown => 125,
        Key::A => 0,
        Key::ArrowLeft => 123,
        Key::D => 2,
        Key::ArrowRight => 124,
        Key::ShiftLeft => 56,
        Key::Space => 49,
        Key::Q => 12,
        Key::Escape => 53,
        Key::E => 14,
        Key::Digit0 => 29,
        Key::Digit1 => 18,
        Key::Digit2 => 19,
        Key::Digit3 => 20,
        Key::Digit4 => 21,
        Key::Digit5 => 23,
        Key::Digit6 => 22,
        Key::Digit7 => 26,
        Key::Digit8 => 28,
        Key::Digit9 => 25,
        Key::Numpad0 => 82,
        Key::Numpad1 => 83,
        Key::Numpad2 => 84,
        Key::Numpad3 => 85,
        Key::Numpad4 => 86,
        Key::Numpad5 => 87,
        Key::Numpad6 => 88,
        Key::Numpad7 => 89,
        Key::Numpad8 => 91,
        Key::Numpad9 => 92,
        Key::Unbound => 0,
    }
}

/// The set-1 scan code of `key`, used on Windows, Linux and the web.
pub open spec fn pc_scan_code(key: Key) -> u32 {
    match key {
        Key::W => 0x11,
        Key::ArrowUp => 0x48,
        Key::S => 0x1F,
        Key::ArrowDown => 0x50,
        Key::A => 0x1E,
        Key::ArrowLeft => 0x4B,
        Key::D => 0x20,
        Key::ArrowRight => 0x4D,
        Key::ShiftLeft => 0x2A,
        Key::Space => 0x39,
        Key::Q => 0x10,
        Key::Escape => 0x01,
        Key::E => 0x12,
        Key::Digit0 => 0x0B,
        Key::Digit1 => 0x02,
        Key::Digit2 => 0x03,
        Key::Digit3 => 0x04,
        Key::Digit4 => 0x05,
        Key::Digit5 => 0x06,
        Key::Digit6 => 0x07,
        Key::Digit7 => 0x08,
        Key::Digit8 => 0x09,
        Key::Digit9 => 0x0A,
        Key::Numpad0 => 0x52,
        Key::Numpad1 => 0x4F,
        Key::Numpad2 => 0x50,
        Key::Numpad3 => 0x51,
        Key::Numpad4 => 0x4B,
        Key::Numpad5 => 0x4C,
        Key::Numpad6 => 0x4D,
        Key::Numpad7 => 0x47,
        Key::Numpad8 => 0x48,
        Key::Numpad9 => 0x49,
        Key::Unbound => 0x00,
    }
}

/// The scan code of `key` on `platform`.
pub open spec fn scan_code(key: Key, platform: Platform) -> u32 {
    match platform {
        Platform::MacOs => mac_scan_code(key),
        _ => pc_scan_code(key),
    }
}

impl Key {
    /// The scan code of this key on `platform`.
    pub fn scan_code(&self, platform: Platform) -> (r: u32)
        ensures
            r == scan_code(*self, platform),
    {
        match platform {
            Platform::MacOs => match self {
                Key::W => 13,
                Key::ArrowUp => 126,
                Key::S => 1,
                Key::ArrowDown => 125,
                Key::A => 0,
                Key::ArrowLeft => 123,
                Key::D => 2,
                Key::ArrowRight => 124,
                Key::ShiftLeft => 56,
                Key::Space => 49,
                Key::Q => 12,
                Key::Escape => 53,
                Key::E => 14,
                Key::Digit0 => 29,
                Key::Digit1 => 18,
                Key::Digit2 => 19,
                Key::Digit3 => 20,
                Key::Digit4 => 21,
                Key::Digit5 => 23,
                Key::Digit6 => 22,
                Key::Digit7 => 26,
                Key::Digit8 => 28,
                Key::Digit9 => 25,
                Key::Numpad0 => 82,
                Key::Numpad1 => 83,
                Key::Numpad2 => 84,
                Key::Numpad3 => 85,
                Key::Numpad4 => 86,
                Key::Numpad5 => 87,
                Key::Numpad6 => 88,
                Key::Numpad7 => 89,
                Key::Numpad8 => 91,
                Key::Numpad9 => 92,
                Key::Unbound => 0,
            },
            _ => match self {
                Key::W => 0x11,
                Key::ArrowUp => 0x48,
                Key::S => 0x1F,
                Key::ArrowDown => 0x50,
                Key::A => 0x1E,
                Key::ArrowLeft => 0x4B,
                Key::D => 0x20,
                Key::ArrowRight => 0x4D,
                Key::ShiftLeft => 0x2A,
                Key::Space => 0x39,
                Key::Q => 0x10,
                Key::Escape => 0x01,
                Key::E => 0x12,
                Key::Digit0 => 0x0B,
                Key::Digit1 => 0x02,
                Key::Digit2 => 0x03,
                Key::Digit3 => 0x04,
                Key::Digit4 => 0x05,
                Key::Digit5 => 0x06,
                Key::Digit6 => 0x07,
                Key::Digit7 => 0x08,
                Key::Digit8 => 0x09,
                Key::Digit9 => 0x0A,
                Key::Numpad0 => 0x52,
                Key::Numpad1 => 0x4F,
                Key::Numpad2 => 0x50,
                Key::Numpad3 => 0x51,
                Key::Numpad4 => 0x4B,
                Key::Numpad5 => 0x4C,
                Key::Numpad6 => 0x4D,
                Key::Numpad7 => 0x47,
                Key::Numpad8 => 0x48,
                Key::Numpad9 => 0x49,
                Key::Unbound => 0x00,
            },
        }
    }
}

/// The controls of the game that are read from the keyboard.
pub enum GameControl {
    Up,
    Down,
    Left,
    Right,
    Sprint,
    Jump,
    ToggleEditor,
    Interact,
    NumberedChoice(u16),
}

/// The keys bound to `control`, in the order in which they are listed.
pub open spec fn bound_keys(control: GameControl) -> Seq<Key> {
    match control {
        GameControl::Up => seq![Key::W, Key::ArrowUp],
        GameControl::Down => seq![Key::S, Key::ArrowDown],
        GameControl::Left => seq![Key::A, Key::ArrowLeft],
        GameControl::Right => seq![Key::D, Key::ArrowRight],
        GameControl::Sprint => seq![Key::ShiftLeft],
        GameControl::Jump => seq![Key::Space],
        GameControl::ToggleEditor => seq![Key::Q, Key::Escape],
        GameControl::Interact => seq![Key::E],
        GameControl::NumberedChoice(n) => if n == 1 {
            seq![Key::Digit1, Key::Numpad1]
        } else if n == 2 {
            seq![Key::Digit2, Key::Numpad2]
        } else if n == 3 {
            seq![Key::Digit3, Key::Numpad3]
        } else if n == 4 {
            seq![Key::Digit4, Key::Numpad4]
        } else if n == 5 {
            seq![Key::Digit5, Key::Numpad5]
        } else if n == 6 {
            seq![Key::Digit6, Key::Numpad6]
        } else if n == 7 {
            seq![Key::Digit7, Key::Numpad7]
        } else if n == 8 {
            seq![Key::Digit8, Key::Numpad8]
        } else if n == 9 {
            seq![Key::Digit9, Key::Numpad9]
        } else if n == 0 {
            seq![Key::Digit0, Key::Numpad0]
        } else {
            seq![Key::Unbound]
        },
    }
}

/// The scan codes bound to `control` on `platform`, in the order of `bound_keys`.
pub open spec fn bound_scan_codes(control: GameControl, platform: Platform) -> Seq<u32> {
    bound_keys(control).map_values(|k: Key| scan_code(k, platform))
}

/// Whether some scan code bound to `control` on `platform` is in `codes`.
pub open spec fn any_bound_in(control: GameControl, platform: Platform, codes: Seq<u32>) -> bool {
    exists|i: int|
        0 <= i < bound_keys(control).len() && codes.contains(
            #[trigger] scan_code(bound_keys(control)[i], platform),
        )
}

/// The state of the keyboard in one frame, by scan code.
pub struct KeyboardInput {
    /// Keys held down.
    pub pressed: Vec<u32>,
    /// Keys that went down in this frame.
    pub just_pressed: Vec<u32>,
    /// Keys that went up in this frame.
    pub just_released: Vec<u32>,
}

/// Whether some element of `codes` is in `set`.
fn any_in(codes: &Vec<u32>, set: &Vec<u32>) -> (r: bool)
    ensures
        r == exists|i: int| 0 <= i < codes.len() && set@.contains(#[trigger] codes@[i]),
{
    let mut i: usize = 0;
    while i < codes.len()
        invariant
            i <= codes.len(),
            forall|k: int| 0 <= k < i ==> !set@.contains(#[trigger] codes@[k]),
        decreases codes.len() - i,
    {
        let code = codes[i];
        let mut j: usize = 0;
        while j < set.len()
            invariant
                j <= set.len(),
                i < codes.len(),
                code == codes@[i as int],
                forall|m: int| 0 <= m < j ==> set@[m] != code,
            decreases set.len() - j,
        {
            if set[j] == code {
                assert(set@.contains(codes@[i as int]));
                return true;
            }
            j += 1;
        }
        i += 1;
    }
    false
}

impl GameControl {
    /// The keys bound to this control.
    pub fn keys(&self) -> (r: Vec<Key>)
        ensures
            r@ == bound_keys(*self),
    {
        let r = match self {
            GameControl::Up => vec![Key::W, Key::ArrowUp],
            GameControl::Down => vec![Key::S, Key::ArrowDown],
            GameControl::Left => vec![Key::A, Key::ArrowLeft],
            GameControl::Right => vec![Key::D, Key::ArrowRight],
            GameControl::Sprint => vec![Key::ShiftLeft],
            GameControl::Jump => vec![Key::Space],
            GameControl::ToggleEditor => vec![Key::Q, Key::Escape],
            GameControl::Interact => vec![Key::E],
            GameControl::NumberedChoice(1) => vec![Key::Digit1, Key::Numpad1],
            GameControl::NumberedChoice(2) => vec![Key::Digit2, Key::Numpad2],
            GameControl::NumberedChoice(3) => vec![Key::Digit3, Key::Numpad3],
            GameControl::NumberedChoice(4) => vec![Key::Digit4, Key::Numpad4],
            GameControl::NumberedChoice(5) => vec![Key::Digit5, Key::Numpad5],
            GameControl::NumberedChoice(6) => vec![Key::Digit6, Key::Numpad6],
            GameControl::NumberedChoice(7) => vec![Key::Digit7, Key::Numpad7],
            GameControl::NumberedChoice(8) => vec![Key::Digit8, Key::Numpad8],
            GameControl::NumberedChoice(9) => vec![Key::Digit9, Key::Numpad9],
            GameControl::NumberedChoice(0) => vec![Key::Digit0, Key::Numpad0],
            GameControl::NumberedChoice(_) => vec![Key::Unbound],
        };
        assert(r@ =~= bound_keys(*self));
        r
    }

    /// The scan codes bound to this control on `platform`.
    pub fn scan_codes(&self, platform: Platform) -> (r: Vec<u32>)
        ensures
            r@ == bound_scan_codes(*self, platform),
    {
        let keys = self.keys();
        let mut codes: Vec<u32> = Vec::new();
        let mut i: usize = 0;
        while i < keys.len()
            invariant
                i <= keys.len(),
                keys@ == bound_keys(*self),
                codes@ =~= keys@.take(i as int).map_values(|k: Key| scan_code(k, platform)),
            decreases keys.len() - i,
        {
            codes.push(keys[i].scan_code(platform));
            i += 1;
            assert(codes@ =~= keys@.take(i as int).map_values(|k: Key| scan_code(k, platform)));
        }
        assert(keys@.take(keys.len() as int) =~= keys@);
        codes
    }

    fn any_of(&self, platform: Platform, set: &Vec<u32>) -> (r: bool)
        ensures
            r == any_bound_in(*self, platform, set@),
    {
        let codes = self.scan_codes(platform);
        let r = any_in(&codes, set);
        proof {
            if r {
                let i = choose|i: int| 0 <= i < codes.len() && set@.contains(#[trigger] codes@[i]);
                assert(codes@[i] == scan_code(bound_keys(*self)[i], platform));
            }
            if any_bound_in(*self, platform, set@) {
                let i = choose|i: int|
                    0 <= i < bound_keys(*self).len() && set@.contains(
                        #[trigger] scan_code(bound_keys(*self)[i], platform),
                    );
                assert(codes@[i] == scan_code(bound_keys(*self)[i], platform));
            }
        }
        r
    }

    /// Whether a key bound to this control went up in this frame.
    pub fn just_released(&self, platform: Platform, keyboard_input: &KeyboardInput) -> (r: bool)
        ensures
            r == any_bound_in(*self, platform, keyboard_input.just_released@),
    {
        self.any_of(platform, &keyboard_input.just_released)
    }

    /// Whether a key bound to this control went down in this frame.
    pub fn just_pressed(&self, platform: Platform, keyboard_input: &KeyboardInput) -> (r: bool)
        ensures
            r == any_bound_in(*self, platform, keyboard_input.just_pressed@),
    {
        self.any_of(platform, &keyboard_input.just_pressed)
    }

    /// Whether a key bound to this control is held down.
    pub fn pressed(&self, platform: Platform, keyboard_input: &KeyboardInput) -> (r: bool)
        ensures
            r == any_bound_in(*self, platform, keyboard_input.pressed@),
    {
        self.any_of(platform, &keyboard_input.pressed)
    }
}

/// The scan-code tables: macOS codes (sampled by hand), and the set-1 codes that Windows,
/// Linux and the web share; every platform reads its own table.
pub proof fn lemma_scan_code_table(key: Key, platform: Platform)
    ensures
        platform == Platform::MacOs ==> scan_code(key, platform) == mac_scan_code(key),
        platform != Platform::MacOs ==> scan_code(key, platform) == pc_scan_code(key),
        mac_scan_code(Key::W) == 13,
        mac_scan_code(Key::ArrowUp) == 126,
        mac_scan_code(Key::S) == 1,
        mac_scan_code(Key::ArrowDown) == 125,
        mac_scan_code(Key::A) == 0,
        mac_scan_code(Key::ArrowLeft) == 123,
        mac_scan_code(Key::D) == 2,
        mac_scan_code(Key::ArrowRight) == 124,
        mac_scan_code(Key::ShiftLeft) == 56,
        mac_scan_code(Key::Space) == 49,
        mac_scan_code(Key::Q) == 12,
        mac_scan_code(Key::Escape) == 53,
        mac_scan_code(Key::E) == 14,
        mac_scan_code(Key::Digit0) == 29,
        mac_scan_code(Key::Digit1) == 18,
        mac_scan_code(Key::Digit2) == 19,
        mac_scan_code(Key::Digit3) == 20,
        mac_scan_code(Key::Digit4) == 21,
        mac_scan_code(Key::Digit5) == 23,
        mac_scan_code(Key::Digit6) == 22,
        mac_scan_code(Key::Digit7) == 26,
        mac_scan_code(Key::Digit8) == 28,
        mac_scan_code(Key::Digit9) == 25,
        mac_scan_code(Key::Numpad0) == 82,
        mac_scan_code(Key::Numpad1) == 83,
        mac_scan_code(Key::Numpad2) == 84,
        mac_scan_code(Key::Numpad3) == 85,
        mac_scan_code(Key::Numpad4) == 86,
        mac_scan_code(Key::Numpad5) == 87,
        mac_scan_code(Key::Numpad6) == 88,
        mac_scan_code(Key::Numpad7) == 89,
        mac_scan_code(Key::Numpad8) == 91,
        mac_scan_code(Key::Numpad9) == 92,
        mac_scan_code(Key::Unbound) == 0,
        pc_scan_code(Key::W) == 0x11,
        pc_scan_code(Key::ArrowUp) == 0x48,
        pc_scan_code(Key::S) == 0x1F,
        pc_scan_code(Key::ArrowDown) == 0x50,
        pc_scan_code(Key::A) == 0x1E,
        pc_scan_code(Key::ArrowLeft) == 0x4B,
        pc_scan_code(Key::D) == 0x20,
        pc_scan_code(Key::ArrowRight) == 0x4D,
        pc_scan_code(Key::ShiftLeft) == 0x2A,
        pc_scan_code(Key::Space) == 0x39,
        pc_scan_code(Key::Q) == 0x10,
        pc_scan_code(Key::Escape) == 0x01,
        pc_scan_code(Key::E) == 0x12,
        pc_scan_code(Key::Digit0) == 0x0B,
        pc_scan_code(Key::Digit1) == 0x02,
        pc_scan_code(Key::Digit2) == 0x03,
        pc_scan_code(Key::Digit3) == 0x04,
        pc_scan_code(Key::Digit4) == 0x05,
        pc_scan_code(Key::Digit5) == 0x06,
        pc_scan_code(Key::Digit6) == 0x07,
        pc_scan_code(Key::Digit7) == 0x08,
        pc_scan_code(Key::Digit8) == 0x09,
        pc_scan_code(Key::Digit9) == 0x0A,
        pc_scan_code(Key::Numpad0) == 0x52,
        pc_scan_code(Key::Numpad1) == 0x4F,
        pc_scan_code(Key::Numpad2) == 0x50,
        pc_scan_code(Key::Numpad3) == 0x51,
        pc_scan_code(Key::Numpad4) == 0x4B,
        pc_scan_code(Key::Numpad5) == 0x4C,
        pc_scan_code(Key::Numpad6) == 0x4D,
        pc_scan_code(Key::Numpad7) == 0x47,
        pc_scan_code(Key::Numpad8) == 0x48,
        pc_scan_code(Key::Numpad9) == 0x49,
        pc_scan_code(Key::Unbound) == 0x00,
{
}

/// The keys of each control: W/S/A/D with the matching arrow for the directions, left shift to
/// sprint, space to jump, Q or Escape for the editor, E to interact, and for numbered choice
/// `n` from 0 to 9 the digit key `n` and numpad key `n`; any other number has only the
/// placeholder key.
pub proof fn lemma_bindings_table(n: u16)
    ensures
        bound_keys(GameControl::Up) == seq![Key::W, Key::ArrowUp],
        bound_keys(GameControl::Down) == seq![Key::S, Key::ArrowDown],
        bound_keys(GameControl::Left) == seq![Key::A, Key::ArrowLeft],
        bound_keys(GameControl::Right) == seq![Key::D, Key::ArrowRight],
        bound_keys(GameControl::Sprint) == seq![Key::ShiftLeft],
        bound_keys(GameControl::Jump) == seq![Key::Space],
        bound_keys(GameControl::ToggleEditor) == seq![Key::Q, Key::Escape],
        bound_keys(GameControl::Interact) == seq![Key::E],
        bound_keys(GameControl::NumberedChoice(0)) == seq![Key::Digit0, Key::Numpad0],
        bound_keys(GameControl::NumberedChoice(1)) == seq![Key::Digit1, Key::Numpad1],
        bound_keys(GameControl::NumberedChoice(2)) == seq![Key::Digit2, Key::Numpad2],
        bound_keys(GameControl::NumberedChoice(3)) == seq![Key::Digit3, Key::Numpad3],
        bound_keys(GameControl::NumberedChoice(4)) == seq![Key::Digit4, Key::Numpad4],
        bound_keys(GameControl::NumberedChoice(5)) == seq![Key::Digit5, Key::Numpad5],
        bound_keys(GameControl::NumberedChoice(6)) == seq![Key::Digit6, Key::Numpad6],
        bound_keys(GameControl::NumberedChoice(7)) == seq![Key::Digit7, Key::Numpad7],
        bound_keys(GameControl::NumberedChoice(8)) == seq![Key::Digit8, Key::Numpad8],
        bound_keys(GameControl::NumberedChoice(9)) == seq![Key::Digit9, Key::Numpad9],
        n > 9 ==> bound_keys(GameControl::NumberedChoice(n)) == seq![Key::Unbound],
        scan_code(Key::Unbound, Platform::MacOs) == 0 && scan_code(Key::Unbound, Platform::Linux)
            == 0,
{
}

/// Every control is bound to at least one key on every platform.
pub proof fn lemma_every_control_is_bound(control: GameControl, platform: Platform)
    ensures
        bound_scan_codes(control, platform).len() >= 1,
{
}

/// A control whose key went down in this frame is held, whenever every key that went down is
/// also held, as it is in a keyboard state of one frame.
pub proof fn lemma_just_pressed_is_pressed(
    control: GameControl,
    platform: Platform,
    just_pressed: Seq<u32>,
    pressed: Seq<u32>,
)
    requires
        forall|c: u32| just_pressed.contains(c) ==> pressed.contains(c),
    ensures
        any_bound_in(control, platform, just_pressed) ==> any_bound_in(control, platform, pressed),
{
    if any_bound_in(control, platform, just_pressed) {
        let i = choose|i: int|
            0 <= i < bound_keys(control).len() && just_pressed.contains(
                #[trigger] scan_code(bound_keys(control)[i], platform),
            );
        assert(pressed.contains(scan_code(bound_keys(control)[i], platform)));
    }
}

} // verus!
