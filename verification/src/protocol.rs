//! The per-frame input that one peer sends to the others: a single byte of button flags.
use vstd::prelude::*;

verus! {

/// Bit of the "up" direction button.
pub const UP_BIT: u8 = 0x01;

/// Bit of the "down" direction button.
pub const DOWN_BIT: u8 = 0x02;

/// Bit of the "left" direction button.
pub const LEFT_BIT: u8 = 0x04;

/// Bit of the "right" direction button.
pub const RIGHT_BIT: u8 = 0x08;

/// Bit of the fire button.
pub const FIRE_BIT: u8 = 0x10;

/// All bits that name a button; every other bit of an input byte is invalid.
pub const ALL_BITS: u8 = 0x1f;

/// A byte is a valid set of buttons when it has no bit outside `ALL_BITS`.
pub open spec fn valid_bits(bits: u8) -> bool {
    bits & !ALL_BITS == 0
}

/// A set of pressed buttons.
pub struct InputFlags {
    bits: u8,
}

impl View for InputFlags {
    type V = u8;

    closed spec fn view(&self) -> u8 {
        self.bits
    }
}

impl InputFlags {
    #[verifier::type_invariant]
    spec fn inv(self) -> bool {
        valid_bits(self.bits)
    }

    /// No button pressed.
    pub fn empty() -> (r: InputFlags)
        ensures
            r@ == 0,
    {
        assert(valid_bits(0)) by (bit_vector);
        InputFlags { bits: 0 }
    }

    /// Every button pressed.
    pub fn all() -> (r: InputFlags)
        ensures
            r@ == ALL_BITS,
    {
        assert(valid_bits(ALL_BITS)) by (bit_vector);
        InputFlags { bits: ALL_BITS }
    }

    /// Only the "up" button.
    pub fn up() -> (r: InputFlags)
        ensures
            r@ == UP_BIT,
    {
        assert(valid_bits(UP_BIT)) by (bit_vector);
        InputFlags { bits: UP_BIT }
    }

    /// Only the "down" button.
    pub fn down() -> (r: InputFlags)
        ensures
            r@ == DOWN_BIT,
    {
        assert(valid_bits(DOWN_BIT)) by (bit_vector);
        InputFlags { bits: DOWN_BIT }
    }

    /// Only the "left" button.
    pub fn left() -> (r: InputFlags)
        ensures
            r@ == LEFT_BIT,
    {
        assert(valid_bits(LEFT_BIT)) by (bit_vector);
        InputFlags { bits: LEFT_BIT }
    }

    /// Only the "right" button.
    pub fn right() -> (r: InputFlags)
        ensures
            r@ == RIGHT_BIT,
    {
        assert(valid_bits(RIGHT_BIT)) by (bit_vector);
        InputFlags { bits: RIGHT_BIT }
    }

    /// Only the fire button.
    pub fn fire() -> (r: InputFlags)
        ensures
            r@ == FIRE_BIT,
    {
        assert(valid_bits(FIRE_BIT)) by (bit_vector);
        InputFlags { bits: FIRE_BIT }
    }

    /// The raw byte of the set.
    pub fn bits(&self) -> (r: u8)
        ensures
            r == self@,
            valid_bits(r),
    {
        proof {
            use_type_invariant(self);
        }
        self.bits
    }

    /// The set with exactly the bits of `bits`, or `None` when `bits` has a bit that names no
    /// button.
    pub fn from_bits(bits: u8) -> (r: Option<InputFlags>)
        ensures
            r is Some <==> valid_bits(bits),
            r matches Some(f) ==> f@ == bits,
    {
        if bits & !ALL_BITS == 0 {
            Some(InputFlags { bits })
        } else {
            None
        }
    }

    /// The set with the bits of `bits` that name a button; the others are dropped.
    pub fn from_bits_truncate(bits: u8) -> (r: InputFlags)
        ensures
            r@ == bits & ALL_BITS,
    {
        let b = bits & ALL_BITS;
        assert(valid_bits(bits & ALL_BITS)) by (bit_vector);
        InputFlags { bits: b }
    }

    /// Whether no button is in the set.
    pub fn is_empty(&self) -> (r: bool)
        ensures
            r == (self@ == 0),
    {
        self.bits == 0
    }

    /// Whether every button of `other` is in `self`.
    pub fn contains(&self, other: &InputFlags) -> (r: bool)
        ensures
            r == (self@ & other@ == other@),
    {
        self.bits & other.bits == other.bits
    }

    /// The buttons of either set.
    pub fn union(&self, other: &InputFlags) -> (r: InputFlags)
        ensures
            r@ == self@ | other@,
    {
        proof {
            use_type_invariant(self);
            use_type_invariant(other);
        }
        let a = self.bits;
        let b = other.bits;
        assert(valid_bits(a) && valid_bits(b) ==> valid_bits(a | b)) by (bit_vector);
        InputFlags { bits: a | b }
    }

    /// Adds the buttons of `other`.
    pub fn insert(&mut self, other: &InputFlags)
        ensures
            final(self)@ == old(self)@ | other@,
    {
        proof {
            use_type_invariant(&*self);
            use_type_invariant(other);
        }
        let a = self.bits;
        let b = other.bits;
        assert(valid_bits(a) && valid_bits(b) ==> valid_bits(a | b)) by (bit_vector);
        self.bits = a | b;
    }

    /// Removes the buttons of `other`.
    pub fn remove(&mut self, other: &InputFlags)
        ensures
            final(self)@ == old(self)@ & !other@,
    {
        proof {
            use_type_invariant(&*self);
        }
        let a = self.bits;
        let b = other.bits;
        assert(valid_bits(a) ==> valid_bits(a & !b)) by (bit_vector);
        self.bits = a & !b;
    }
}

/// What one peer sends per frame: the button byte.
#[derive(Debug, Clone, Copy, PartialEq, Eq, Structural)]
pub struct InputProtocol {
    /// This is the number of bytes one peer's input is.
    /// The input consists of four direction buttons and the fire button,
    /// so it fits in a single byte.
    pub input: u8,
}

/// The message that carries the button byte `bits`.
pub open spec fn encode_input(bits: u8) -> InputProtocol {
    InputProtocol { input: bits }
}

impl InputProtocol {
    /// The message for the set of buttons `input`.
    pub fn new(input: InputFlags) -> (r: InputProtocol)
        ensures
            r == encode_input(input@),
            valid_bits(r.input),
    {
        InputProtocol { input: input.bits() }
    }
}

impl From<InputFlags> for InputProtocol {
    fn from(input: InputFlags) -> (r: InputProtocol) {
        Self::new(input)
    }
}

impl vstd::std_specs::convert::FromSpecImpl<InputFlags> for InputProtocol {
    open spec fn obeys_from_spec() -> bool {
        true
    }

    open spec fn from_spec(v: InputFlags) -> InputProtocol {
        encode_input(v@)
    }
}

/// The decimal digit `d` as a character.
pub open spec fn digit_char(d: nat) -> char {
    if d == 0 {
        '0'
    } else if d == 1 {
        '1'
    } else if d == 2 {
        '2'
    } else if d == 3 {
        '3'
    } else if d == 4 {
        '4'
    } else if d == 5 {
        '5'
    } else if d == 6 {
        '6'
    } else if d == 7 {
        '7'
    } else if d == 8 {
        '8'
    } else {
        '9'
    }
}

/// The decimal representation of `n`, without leading zeros.
pub open spec fn decimal(n: nat) -> Seq<char>
    decreases n,
{
    if n < 10 {
        seq![digit_char(n)]
    } else {
        decimal(n / 10) + seq![digit_char(n % 10)]
    }
}

/// The text of the error returned for an invalid input byte.
pub open spec fn invalid_input_message(input: u8) -> Seq<char> {
    "Failed to read protocol bits as valid inputs. Received: "@ + decimal(input as nat)
}

fn digit_str(d: u8) -> (s: &'static str)
    requires
        d < 10,
    ensures
        s@ == seq![digit_char(d as nat)],
{
    match d {
        0 => {
            proof {
                reveal_strlit("0");
            }
            "0"
        },
        1 => {
            proof {
                reveal_strlit("1");
            }
            "1"
        },
        2 => {
            proof {
                reveal_strlit("2");
            }
            "2"
        },
        3 => {
            proof {
                reveal_strlit("3");
            }
            "3"
        },
        4 => {
            proof {
                reveal_strlit("4");
            }
            "4"
        },
        5 => {
            proof {
                reveal_strlit("5");
            }
            "5"
        },
        6 => {
            proof {
                reveal_strlit("6");
            }
            "6"
        },
        7 => {
            proof {
                reveal_strlit("7");
            }
            "7"
        },
        8 => {
            proof {
                reveal_strlit("8");
            }
            "8"
        },
        _ => {
            proof {
                reveal_strlit("9");
            }
            "9"
        },
    }
}

/// Appends the decimal representation of `n` to `s`.
fn push_decimal(s: &mut String, n: u8)
    ensures
        final(s)@ == old(s)@ + decimal(n as nat),
{
    if n >= 100 {
        s.append(digit_str(n / 100));
        s.append(digit_str((n / 10) % 10));
        s.append(digit_str(n % 10));
        assert(decimal(n as nat) == decimal((n / 10) as nat) + seq![digit_char((n % 10) as nat)]);
        assert(decimal((n / 10) as nat) == decimal((n / 100) as nat) + seq![
            digit_char(((n / 10) % 10) as nat),
        ]);
    } else if n >= 10 {
        s.append(digit_str(n / 10));
        s.append(digit_str(n % 10));
        assert(decimal(n as nat) == decimal((n / 10) as nat) + seq![digit_char((n % 10) as nat)]);
    } else {
        s.append(digit_str(n));
    }
}

/// The error message for the input byte `input`.
pub fn invalid_input_error(input: u8) -> (r: String)
    ensures
        r@ == invalid_input_message(input),
{
    let mut s = String::from_str("Failed to read protocol bits as valid inputs. Received: ");
    push_decimal(&mut s, input);
    s
}

/// The buttons that a received message holds, or `None` when its byte is invalid.
pub open spec fn decode_input(protocol: InputProtocol) -> Option<u8> {
    if valid_bits(protocol.input) {
        Some(protocol.input)
    } else {
        None
    }
}

impl TryFrom<InputProtocol> for InputFlags {
    type Error = String;

    fn try_from(protocol: InputProtocol) -> (r: Result<InputFlags, String>)
        ensures
            r is Ok <==> decode_input(protocol) is Some,
            r matches Ok(f) ==> decode_input(protocol) == Some(f@),
            r matches Err(e) ==> e@ == invalid_input_message(protocol.input),
    {
        match InputFlags::from_bits(protocol.input) {
            Some(f) => Ok(f),
            None => Err(invalid_input_error(protocol.input)),
        }
    }
}

/// Sending a set of buttons and decoding the message on the other side gives back the same
/// buttons.
pub proof fn lemma_encode_then_decode(flags: InputFlags)
    requires
        valid_bits(flags@),
    ensures
        decode_input(encode_input(flags@)) == Some(flags@),
{
}

/// A message that decodes is the message of the buttons it decodes to: no two sets of buttons
/// share a message, and no information is dropped.
pub proof fn lemma_decode_then_encode(protocol: InputProtocol)
    ensures
        decode_input(protocol) is Some ==> encode_input(decode_input(protocol)->0) == protocol,
{
}

/// The button bits: up, down, left, right and fire are bits 0 to 4, and a byte is a valid set
/// of buttons exactly when it is below 32 (no higher bit set).
pub proof fn lemma_button_bits(bits: u8)
    ensures
        UP_BIT == 1u8 << 0u8,
        DOWN_BIT == 1u8 << 1u8,
        LEFT_BIT == 1u8 << 2u8,
        RIGHT_BIT == 1u8 << 3u8,
        FIRE_BIT == 1u8 << 4u8,
        ALL_BITS == UP_BIT | DOWN_BIT | LEFT_BIT | RIGHT_BIT | FIRE_BIT,
        valid_bits(bits) <==> bits < 32,
{
    assert(UP_BIT == 1u8 << 0u8) by (bit_vector);
    assert(DOWN_BIT == 1u8 << 1u8) by (bit_vector);
    assert(LEFT_BIT == 1u8 << 2u8) by (bit_vector);
    assert(RIGHT_BIT == 1u8 << 3u8) by (bit_vector);
    assert(FIRE_BIT == 1u8 << 4u8) by (bit_vector);
    assert(ALL_BITS == UP_BIT | DOWN_BIT | LEFT_BIT | RIGHT_BIT | FIRE_BIT) by (bit_vector);
    assert((bits & !0x1fu8 == 0) <==> bits < 32) by (bit_vector);
}

/// The message carries the button byte unchanged, and a received byte decodes to itself
/// exactly when it is a valid set of buttons, and to nothing otherwise.
pub proof fn lemma_message_is_the_button_byte(bits: u8, protocol: InputProtocol)
    ensures
        encode_input(bits).input == bits,
        protocol.input < 32 ==> decode_input(protocol) == Some(protocol.input),
        protocol.input >= 32 ==> decode_input(protocol) is None,
{
    lemma_button_bits(protocol.input);
}

/// The digit characters are '0' to '9' in order, and the decimal text of a byte is its
/// hundreds, tens and units digits without leading zeros.
pub proof fn lemma_decimal_digits(n: u8)
    ensures
        forall|d: nat| d < 10 ==> #[trigger] digit_char(d) as u32 == 48 + d,
        n < 10 ==> decimal(n as nat) == seq![digit_char(n as nat)],
        10 <= n < 100 ==> decimal(n as nat) == seq![
            digit_char((n / 10) as nat),
            digit_char((n % 10) as nat),
        ],
        100 <= n ==> decimal(n as nat) == seq![
            digit_char((n / 100) as nat),
            digit_char(((n / 10) % 10) as nat),
            digit_char((n % 10) as nat),
        ],
{
    assert forall|d: nat| d < 10 implies #[trigger] digit_char(d) as u32 == 48 + d by {
        if d == 0 {
        } else if d == 1 {
        } else if d == 2 {
        } else if d == 3 {
        } else if d == 4 {
        } else if d == 5 {
        } else if d == 6 {
        } else if d == 7 {
        } else if d == 8 {
        } else {
        }
    }
    if 10 <= n < 100 {
        let m = n as nat;
        assert(m / 10 == (n / 10) as nat && m % 10 == (n % 10) as nat);
        assert(decimal(m) == decimal(m / 10) + seq![digit_char(m % 10)]);
        assert(decimal(m / 10) == seq![digit_char(m / 10)]);
        assert(decimal(n as nat) =~= seq![digit_char((n / 10) as nat), digit_char((n % 10) as nat)]);
    }
    if 100 <= n {
        let m = n as nat;
        let t = m / 10;
        assert(t == (n / 10) as nat && m % 10 == (n % 10) as nat);
        assert(t / 10 == (n / 100) as nat && t % 10 == ((n / 10) % 10) as nat);
        assert(decimal(m) == decimal(t) + seq![digit_char(m % 10)]);
        assert(decimal(t) == decimal(t / 10) + seq![digit_char(t % 10)]);
        assert(decimal(t / 10) == seq![digit_char(t / 10)]);
        assert(decimal((n / 10) as nat) =~= seq![
            digit_char((n / 100) as nat),
            digit_char(((n / 10) % 10) as nat),
        ]);
        assert(decimal(n as nat) =~= seq![
            digit_char((n / 100) as nat),
            digit_char(((n / 10) % 10) as nat),
            digit_char((n % 10) as nat),
        ]);
    }
}

/// Adding buttons to a set makes it contain them.
pub proof fn lemma_insert_contains(set: u8, added: u8)
    ensures
        (set | added) & added == added,
{
    assert((set | added) & added == added) by (bit_vector);
}

/// Removing buttons from a set leaves none of them in it.
pub proof fn lemma_remove_excludes(set: u8, removed: u8)
    ensures
        (set & !removed) & removed == 0,
{
    assert((set & !removed) & removed == 0) by (bit_vector);
}

/// The error text of a failed conversion is a `String`, which no spec function can build, so the
/// conversion's outcome is stated in the `ensures` of `try_from` itself rather than here.
impl vstd::std_specs::convert::TryFromSpecImpl<InputProtocol> for InputFlags {
    open spec fn obeys_try_from_spec() -> bool {
        false
    }

    open spec fn try_from_spec(v: InputProtocol) -> Result<InputFlags, String> {
        arbitrary()
    }
}

} // verus!
