//! The colour tint of a clock animation: none, one fixed colour, or a hue
//! that turns once through the colour wheel in the course of a cycle.

use crate::clock::TOTAL_CYCLE_MS;
use vstd::prelude::*;
use vstd::utf8::{encode_utf8, is_ascii_chars, is_ascii_chars_encode_utf8};

verus! {

/// The byte of the digit `0`.
pub const ASCII_ZERO: u8 = 48;

/// The byte of the digit `9`.
pub const ASCII_NINE: u8 = 57;

/// The byte of the letter `A`.
pub const ASCII_UPPER_A: u8 = 65;

/// The byte of the letter `F`.
pub const ASCII_UPPER_F: u8 = 70;

/// The byte of the letter `a`.
pub const ASCII_LOWER_A: u8 = 97;

/// The byte of the letter `f`.
pub const ASCII_LOWER_F: u8 = 102;

/// The most hexadecimal digits a colour is written with.
pub const MAX_COLOR_DIGITS: usize = 6;

/// The length of one sixth of the cycle, in which the hue turns by sixty
/// degrees.
pub const SEXTANT_MS: u32 = 7_200_000;

/// A per-channel multiplier applied to a frame before display.
#[derive(Clone, Copy, Debug, PartialEq, Eq, Structural)]
pub enum Tint {
    /// Frames are shown as they are.
    Clear,
    /// Each channel is multiplied by its byte over 255.
    Fixed {
        /// The red channel's multiplier, in 255ths.
        red: u8,
        /// The green channel's multiplier, in 255ths.
        green: u8,
        /// The blue channel's multiplier, in 255ths.
        blue: u8,
    },
    /// The multipliers follow the hue of the current time slot.
    Rainbow,
}

/// Why a colour was rejected.
#[derive(Clone, Copy, Debug, PartialEq, Eq, Structural)]
pub enum ColorError {
    /// The text is longer than six bytes.
    TooLong,
    /// The text is empty.
    Empty,
    /// The text holds a byte that is no hexadecimal digit.
    InvalidDigit,
}

/// The three multipliers of a tint at one moment, as fractions with a
/// common denominator.
#[derive(Clone, Copy, Debug, PartialEq, Eq, Structural)]
pub struct TintFactor {
    /// Numerator of the red channel's multiplier.
    pub red: u32,
    /// Numerator of the green channel's multiplier.
    pub green: u32,
    /// Numerator of the blue channel's multiplier.
    pub blue: u32,
    /// The denominator.
    pub scale: u32,
}

impl TintFactor {
    /// Each multiplier lies between zero and one.
    pub open spec fn wf(self) -> bool {
        &&& self.scale > 0
        &&& self.red <= self.scale
        &&& self.green <= self.scale
        &&& self.blue <= self.scale
    }
}

/// What `str::to_uppercase` returns for a text.
pub uninterp spec fn uppercased(text: Seq<char>) -> Seq<char>;

/// `str::to_uppercase` of the standard library: the text with each
/// character replaced by its upper-case form as Unicode defines it. The
/// result is named, and nothing more is said of it.
pub assume_specification[ str::to_uppercase ](text: &str) -> (upper: String)
    ensures
        upper@ == uppercased(text@),
;

/// The word that asks for the rainbow tint.
pub open spec fn rainbow_token() -> Seq<char> {
    seq!['R', 'A', 'I', 'N', 'B', 'O', 'W']
}

/// The value of a hexadecimal digit, in either case.
pub open spec fn hex_digit(byte: u8) -> Option<nat> {
    if ASCII_ZERO <= byte <= ASCII_NINE {
        Some((byte - ASCII_ZERO) as nat)
    } else if ASCII_UPPER_A <= byte <= ASCII_UPPER_F {
        Some((byte - ASCII_UPPER_A + 10) as nat)
    } else if ASCII_LOWER_A <= byte <= ASCII_LOWER_F {
        Some((byte - ASCII_LOWER_A + 10) as nat)
    } else {
        None
    }
}

/// Whether every byte is a hexadecimal digit.
pub open spec fn all_hex(bytes: Seq<u8>) -> bool {
    forall|i: int| 0 <= i < bytes.len() ==> hex_digit(#[trigger] bytes[i]) is Some
}

/// The number that a run of hexadecimal digits writes.
pub open spec fn hex_value(bytes: Seq<u8>) -> nat
    decreases bytes.len(),
{
    if bytes.len() == 0 {
        0
    } else {
        16 * hex_value(bytes.drop_last()) + hex_digit(bytes.last()).unwrap()
    }
}

/// The tint of a colour given as the number `0xRRGGBB`.
pub open spec fn fixed_tint(value: u32) -> Tint {
    Tint::Fixed {
        red: ((value >> 16) & 0xFF) as u8,
        green: ((value >> 8) & 0xFF) as u8,
        blue: (value & 0xFF) as u8,
    }
}

/// The tint that a colour's bytes name: one to six hexadecimal digits.
pub open spec fn parsed_hex(bytes: Seq<u8>) -> Result<Tint, ColorError> {
    if bytes.len() > MAX_COLOR_DIGITS {
        Err(ColorError::TooLong)
    } else if bytes.len() == 0 {
        Err(ColorError::Empty)
    } else if !all_hex(bytes) {
        Err(ColorError::InvalidDigit)
    } else {
        Ok(fixed_tint(hex_value(bytes) as u32))
    }
}

/// The tint that a text names, given its upper-case form. A text of one to
/// six hexadecimal digits is a colour. Any other text is the rainbow where
/// its upper-case form is `RAINBOW`, and is else rejected for what keeps it
/// from being a colour. The colour is looked for first, so that what the
/// digits mean does not rest on the upper-case form.
pub open spec fn named_tint(text: Seq<char>, upper: Seq<char>) -> Result<Tint, ColorError> {
    let color = parsed_hex(encode_utf8(text));
    if color is Ok {
        color
    } else if upper == rainbow_token() {
        Ok(Tint::Rainbow)
    } else {
        color
    }
}

/// The tint that a colour setting asks for. No setting is no tint; a
/// colour in hexadecimal is a fixed tint; a text whose upper-case form is
/// `RAINBOW` is the rainbow; any other text is rejected.
pub open spec fn parsed_color(color: Option<Seq<char>>) -> Result<Tint, ColorError> {
    match color {
        None => Ok(Tint::Clear),
        Some(text) => named_tint(text, uppercased(text)),
    }
}

/// Whether a character is a hexadecimal digit, in either case.
pub open spec fn hex_char(c: char) -> bool {
    ||| '0' <= c <= '9'
    ||| 'A' <= c <= 'F'
    ||| 'a' <= c <= 'f'
}

/// The multipliers of the rainbow tint at a slot. The hue is the slot's
/// share of the cycle, in degrees of a full turn; saturation and value are
/// one. Within each sixth of the cycle one channel stays at one, one at
/// zero, and the third rises or falls in a straight line.
pub open spec fn rainbow_factor(slot: int) -> TintFactor {
    let sextant = slot / (SEXTANT_MS as int);
    let rise = (slot % (SEXTANT_MS as int)) as u32;
    let fall = (SEXTANT_MS - rise) as u32;
    if sextant == 0 {
        TintFactor { red: SEXTANT_MS, green: rise, blue: 0, scale: SEXTANT_MS }
    } else if sextant == 1 {
        TintFactor { red: fall, green: SEXTANT_MS, blue: 0, scale: SEXTANT_MS }
    } else if sextant == 2 {
        TintFactor { red: 0, green: SEXTANT_MS, blue: rise, scale: SEXTANT_MS }
    } else if sextant == 3 {
        TintFactor { red: 0, green: fall, blue: SEXTANT_MS, scale: SEXTANT_MS }
    } else if sextant == 4 {
        TintFactor { red: rise, green: 0, blue: SEXTANT_MS, scale: SEXTANT_MS }
    } else {
        TintFactor { red: SEXTANT_MS, green: 0, blue: fall, scale: SEXTANT_MS }
    }
}

impl Tint {
    /// The multipliers of the tint at a slot; none where there is no tint.
    pub open spec fn factor_at(self, slot: int) -> Option<TintFactor> {
        match self {
            Tint::Clear => None,
            Tint::Fixed { red, green, blue } => Some(
                TintFactor { red: red as u32, green: green as u32, blue: blue as u32, scale: 255 },
            ),
            Tint::Rainbow => Some(rainbow_factor(slot)),
        }
    }

    /// The multipliers of the tint at a slot.
    pub fn factor(&self, slot: u32) -> (factor: Option<TintFactor>)
        requires
            slot < TOTAL_CYCLE_MS,
        ensures
            factor == self.factor_at(slot as int),
            factor matches Some(f) ==> f.wf(),
    {
        match self {
            Tint::Clear => None,
            Tint::Fixed { red, green, blue } => Some(
                TintFactor {
                    red: *red as u32,
                    green: *green as u32,
                    blue: *blue as u32,
                    scale: 255,
                },
            ),
            Tint::Rainbow => {
                let sextant = slot / SEXTANT_MS;
                let rise = slot % SEXTANT_MS;
                let fall = SEXTANT_MS - rise;
                let full = SEXTANT_MS;
                Some(
                    if sextant == 0 {
                        TintFactor { red: full, green: rise, blue: 0, scale: full }
                    } else if sextant == 1 {
                        TintFactor { red: fall, green: full, blue: 0, scale: full }
                    } else if sextant == 2 {
                        TintFactor { red: 0, green: full, blue: rise, scale: full }
                    } else if sextant == 3 {
                        TintFactor { red: 0, green: fall, blue: full, scale: full }
                    } else if sextant == 4 {
                        TintFactor { red: rise, green: 0, blue: full, scale: full }
                    } else {
                        TintFactor { red: full, green: 0, blue: fall, scale: full }
                    },
                )
            },
        }
    }
}

/// The value of a hexadecimal digit.
fn hex_digit_of(byte: u8) -> (value: Option<u32>)
    ensures
        match value {
            Some(v) => hex_digit(byte) == Some(v as nat) && v < 16,
            None => hex_digit(byte) is None,
        },
{
    if ASCII_ZERO <= byte && byte <= ASCII_NINE {
        Some((byte - ASCII_ZERO) as u32)
    } else if ASCII_UPPER_A <= byte && byte <= ASCII_UPPER_F {
        Some((byte - ASCII_UPPER_A + 10) as u32)
    } else if ASCII_LOWER_A <= byte && byte <= ASCII_LOWER_F {
        Some((byte - ASCII_LOWER_A + 10) as u32)
    } else {
        None
    }
}

/// The number of values that `digits` hexadecimal digits can write.
pub open spec fn hex_span(digits: nat) -> nat
    decreases digits,
{
    if digits == 0 {
        1
    } else {
        16 * hex_span((digits - 1) as nat)
    }
}

/// A run of hexadecimal digits writes a number below sixteen to the power
/// of its length.
pub proof fn lemma_hex_value_bound(bytes: Seq<u8>)
    requires
        all_hex(bytes),
    ensures
        hex_value(bytes) < hex_span(bytes.len()),
    decreases bytes.len(),
{
    if bytes.len() > 0 {
        assert(hex_digit(bytes[bytes.len() - 1]) is Some);
        lemma_hex_value_bound(bytes.drop_last());
    }
}

/// The three bytes of a colour, each a multiplier in 255ths.
fn tint_of(value: u32) -> (tint: Tint)
    ensures
        tint == fixed_tint(value),
{
    let red = (value >> 16) & 0xFF;
    let green = (value >> 8) & 0xFF;
    let blue = value & 0xFF;
    assert((value >> 16) & 0xFF < 256 && (value >> 8) & 0xFF < 256 && value & 0xFF < 256)
        by (bit_vector);
    Tint::Fixed { red: red as u8, green: green as u8, blue: blue as u8 }
}

/// Reads a colour of one to six hexadecimal digits.
fn parse_hex(bytes: &[u8]) -> (tint: Result<Tint, ColorError>)
    ensures
        tint == parsed_hex(bytes@),
{
    let n = bytes.len();
    if n > MAX_COLOR_DIGITS {
        return Err(ColorError::TooLong);
    }
    if n == 0 {
        return Err(ColorError::Empty);
    }
    let mut value: u32 = 0;
    let mut i: usize = 0;
    while i < n
        invariant
            n == bytes@.len(),
            n <= MAX_COLOR_DIGITS,
            i <= n,
            all_hex(bytes@.take(i as int)),
            value == hex_value(bytes@.take(i as int)),
            value < hex_span(i as nat),
        decreases n - i,
    {
        let ghost seen = bytes@.take(i as int);
        let ghost more = bytes@.take(i + 1);
        assert(more.drop_last() =~= seen);
        assert(more.last() == bytes@[i as int]);
        match hex_digit_of(bytes[i]) {
            None => {
                assert(hex_digit(bytes@[i as int]) is None);
                return Err(ColorError::InvalidDigit);
            },
            Some(digit) => {
                assert(hex_span(6) == 16777216) by {
                    reveal_with_fuel(hex_span, 7);
                }
                assert(hex_span((i + 1) as nat) <= hex_span(6)) by {
                    reveal_with_fuel(hex_span, 7);
                }
                assert(all_hex(more)) by {
                    assert forall|k: int| 0 <= k < more.len() implies hex_digit(
                        #[trigger] more[k],
                    ) is Some by {
                        if k < i {
                            assert(more[k] == seen[k]);
                        }
                    }
                }
                value = value * 16 + digit;
            },
        }
        i += 1;
    }
    assert(bytes@.take(n as int) =~= bytes@);
    Ok(tint_of(value))
}

/// Reads a colour setting from its text and the text's upper-case form.
pub fn tint_named(text: &str, upper: &str) -> (tint: Result<Tint, ColorError>)
    ensures
        tint == named_tint(text@, upper@),
{
    let color = parse_hex(text.as_bytes());
    if color.is_ok() {
        return color;
    }
    let given = upper.to_owned();
    let token = "RAINBOW".to_owned();
    proof {
        reveal_strlit("RAINBOW");
        assert("RAINBOW"@ =~= rainbow_token());
    }
    if given == token {
        Ok(Tint::Rainbow)
    } else {
        color
    }
}

/// Reads the colour setting of a clock animation.
pub fn parse_clock_color(clock_color: Option<&str>) -> (tint: Result<Tint, ColorError>)
    ensures
        tint == parsed_color(
            match clock_color {
                Some(text) => Some(text@),
                None => None,
            },
        ),
{
    match clock_color {
        None => Ok(Tint::Clear),
        Some(text) => {
            let upper = text.to_uppercase();
            tint_named(text, upper.as_str())
        },
    }
}

/// The rainbow tint is the colour of full saturation and value whose hue
/// is the slot's share of the cycle. Counting the hue in sixths of a turn,
/// it has gone through `6 * slot / TOTAL_CYCLE_MS` of them. In each sixth
/// one channel is one and one is zero; the third rises from zero to one in
/// the even sixths and falls from one to zero in the odd ones, by the
/// fraction of the sixth that has passed.
pub proof fn lemma_rainbow_follows_hue(slot: int)
    requires
        0 <= slot < TOTAL_CYCLE_MS,
    ensures
        ({
            let factor = rainbow_factor(slot);
            let sixth = slot / (SEXTANT_MS as int);
            let passed = 6 * slot - sixth * TOTAL_CYCLE_MS;
            let moving = if sixth == 0 || sixth == 3 {
                factor.green
            } else if sixth == 1 || sixth == 4 {
                factor.red
            } else {
                factor.blue
            };
            &&& factor.wf()
            &&& 0 <= sixth < 6
            &&& sixth * TOTAL_CYCLE_MS <= 6 * slot < (sixth + 1) * TOTAL_CYCLE_MS
            &&& factor.red == factor.scale || factor.green == factor.scale || factor.blue
                == factor.scale
            &&& factor.red == 0 || factor.green == 0 || factor.blue == 0
            &&& sixth % 2 == 0 ==> moving * TOTAL_CYCLE_MS == passed * factor.scale
            &&& sixth % 2 == 1 ==> (factor.scale - moving) * TOTAL_CYCLE_MS == passed
                * factor.scale
        }),
{
    let total = TOTAL_CYCLE_MS as int;
    let scale = SEXTANT_MS as int;
    let sixth = slot / scale;
    let rise = slot % scale;
    let passed = 6 * slot - sixth * total;
    assert(sixth * total == sixth * 43_200_000 && (sixth + 1) * total == sixth * 43_200_000
        + 43_200_000) by (nonlinear_arith)
        requires
            total == 43_200_000,
    ;
    assert(passed == 6 * rise);
    assert(rise * total == passed * scale && (scale - (scale - rise)) * total == passed * scale)
        by (nonlinear_arith)
        requires
            total == 43_200_000,
            scale == 7_200_000,
            passed == 6 * rise,
    ;
}

/// A colour setting of one to six hexadecimal digits is a fixed tint,
/// whatever its upper-case form. The bytes of the text are its characters,
/// and the tint is that of the number they write.
pub proof fn lemma_hex_text_is_fixed_tint(text: Seq<char>)
    requires
        1 <= text.len() <= MAX_COLOR_DIGITS,
        forall|i: int| 0 <= i < text.len() ==> hex_char(#[trigger] text[i]),
    ensures
        encode_utf8(text).len() == text.len(),
        all_hex(encode_utf8(text)),
        hex_value(encode_utf8(text)) <= 0xFF_FFFF,
        parsed_color(Some(text)) == Ok::<Tint, ColorError>(
            fixed_tint(hex_value(encode_utf8(text)) as u32),
        ),
{
    let bytes = encode_utf8(text);
    assert(is_ascii_chars(text)) by {
        assert forall|i: int| 0 <= i < text.len() implies '\0' <= #[trigger] text[i]
            <= '\u{7f}' by {
            assert(hex_char(text[i]));
        }
    }
    is_ascii_chars_encode_utf8(text);
    assert forall|i: int| 0 <= i < bytes.len() implies hex_digit(#[trigger] bytes[i]) is Some by {
        assert(hex_char(text[i]));
        assert(text[i] as u8 == bytes[i]);
    }
    lemma_hex_color_multipliers(bytes, 0);
}

/// A colour of one to six hexadecimal digits is read as a fixed tint. Its
/// multipliers are the three bytes of the number that the digits write,
/// each over 255, and so lie between zero and one.
pub proof fn lemma_hex_color_multipliers(bytes: Seq<u8>, slot: int)
    requires
        1 <= bytes.len() <= MAX_COLOR_DIGITS,
        all_hex(bytes),
    ensures
        hex_value(bytes) <= 0xFF_FFFF,
        parsed_hex(bytes) == Ok::<Tint, ColorError>(fixed_tint(hex_value(bytes) as u32)),
        ({
            let value = hex_value(bytes) as u32;
            let factor = TintFactor {
                red: (value >> 16) & 0xFF,
                green: (value >> 8) & 0xFF,
                blue: value & 0xFF,
                scale: 255,
            };
            &&& fixed_tint(value).factor_at(slot) == Some(factor)
            &&& factor.wf()
        }),
{
    lemma_hex_value_bound(bytes);
    assert(hex_span(bytes.len()) <= 0x100_0000) by {
        reveal_with_fuel(hex_span, 7);
    }
    let value = hex_value(bytes) as u32;
    assert((value >> 16) & 0xFF < 256 && (value >> 8) & 0xFF < 256 && value & 0xFF < 256)
        by (bit_vector);
}

} // verus!
