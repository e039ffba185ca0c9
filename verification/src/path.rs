//! Where the frame of a time slot is kept: a directory for the hour, and
//! in it a file whose name carries the slot in place of `%m`.

use crate::clock::{MILLIS_PER_HOUR, TOTAL_CYCLE_MS};
use vstd::prelude::*;

verus! {

/// Digits that a slot is padded to in a file name.
pub const STAMP_WIDTH: usize = 8;

/// The character of a decimal digit.
pub open spec fn digit(d: int) -> char {
    ('0' as int + d) as char
}

/// A number in decimal, without sign or leading zeros.
pub open spec fn decimal(n: nat) -> Seq<char>
    decreases n,
{
    if n < 10 {
        seq![digit(n as int)]
    } else {
        decimal(n / 10).push(digit((n % 10) as int))
    }
}

/// A number in decimal, with zeros in front of it where it has fewer than
/// `width` digits.
pub open spec fn zero_padded(n: nat, width: nat) -> Seq<char> {
    let digits = decimal(n);
    if digits.len() >= width {
        digits
    } else {
        Seq::new((width - digits.len()) as nat, |i: int| '0') + digits
    }
}

/// The template with `stamp` in place of each `%m`, found from left to
/// right.
pub open spec fn substituted(template: Seq<char>, stamp: Seq<char>) -> Seq<char>
    decreases template.len(),
{
    if template.len() == 0 {
        Seq::empty()
    } else if template.len() >= 2 && template[0] == '%' && template[1] == 'm' {
        stamp + substituted(template.skip(2), stamp)
    } else {
        seq![template[0]] + substituted(template.skip(1), stamp)
    }
}

/// The hour of the cycle that a slot falls in.
pub open spec fn hour_bucket(slot: int) -> int {
    slot / (MILLIS_PER_HOUR as int)
}

/// The path of a slot's frame below the image directory: the hour, a
/// slash, and the template with the slot, padded to eight digits, in place
/// of each `%m`.
pub open spec fn frame_path(template: Seq<char>, slot: nat) -> Seq<char> {
    decimal(hour_bucket(slot as int) as nat) + seq!['/'] + substituted(
        template,
        zero_padded(slot, STAMP_WIDTH as nat),
    )
}

/// Ten to the power of `digits`.
pub open spec fn power_of_ten(digits: nat) -> nat
    decreases digits,
{
    if digits == 0 {
        1
    } else {
        10 * power_of_ten((digits - 1) as nat)
    }
}

/// A number below ten to the power of `digits` is written with no more
/// than that many digits, and with at least one.
pub proof fn lemma_decimal_len(n: nat, digits: nat)
    requires
        digits >= 1,
        n < power_of_ten(digits),
    ensures
        1 <= decimal(n).len() <= digits,
    decreases digits,
{
    reveal_with_fuel(power_of_ten, 2);
    if n >= 10 {
        lemma_decimal_len(n / 10, (digits - 1) as nat);
    }
}

/// For a slot inside the cycle the hour is one of `0` to `11`, and the
/// slot stands in the file name with exactly eight digits.
pub proof fn lemma_path_of_slot_in_cycle(slot: nat)
    requires
        slot < TOTAL_CYCLE_MS,
    ensures
        0 <= hour_bucket(slot as int) <= 11,
        1 <= decimal(hour_bucket(slot as int) as nat).len() <= 2,
        zero_padded(slot, STAMP_WIDTH as nat).len() == STAMP_WIDTH,
{
    assert(power_of_ten(8) == 100_000_000 && power_of_ten(2) == 100) by {
        reveal_with_fuel(power_of_ten, 9);
    }
    lemma_decimal_len(slot, 8);
    lemma_decimal_len(hour_bucket(slot as int) as nat, 2);
}

/// `String::push` of the standard library: the character is put at the
/// end of the text.
pub assume_specification[ String::push ](text: &mut String, ch: char)
    ensures
        final(text)@ == old(text)@.push(ch),
;

/// Appends a number in decimal.
fn push_decimal(out: &mut Vec<char>, n: u32)
    ensures
        final(out)@ == old(out)@ + decimal(n as nat),
    decreases n,
{
    if n >= 10 {
        push_decimal(out, n / 10);
    }
    let last = (n % 10) as u8;
    out.push(('0' as u8 + last) as char);
    assert(final(out)@ =~= old(out)@ + decimal(n as nat));
}

/// The number of digits of a number in decimal.
fn decimal_width(n: u32) -> (width: usize)
    ensures
        width == decimal(n as nat).len(),
        1 <= width <= n + 1,
    decreases n,
{
    if n >= 10 {
        1 + decimal_width(n / 10)
    } else {
        1
    }
}

/// A slot as it stands in a file name.
fn stamp_of(slot: u32) -> (stamp: Vec<char>)
    ensures
        stamp@ == zero_padded(slot as nat, STAMP_WIDTH as nat),
{
    let mut stamp: Vec<char> = Vec::new();
    let width = decimal_width(slot);
    let zeros: usize = if width < STAMP_WIDTH {
        STAMP_WIDTH - width
    } else {
        0
    };
    let mut i: usize = 0;
    while i < zeros
        invariant
            i <= zeros,
            stamp@ == Seq::new(i as nat, |k: int| '0'),
        decreases zeros - i,
    {
        stamp.push('0');
        i += 1;
        assert(stamp@ =~= Seq::new(i as nat, |k: int| '0'));
    }
    push_decimal(&mut stamp, slot);
    assert(stamp@ =~= zero_padded(slot as nat, STAMP_WIDTH as nat));
    stamp
}

/// The characters of a string.
fn chars_of(text: &str) -> (chars: Vec<char>)
    ensures
        chars@ == text@,
{
    let mut chars: Vec<char> = Vec::new();
    for c in it: text.chars()
        invariant
            it.seq() == text@,
            chars@ == text@.take(it.index() as int),
    {
        chars.push(c);
        assert(text@.take(it.index() + 1) =~= text@.take(it.index() as int).push(c));
    }
    assert(text@.take(text@.len() as int) =~= text@);
    chars
}

/// Appends the template with the stamp in place of each `%m`.
fn push_substituted(out: &mut Vec<char>, template: &Vec<char>, stamp: &Vec<char>)
    ensures
        final(out)@ == old(out)@ + substituted(template@, stamp@),
{
    let n = template.len();
    let mut i: usize = 0;
    assert(template@.skip(0) =~= template@);
    while i < n
        invariant
            n == template@.len(),
            i <= n,
            out@ + substituted(template@.skip(i as int), stamp@) == old(out)@ + substituted(
                template@,
                stamp@,
            ),
        decreases n - i,
    {
        let ghost rest = template@.skip(i as int);
        let ghost before = out@;
        if i + 1 < n && template[i] == '%' && template[i + 1] == 'm' {
            let mut k: usize = 0;
            while k < stamp.len()
                invariant
                    k <= stamp@.len(),
                    out@ == before + stamp@.take(k as int),
                decreases stamp@.len() - k,
            {
                out.push(stamp[k]);
                k += 1;
                assert(out@ =~= before + stamp@.take(k as int));
            }
            assert(stamp@.take(stamp@.len() as int) =~= stamp@);
            assert(rest.skip(2) =~= template@.skip(i + 2));
            assert(out@ + substituted(template@.skip(i + 2), stamp@) =~= before + substituted(
                rest,
                stamp@,
            ));
            i += 2;
        } else {
            out.push(template[i]);
            assert(rest.skip(1) =~= template@.skip(i + 1));
            assert(out@ + substituted(template@.skip(i + 1), stamp@) =~= before + substituted(
                rest,
                stamp@,
            ));
            i += 1;
        }
    }
    assert(out@ + substituted(template@.skip(n as int), stamp@) =~= out@);
}

/// The path of a slot's frame below the image directory.
pub fn clock_image_path(file_template: &str, slot: u32) -> (path: String)
    ensures
        path@ == frame_path(file_template@, slot as nat),
{
    let mut chars: Vec<char> = Vec::new();
    push_decimal(&mut chars, slot / MILLIS_PER_HOUR);
    chars.push('/');
    let template = chars_of(file_template);
    let stamp = stamp_of(slot);
    push_substituted(&mut chars, &template, &stamp);
    assert(chars@ =~= frame_path(file_template@, slot as nat));
    let mut path = String::new();
    let mut i: usize = 0;
    while i < chars.len()
        invariant
            i <= chars@.len(),
            path@ == chars@.take(i as int),
        decreases chars@.len() - i,
    {
        path.push(chars[i]);
        i += 1;
        assert(path@ =~= chars@.take(i as int));
    }
    assert(chars@.take(chars@.len() as int) =~= chars@);
    path
}

} // verus!
