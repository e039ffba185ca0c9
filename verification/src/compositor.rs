//! The compositor: writes a frame into the output buffer, as it is or with
//! each colour channel multiplied by the tint.
//!
//! Buffers hold pixels row by row without padding, four bytes to a pixel in
//! the order red, green, blue, alpha.

use crate::tint::{Tint, TintFactor};
use vstd::prelude::*;

verus! {

/// Bytes in one pixel.
pub const BYTES_PER_PIXEL: usize = 4;

/// The alpha of a pixel that lets nothing through.
pub const OPAQUE: u8 = 255;

/// A channel value multiplied by the fraction `part / scale`, with what is
/// left after the point cut off.
pub open spec fn scaled(value: u8, part: u32, scale: u32) -> int {
    (value * part) / (scale as int)
}

/// The byte that belongs at place `i` of the output: under a tint, the
/// scaled channel of the frame, or full opacity in place of its alpha;
/// without one, the frame's own byte.
pub open spec fn composited_byte(frame: Seq<u8>, tint: Option<TintFactor>, i: int) -> u8 {
    match tint {
        None => frame[i],
        Some(factor) => if i % 4 == 3 {
            OPAQUE
        } else if i % 4 == 0 {
            scaled(frame[i], factor.red, factor.scale) as u8
        } else if i % 4 == 1 {
            scaled(frame[i], factor.green, factor.scale) as u8
        } else {
            scaled(frame[i], factor.blue, factor.scale) as u8
        },
    }
}

/// The output for a frame under a tint.
pub open spec fn composited(frame: Seq<u8>, tint: Option<TintFactor>) -> Seq<u8> {
    Seq::new(frame.len(), |i: int| composited_byte(frame, tint, i))
}

/// A channel multiplied by a fraction of at most one is no more than the
/// channel, and is the channel itself when the fraction is one.
pub proof fn lemma_scaled_bounds(value: u8, part: u32, scale: u32)
    requires
        0 < scale,
        part <= scale,
    ensures
        0 <= scaled(value, part, scale) <= value,
        part == scale ==> scaled(value, part, scale) == value,
        part == 0 ==> scaled(value, part, scale) == 0,
{
    let v = value as int;
    let p = part as int;
    let s = scale as int;
    assert(0 <= (v * p) / s <= v) by (nonlinear_arith)
        requires
            0 <= v,
            0 <= p <= s,
            0 < s,
    ;
    assert(p == s ==> (v * p) / s == v) by (nonlinear_arith)
        requires
            0 <= v,
            0 < s,
    ;
    assert(p == 0 ==> (v * p) / s == 0) by (nonlinear_arith)
        requires
            0 < s,
    ;
}

/// Without a tint the output is the frame, byte for byte.
pub proof fn lemma_untinted_is_copy(frame: Seq<u8>)
    ensures
        composited(frame, None) == frame,
{
    assert(composited(frame, None) =~= frame);
}

/// Under a tint whose three multipliers are one, the colour channels come
/// out as they went in and every alpha is fully opaque, whatever it was in
/// the frame.
pub proof fn lemma_unit_tint_keeps_colors(frame: Seq<u8>, factor: TintFactor)
    requires
        factor.scale > 0,
        factor.red == factor.scale,
        factor.green == factor.scale,
        factor.blue == factor.scale,
    ensures
        composited(frame, Some(factor)).len() == frame.len(),
        forall|i: int|
            0 <= i < frame.len() ==> #[trigger] composited(frame, Some(factor))[i] == (if i % 4
                == 3 {
                OPAQUE
            } else {
                frame[i]
            }),
{
    assert forall|i: int| 0 <= i < frame.len() implies #[trigger] composited(
        frame,
        Some(factor),
    )[i] == (if i % 4 == 3 {
        OPAQUE
    } else {
        frame[i]
    }) by {
        lemma_scaled_bounds(frame[i], factor.scale, factor.scale);
    }
}

/// Under the fixed tint of white, whose three bytes are 255, the colour
/// channels come out as they went in and every alpha is fully opaque.
pub proof fn lemma_white_tint_keeps_colors(frame: Seq<u8>, slot: int)
    ensures
        ({
            let white = Tint::Fixed { red: 255, green: 255, blue: 255 };
            let output = composited(frame, white.factor_at(slot));
            &&& output.len() == frame.len()
            &&& forall|i: int|
                0 <= i < frame.len() ==> #[trigger] output[i] == (if i % 4 == 3 {
                    OPAQUE
                } else {
                    frame[i]
                })
        }),
{
    let white = Tint::Fixed { red: 255, green: 255, blue: 255 };
    lemma_unit_tint_keeps_colors(frame, white.factor_at(slot).unwrap());
}

/// One colour channel under its multiplier.
fn scale_channel(value: u8, part: u32, scale: u32) -> (out: u8)
    requires
        0 < scale,
        part <= scale,
    ensures
        out == scaled(value, part, scale),
{
    proof {
        lemma_scaled_bounds(value, part, scale);
    }
    assert(value * part <= 255 * 0xFFFF_FFFF) by (nonlinear_arith)
        requires
            value <= 255,
            part <= 0xFFFF_FFFF,
    ;
    let product: u64 = value as u64 * part as u64;
    (product / scale as u64) as u8
}

/// Writes a frame into the output buffer. Without a tint the frame is
/// copied. Under a tint each colour channel is multiplied by its
/// multiplier and cut off to a whole number, and every alpha is set fully
/// opaque.
pub fn composite(output: &mut [u8], frame: &[u8], tint: Option<TintFactor>)
    requires
        old(output)@.len() == frame@.len(),
        tint matches Some(factor) ==> factor.wf(),
    ensures
        final(output)@ == composited(frame@, tint),
        tint is None ==> final(output)@ == frame@,
{
    let n = frame.len();
    let mut i: usize = 0;
    while i < n
        invariant
            n == frame@.len(),
            output@.len() == n,
            i <= n,
            tint matches Some(factor) ==> factor.wf(),
            forall|k: int| 0 <= k < i ==> output@[k] == composited_byte(frame@, tint, k),
        decreases n - i,
    {
        let byte = match tint {
            None => frame[i],
            Some(factor) => {
                let channel = i % BYTES_PER_PIXEL;
                if channel == 3 {
                    OPAQUE
                } else if channel == 0 {
                    scale_channel(frame[i], factor.red, factor.scale)
                } else if channel == 1 {
                    scale_channel(frame[i], factor.green, factor.scale)
                } else {
                    scale_channel(frame[i], factor.blue, factor.scale)
                }
            },
        };
        output[i] = byte;
        i += 1;
    }
    assert(output@ =~= composited(frame@, tint));
    proof {
        if tint is None {
            lemma_untinted_is_copy(frame@);
        }
    }
}

} // verus!
