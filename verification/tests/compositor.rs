use backdrop::compositor::{composite, BYTES_PER_PIXEL, OPAQUE};
use backdrop::tint::{Tint, TintFactor};

fn sample_frame() -> Vec<u8> {
    vec![
        255, 255, 255, 255, // white
        200, 100, 50, 0, // clear
        1, 2, 3, 4,
        0, 0, 0, 128,
    ]
}

#[test]
fn pixels_are_four_bytes() {
    assert_eq!(BYTES_PER_PIXEL, 4);
    assert_eq!(OPAQUE, 255);
}

#[test]
fn without_tint_the_frame_is_copied() {
    let frame = sample_frame();
    let mut output = vec![9u8; frame.len()];
    composite(&mut output, &frame, None);
    assert_eq!(output, frame);
}

#[test]
fn without_tint_alpha_is_kept() {
    let frame = vec![10, 20, 30, 0, 40, 50, 60, 127];
    let mut output = vec![0u8; 8];
    composite(&mut output, &frame, Tint::Clear.factor(0));
    assert_eq!(output, vec![10, 20, 30, 0, 40, 50, 60, 127]);
}

#[test]
fn white_tint_keeps_colors_and_sets_alpha() {
    let frame = sample_frame();
    let mut output = vec![0u8; frame.len()];
    let white = Tint::Fixed { red: 255, green: 255, blue: 255 };
    composite(&mut output, &frame, white.factor(0));
    assert_eq!(
        output,
        vec![255, 255, 255, 255, 200, 100, 50, 255, 1, 2, 3, 255, 0, 0, 0, 255]
    );
}

#[test]
fn black_tint_clears_colors_and_sets_alpha() {
    let frame = sample_frame();
    let mut output = vec![7u8; frame.len()];
    let black = Tint::Fixed { red: 0, green: 0, blue: 0 };
    composite(&mut output, &frame, black.factor(0));
    assert_eq!(
        output,
        vec![0, 0, 0, 255, 0, 0, 0, 255, 0, 0, 0, 255, 0, 0, 0, 255]
    );
}

#[test]
fn fixed_tint_multiplies_and_cuts_off() {
    let frame = vec![255, 255, 255, 10, 200, 100, 50, 20, 1, 2, 3, 30];
    let mut output = vec![0u8; frame.len()];
    let tint = Tint::Fixed { red: 255, green: 128, blue: 64 };
    composite(&mut output, &frame, tint.factor(0));
    // 255 * 128 / 255 = 128, 255 * 64 / 255 = 64,
    // 100 * 128 / 255 = 50.19.., 50 * 64 / 255 = 12.54..,
    // 2 * 128 / 255 = 1.003.., 3 * 64 / 255 = 0.75..
    assert_eq!(output, vec![255, 128, 64, 255, 200, 50, 12, 255, 1, 1, 0, 255]);
}

#[test]
fn each_channel_has_its_own_multiplier() {
    let frame = vec![100, 100, 100, 100];
    let mut output = vec![0u8; 4];
    composite(
        &mut output,
        &frame,
        Some(TintFactor { red: 1, green: 2, blue: 3, scale: 4 }),
    );
    assert_eq!(output, vec![25, 50, 75, 255]);
}

#[test]
fn products_are_cut_off_not_rounded() {
    let frame = vec![3, 3, 3, 0, 199, 199, 199, 0];
    let mut output = vec![0u8; 8];
    composite(
        &mut output,
        &frame,
        Some(TintFactor { red: 1, green: 2, blue: 99, scale: 100 }),
    );
    // 0.03, 0.06, 2.97; 1.99, 3.98, 197.01
    assert_eq!(output, vec![0, 0, 2, 255, 1, 3, 197, 255]);
}

#[test]
fn rainbow_tint_at_slot_zero_keeps_red_only() {
    let frame = sample_frame();
    let mut output = vec![0u8; frame.len()];
    composite(&mut output, &frame, Tint::Rainbow.factor(0));
    assert_eq!(
        output,
        vec![255, 0, 0, 255, 200, 0, 0, 255, 1, 0, 0, 255, 0, 0, 0, 255]
    );
}

#[test]
fn rainbow_tint_at_half_cycle_keeps_green_and_blue() {
    let frame = sample_frame();
    let mut output = vec![0u8; frame.len()];
    composite(&mut output, &frame, Tint::Rainbow.factor(21_600_000));
    assert_eq!(
        output,
        vec![0, 255, 255, 255, 0, 100, 50, 255, 0, 2, 3, 255, 0, 0, 0, 255]
    );
}

#[test]
fn rainbow_tint_between_corners() {
    let frame = vec![200, 100, 50, 0];
    let mut output = vec![0u8; 4];
    // A quarter of the way from red to yellow: green at 0.25.
    composite(&mut output, &frame, Tint::Rainbow.factor(1_800_000));
    assert_eq!(output, vec![200, 25, 0, 255]);
    // One step of 100 ms into the cycle: green at 100 / 7200000.
    composite(&mut output, &frame, Tint::Rainbow.factor(100));
    assert_eq!(output, vec![200, 0, 0, 255]);
}

#[test]
fn fixed_tint_agrees_with_multiplying_by_the_byte_over_255() {
    for byte in 0..=255u8 {
        let tint = Tint::Fixed { red: byte, green: byte, blue: byte };
        for value in 0..=255u8 {
            let frame = vec![value, value, value, value];
            let mut output = vec![0u8; 4];
            composite(&mut output, &frame, tint.factor(0));
            let expected = (value as f32 * (byte as f32 / 255.0)) as u8;
            assert_eq!(output, vec![expected, expected, expected, 255]);
        }
    }
}

#[test]
fn empty_frame_gives_empty_output() {
    let frame: Vec<u8> = Vec::new();
    let mut output: Vec<u8> = Vec::new();
    composite(&mut output, &frame, None);
    assert!(output.is_empty());
    composite(&mut output, &frame, Tint::Rainbow.factor(5));
    assert!(output.is_empty());
}

#[test]
fn a_buffer_that_ends_inside_a_pixel_is_handled_byte_by_byte() {
    let frame = vec![10, 20, 30, 40, 50, 60];
    let mut output = vec![0u8; 6];
    composite(
        &mut output,
        &frame,
        Some(TintFactor { red: 1, green: 1, blue: 1, scale: 2 }),
    );
    assert_eq!(output, vec![5, 10, 15, 255, 25, 30]);
}
