use backdrop::cache::PRE_BUFFERED_IMAGES;
use backdrop::command::Command;
use backdrop::frame::SourceImage;
use backdrop::render::{BackgroundRenderer, RenderStep};
use backdrop::tint::Tint;
use std::path::PathBuf;

const WIDTH: u32 = 2;
const HEIGHT: u32 = 2;
const LEN: usize = 16;

fn clock(step: u32, color: Option<&str>) -> BackgroundRenderer {
    let command = Command::ClockImage {
        dir: PathBuf::from("dir"),
        file_template: String::from("frame_%m.png"),
        clock_step: step,
        clock_color: color.map(String::from),
    };
    command.into_renderer(None, WIDTH, HEIGHT).unwrap()
}

/// An image of the size of the output whose every byte is `tag`.
fn image(tag: u8) -> SourceImage {
    SourceImage::new(WIDTH, HEIGHT, vec![tag; LEN]).unwrap()
}

/// Takes steps, delivering for each frame asked for an image tagged with
/// the hour and the low digits of its slot, until a step asks for nothing.
/// Returns the last step and the slots asked for.
fn settle(
    renderer: &mut BackgroundRenderer,
    output: &mut [u8],
    slot: u32,
) -> (RenderStep, Vec<u32>) {
    let mut asked = Vec::new();
    loop {
        match renderer.render(output, WIDTH, HEIGHT, slot) {
            RenderStep::Load(request) => {
                asked.push(request.slot);
                assert!(renderer.deliver(request.slot, &image(tag_of(request.slot)), WIDTH, HEIGHT));
            }
            step => return (step, asked),
        }
    }
}

fn tag_of(slot: u32) -> u8 {
    ((slot / 100) % 200) as u8 + 1
}

#[test]
fn empty_renderer_leaves_the_output_alone() {
    let mut renderer = BackgroundRenderer::Empty;
    let mut output = vec![7u8; LEN];
    assert!(matches!(renderer.render(&mut output, WIDTH, HEIGHT, 0), RenderStep::Idle));
    assert_eq!(output, vec![7u8; LEN]);
    assert!(matches!(renderer, BackgroundRenderer::Empty));
    assert_eq!(renderer.step_ms(), None);
    assert!(renderer.fits(WIDTH, HEIGHT));
    assert!(renderer.fits(100, 100));
}

#[test]
fn static_image_is_written_to_the_output() {
    let pixels: Vec<u8> = (0..LEN as u8).collect();
    let mut renderer = BackgroundRenderer::StaticImage { pixels: pixels.clone() };
    let mut output = vec![0u8; LEN];
    assert!(renderer.fits(WIDTH, HEIGHT));
    assert!(!renderer.fits(WIDTH, HEIGHT + 1));
    assert!(matches!(renderer.render(&mut output, WIDTH, HEIGHT, 0), RenderStep::Drawn));
    assert_eq!(output, pixels);
    output[3] = 99;
    assert!(matches!(renderer.render(&mut output, WIDTH, HEIGHT, 500), RenderStep::Drawn));
    assert_eq!(output, pixels);
    assert_eq!(renderer.step_ms(), None);
}

#[test]
fn static_image_of_the_size_of_the_output_is_shown_exactly() {
    let white = SourceImage::new(4, 4, vec![255u8; 64]).unwrap();
    let command = Command::StaticImage { path: PathBuf::from("a.png") };
    let mut renderer = command.into_renderer(Some(&white), 4, 4).unwrap();
    let mut output = vec![0u8; 64];
    assert!(matches!(renderer.render(&mut output, 4, 4, 0), RenderStep::Drawn));
    assert_eq!(output, vec![255u8; 64]);
}

#[test]
fn static_image_of_another_size_is_scaled() {
    let white = SourceImage::new(2, 2, vec![255u8; 16]).unwrap();
    let command = Command::StaticImage { path: PathBuf::from("a.png") };
    let mut renderer = command.into_renderer(Some(&white), 4, 4).unwrap();
    match &renderer {
        BackgroundRenderer::StaticImage { pixels } => assert_eq!(pixels.len(), 64),
        other => panic!("{:?}", other),
    }
    let mut output = vec![0u8; 64];
    assert!(matches!(renderer.render(&mut output, 4, 4, 0), RenderStep::Drawn));
    assert_eq!(output, vec![255u8; 64]);
}

#[test]
fn scaling_down_averages_the_pixels() {
    // Left half black, right half white, both opaque.
    let mut bytes = Vec::new();
    for _row in 0..4 {
        for column in 0..4 {
            let value = if column < 2 { 0 } else { 255 };
            bytes.extend_from_slice(&[value, value, value, 255]);
        }
    }
    let source = SourceImage::new(4, 4, bytes).unwrap();
    let command = Command::StaticImage { path: PathBuf::from("a.png") };
    let renderer = command.into_renderer(Some(&source), 1, 1).unwrap();
    match renderer {
        BackgroundRenderer::StaticImage { pixels } => {
            assert_eq!(pixels.len(), 4);
            assert!(pixels[0] > 100 && pixels[0] < 155);
            assert_eq!(pixels[0], pixels[1]);
            assert_eq!(pixels[1], pixels[2]);
            assert_eq!(pixels[3], 255);
        }
        other => panic!("{:?}", other),
    }
}

#[test]
fn clock_asks_for_the_frame_of_the_current_slot_first() {
    let mut renderer = clock(100, None);
    let mut output = vec![7u8; LEN];
    match renderer.render(&mut output, WIDTH, HEIGHT, 12_345_700) {
        RenderStep::Load(request) => {
            assert_eq!(request.slot, 12_345_700);
            assert_eq!(request.file, "3/frame_12345700.png");
            assert_eq!(request.path, PathBuf::from("dir/3/frame_12345700.png"));
        }
        other => panic!("{:?}", other),
    }
    assert_eq!(output, vec![7u8; LEN]);
    assert_eq!(renderer.step_ms(), Some(100));
}

#[test]
fn clock_asks_again_until_the_frame_is_delivered() {
    let mut renderer = clock(100, None);
    let mut output = vec![7u8; LEN];
    for _ in 0..3 {
        match renderer.render(&mut output, WIDTH, HEIGHT, 500) {
            RenderStep::Load(request) => assert_eq!(request.slot, 500),
            other => panic!("{:?}", other),
        }
    }
    assert_eq!(output, vec![7u8; LEN]);
}

#[test]
fn clock_loads_its_window_then_draws_the_current_frame() {
    let mut renderer = clock(100, None);
    let mut output = vec![0u8; LEN];
    let (step, asked) = settle(&mut renderer, &mut output, 12_345_700);
    assert!(matches!(step, RenderStep::Drawn));
    let expected: Vec<u32> = (0..PRE_BUFFERED_IMAGES as u32).map(|i| 12_345_700 + 100 * i).collect();
    assert_eq!(asked, expected);
    assert_eq!(output, vec![tag_of(12_345_700); LEN]);
    match &renderer {
        BackgroundRenderer::ClockImage { cache, dirty, tint, .. } => {
            assert_eq!(cache.len(), PRE_BUFFERED_IMAGES);
            assert_eq!(cache.shown_slot(), 12_345_700);
            assert_eq!(cache.slot_at(0), 12_346_600);
            assert!(!*dirty);
            assert_eq!(*tint, Tint::Clear);
        }
        other => panic!("{:?}", other),
    }
}

#[test]
fn clock_without_tint_rests_while_the_slot_stays() {
    let mut renderer = clock(100, None);
    let mut output = vec![0u8; LEN];
    settle(&mut renderer, &mut output, 500);
    output[0] = 99;
    let (step, asked) = settle(&mut renderer, &mut output, 500);
    assert!(matches!(step, RenderStep::Idle));
    assert!(asked.is_empty());
    assert_eq!(output[0], 99);
}

#[test]
fn clock_moves_on_with_the_slot() {
    let mut renderer = clock(100, None);
    let mut output = vec![0u8; LEN];
    settle(&mut renderer, &mut output, 500);
    let (step, asked) = settle(&mut renderer, &mut output, 600);
    assert!(matches!(step, RenderStep::Drawn));
    assert_eq!(asked, vec![1500]);
    assert_eq!(output, vec![tag_of(600); LEN]);
    let (step, asked) = settle(&mut renderer, &mut output, 900);
    assert!(matches!(step, RenderStep::Drawn));
    assert_eq!(asked, vec![1600, 1700, 1800]);
    assert_eq!(output, vec![tag_of(900); LEN]);
}

#[test]
fn clock_starts_over_after_a_jump() {
    let mut renderer = clock(100, None);
    let mut output = vec![0u8; LEN];
    settle(&mut renderer, &mut output, 500);
    let (step, asked) = settle(&mut renderer, &mut output, 40_000_000);
    assert!(matches!(step, RenderStep::Drawn));
    assert_eq!(asked.len(), PRE_BUFFERED_IMAGES);
    assert_eq!(asked[0], 40_000_000);
    assert_eq!(output, vec![tag_of(40_000_000); LEN]);
}

#[test]
fn clock_wraps_at_the_end_of_the_cycle() {
    let mut renderer = clock(100, None);
    let mut output = vec![0u8; LEN];
    let (_, asked) = settle(&mut renderer, &mut output, 43_199_900);
    assert_eq!(asked[0], 43_199_900);
    assert_eq!(asked[1], 0);
    assert_eq!(asked[9], 800);
    match renderer.render(&mut output, WIDTH, HEIGHT, 0) {
        RenderStep::Load(request) => {
            assert_eq!(request.slot, 900);
            assert_eq!(request.file, "0/frame_00000900.png");
        }
        other => panic!("{:?}", other),
    }
}

#[test]
fn clock_keeps_its_frames_when_a_load_fails() {
    let mut renderer = clock(100, None);
    let mut output = vec![7u8; LEN];
    for expected in [500u32, 600, 700] {
        match renderer.render(&mut output, WIDTH, HEIGHT, 500) {
            RenderStep::Load(request) => {
                assert_eq!(request.slot, expected);
                assert!(renderer.deliver(request.slot, &image(1), WIDTH, HEIGHT));
            }
            other => panic!("{:?}", other),
        }
    }
    // The driver gives up here. Nothing was drawn and three frames stay.
    assert_eq!(output, vec![7u8; LEN]);
    match &renderer {
        BackgroundRenderer::ClockImage { cache, dirty, .. } => {
            assert_eq!(cache.len(), 3);
            assert!(*dirty);
        }
        other => panic!("{:?}", other),
    }
}

#[test]
fn fixed_tint_is_applied_to_the_frame() {
    let mut renderer = clock(100, Some("FF8000"));
    let mut output = vec![0u8; LEN];
    let (step, _) = settle(&mut renderer, &mut output, 500);
    assert!(matches!(step, RenderStep::Drawn));
    let value = tag_of(500) as u32;
    let pixel = [value as u8, (value * 128 / 255) as u8, 0, 255];
    assert_eq!(output, pixel.repeat(4));
    let (step, _) = settle(&mut renderer, &mut output, 500);
    assert!(matches!(step, RenderStep::Idle));
}

#[test]
fn rainbow_is_drawn_at_every_step() {
    let mut renderer = clock(100, Some("rainbow"));
    let mut output = vec![0u8; LEN];
    let (step, _) = settle(&mut renderer, &mut output, 0);
    assert!(matches!(step, RenderStep::Drawn));
    let value = tag_of(0);
    assert_eq!(output, [value, 0, 0, 255].repeat(4));
    output[0] = 99;
    let (step, asked) = settle(&mut renderer, &mut output, 0);
    assert!(matches!(step, RenderStep::Drawn));
    assert!(asked.is_empty());
    assert_eq!(output, [value, 0, 0, 255].repeat(4));
}

#[test]
fn rainbow_at_half_cycle_is_cyan_on_the_frame() {
    let mut renderer = clock(100, Some("RAINBOW"));
    let mut output = vec![0u8; LEN];
    let (step, _) = settle(&mut renderer, &mut output, 21_600_000);
    assert!(matches!(step, RenderStep::Drawn));
    let value = tag_of(21_600_000);
    assert_eq!(output, [0, value, value, 255].repeat(4));
}

#[test]
fn deliver_scales_the_image_to_the_output() {
    let mut renderer = clock(100, None);
    let mut output = vec![0u8; LEN];
    let big = SourceImage::new(4, 4, vec![200u8; 64]).unwrap();
    match renderer.render(&mut output, WIDTH, HEIGHT, 500) {
        RenderStep::Load(request) => assert!(renderer.deliver(request.slot, &big, WIDTH, HEIGHT)),
        other => panic!("{:?}", other),
    }
    match &renderer {
        BackgroundRenderer::ClockImage { cache, .. } => {
            assert_eq!(cache.current_frame(), &vec![200u8; LEN]);
        }
        other => panic!("{:?}", other),
    }
    assert!(renderer.fits(WIDTH, HEIGHT));
    assert!(!renderer.fits(4, 4));
}

#[test]
fn deliver_refuses_a_frame_that_was_not_asked_for() {
    let mut renderer = clock(100, None);
    assert!(renderer.deliver(500, &image(1), WIDTH, HEIGHT));
    assert!(!renderer.deliver(500, &image(2), WIDTH, HEIGHT));
    assert!(!renderer.deliver(800, &image(2), WIDTH, HEIGHT));
    assert!(renderer.deliver(600, &image(2), WIDTH, HEIGHT));
    match &renderer {
        BackgroundRenderer::ClockImage { cache, .. } => assert_eq!(cache.len(), 2),
        other => panic!("{:?}", other),
    }
}

#[test]
fn only_a_clock_takes_frames() {
    let mut empty = BackgroundRenderer::Empty;
    assert!(!empty.deliver(500, &image(1), WIDTH, HEIGHT));
    assert!(!empty.accept(500, vec![0; LEN]));
    let mut still = BackgroundRenderer::StaticImage { pixels: vec![0; LEN] };
    assert!(!still.deliver(500, &image(1), WIDTH, HEIGHT));
    assert!(!still.accept(500, vec![0; LEN]));
}

#[test]
fn accept_takes_a_frame_as_it_is() {
    let mut renderer = clock(100, None);
    assert!(renderer.accept(500, vec![5u8; LEN]));
    match &renderer {
        BackgroundRenderer::ClockImage { cache, dirty, .. } => {
            assert_eq!(cache.current_frame(), &vec![5u8; LEN]);
            assert_eq!(cache.shown_slot(), 500);
            assert!(*dirty);
        }
        other => panic!("{:?}", other),
    }
}

/// The pixels of a static image made from `source` for an output of
/// `width` by `height`.
fn scaled(source: &SourceImage, width: u32, height: u32) -> Vec<u8> {
    let command = Command::StaticImage { path: PathBuf::from("a.png") };
    match command.into_renderer(Some(source), width, height) {
        Ok(BackgroundRenderer::StaticImage { pixels }) => pixels,
        other => panic!("{:?}", other),
    }
}

fn plain(width: u32, height: u32, value: u8) -> SourceImage {
    SourceImage::new(width, height, vec![value; 4 * (width as usize) * (height as usize)]).unwrap()
}

#[test]
fn an_image_of_the_size_of_the_output_is_taken_byte_for_byte() {
    let bytes: Vec<u8> = (0..24u8).map(|i| i.wrapping_mul(37)).collect();
    let source = SourceImage::new(3, 2, bytes.clone()).unwrap();
    assert_eq!(scaled(&source, 3, 2), bytes);
    let mut renderer = clock(100, None);
    let same = SourceImage::new(WIDTH, HEIGHT, (100..116u8).collect()).unwrap();
    assert!(renderer.deliver(500, &same, WIDTH, HEIGHT));
    match &renderer {
        BackgroundRenderer::ClockImage { cache, .. } => {
            assert_eq!(cache.current_frame(), &(100..116u8).collect::<Vec<u8>>());
        }
        other => panic!("{:?}", other),
    }
}

#[test]
fn an_image_of_the_same_width_only_is_scaled() {
    let source = plain(3, 2, 77);
    assert_eq!(scaled(&source, 3, 5), vec![77u8; 60]);
    assert_eq!(scaled(&source, 7, 2), vec![77u8; 56]);
}

#[test]
fn widest_images_scale_across_the_limit_by_one_pixel() {
    let limit = 1u32 << 20;
    let out = scaled(&plain(limit, 1, 200), limit - 1, 1);
    assert_eq!(out.len(), 4 * (limit as usize - 1));
    assert!(out.iter().all(|&byte| byte == 200));
    let out = scaled(&plain(limit - 1, 1, 200), limit, 1);
    assert_eq!(out.len(), 4 * limit as usize);
    assert!(out.iter().all(|&byte| byte == 200));
}

#[test]
fn tallest_images_scale_across_the_limit_by_one_pixel() {
    let limit = 1u32 << 20;
    let out = scaled(&plain(1, limit, 200), 1, limit - 1);
    assert_eq!(out.len(), 4 * (limit as usize - 1));
    assert!(out.iter().all(|&byte| byte == 200));
    let out = scaled(&plain(1, limit - 1, 200), 1, limit);
    assert_eq!(out.len(), 4 * limit as usize);
    assert!(out.iter().all(|&byte| byte == 200));
}

#[test]
fn one_pixel_scales_to_the_longest_side_and_back() {
    let limit = 1u32 << 20;
    let out = scaled(&plain(1, 1, 9), limit, 1);
    assert_eq!(out.len(), 4 * limit as usize);
    assert!(out.iter().all(|&byte| byte == 9));
    assert_eq!(scaled(&plain(limit, 1, 9), 1, 1), vec![9u8; 4]);
    let out = scaled(&plain(1, 1, 9), 1, limit);
    assert!(out.iter().all(|&byte| byte == 9));
    assert_eq!(scaled(&plain(1, limit, 9), 1, 1), vec![9u8; 4]);
}

#[test]
fn the_last_pixel_of_a_long_row_keeps_its_own_colour() {
    // A row that is black but for its last pixel, widened by one pixel: the
    // last pixel of the result is weighed from the last pixels of the row.
    let limit = 1u32 << 20;
    let mut bytes = vec![0u8; 4 * (limit as usize - 1)];
    let tail = bytes.len() - 4;
    bytes[tail..].copy_from_slice(&[255, 255, 255, 255]);
    let source = SourceImage::new(limit - 1, 1, bytes).unwrap();
    let out = scaled(&source, limit, 1);
    assert!(out[out.len() - 4] > 127);
    assert_eq!(out[0], 0);
}

#[test]
fn an_output_without_pixels_gets_an_empty_frame() {
    let source = plain(2, 2, 5);
    assert!(scaled(&source, 0, 0).is_empty());
    assert!(scaled(&source, 0, 3).is_empty());
    assert!(scaled(&source, 3, 0).is_empty());
}

#[test]
fn an_image_without_pixels_scales_to_the_size_of_the_output() {
    assert_eq!(scaled(&plain(0, 0, 0), 2, 2).len(), 16);
    assert_eq!(scaled(&plain(0, 3, 0), 2, 2).len(), 16);
    assert_eq!(scaled(&plain(3, 0, 0), 2, 2).len(), 16);
    assert!(scaled(&plain(0, 0, 0), 0, 0).is_empty());
}
