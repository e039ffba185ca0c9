use backdrop::command::{Command, CommandError};
use backdrop::control::{apply_poll, ChannelPoll, Control, ControlError};
use backdrop::frame::SourceImage;
use backdrop::render::BackgroundRenderer;
use backdrop::tint::{ColorError, Tint};
use std::path::PathBuf;

fn clock_message(color: Option<&str>) -> Command {
    Command::ClockImage {
        dir: PathBuf::from("dir"),
        file_template: String::from("frame_%m.png"),
        clock_step: 100,
        clock_color: color.map(String::from),
    }
}

fn showing_a_picture() -> BackgroundRenderer {
    BackgroundRenderer::StaticImage { pixels: vec![3u8; 16] }
}

fn is_the_picture(renderer: &BackgroundRenderer) -> bool {
    matches!(renderer, BackgroundRenderer::StaticImage { pixels } if *pixels == vec![3u8; 16])
}

#[test]
fn no_message_changes_nothing() {
    let mut renderer = showing_a_picture();
    assert_eq!(apply_poll(&mut renderer, ChannelPoll::Pending, None, 2, 2), Control::Continue);
    assert!(is_the_picture(&renderer));
}

#[test]
fn channel_failure_ends_the_loop() {
    let mut renderer = showing_a_picture();
    assert_eq!(
        apply_poll(&mut renderer, ChannelPoll::Failed, None, 2, 2),
        Control::Fail(ControlError::Channel)
    );
    assert!(is_the_picture(&renderer));
}

#[test]
fn malformed_message_ends_the_loop() {
    let mut renderer = showing_a_picture();
    assert_eq!(
        apply_poll(&mut renderer, ChannelPoll::Malformed, None, 2, 2),
        Control::Fail(ControlError::Malformed)
    );
    assert!(is_the_picture(&renderer));
}

#[test]
fn stop_ends_the_loop() {
    let mut renderer = showing_a_picture();
    assert_eq!(
        apply_poll(&mut renderer, ChannelPoll::Message(Command::Stop), None, 2, 2),
        Control::Stop
    );
    assert!(is_the_picture(&renderer));
}

#[test]
fn clock_image_replaces_the_renderer() {
    let mut renderer = showing_a_picture();
    let poll = ChannelPoll::Message(clock_message(Some("FF0000")));
    assert_eq!(apply_poll(&mut renderer, poll, None, 2, 2), Control::Continue);
    match &renderer {
        BackgroundRenderer::ClockImage { cache, tint, dirty, .. } => {
            assert!(cache.is_empty());
            assert_eq!(*tint, Tint::Fixed { red: 255, green: 0, blue: 0 });
            assert!(!*dirty);
        }
        other => panic!("{:?}", other),
    }
}

#[test]
fn a_new_clock_image_drops_the_frames_of_the_old() {
    let mut renderer = BackgroundRenderer::Empty;
    let poll = ChannelPoll::Message(clock_message(None));
    assert_eq!(apply_poll(&mut renderer, poll, None, 2, 2), Control::Continue);
    assert!(renderer.accept(500, vec![0u8; 16]));
    let poll = ChannelPoll::Message(clock_message(None));
    assert_eq!(apply_poll(&mut renderer, poll, None, 2, 2), Control::Continue);
    match &renderer {
        BackgroundRenderer::ClockImage { cache, dirty, .. } => {
            assert!(cache.is_empty());
            assert!(!*dirty);
        }
        other => panic!("{:?}", other),
    }
}

#[test]
fn malformed_color_clears_the_display_and_ends_the_loop() {
    let mut renderer = showing_a_picture();
    let poll = ChannelPoll::Message(clock_message(Some("GGGGGG")));
    assert_eq!(
        apply_poll(&mut renderer, poll, None, 2, 2),
        Control::Fail(ControlError::Command(CommandError::Color(ColorError::InvalidDigit)))
    );
    assert!(matches!(renderer, BackgroundRenderer::Empty));
}

#[test]
fn static_image_replaces_the_renderer() {
    let mut renderer = BackgroundRenderer::Empty;
    let source = SourceImage::new(2, 2, vec![8u8; 16]).unwrap();
    let poll = ChannelPoll::Message(Command::StaticImage { path: PathBuf::from("a.png") });
    assert_eq!(apply_poll(&mut renderer, poll, Some(&source), 2, 2), Control::Continue);
    assert!(matches!(&renderer, BackgroundRenderer::StaticImage { pixels } if *pixels == vec![8u8; 16]));
}

#[test]
fn static_image_without_its_image_ends_the_loop() {
    let mut renderer = showing_a_picture();
    let poll = ChannelPoll::Message(Command::StaticImage { path: PathBuf::from("a.png") });
    assert_eq!(
        apply_poll(&mut renderer, poll, None, 2, 2),
        Control::Fail(ControlError::Command(CommandError::MissingImage))
    );
    assert!(matches!(renderer, BackgroundRenderer::Empty));
}

#[test]
fn start_sent_to_a_running_renderer_is_passed_over() {
    let mut renderer = showing_a_picture();
    let start = Command::Start { width: 2, height: 2, window_class: String::from("desk") };
    assert_eq!(apply_poll(&mut renderer, ChannelPoll::Message(start), None, 2, 2), Control::Continue);
    assert!(is_the_picture(&renderer));
}
