//! The control channel adapter: what one look at the control channel means
//! for the renderer and for the render loop.

use crate::command::{Command, CommandError};
use crate::frame::{resizable, SourceImage};
use crate::render::BackgroundRenderer;
use vstd::prelude::*;

verus! {

/// What one look at the control channel found.
#[derive(Debug)]
pub enum ChannelPoll {
    /// No message is waiting.
    Pending,
    /// The channel failed.
    Failed,
    /// A message came that is no command.
    Malformed,
    /// A command came.
    Message(Command),
}

/// Why the render loop has to end.
#[derive(Clone, Copy, Debug, PartialEq, Eq, Structural)]
pub enum ControlError {
    /// The control channel failed.
    Channel,
    /// A message could not be read as a command.
    Malformed,
    /// A command could not be applied.
    Command(CommandError),
}

/// What the render loop does next.
#[derive(Clone, Copy, Debug, PartialEq, Eq, Structural)]
pub enum Control {
    /// Go on to render.
    Continue,
    /// End, as a command asked.
    Stop,
    /// End with an error.
    Fail(ControlError),
}

/// Applies what one look at the control channel found.
///
/// No message changes nothing, and the loop goes on. A failed channel or a
/// malformed message ends the loop with an error and leaves the renderer
/// as it is. The command to stop ends the loop. The command to start is
/// for a process that is not yet running, and is passed over. A command
/// that says what to display replaces the renderer by the one it asks
/// for; where it cannot be applied the display is cleared and the loop
/// ends with the command's error.
///
/// `image` is the decoded content of the file that the command names with
/// `Command::image_path`, where it names one and the file could be loaded.
pub fn apply_poll(
    renderer: &mut BackgroundRenderer,
    poll: ChannelPoll,
    image: Option<&SourceImage>,
    width: u32,
    height: u32,
) -> (control: Control)
    requires
        poll matches ChannelPoll::Message(Command::StaticImage { .. }) ==> (image matches Some(
            source,
        ) ==> source.wf() && resizable(source.spec_width(), source.spec_height(), width, height)),
    ensures
        old(renderer).wf() ==> final(renderer).wf(),
        old(renderer).sized_for(width, height) ==> final(renderer).sized_for(width, height),
        match poll {
            ChannelPoll::Pending => {
                &&& control == Control::Continue
                &&& *final(renderer) == *old(renderer)
            },
            ChannelPoll::Failed => {
                &&& control == Control::Fail(ControlError::Channel)
                &&& *final(renderer) == *old(renderer)
            },
            ChannelPoll::Malformed => {
                &&& control == Control::Fail(ControlError::Malformed)
                &&& *final(renderer) == *old(renderer)
            },
            ChannelPoll::Message(Command::Stop) => {
                &&& control == Control::Stop
                &&& *final(renderer) == *old(renderer)
            },
            ChannelPoll::Message(Command::Start { .. }) => {
                &&& control == Control::Continue
                &&& *final(renderer) == *old(renderer)
            },
            ChannelPoll::Message(command) => match control {
                Control::Continue => command.yields(image, width, height, Ok(*final(renderer))),
                Control::Fail(ControlError::Command(error)) => {
                    &&& command.yields(image, width, height, Err(error))
                    &&& *final(renderer) == BackgroundRenderer::Empty
                },
                _ => false,
            },
        },
{
    match poll {
        ChannelPoll::Pending => Control::Continue,
        ChannelPoll::Failed => Control::Fail(ControlError::Channel),
        ChannelPoll::Malformed => Control::Fail(ControlError::Malformed),
        ChannelPoll::Message(Command::Stop) => Control::Stop,
        ChannelPoll::Message(Command::Start { .. }) => Control::Continue,
        ChannelPoll::Message(command) => match command.into_renderer(image, width, height) {
            Ok(made) => {
                *renderer = made;
                Control::Continue
            },
            Err(error) => {
                *renderer = BackgroundRenderer::Empty;
                Control::Fail(ControlError::Command(error))
            },
        },
    }
}

} // verus!
