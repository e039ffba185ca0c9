//! The commands that say what to display, and how a command becomes a
//! renderer.

use crate::cache::{CacheEntry, FrameCache, PRE_BUFFERED_IMAGES};
use crate::frame::{resizable, resize_triangle, triangle_resized, SourceImage};
use crate::render::BackgroundRenderer;
use crate::tint::{
    fixed_tint, hex_char, hex_value, lemma_hex_color_multipliers, lemma_hex_text_is_fixed_tint,
    parse_clock_color, parsed_color, ColorError, TintFactor, MAX_COLOR_DIGITS,
};
use vstd::utf8::encode_utf8;
use std::path::PathBuf;
use vstd::prelude::*;

verus! {

/// A command sent over the control channel.
#[derive(Debug)]
pub enum Command {
    /// Starts the renderer for a desktop of the given size. It is the
    /// message that brings the process up, and means nothing to a renderer
    /// that is running.
    Start {
        /// Width of the desktop in pixels.
        width: u32,
        /// Height of the desktop in pixels.
        height: u32,
        /// The window's class name.
        window_class: String,
    },
    /// Ends the render loop.
    Stop,
    /// Shows one image.
    StaticImage {
        /// The image's file.
        path: PathBuf,
    },
    /// Shows the frame of the current time slot, from a directory that
    /// holds one directory of frames for each hour, `0` to `11`.
    ClockImage {
        /// The directory of the frames.
        dir: PathBuf,
        /// The name of a frame's file, in which `%m` stands for the slot
        /// in milliseconds, padded to eight digits.
        file_template: String,
        /// The distance between two slots, in milliseconds.
        clock_step: u32,
        /// The tint: `RAINBOW`, or a colour as `RRGGBB` in hexadecimal.
        clock_color: Option<String>,
    },
}

/// Why a command could not be applied.
#[derive(Clone, Copy, Debug, PartialEq, Eq, Structural)]
pub enum CommandError {
    /// The colour of a clock animation is malformed.
    Color(ColorError),
    /// A static image was asked for and its image is not at hand: the
    /// file could not be loaded.
    MissingImage,
}

/// The text of a colour setting, if there is one.
pub open spec fn color_text(clock_color: Option<String>) -> Option<Seq<char>> {
    match clock_color {
        Some(text) => Some(text@),
        None => None,
    }
}

/// A clock animation whose colour is one to six hexadecimal digits is
/// made, and its tint is the fixed tint of the number that the digits
/// write: the multipliers are the number's three bytes over 255, each
/// between zero and one.
pub proof fn lemma_hex_color_gives_fixed_tint(
    command: Command,
    image: Option<&SourceImage>,
    width: u32,
    height: u32,
    outcome: Result<BackgroundRenderer, CommandError>,
    slot: int,
)
    requires
        command matches Command::ClockImage { clock_color: Some(text), .. } && 1 <= text@.len()
            <= MAX_COLOR_DIGITS && forall|i: int|
            0 <= i < text@.len() ==> hex_char(#[trigger] text@[i]),
        command.yields(image, width, height, outcome),
    ensures
        command matches Command::ClockImage { clock_color: Some(text), .. } && outcome matches Ok(
            BackgroundRenderer::ClockImage { tint, .. },
        ) && ({
            let value = hex_value(encode_utf8(text@)) as u32;
            let factor = TintFactor {
                red: (value >> 16) & 0xFF,
                green: (value >> 8) & 0xFF,
                blue: value & 0xFF,
                scale: 255,
            };
            &&& hex_value(encode_utf8(text@)) <= 0xFF_FFFF
            &&& tint == fixed_tint(value)
            &&& tint.factor_at(slot) == Some(factor)
            &&& factor.wf()
        }),
{
    if let Command::ClockImage { clock_color: Some(text), .. } = command {
        lemma_hex_text_is_fixed_tint(text@);
        lemma_hex_color_multipliers(encode_utf8(text@), slot);
    }
}

impl Command {
    /// Whether `outcome` is what applying the command gives, for an output
    /// of `width` by `height` pixels and with `image` as the decoded
    /// content of the file that a static image names.
    ///
    /// A static image becomes the image scaled to the output, which is the
    /// image itself where it has the size of the output, and fails
    /// without an image. A clock animation starts with an empty cache of
    /// the standard depth and the tint that its colour asks for, and fails
    /// where the colour is malformed. Any other command clears the
    /// display.
    pub open spec fn yields(
        self,
        image: Option<&SourceImage>,
        width: u32,
        height: u32,
        outcome: Result<BackgroundRenderer, CommandError>,
    ) -> bool {
        match self {
            Command::StaticImage { .. } => match image {
                Some(source) => {
                    &&& outcome matches Ok(BackgroundRenderer::StaticImage { pixels })
                    &&& pixels@ == triangle_resized(
                        source.spec_pixels(),
                        source.spec_width(),
                        source.spec_height(),
                        width,
                        height,
                    )
                    &&& source.spec_width() == width && source.spec_height() == height
                        ==> pixels@ == source.spec_pixels()
                },
                None => outcome == Err::<BackgroundRenderer, CommandError>(
                    CommandError::MissingImage,
                ),
            },
            Command::ClockImage { dir, file_template, clock_step, clock_color } => match parsed_color(
                color_text(clock_color),
            ) {
                Ok(parsed) => {
                    &&& outcome matches Ok(
                        BackgroundRenderer::ClockImage {
                            dir: source_dir,
                            file_template: template,
                            cache,
                            tint,
                            dirty,
                        },
                    )
                    &&& source_dir == dir
                    &&& template == file_template
                    &&& cache@ == Seq::<CacheEntry>::empty()
                    &&& cache.step() == clock_step
                    &&& cache.limit() == PRE_BUFFERED_IMAGES
                    &&& tint == parsed
                    &&& !dirty
                },
                Err(error) => outcome == Err::<BackgroundRenderer, CommandError>(
                    CommandError::Color(error),
                ),
            },
            _ => outcome == Ok::<BackgroundRenderer, CommandError>(BackgroundRenderer::Empty),
        }
    }

    /// The file whose decoded content the command needs before it can be
    /// applied: that of a static image.
    pub fn image_path(&self) -> (path: Option<&PathBuf>)
        ensures
            match self {
                Command::StaticImage { path: file } => path == Some(file),
                _ => path is None,
            },
    {
        match self {
            Command::StaticImage { path } => Some(path),
            _ => None,
        }
    }

    /// Turns the command into the renderer that it asks for.
    pub fn into_renderer(self, image: Option<&SourceImage>, width: u32, height: u32) -> (renderer:
        Result<BackgroundRenderer, CommandError>)
        requires
            self is StaticImage ==> (image matches Some(source) ==> source.wf() && resizable(
                source.spec_width(),
                source.spec_height(),
                width,
                height,
            )),
        ensures
            self.yields(image, width, height, renderer),
            renderer matches Ok(made) ==> made.wf() && made.sized_for(width, height),
    {
        match self {
            Command::StaticImage { .. } => match image {
                Some(source) => Ok(
                    BackgroundRenderer::StaticImage { pixels: resize_triangle(source, width, height) },
                ),
                None => Err(CommandError::MissingImage),
            },
            Command::ClockImage { dir, file_template, clock_step, clock_color } => {
                let parsed = match &clock_color {
                    Some(text) => parse_clock_color(Some(text.as_str())),
                    None => parse_clock_color(None),
                };
                match parsed {
                    Ok(tint) => Ok(
                        BackgroundRenderer::ClockImage {
                            dir,
                            file_template,
                            cache: FrameCache::new(clock_step, PRE_BUFFERED_IMAGES),
                            tint,
                            dirty: false,
                        },
                    ),
                    Err(error) => Err(CommandError::Color(error)),
                }
            },
            _ => Ok(BackgroundRenderer::Empty),
        }
    }
}

} // verus!
