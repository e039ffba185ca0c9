//! The renderer: what is on display, and the step that brings the output
//! buffer up to date for a time slot.
//!
//! A step never reads a file. Where a frame is missing the step asks for
//! it; the driver loads the image and delivers it, then takes the step
//! again, until the step has nothing more to ask for.

use crate::cache::{
    admissible, evicted, lemma_evicted_is_prefix, stale, wanted, CacheEntry, FrameCache,
};
use crate::clock::TOTAL_CYCLE_MS;
use crate::compositor::{composite, composited};
use crate::frame::{
    frame_len, frame_size, resizable, resize_triangle, triangle_resized, SourceImage,
};
use crate::path::{clock_image_path, frame_path};
use crate::tint::Tint;
use std::path::PathBuf;
use vstd::prelude::*;

verus! {

/// `std::path::PathBuf`, carried through as it is: nothing is read from
/// it here.
#[verifier::external_type_specification]
#[verifier::external_body]
pub struct ExPathBuf(PathBuf);

/// `Path::join` of the standard library: the path of `file` below `dir`.
/// Nothing is claimed of the result.
#[verifier::external_body]
fn path_below(dir: &PathBuf, file: &str) -> (path: PathBuf) {
    dir.join(file)
}

/// A frame that the driver is asked to load.
#[derive(Debug)]
pub struct LoadRequest {
    /// The time slot of the frame.
    pub slot: u32,
    /// The frame's file below the image directory.
    pub file: String,
    /// The same file, with the image directory in front.
    pub path: PathBuf,
}

/// What a step of the renderer did, or needs.
#[derive(Debug)]
pub enum RenderStep {
    /// The output buffer is up to date and was left as it was.
    Idle,
    /// The output buffer was written.
    Drawn,
    /// A frame is missing. The output buffer was left as it was; the step
    /// is to be taken again once the frame has been delivered.
    Load(LoadRequest),
}

/// What is on display.
#[derive(Debug)]
pub enum BackgroundRenderer {
    /// Nothing: the output buffer is left alone.
    Empty,
    /// One image, already at the size of the output.
    StaticImage {
        /// The image's pixels.
        pixels: Vec<u8>,
    },
    /// An animation that shows, at each moment, the frame of the current
    /// time slot.
    ClockImage {
        /// The directory that holds the frames, one directory per hour.
        dir: PathBuf,
        /// The name of a frame's file, with `%m` where the slot stands.
        file_template: String,
        /// The frames loaded for the current slot and those after it.
        cache: FrameCache,
        /// The tint applied to each frame.
        tint: Tint,
        /// Whether a frame has come in since the output was last written.
        dirty: bool,
    },
}

impl BackgroundRenderer {
    /// The frame cache of an animation is well formed.
    pub open spec fn wf(&self) -> bool {
        self matches BackgroundRenderer::ClockImage { cache, .. } ==> cache.wf()
    }

    /// The step between the slots of an animation is not zero, so that time
    /// can be divided into slots.
    pub open spec fn steps(&self) -> bool {
        self matches BackgroundRenderer::ClockImage { cache, .. } ==> cache.step() > 0
    }

    /// Every image held is of the size of an output of `width` by `height`
    /// pixels.
    pub open spec fn sized_for(&self, width: u32, height: u32) -> bool {
        match self {
            BackgroundRenderer::Empty => true,
            BackgroundRenderer::StaticImage { pixels } => pixels@.len() == frame_len(width, height),
            BackgroundRenderer::ClockImage { cache, .. } => forall|i: int|
                0 <= i < cache@.len() ==> (#[trigger] cache@[i]).frame@.len() == frame_len(
                    width,
                    height,
                ),
        }
    }

    /// Whether every image held is of the size of an output of `width` by
    /// `height` pixels.
    pub fn fits(&self, width: u32, height: u32) -> (ok: bool)
        ensures
            ok == self.sized_for(width, height),
    {
        match self {
            BackgroundRenderer::Empty => true,
            BackgroundRenderer::StaticImage { pixels } => {
                let held = pixels.len();
                match frame_size(width, height) {
                    Some(len) => held == len,
                    None => false,
                }
            },
            BackgroundRenderer::ClockImage { cache, .. } => match frame_size(width, height) {
                Some(len) => cache.frames_have_len(len),
                None => {
                    if cache.is_empty() {
                        true
                    } else {
                        let held = cache.frame_at(0).len();
                        assert(cache@[0].frame@.len() != frame_len(width, height));
                        false
                    }
                },
            },
        }
    }

    /// The step between the slots of an animation; none for anything else.
    pub fn step_ms(&self) -> (step_ms: Option<u32>)
        ensures
            match self {
                BackgroundRenderer::ClockImage { cache, .. } => step_ms == Some(cache.step()),
                _ => step_ms is None,
            },
    {
        match self {
            BackgroundRenderer::ClockImage { cache, .. } => Some(cache.step_ms()),
            _ => None,
        }
    }

    /// Takes in a frame that a step asked for, already at the size of the
    /// output. The frame is put at the front of the cache if it is for the
    /// slot that the cache lacks; else nothing changes and the answer is
    /// `false`.
    pub fn accept(&mut self, slot: u32, frame: Vec<u8>) -> (accepted: bool)
        requires
            old(self).wf(),
        ensures
            final(self).wf(),
            match *old(self) {
                BackgroundRenderer::ClockImage { dir, file_template, cache, tint, dirty } => {
                    &&& accepted == admissible(
                        cache@,
                        cache.limit() as int,
                        slot as int,
                        cache.step() as int,
                    )
                    &&& *final(self) matches BackgroundRenderer::ClockImage {
                        dir: dir_after,
                        file_template: template_after,
                        cache: cache_after,
                        tint: tint_after,
                        dirty: dirty_after,
                    }
                    &&& dir_after == dir
                    &&& template_after == file_template
                    &&& tint_after == tint
                    &&& cache_after.step() == cache.step()
                    &&& cache_after.limit() == cache.limit()
                    &&& accepted ==> cache_after@ == seq![CacheEntry { slot, frame }] + cache@
                        && dirty_after
                    &&& !accepted ==> cache_after@ == cache@ && dirty_after == dirty
                },
                _ => !accepted && *final(self) == *old(self),
            },
    {
        match self {
            BackgroundRenderer::ClockImage { cache, dirty, .. } => {
                let accepted = cache.insert(slot, frame);
                if accepted {
                    *dirty = true;
                }
                accepted
            },
            _ => false,
        }
    }

    /// Takes in the image that a step asked for: scales it to the size of
    /// the output and accepts the frame. An image that has the size of the
    /// output is taken as it is.
    pub fn deliver(&mut self, slot: u32, image: &SourceImage, width: u32, height: u32) -> (accepted:
        bool)
        requires
            old(self).wf(),
            old(self).sized_for(width, height),
            image.wf(),
            resizable(image.spec_width(), image.spec_height(), width, height),
        ensures
            final(self).wf(),
            final(self).sized_for(width, height),
            match *old(self) {
                BackgroundRenderer::ClockImage { dir, file_template, cache, tint, dirty } => {
                    &&& accepted == admissible(
                        cache@,
                        cache.limit() as int,
                        slot as int,
                        cache.step() as int,
                    )
                    &&& *final(self) matches BackgroundRenderer::ClockImage {
                        dir: dir_after,
                        file_template: template_after,
                        cache: cache_after,
                        tint: tint_after,
                        dirty: dirty_after,
                    }
                    &&& dir_after == dir
                    &&& template_after == file_template
                    &&& tint_after == tint
                    &&& cache_after.step() == cache.step()
                    &&& cache_after.limit() == cache.limit()
                    &&& accepted ==> {
                        &&& cache_after@.len() == cache@.len() + 1
                        &&& cache_after@[0].slot == slot
                        &&& cache_after@[0].frame@ == triangle_resized(
                            image.spec_pixels(),
                            image.spec_width(),
                            image.spec_height(),
                            width,
                            height,
                        )
                        &&& image.spec_width() == width && image.spec_height() == height
                            ==> cache_after@[0].frame@ == image.spec_pixels()
                        &&& cache_after@.skip(1) == cache@
                        &&& dirty_after
                    }
                    &&& !accepted ==> cache_after@ == cache@ && dirty_after == dirty
                },
                _ => !accepted && *final(self) == *old(self),
            },
    {
        let frame = resize_triangle(image, width, height);
        let ghost before = *self;
        let accepted = self.accept(slot, frame);
        let ghost after = *self;
        proof {
            if let BackgroundRenderer::ClockImage { cache, .. } = before {
                if let BackgroundRenderer::ClockImage { cache: cache_after, .. } = after {
                    if accepted {
                        assert(cache_after@.skip(1) =~= cache@);
                        assert forall|i: int| 0 <= i < cache_after@.len() implies (
                        #[trigger] cache_after@[i]).frame@.len() == frame_len(width, height) by {
                            if i > 0 {
                                assert(cache_after@[i] == cache@[i - 1]);
                            }
                        }
                    }
                }
            }
        }
        accepted
    }

    /// Brings the output buffer up to date for a time slot, as far as the
    /// frames at hand allow.
    ///
    /// Nothing on display leaves the buffer alone. A static image is
    /// written to it. An animation first lets go of the frames that have
    /// gone stale for the slot. If its cache then lacks a frame, the step
    /// asks for that frame and leaves the buffer alone. With the cache
    /// full, the frame on display, which lies less than a step from the
    /// slot, is written under the tint, if a frame has come in since the
    /// buffer was last written or the tint is the rainbow, whose colour
    /// changes with the slot.
    pub fn render(&mut self, output: &mut [u8], width: u32, height: u32, slot: u32) -> (step:
        RenderStep)
        requires
            old(self).wf(),
            old(self).steps(),
            old(self).sized_for(width, height),
            old(output)@.len() == frame_len(width, height),
            slot < TOTAL_CYCLE_MS,
        ensures
            final(self).wf(),
            final(self).steps(),
            final(self).sized_for(width, height),
            final(output)@.len() == old(output)@.len(),
            match *old(self) {
                BackgroundRenderer::Empty => {
                    &&& step is Idle
                    &&& final(output)@ == old(output)@
                    &&& *final(self) == *old(self)
                },
                BackgroundRenderer::StaticImage { pixels } => {
                    &&& step is Drawn
                    &&& final(output)@ == pixels@
                    &&& *final(self) == *old(self)
                },
                BackgroundRenderer::ClockImage { dir, file_template, cache, tint, dirty } => {
                    let kept = evicted(cache@, slot as int, cache.step() as int);
                    &&& *final(self) matches BackgroundRenderer::ClockImage {
                        dir: dir_after,
                        file_template: template_after,
                        cache: cache_after,
                        tint: tint_after,
                        dirty: dirty_after,
                    }
                    &&& dir_after == dir
                    &&& template_after == file_template
                    &&& tint_after == tint
                    &&& cache_after.step() == cache.step()
                    &&& cache_after.limit() == cache.limit()
                    &&& cache_after@ == kept
                    &&& kept.len() > 0 ==> !stale(
                        kept.last().slot as int,
                        slot as int,
                        cache.step() as int,
                    )
                    &&& match wanted(kept, cache.limit() as int, slot as int, cache.step() as int) {
                        Some(next) => {
                            &&& step matches RenderStep::Load(request)
                            &&& request.slot == next
                            &&& request.file@ == frame_path(file_template@, next as nat)
                            &&& final(output)@ == old(output)@
                            &&& dirty_after == dirty
                        },
                        None => if kept.len() > 0 && (dirty || tint is Rainbow) {
                            &&& step is Drawn
                            &&& final(output)@ == composited(
                                kept.last().frame@,
                                tint.factor_at(slot as int),
                            )
                            &&& !dirty_after
                        } else {
                            &&& step is Idle
                            &&& final(output)@ == old(output)@
                            &&& dirty_after == dirty
                        },
                    }
                },
            },
    {
        match self {
            BackgroundRenderer::Empty => RenderStep::Idle,
            BackgroundRenderer::StaticImage { pixels } => {
                composite(output, pixels.as_slice(), None);
                RenderStep::Drawn
            },
            BackgroundRenderer::ClockImage { dir, file_template, cache, tint, dirty } => {
                let ghost before = cache@;
                let next = cache.advance(slot);
                proof {
                    lemma_evicted_is_prefix(before, slot as int, cache.step() as int);
                }
                match next {
                    Some(next_slot) => {
                        let file = clock_image_path(file_template.as_str(), next_slot);
                        let path = path_below(dir, file.as_str());
                        RenderStep::Load(LoadRequest { slot: next_slot, file, path })
                    },
                    None => {
                        let rainbow = match tint {
                            Tint::Rainbow => true,
                            _ => false,
                        };
                        if !cache.is_empty() && (*dirty || rainbow) {
                            let factor = tint.factor(slot);
                            composite(output, cache.current_frame().as_slice(), factor);
                            *dirty = false;
                            RenderStep::Drawn
                        } else {
                            RenderStep::Idle
                        }
                    },
                }
            },
        }
    }
}

} // verus!
