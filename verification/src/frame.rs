//! One frame of a window, from the check of its size to its presentation.

use crate::window::Rect;
use vstd::prelude::*;

verus! {

/// The formats that a surface can have, as far as they make a difference.
#[derive(Clone, Copy, PartialEq, Eq, Structural, Debug)]
pub enum TextureFormat {
    Rgba8Unorm,
    Bgra8Unorm,
    Other,
}

/// Whether frames can be drawn to a surface of this format.
pub open spec fn is_usable(format: TextureFormat) -> bool {
    format is Rgba8Unorm || format is Bgra8Unorm
}

/// The first format that frames can be drawn to.
pub fn usable_format(formats: &Vec<TextureFormat>) -> (index: Option<usize>)
    ensures
        match index {
            Some(i) => {
                &&& i < formats@.len()
                &&& is_usable(formats@[i as int])
                &&& forall|j: int| 0 <= j < i ==> !is_usable(#[trigger] formats@[j])
            },
            None => forall|j: int| 0 <= j < formats@.len() ==> !is_usable(#[trigger] formats@[j]),
        },
{
    let mut i: usize = 0;
    while i < formats.len()
        invariant
            i <= formats@.len(),
            forall|j: int| 0 <= j < i ==> !is_usable(#[trigger] formats@[j]),
        decreases formats@.len() - i,
    {
        if formats[i] == TextureFormat::Rgba8Unorm || formats[i] == TextureFormat::Bgra8Unorm {
            return Some(i);
        }
        i = i + 1;
    }
    None
}

/// What is to be done next for the frame.
#[derive(Clone, Copy, PartialEq, Eq, Structural, Debug)]
pub enum FrameStage {
    /// Create the surface of the window.
    CreateSurface,
    /// Ask which formats the surface can have.
    QueryFormats,
    /// Configure the surface with the format of this index, and make the texture anew.
    Configure(usize),
    /// Get the texture to draw to from the surface.
    AcquireTexture,
    /// Lay the window out and draw it.
    Paint,
    /// Put the drawing on the screen.
    Present,
    /// Nothing: the frame is over.
    Finished,
}

/// How a stage went.
#[derive(PartialEq, Eq, Debug)]
pub enum FrameOutcome {
    Done,
    Failed,
    Formats(Vec<TextureFormat>),
}

/// A frame in progress: its size in pixels and what is to be done next.
#[derive(Clone, Copy, PartialEq, Eq, Structural, Debug)]
pub struct Frame {
    pub width: u32,
    pub height: u32,
    pub stage: FrameStage,
}

/// The stage once there is a surface.
pub open spec fn surface_stage(needs_config: bool) -> FrameStage {
    if needs_config {
        FrameStage::QueryFormats
    } else {
        FrameStage::AcquireTexture
    }
}

/// Whether `next` is the stage after the formats were asked for: configuring the surface with
/// the first one that is usable, or the end of the frame if there is none.
pub open spec fn follows_formats(formats: Seq<TextureFormat>, next: FrameStage) -> bool {
    match next {
        FrameStage::Configure(i) => {
            &&& i < formats.len()
            &&& is_usable(formats[i as int])
            &&& forall|j: int| 0 <= j < i ==> !is_usable(#[trigger] formats[j])
        },
        FrameStage::Finished => forall|j: int|
            0 <= j < formats.len() ==> !is_usable(#[trigger] formats[j]),
        _ => false,
    }
}

/// Whether `next` is the stage after `stage`.
pub open spec fn follows(
    stage: FrameStage,
    outcome: FrameOutcome,
    needs_config: bool,
    next: FrameStage,
) -> bool {
    match stage {
        FrameStage::CreateSurface => next == (if outcome is Failed {
            FrameStage::Finished
        } else {
            surface_stage(needs_config)
        }),
        FrameStage::QueryFormats => match outcome {
            FrameOutcome::Formats(formats) => follows_formats(formats@, next),
            _ => next is Finished,
        },
        FrameStage::Configure(_) => next is AcquireTexture,
        FrameStage::AcquireTexture => next == (if outcome is Failed {
            FrameStage::Finished
        } else {
            FrameStage::Paint
        }),
        FrameStage::Paint => next == (if outcome is Failed {
            FrameStage::Finished
        } else {
            FrameStage::Present
        }),
        FrameStage::Present => next is Finished,
        FrameStage::Finished => next is Finished,
    }
}

/// Whether the surface has to be configured again after `stage`: not once that was done, and
/// always after the texture could not be had or the drawing failed.
pub open spec fn config_after(
    stage: FrameStage,
    outcome: FrameOutcome,
    needs_config: bool,
) -> bool {
    match stage {
        FrameStage::Configure(_) => false,
        FrameStage::AcquireTexture => outcome is Failed || needs_config,
        FrameStage::Paint => outcome is Failed || needs_config,
        _ => needs_config,
    }
}

/// How many stages are left at most.
pub open spec fn stages_left(stage: FrameStage) -> int {
    match stage {
        FrameStage::CreateSurface => 6,
        FrameStage::QueryFormats => 5,
        FrameStage::Configure(_) => 4,
        FrameStage::AcquireTexture => 3,
        FrameStage::Paint => 2,
        FrameStage::Present => 1,
        FrameStage::Finished => 0,
    }
}

impl Frame {
    /// Drawing starts on a surface that is configured.
    pub open spec fn wf(self, needs_config: bool) -> bool {
        self.stage is AcquireTexture || self.stage is Paint || self.stage is Present
            ==> !needs_config
    }

    /// Starts a frame of a window with this client area. A window without an area has none.
    pub fn begin(client: &Rect, has_surface: bool, needs_config: bool) -> (frame: Frame)
        requires
            client.has_size(),
        ensures
            frame.wf(needs_config),
            frame.width == (if client.right > client.left {
                client.right - client.left
            } else {
                0
            }),
            frame.height == (if client.bottom > client.top {
                client.bottom - client.top
            } else {
                0
            }),
            frame.stage == (if client.right == client.left || client.bottom == client.top {
                FrameStage::Finished
            } else if has_surface {
                surface_stage(needs_config)
            } else {
                FrameStage::CreateSurface
            }),
    {
        let size = client.size();
        let stage: FrameStage = if size.width == 0 || size.height == 0 {
            FrameStage::Finished
        } else if !has_surface {
            FrameStage::CreateSurface
        } else if needs_config {
            FrameStage::QueryFormats
        } else {
            FrameStage::AcquireTexture
        };
        let width: u32 = if size.width > 0 {
            size.width as u32
        } else {
            0
        };
        let height: u32 = if size.height > 0 {
            size.height as u32
        } else {
            0
        };
        Frame { width, height, stage }
    }

    /// Goes on to the next stage, now that this one went as `outcome` says, and notes whether the
    /// surface has to be configured again.
    pub fn advance(&mut self, outcome: &FrameOutcome, needs_config: &mut bool)
        requires
            old(self).wf(*old(needs_config)),
        ensures
            final(self).wf(*final(needs_config)),
            final(self).width == old(self).width,
            final(self).height == old(self).height,
            follows(old(self).stage, *outcome, *old(needs_config), final(self).stage),
            *final(needs_config) == config_after(old(self).stage, *outcome, *old(needs_config)),
    {
        let failed: bool = match outcome {
            FrameOutcome::Failed => true,
            _ => false,
        };
        let next: FrameStage = match self.stage {
            FrameStage::CreateSurface => if failed {
                FrameStage::Finished
            } else if *needs_config {
                FrameStage::QueryFormats
            } else {
                FrameStage::AcquireTexture
            },
            FrameStage::QueryFormats => match outcome {
                FrameOutcome::Formats(formats) => match usable_format(formats) {
                    Some(i) => FrameStage::Configure(i),
                    None => FrameStage::Finished,
                },
                _ => FrameStage::Finished,
            },
            FrameStage::Configure(_) => {
                *needs_config = false;
                FrameStage::AcquireTexture
            },
            FrameStage::AcquireTexture => if failed {
                *needs_config = true;
                FrameStage::Finished
            } else {
                FrameStage::Paint
            },
            FrameStage::Paint => if failed {
                *needs_config = true;
                FrameStage::Finished
            } else {
                FrameStage::Present
            },
            FrameStage::Present => FrameStage::Finished,
            FrameStage::Finished => FrameStage::Finished,
        };
        self.stage = next;
    }
}

/// Frames can be drawn to both formats that are told apart, and to no other. A surface takes the
/// first of its formats that can be drawn to; without one the frame is over.
pub proof fn law_first_usable_format(formats: Seq<TextureFormat>, next: FrameStage, k: int)
    requires
        follows_formats(formats, next),
        0 <= k < formats.len(),
        formats[k] is Rgba8Unorm || formats[k] is Bgra8Unorm,
    ensures
        next matches FrameStage::Configure(i) && i <= k && formats[i as int] !is Other,
{
}

/// A frame without a format that can be drawn to is over.
pub proof fn law_no_usable_format(formats: Seq<TextureFormat>, next: FrameStage)
    requires
        follows_formats(formats, next),
        forall|k: int| 0 <= k < formats.len() ==> #[trigger] formats[k] is Other,
    ensures
        next is Finished,
{
    if let FrameStage::Configure(i) = next {
        assert(formats[i as int] is Other);
    }
}

/// A frame that goes well gets a surface, configures it where that is needed, draws and presents;
/// the surface then needs no configuring.
pub proof fn law_frame_that_goes_well(needs_config: bool, formats: Vec<TextureFormat>, i: usize)
    ensures
        follows(
            FrameStage::CreateSurface,
            FrameOutcome::Done,
            true,
            FrameStage::QueryFormats,
        ),
        follows(
            FrameStage::CreateSurface,
            FrameOutcome::Done,
            false,
            FrameStage::AcquireTexture,
        ),
        follows(
            FrameStage::Configure(i),
            FrameOutcome::Done,
            needs_config,
            FrameStage::AcquireTexture,
        ),
        follows(
            FrameStage::AcquireTexture,
            FrameOutcome::Done,
            needs_config,
            FrameStage::Paint,
        ),
        follows(FrameStage::Paint, FrameOutcome::Done, needs_config, FrameStage::Present),
        follows(FrameStage::Present, FrameOutcome::Done, needs_config, FrameStage::Finished),
        forall|next: FrameStage|
            follows(
                FrameStage::QueryFormats,
                FrameOutcome::Formats(formats),
                needs_config,
                next,
            ) == #[trigger] follows_formats(formats@, next),
        !config_after(FrameStage::Configure(i), FrameOutcome::Done, needs_config),
        !config_after(FrameStage::AcquireTexture, FrameOutcome::Done, false),
        !config_after(FrameStage::Paint, FrameOutcome::Done, false),
        !config_after(FrameStage::Present, FrameOutcome::Done, false),
        surface_stage(needs_config) is QueryFormats <==> needs_config,
        surface_stage(needs_config) is AcquireTexture <==> !needs_config,
{
}

/// There is one stage after each, and a stage that failed is the last one of the frame. What was
/// not configured yet has to be configured still.
pub proof fn law_frame_failures(
    stage: FrameStage,
    outcome: FrameOutcome,
    needs_config: bool,
    a: FrameStage,
    b: FrameStage,
)
    requires
        follows(stage, outcome, needs_config, a),
        follows(stage, outcome, needs_config, b),
    ensures
        a == b,
        outcome is Failed && stage !is Configure ==> a is Finished,
        stage is QueryFormats && outcome !is Formats ==> a is Finished,
        stage is CreateSurface && outcome !is Failed ==> a is QueryFormats || a is AcquireTexture,
        stage is AcquireTexture && outcome !is Failed ==> a is Paint,
        stage is Paint && outcome !is Failed ==> a is Present,
        stage is CreateSurface || stage is QueryFormats ==> config_after(
            stage,
            outcome,
            needs_config,
        ) == needs_config,
{
    if stage is QueryFormats && outcome is Formats {
        if let FrameStage::Configure(i) = a {
            if let FrameStage::Configure(j) = b {
                if i < j {
                    assert(!is_usable(outcome->Formats_0@[i as int]));
                } else if j < i {
                    assert(!is_usable(outcome->Formats_0@[j as int]));
                }
            } else {
                assert(is_usable(outcome->Formats_0@[i as int]));
            }
        } else if let FrameStage::Configure(j) = b {
            assert(is_usable(outcome->Formats_0@[j as int]));
        }
    }
}

/// Every stage brings the frame closer to its end.
pub proof fn law_frame_ends(
    stage: FrameStage,
    outcome: FrameOutcome,
    needs_config: bool,
    next: FrameStage,
)
    requires
        follows(stage, outcome, needs_config, next),
    ensures
        stage is Finished || stages_left(next) < stages_left(stage),
        stages_left(next) == 0 <==> next is Finished,
{
}

/// A frame that was under way and could not be drawn has the surface configured again before the
/// next one; a frame that is drawn leaves the surface as it is.
pub proof fn law_lost_frames_reconfigure(
    stage: FrameStage,
    outcome: FrameOutcome,
    needs_config: bool,
    next: FrameStage,
)
    requires
        follows(stage, outcome, needs_config, next),
        stage is AcquireTexture || stage is Paint,
    ensures
        next is Finished ==> config_after(stage, outcome, needs_config)
            && surface_stage(config_after(stage, outcome, needs_config)) is QueryFormats,
        next !is Finished ==> config_after(stage, outcome, needs_config) == needs_config,
{
}

} // verus!
