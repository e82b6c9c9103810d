//! Decisions of the render context: the surface size it configures, the
//! surface format it picks, and what the frame loop does with the outcome of
//! acquiring a frame.

use vstd::prelude::*;

verus! {

/// Width and height, in pixels, that the surface is configured with.
#[derive(Clone, Copy, Debug, PartialEq, Eq, Structural)]
pub struct SurfaceExtent {
    pub width: u32,
    pub height: u32,
}

impl SurfaceExtent {
    /// The extent first configured for a window of the given size: the
    /// window's own size, with a zero side raised to one pixel since a
    /// surface cannot be configured empty.
    pub fn initial(width: u32, height: u32) -> (r: SurfaceExtent)
        ensures
            r.width == if width == 0 { 1 } else { width },
            r.height == if height == 0 { 1 } else { height },
    {
        SurfaceExtent {
            width: if width == 0 { 1 } else { width },
            height: if height == 0 { 1 } else { height },
        }
    }

    /// Takes the new size where both sides are positive and returns whether
    /// the surface must be configured again; a zero side changes nothing.
    pub fn resize(&mut self, width: u32, height: u32) -> (r: bool)
        ensures
            r == (width > 0 && height > 0),
            r ==> *final(self) == (SurfaceExtent { width, height }),
            !r ==> *final(self) == *old(self),
    {
        if width > 0 && height > 0 {
            self.width = width;
            self.height = height;
            true
        } else {
            false
        }
    }
}

/// The outcome of acquiring the next frame of the surface.
#[derive(Clone, Copy, Debug, PartialEq, Eq, Structural)]
pub enum FrameOutcome {
    Acquired,
    Timeout,
    Outdated,
    Lost,
    OutOfMemory,
}

/// What the frame loop does next.
#[derive(Clone, Copy, Debug, PartialEq, Eq, Structural)]
pub enum FrameAction {
    /// Draw into the frame and present it.
    Draw,
    /// Configure the surface again and try on the next frame.
    Reset,
    /// Stop rendering.
    Exit,
}

/// A lost surface is recovered by a reset; running out of memory is fatal,
/// and so is any outcome that is not classified.
pub fn next_action(outcome: FrameOutcome) -> (r: FrameAction)
    ensures
        r == match outcome {
            FrameOutcome::Acquired => FrameAction::Draw,
            FrameOutcome::Lost => FrameAction::Reset,
            _ => FrameAction::Exit,
        },
{
    match outcome {
        FrameOutcome::Acquired => FrameAction::Draw,
        FrameOutcome::Lost => FrameAction::Reset,
        FrameOutcome::Timeout => FrameAction::Exit,
        FrameOutcome::Outdated => FrameAction::Exit,
        FrameOutcome::OutOfMemory => FrameAction::Exit,
    }
}

#[verifier::external_type_specification]
#[verifier::external_body]
pub struct ExTextureFormat(wgpu::TextureFormat);

/// Whether a texture format stores sRGB-encoded color.
pub uninterp spec fn srgb_format(f: wgpu::TextureFormat) -> bool;

/// Relies on wgpu::TextureFormat::is_srgb, whose answer depends on the
/// format alone.
#[verifier::external_body]
fn is_srgb(f: &wgpu::TextureFormat) -> (r: bool)
    ensures
        r == srgb_format(*f),
{
    f.is_srgb()
}

/// Given for each supported format whether it is sRGB, the index of the
/// format to use: the first sRGB one, else the first one.
pub fn first_srgb(is_srgb: &Vec<bool>) -> (r: usize)
    requires
        is_srgb@.len() > 0,
    ensures
        r < is_srgb@.len(),
        (exists|j: int| 0 <= j < is_srgb@.len() && is_srgb@[j]) ==> is_srgb@[r as int]
            && forall|j: int| 0 <= j < r ==> !is_srgb@[j],
        (forall|j: int| 0 <= j < is_srgb@.len() ==> !is_srgb@[j]) ==> r == 0,
{
    let mut i: usize = 0;
    while i < is_srgb.len()
        invariant
            i <= is_srgb@.len(),
            forall|j: int| 0 <= j < i ==> !is_srgb@[j],
        decreases is_srgb@.len() - i,
    {
        if is_srgb[i] {
            return i;
        }
        i = i + 1;
    }
    0
}

/// The index of the surface format to use among those the surface
/// supports: the first sRGB one, else the first one.
pub fn pick_format(formats: &Vec<wgpu::TextureFormat>) -> (r: usize)
    requires
        formats@.len() > 0,
    ensures
        r < formats@.len(),
        (exists|j: int| 0 <= j < formats@.len() && srgb_format(formats@[j])) ==> srgb_format(
            formats@[r as int],
        ) && forall|j: int| 0 <= j < r ==> !srgb_format(#[trigger] formats@[j]),
        (forall|j: int| 0 <= j < formats@.len() ==> !srgb_format(#[trigger] formats@[j])) ==> r == 0,
{
    let mut flags: Vec<bool> = Vec::with_capacity(formats.len());
    let mut i: usize = 0;
    while i < formats.len()
        invariant
            i <= formats@.len(),
            flags@.len() == i,
            forall|j: int| 0 <= j < i ==> flags@[j] == srgb_format(formats@[j]),
        decreases formats@.len() - i,
    {
        flags.push(is_srgb(&formats[i]));
        i = i + 1;
    }
    let r = first_srgb(&flags);
    proof {
        if exists|j: int| 0 <= j < formats@.len() && srgb_format(formats@[j]) {
            let j = choose|j: int| 0 <= j < formats@.len() && srgb_format(formats@[j]);
            assert(flags@[j]);
        }
        if forall|j: int| 0 <= j < formats@.len() ==> !srgb_format(#[trigger] formats@[j]) {
            assert forall|j: int| 0 <= j < flags@.len() implies !flags@[j] by {
                assert(flags@[j] == srgb_format(formats@[j]));
            }
        }
        assert forall|j: int| 0 <= j < r implies (flags@[j] == srgb_format(#[trigger] formats@[j])) by {}
    }
    r
}

} // verus!
