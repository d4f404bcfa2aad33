//! The surface's configuration and its recreation protocol, and the
//! decisions of one frame: what to do with the outcome of acquiring the next
//! image and with a window event.
use vstd::prelude::*;
use crate::gpu::texture_format_is_srgb;

verus! {

/// What the surface's configuration tracks: the last size passed to a
/// successful `resize`, and the width and height it configured.
pub struct SurfaceLifecycle {
    size: (i32, i32),
    width: u32,
    height: u32,
}

impl SurfaceLifecycle {
    pub closed spec fn tracked_size(&self) -> (i32, i32) {
        self.size
    }

    /// The configured width and height.
    pub closed spec fn configured(&self) -> (u32, u32) {
        (self.width, self.height)
    }

    /// The configured extent always matches the tracked size.
    pub open spec fn wf(&self) -> bool {
        &&& self.configured().0 == self.tracked_size().0 as u32
        &&& self.configured().1 == self.tracked_size().1 as u32
    }

    /// Configuration for a framebuffer of `size`.
    pub fn new(size: (i32, i32)) -> (r: Self)
        ensures
            r.wf(),
            r.tracked_size() == size,
            r.configured() == (size.0 as u32, size.1 as u32),
    {
        SurfaceLifecycle { size, width: size.0 as u32, height: size.1 as u32 }
    }

    pub fn size(&self) -> (r: (i32, i32))
        ensures
            r == self.tracked_size(),
    {
        self.size
    }

    pub fn width(&self) -> (r: u32)
        ensures
            r == self.configured().0,
    {
        self.width
    }

    pub fn height(&self) -> (r: u32)
        ensures
            r == self.configured().1,
    {
        self.height
    }

    /// Takes a new framebuffer size. With both dimensions positive the size
    /// and the configuration take it, and the result says that the surface
    /// must be configured again; otherwise nothing changes.
    pub fn resize(&mut self, new_size: (i32, i32)) -> (reconfigure: bool)
        requires
            old(self).wf(),
        ensures
            final(self).wf(),
            reconfigure == (new_size.0 > 0 && new_size.1 > 0),
            reconfigure ==> final(self).tracked_size() == new_size
                && final(self).configured() == (new_size.0 as u32, new_size.1 as u32),
            !reconfigure ==> *final(self) == *old(self),
    {
        if new_size.0 > 0 && new_size.1 > 0 {
            self.size = new_size;
            self.width = new_size.0 as u32;
            self.height = new_size.1 as u32;
            true
        } else {
            false
        }
    }
}

/// How acquiring the surface's next image ended.
#[derive(Clone, Copy, PartialEq, Eq, Debug)]
pub enum Acquire {
    Success,
    /// An image came, but the surface no longer matches its configuration.
    Suboptimal,
    Timeout,
    Occluded,
    Outdated,
    Lost,
    Validation,
}

/// What the frame loop does after acquiring.
#[derive(Clone, Copy, PartialEq, Eq, Debug)]
pub enum FrameAction {
    /// Record the pass, submit it, then present the image.
    Draw,
    /// Recreate the surface, configure it at the tracked size, draw nothing.
    RecreateSurface,
    /// Report the failure and draw nothing.
    Skip,
}

pub open spec fn frame_action_spec(a: Acquire) -> FrameAction {
    match a {
        Acquire::Success | Acquire::Suboptimal => FrameAction::Draw,
        Acquire::Outdated | Acquire::Lost => FrameAction::RecreateSurface,
        _ => FrameAction::Skip,
    }
}

/// Draw on an image; recreate on a lost or outdated surface; skip otherwise.
pub fn frame_action(a: Acquire) -> (r: FrameAction)
    ensures
        r == frame_action_spec(a),
{
    match a {
        Acquire::Success | Acquire::Suboptimal => FrameAction::Draw,
        Acquire::Outdated | Acquire::Lost => FrameAction::RecreateSurface,
        _ => FrameAction::Skip,
    }
}

/// The window events the core reacts to.
#[derive(Clone, Copy, PartialEq, Eq, Debug)]
pub enum WindowEvent {
    Moved,
    FramebufferResized,
    EscapePressed,
    Other,
}

/// What a window event asks of the loop.
#[derive(Clone, Copy, PartialEq, Eq, Debug)]
pub enum EventAction {
    /// Recreate the surface, then resize to the window's framebuffer size.
    RecreateAndResize,
    Close,
    Ignore,
}

/// A move or a framebuffer change invalidates the surface; escape closes.
pub fn event_action(e: WindowEvent) -> (r: EventAction)
    ensures
        r == match e {
            WindowEvent::Moved | WindowEvent::FramebufferResized => EventAction::RecreateAndResize,
            WindowEvent::EscapePressed => EventAction::Close,
            WindowEvent::Other => EventAction::Ignore,
        },
{
    match e {
        WindowEvent::Moved | WindowEvent::FramebufferResized => EventAction::RecreateAndResize,
        WindowEvent::EscapePressed => EventAction::Close,
        WindowEvent::Other => EventAction::Ignore,
    }
}

/// The first index whose flag is set, if any.
pub open spec fn first_set(flags: Seq<bool>, i: int) -> bool {
    0 <= i < flags.len() && flags[i] && forall|j: int| 0 <= j < i ==> !flags[j]
}

/// Which of the advertised formats to use, given which of them are sRGB:
/// the first sRGB one, else the first one; none when none is advertised.
pub fn preferred_format_index(srgb: &Vec<bool>) -> (r: Option<usize>)
    ensures
        r.is_none() <==> srgb@.len() == 0,
        r matches Some(i) ==> first_set(srgb@, i as int)
            || (i == 0 && forall|j: int| 0 <= j < srgb@.len() ==> !srgb@[j]),
{
    if srgb.len() == 0 {
        return None;
    }
    let mut i: usize = 0;
    while i < srgb.len()
        invariant
            i <= srgb@.len(),
            forall|j: int| 0 <= j < i ==> !srgb@[j],
        decreases srgb@.len() - i,
    {
        if srgb[i] {
            return Some(i);
        }
        i = i + 1;
    }
    Some(0)
}

/// Picks the surface format among those advertised: an sRGB one when there
/// is one (the first), else the first advertised.
pub fn choose_surface_format(formats: &Vec<wgpu::TextureFormat>) -> (r: Option<wgpu::TextureFormat>)
    ensures
        r.is_none() <==> formats@.len() == 0,
        r matches Some(f) ==> exists|i: int| 0 <= i < formats@.len() && formats@[i] == f,
{
    let mut srgb: Vec<bool> = Vec::new();
    let mut i: usize = 0;
    while i < formats.len()
        invariant
            i <= formats@.len(),
            srgb@.len() == i,
        decreases formats@.len() - i,
    {
        srgb.push(texture_format_is_srgb(&formats[i]));
        i = i + 1;
    }
    match preferred_format_index(&srgb) {
        Some(k) => Some(formats[k]),
        None => None,
    }
}

} // verus!
