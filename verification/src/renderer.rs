use vstd::prelude::*;

use crate::frame::build_frame;
use crate::frame::spec_frame_cmds;
use crate::frame::Frame;
use crate::frame::TICKS_MAX;

verus! {

/// Ghost snapshot of a renderer: the size of its drawing surface and the
/// rotation counter, in hundredths of a radian.
pub ghost struct RendererView {
    pub width: u32,
    pub height: u32,
    pub ticks: u64,
}

/// The state of a freshly constructed renderer: rotation at zero.
pub open spec fn initial_state(width: u32, height: u32) -> RendererView {
    RendererView { width, height, ticks: 0 }
}

/// The state after one render call: the rotation counter advances by one
/// hundredth of a radian; the surface size is untouched.
pub open spec fn rendered(s: RendererView) -> RendererView {
    RendererView { width: s.width, height: s.height, ticks: (s.ticks + 1) as u64 }
}

/// The state after a resize: the surface size is replaced; the rotation
/// counter is untouched.
pub open spec fn resized(s: RendererView, width: u32, height: u32) -> RendererView {
    RendererView { width, height, ticks: s.ticks }
}

/// The animation core. It owns the rotation counter and remembers the
/// surface size, and computes each frame's draw commands; issuing them
/// against an actual surface is the host's part.
pub struct WgpuRenderer {
    width: u32,
    height: u32,
    ticks: u64,
}

impl View for WgpuRenderer {
    type V = RendererView;

    closed spec fn view(&self) -> RendererView {
        RendererView { width: self.width, height: self.height, ticks: self.ticks }
    }
}

impl WgpuRenderer {
    /// Creates a renderer for a `width` by `height` surface, with the
    /// rotation at zero. Construction cannot fail.
    pub fn new(width: u32, height: u32) -> (renderer: WgpuRenderer)
        ensures
            renderer@ == initial_state(width, height),
    {
        WgpuRenderer { width, height, ticks: 0 }
    }

    /// The rotation counter, in hundredths of a radian: it equals the number
    /// of render calls made so far.
    pub fn rotation_centiradians(&self) -> (ticks: u64)
        ensures
            ticks == self@.ticks,
    {
        self.ticks
    }

    /// Advances the animation by one tick and computes the frame to draw.
    ///
    /// The rotation counter is incremented first, whether or not the host
    /// could acquire a drawing context: a frame skipped for want of a context
    /// still advances the animation. Only when `context_available` holds is a
    /// frame returned, computed from the advanced rotation and the current
    /// surface size; otherwise the call returns `None` and nothing is drawn.
    pub fn render(&mut self, context_available: bool) -> (frame: Option<Frame>)
        requires
            old(self)@.ticks < TICKS_MAX,
        ensures
            final(self)@ == rendered(old(self)@),
            (match frame {
                Some(f) => context_available && f.width == old(self)@.width && f.height
                    == old(self)@.height && f.commands@ == spec_frame_cmds(
                    rendered(old(self)@).ticks,
                ),
                None => !context_available,
            }),
    {
        self.ticks = self.ticks + 1;
        if !context_available {
            return None;
        }
        Some(build_frame(self.ticks, self.width, self.height))
    }

    /// Sets the surface size to exactly `(width, height)`. The rotation
    /// counter is untouched, and the next frame is computed for the new size.
    pub fn resize(&mut self, width: u32, height: u32)
        ensures
            final(self)@ == resized(old(self)@, width, height),
    {
        self.width = width;
        self.height = height;
    }
}

} // verus!
