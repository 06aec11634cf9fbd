//! Render-side state, owned by the render thread and handed to each tick.

use vstd::prelude::*;
use crate::channel::Received;
use crate::compositor::{privacy_fill, Compositor, TickAction};
use crate::frame::{rgba_len, CropRegion, CroppedFrame};
use crate::mode::{attributes_spec, ModeController, WindowAttributes};
use crate::pipeline::region_fits;
use crate::tracker::{RegionTracker, WindowGeometry};

verus! {

/// Window geometry, mode and compositor of the render thread.
pub struct RenderState {
    pub tracker: RegionTracker,
    pub mode: ModeController,
    pub compositor: Compositor,
}

impl RenderState {
    /// The compositor's size is the window's size.
    pub open spec fn wf(&self) -> bool {
        &&& self.compositor.wf()
        &&& self.compositor.width_spec() == self.tracker.geometry.width
        &&& self.compositor.height_spec() == self.tracker.geometry.height
    }

    /// Starts in alignment mode with nothing received.
    pub fn new(geometry: WindowGeometry) -> (s: Option<Self>)
        ensures
            s is Some <==> rgba_len(geometry.width as int, geometry.height as int) <= usize::MAX,
            s matches Some(st) ==> st.wf() && st.tracker.geometry == geometry && st.mode
                == ModeController::new_spec() && st.compositor.latest_spec() is None,
    {
        if region_fits(CropRegion { x: 0, y: 0, width: geometry.width, height: geometry.height }) {
            Some(RenderState {
                tracker: RegionTracker::new(geometry),
                mode: ModeController::new(),
                compositor: Compositor::new(geometry.width, geometry.height),
            })
        } else {
            None
        }
    }

    /// The window was resized.  Where a buffer of the new size can be
    /// addressed, the geometry and the compositor follow and the size update
    /// for the capture side comes back; otherwise nothing changes.
    pub fn on_resize(&mut self, width: u32, height: u32) -> (update: Option<(u32, u32)>)
        requires
            old(self).wf(),
        ensures
            final(self).wf(),
            final(self).mode == old(self).mode,
            final(self).compositor.latest_spec() == old(self).compositor.latest_spec(),
            rgba_len(width as int, height as int) <= usize::MAX ==> update == Some((width, height))
                && final(self).tracker.geometry == (WindowGeometry {
                width,
                height,
                ..old(self).tracker.geometry
            }),
            rgba_len(width as int, height as int) > usize::MAX ==> update is None
                && final(self).tracker.geometry == old(self).tracker.geometry,
    {
        let probe = CropRegion { x: 0, y: 0, width, height };
        if region_fits(probe) {
            self.compositor.resize(width, height);
            Some(self.tracker.on_resize(width, height))
        } else {
            None
        }
    }

    /// The window moved; returns the position update for the capture side.
    pub fn on_move(&mut self, x: i32, y: i32) -> (update: (i32, i32))
        requires
            old(self).wf(),
        ensures
            final(self).wf(),
            final(self).mode == old(self).mode,
            final(self).compositor.latest_spec() == old(self).compositor.latest_spec(),
            final(self).tracker.geometry == (WindowGeometry { x, y, ..old(self).tracker.geometry }),
            update == (x, y),
    {
        self.tracker.on_move(x, y)
    }

    /// The window gained or lost focus.
    pub fn on_focus(&mut self, focused: bool)
        requires
            old(self).wf(),
        ensures
            final(self).wf(),
            final(self).mode == old(self).mode,
            final(self).compositor.latest_spec() == old(self).compositor.latest_spec(),
            final(self).tracker.geometry == (WindowGeometry { focused, ..old(self).tracker.geometry }),
    {
        self.tracker.on_focus(focused);
    }

    /// A toggle was requested at `now_ms`; see [`ModeController::on_trigger`].
    pub fn on_trigger(&mut self, now_ms: u64) -> (applied: Option<WindowAttributes>)
        requires
            old(self).wf(),
        ensures
            final(self).wf(),
            final(self).mode == old(self).mode.triggered(now_ms),
            final(self).tracker == old(self).tracker,
            final(self).compositor.latest_spec() == old(self).compositor.latest_spec(),
            old(self).mode.accepts(now_ms) ==> applied == Some(attributes_spec(final(self).mode.mode)),
            !old(self).mode.accepts(now_ms) ==> applied is None,
    {
        self.mode.on_trigger(now_ms)
    }

    /// One render tick with what the non-blocking receive returned; the
    /// window's focus decides between the privacy fill and the newest frame.
    pub fn tick(&mut self, received: Received<CroppedFrame>) -> (action: TickAction)
        requires
            old(self).wf(),
        ensures
            final(self).wf(),
            final(self).tracker == old(self).tracker,
            final(self).mode == old(self).mode,
            received matches Received::Value(f) ==> final(self).compositor.latest_spec() == Some(f.pixels@),
            !(received is Value) ==> final(self).compositor.latest_spec() == old(self).compositor.latest_spec(),
            received is Disconnected ==> action is Shutdown,
            !(received is Disconnected) && old(self).tracker.geometry.focused ==> (action matches TickAction::Present(b)
                && b@ == privacy_fill(rgba_len(old(self).tracker.geometry.width as int, old(self).tracker.geometry.height as int))),
            !(received is Disconnected) && !old(self).tracker.geometry.focused ==> (action matches TickAction::Present(b)
                && b@ == final(self).compositor.shown()),
    {
        let focused = self.tracker.geometry.focused;
        self.compositor.tick(received, focused)
    }
}

} // verus!
