//! The surface lifecycle state machine.
//!
//! The rendering service drives a real GPU surface; the decisions it takes
//! — when a resize is applied, when a frame is drawn, when a lost surface
//! is reconfigured — are the transitions of this plain state machine, so
//! they can be verified and exercised without a GPU.  The two counters are
//! the observable side channel: one counts submitted draws, the other
//! surface reconfigurations.

use vstd::prelude::*;

verus! {

/// Why a frame was dropped.  `Lost` and `Outdated` mean the surface must
/// be reconfigured at the window's current size before the next attempt;
/// the rest are transient and the frame is simply skipped.
#[derive(Clone, Copy, Debug, PartialEq, Eq, Structural)]
pub enum RenderError {
    Timeout,
    Outdated,
    Lost,
    OutOfMemory,
    Other,
}

/// True for the errors that invalidate the surface.
pub open spec fn spec_surface_invalid(e: RenderError) -> bool {
    e is Lost || e is Outdated
}

/// The observable surface state: the stored extent, whether the surface
/// has ever been successfully configured, and the two side-channel
/// counters.
#[derive(Clone, Copy, Debug, PartialEq, Eq, Structural)]
pub struct SurfaceState {
    pub configured: bool,
    pub width: u32,
    pub height: u32,
    pub draw_submissions: u64,
    pub reconfigurations: u64,
}

/// The state before the first resize: unconfigured, with nothing counted.
pub open spec fn spec_initial_state() -> SurfaceState {
    SurfaceState { configured: false, width: 0u32, height: 0u32, draw_submissions: 0u64, reconfigurations: 0u64 }
}

/// A counter bump that stops at the largest representable value.
pub open spec fn spec_saturating_inc(x: u64) -> u64 {
    if x == u64::MAX {
        x
    } else {
        (x + 1) as u64
    }
}

/// A resize request: applied, and counted as a reconfiguration, exactly
/// when both dimensions are positive; otherwise ignored.
pub open spec fn spec_resize(s: SurfaceState, width: u32, height: u32) -> SurfaceState {
    if width > 0 && height > 0 {
        SurfaceState {
            configured: true,
            width,
            height,
            draw_submissions: s.draw_submissions,
            reconfigurations: spec_saturating_inc(s.reconfigurations),
        }
    } else {
        s
    }
}

/// One submitted draw.
pub open spec fn spec_record_draw(s: SurfaceState) -> SurfaceState {
    SurfaceState { draw_submissions: spec_saturating_inc(s.draw_submissions), ..s }
}

/// The recovery for a dropped frame: a surface-invalidating error causes a
/// resize to the window's current extent; any other error leaves the state
/// alone.
pub open spec fn spec_recover(s: SurfaceState, e: RenderError, width: u32, height: u32) -> SurfaceState {
    if spec_surface_invalid(e) {
        spec_resize(s, width, height)
    } else {
        s
    }
}

/// One whole presentation attempt: before the first successful resize it
/// is a no-op; afterwards a successful acquisition draws one frame and a
/// failed one triggers the recovery.
pub open spec fn spec_present(
    s: SurfaceState,
    outcome: Result<(), RenderError>,
    width: u32,
    height: u32,
) -> SurfaceState {
    if !s.configured {
        s
    } else {
        match outcome {
            Ok(_) => spec_record_draw(s),
            Err(e) => spec_recover(s, e, width, height),
        }
    }
}

impl SurfaceState {
    /// Nothing is counted while the surface has never been configured.
    pub open spec fn wf(&self) -> bool {
        !self.configured ==> self.draw_submissions == 0 && self.reconfigurations == 0
            && self.width == 0 && self.height == 0
    }

    /// The state before the first resize.
    pub fn new() -> (r: SurfaceState)
        ensures
            r == spec_initial_state(),
            r.wf(),
    {
        SurfaceState { configured: false, width: 0, height: 0, draw_submissions: 0, reconfigurations: 0 }
    }

    /// Applies a resize request and reports whether it was applied.
    pub fn apply_resize(&mut self, width: u32, height: u32) -> (applied: bool)
        ensures
            *final(self) == spec_resize(*old(self), width, height),
            applied == (width > 0 && height > 0),
            old(self).wf() ==> final(self).wf(),
    {
        if width > 0 && height > 0 {
            self.configured = true;
            self.width = width;
            self.height = height;
            if self.reconfigurations < u64::MAX {
                self.reconfigurations = self.reconfigurations + 1;
            }
            true
        } else {
            false
        }
    }

    /// Counts one submitted draw.
    pub fn record_draw(&mut self)
        ensures
            *final(self) == spec_record_draw(*old(self)),
            old(self).wf() && old(self).configured ==> final(self).wf(),
    {
        if self.draw_submissions < u64::MAX {
            self.draw_submissions = self.draw_submissions + 1;
        }
    }
}

/// A resize with a zero dimension leaves the stored configuration
/// unchanged; a resize with both dimensions positive stores exactly the
/// given extent and configures the surface.
pub proof fn lemma_resize_policy(s: SurfaceState, width: u32, height: u32)
    ensures
        (width == 0 || height == 0) ==> spec_resize(s, width, height) == s,
        (width > 0 && height > 0) ==> spec_resize(s, width, height).width == width
            && spec_resize(s, width, height).height == height && spec_resize(
            s,
            width,
            height,
        ).configured,
{
}

/// Before any successful resize a presentation attempt changes nothing —
/// whatever the acquisition outcome — and no draw has ever been submitted.
pub proof fn lemma_render_before_first_resize(
    s: SurfaceState,
    outcome: Result<(), RenderError>,
    width: u32,
    height: u32,
)
    requires
        s.wf(),
        !s.configured,
    ensures
        spec_present(s, outcome, width, height) == s,
        s.draw_submissions == 0,
{
}

/// A lost surface drops the frame and triggers exactly one
/// reconfiguration, after which the surface is configured again and the
/// next successful attempt draws.
pub proof fn lemma_lost_surface_recovery(s: SurfaceState, width: u32, height: u32)
    requires
        s.configured,
        width > 0,
        height > 0,
        s.reconfigurations < u64::MAX,
        s.draw_submissions < u64::MAX,
    ensures
        ({
            let recovered = spec_present(s, Err(RenderError::Lost), width, height);
            &&& recovered.reconfigurations == s.reconfigurations + 1
            &&& recovered.draw_submissions == s.draw_submissions
            &&& recovered.configured
            &&& spec_present(recovered, Ok(()), width, height).draw_submissions
                == s.draw_submissions + 1
        }),
{
}

} // verus!
