use vstd::prelude::*;

verus! {

/// A window surface size in physical pixels.
#[derive(Clone, Copy, Debug, PartialEq, Eq, Structural)]
pub struct SurfaceSize {
    pub width: u32,
    pub height: u32,
}

impl SurfaceSize {
    /// Both dimensions are non-zero, so a surface of this size can be drawn to.
    pub open spec fn drawable(self) -> bool {
        self.width > 0 && self.height > 0
    }

    pub fn is_drawable(&self) -> (r: bool)
        ensures
            r == self.drawable(),
    {
        self.width > 0 && self.height > 0
    }
}

} // verus!

verus! {

/// Where the drawable surface stands in its lifecycle.
#[derive(Clone, Copy, Debug, PartialEq, Eq, Structural)]
pub enum SurfacePhase {
    /// Created, but no configuration has been applied yet (the window had a zero dimension).
    Unconfigured,
    /// The latest known window size is applied to the surface.
    Configured,
    /// Acquiring a frame reported the surface lost; it must be configured again.
    Lost,
    /// Rendering ran out of memory; the session must end.
    Terminated,
}

/// What rendering one frame came to.
#[derive(Clone, Copy, Debug, PartialEq, Eq, Structural)]
pub enum FrameOutcome {
    Presented,
    SurfaceLost,
    OutOfMemory,
    /// Any other, transient, acquisition or presentation failure.
    Other,
}

/// What the host loop must do after a frame.
#[derive(Clone, Copy, Debug, PartialEq, Eq, Structural)]
pub enum FrameAction {
    /// Nothing more to do.
    Continue,
    /// Apply this size to the surface again, then draw on a later frame.
    Reconfigure(SurfaceSize),
    /// Report the failure and drop this frame; the next redraw tries again.
    SkipFrame,
    /// Unrecoverable: end the session.
    Exit,
}

/// The size and lifecycle phase of the drawable surface.
#[derive(Clone, Copy, Debug, PartialEq, Eq, Structural)]
pub struct SurfaceLifecycle {
    pub phase: SurfacePhase,
    /// The last size that was requested with both dimensions non-zero (or the initial size).
    pub size: SurfaceSize,
}

impl SurfaceLifecycle {
    /// A configured or lost surface always holds a drawable size.
    pub open spec fn wf(self) -> bool {
        (self.phase == SurfacePhase::Configured || self.phase == SurfacePhase::Lost)
            ==> self.size.drawable()
    }

    /// The state after creating the surface for a window of size `size`.
    pub open spec fn initial(size: SurfaceSize) -> SurfaceLifecycle {
        SurfaceLifecycle {
            phase: if size.drawable() {
                SurfacePhase::Configured
            } else {
                SurfacePhase::Unconfigured
            },
            size,
        }
    }

    /// Configuring with a size that has a zero dimension, or after termination, changes
    /// nothing; any other size is stored and applied.
    pub open spec fn configured(self, size: SurfaceSize) -> SurfaceLifecycle {
        if self.phase == SurfacePhase::Terminated || !size.drawable() {
            self
        } else {
            SurfaceLifecycle { phase: SurfacePhase::Configured, size }
        }
    }

    /// Whether `configure` with `size` must reapply the surface configuration.
    pub open spec fn applies(self, size: SurfaceSize) -> bool {
        self.phase != SurfacePhase::Terminated && size.drawable()
    }

    /// The state after a frame rendered from this (configured) state ended in `outcome`.
    pub open spec fn after_frame(self, outcome: FrameOutcome) -> SurfaceLifecycle {
        match outcome {
            FrameOutcome::SurfaceLost => SurfaceLifecycle { phase: SurfacePhase::Lost, ..self },
            FrameOutcome::OutOfMemory => SurfaceLifecycle {
                phase: SurfacePhase::Terminated,
                ..self
            },
            _ => self,
        }
    }

    /// What the host loop must do after a frame ended in `outcome`.
    pub open spec fn frame_action(self, outcome: FrameOutcome) -> FrameAction {
        match outcome {
            FrameOutcome::Presented => FrameAction::Continue,
            FrameOutcome::SurfaceLost => FrameAction::Reconfigure(self.size),
            FrameOutcome::OutOfMemory => FrameAction::Exit,
            FrameOutcome::Other => FrameAction::SkipFrame,
        }
    }

    /// Creates the surface state for a window of size `size`: configured when both
    /// dimensions are non-zero, otherwise waiting for a usable size.
    pub fn new(size: SurfaceSize) -> (r: SurfaceLifecycle)
        ensures
            r == SurfaceLifecycle::initial(size),
            r.wf(),
    {
        let phase = if size.is_drawable() {
            SurfacePhase::Configured
        } else {
            SurfacePhase::Unconfigured
        };
        SurfaceLifecycle { phase, size }
    }

    /// Requests the surface size `size`. Returns whether the configuration must be
    /// (re)applied to the surface; a size with a zero dimension is ignored.
    pub fn configure(&mut self, size: SurfaceSize) -> (applied: bool)
        requires
            old(self).wf(),
        ensures
            *final(self) == old(self).configured(size),
            applied == old(self).applies(size),
            final(self).wf(),
    {
        if self.phase == SurfacePhase::Terminated || !size.is_drawable() {
            false
        } else {
            self.phase = SurfacePhase::Configured;
            self.size = size;
            true
        }
    }

    /// Whether a frame may be rendered now.
    pub fn can_render(&self) -> (r: bool)
        ensures
            r == (self.phase == SurfacePhase::Configured),
    {
        self.phase == SurfacePhase::Configured
    }

    /// Records how a frame ended and says what the host loop must do next.
    pub fn on_frame_result(&mut self, outcome: FrameOutcome) -> (action: FrameAction)
        requires
            old(self).wf(),
            old(self).phase == SurfacePhase::Configured,
        ensures
            *final(self) == old(self).after_frame(outcome),
            action == old(self).frame_action(outcome),
            final(self).wf(),
    {
        match outcome {
            FrameOutcome::Presented => FrameAction::Continue,
            FrameOutcome::SurfaceLost => {
                self.phase = SurfacePhase::Lost;
                FrameAction::Reconfigure(self.size)
            },
            FrameOutcome::OutOfMemory => {
                self.phase = SurfacePhase::Terminated;
                FrameAction::Exit
            },
            FrameOutcome::Other => FrameAction::SkipFrame,
        }
    }
}

/// A request with a zero width or a zero height leaves the stored size, and the whole
/// state, unchanged, and applies nothing.
pub proof fn lemma_degenerate_configure_is_noop(s: SurfaceLifecycle, size: SurfaceSize)
    requires
        s.wf(),
        size.width == 0 || size.height == 0,
    ensures
        s.configured(size) == s,
        s.configured(size).size == s.size,
        !s.applies(size),
{
}

/// Configuring twice with the same size gives the same state as configuring once.
pub proof fn lemma_configure_idempotent(s: SurfaceLifecycle, size: SurfaceSize)
    requires
        s.wf(),
    ensures
        s.configured(size).configured(size) == s.configured(size),
{
}

/// A lost surface heals: the frame reports the loss and asks for the last size,
/// configuring with that size restores the configured state exactly, and the next
/// frame may be rendered.
pub proof fn lemma_lost_surface_recovers(s: SurfaceLifecycle)
    requires
        s.wf(),
        s.phase == SurfacePhase::Configured,
    ensures
        s.frame_action(FrameOutcome::SurfaceLost) == FrameAction::Reconfigure(s.size),
        s.after_frame(FrameOutcome::SurfaceLost).phase == SurfacePhase::Lost,
        s.after_frame(FrameOutcome::SurfaceLost).applies(s.size),
        s.after_frame(FrameOutcome::SurfaceLost).configured(s.size) == s,
        s.after_frame(FrameOutcome::SurfaceLost).configured(s.size).phase
            == SurfacePhase::Configured,
{
}

/// Out of memory is terminal: no later configuration revives the surface.
pub proof fn lemma_out_of_memory_is_terminal(s: SurfaceLifecycle, size: SurfaceSize)
    requires
        s.wf(),
        s.phase == SurfacePhase::Configured,
    ensures
        s.frame_action(FrameOutcome::OutOfMemory) == FrameAction::Exit,
        s.after_frame(FrameOutcome::OutOfMemory).configured(size).phase
            == SurfacePhase::Terminated,
{
}

} // verus!

verus! {

/// Chooses the presentation format among the backend's candidates, given whether each
/// is sRGB-capable: the first sRGB-capable one, else the first one; `None` when the
/// backend offers no format at all.
pub fn preferred_format_index(srgb: &[bool]) -> (r: Option<usize>)
    ensures
        srgb@.len() == 0 <==> r.is_none(),
        r.is_some() ==> r.unwrap() < srgb@.len(),
        r.is_some() && srgb@[r.unwrap() as int] ==> forall|k: int|
            0 <= k < r.unwrap() ==> !#[trigger] srgb@[k],
        r.is_some() && !srgb@[r.unwrap() as int] ==> r.unwrap() == 0 && forall|k: int|
            0 <= k < srgb@.len() ==> !#[trigger] srgb@[k],
{
    let mut i: usize = 0;
    while i < srgb.len()
        invariant
            i <= srgb@.len(),
            forall|k: int| 0 <= k < i ==> !#[trigger] srgb@[k],
        decreases srgb@.len() - i,
    {
        if srgb[i] {
            return Some(i);
        }
        i = i + 1;
    }
    if srgb.len() == 0 {
        None
    } else {
        Some(0)
    }
}

} // verus!
