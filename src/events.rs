use vstd::prelude::*;
use crate::surface::{FrameAction, FrameOutcome, SurfaceLifecycle, SurfacePhase, SurfaceSize};
use crate::viewport::{CursorPosition, ViewportController, ZoomDirection, ZoomStep};

verus! {

/// The window events the viewer reacts to.
#[derive(Clone, Copy, Debug, PartialEq, Eq, Structural)]
pub enum WindowInput {
    CloseRequested,
    CursorMoved(CursorPosition),
    /// A scroll of any magnitude; only whether its vertical delta is positive matters.
    Scrolled { delta_is_positive: bool },
    Resized(SurfaceSize),
    RedrawRequested,
    /// Any other event.
    Ignored,
}

/// What the host loop must do in answer to an event.
#[derive(Clone, Copy, Debug, PartialEq, Eq, Structural)]
pub enum Reaction {
    Nothing,
    /// Close the window and leave the event loop.
    Exit,
    /// Move the view by this step, then ask for a redraw.
    Zoom(ZoomStep),
    /// Apply this size to the surface configuration, then ask for a redraw.
    ApplySize(SurfaceSize),
    /// Upload the uniform block, render one frame and report how it ended.
    RenderFrame,
}

/// The viewer's event-driven state: the surface, once created, and the viewport.
#[derive(Clone, Copy, Debug, PartialEq, Eq, Structural)]
pub struct App {
    pub surface: Option<SurfaceLifecycle>,
    pub viewport: ViewportController,
}

/// The direction a scroll with this delta sign asks for.
pub open spec fn direction_of(delta_is_positive: bool) -> ZoomDirection {
    if delta_is_positive {
        ZoomDirection::In
    } else {
        ZoomDirection::Out
    }
}

impl App {
    pub open spec fn wf(self) -> bool {
        self.surface.is_some() ==> self.surface.unwrap().wf()
    }

    /// The state after `input`.
    pub open spec fn after(self, input: WindowInput) -> App {
        match input {
            WindowInput::CursorMoved(p) => App {
                viewport: ViewportController { cursor: Some(p), ..self.viewport },
                ..self
            },
            WindowInput::Scrolled { delta_is_positive } => if self.surface.is_some() {
                App { viewport: self.viewport.scrolled(direction_of(delta_is_positive)), ..self }
            } else {
                self
            },
            WindowInput::Resized(size) => if self.surface.is_some() {
                App { surface: Some(self.surface.unwrap().configured(size)), ..self }
            } else {
                self
            },
            _ => self,
        }
    }

    /// What the host loop must do in answer to `input`.
    pub open spec fn reaction(self, input: WindowInput) -> Reaction {
        match input {
            WindowInput::CloseRequested => Reaction::Exit,
            WindowInput::Scrolled { delta_is_positive } => if self.surface.is_some() {
                Reaction::Zoom(self.viewport.scroll_step(direction_of(delta_is_positive)))
            } else {
                Reaction::Nothing
            },
            WindowInput::Resized(size) => if self.surface.is_some()
                && self.surface.unwrap().applies(size) {
                Reaction::ApplySize(size)
            } else {
                Reaction::Nothing
            },
            WindowInput::RedrawRequested => if self.surface.is_some()
                && self.surface.unwrap().phase == SurfacePhase::Configured {
                Reaction::RenderFrame
            } else {
                Reaction::Nothing
            },
            _ => Reaction::Nothing,
        }
    }

    /// No surface yet, no pointer position, zoom 1.
    pub fn new() -> (r: App)
        ensures
            r.surface.is_none(),
            r.viewport.cursor.is_none(),
            r.viewport.zoom_level == 0,
            r.wf(),
    {
        App { surface: None, viewport: ViewportController::new() }
    }

    /// The application became active with a window of size `size`. The surface is
    /// created only once: returns whether it must be created now.
    pub fn resumed(&mut self, size: SurfaceSize) -> (create: bool)
        requires
            old(self).wf(),
        ensures
            create == old(self).surface.is_none(),
            create ==> *final(self) == (App {
                surface: Some(SurfaceLifecycle::initial(size)),
                ..*old(self)
            }),
            !create ==> *final(self) == *old(self),
            final(self).wf(),
    {
        if self.surface.is_none() {
            self.surface = Some(SurfaceLifecycle::new(size));
            true
        } else {
            false
        }
    }

    /// Updates the state for `input` and says what the host loop must do.
    pub fn window_event(&mut self, input: WindowInput) -> (r: Reaction)
        requires
            old(self).wf(),
        ensures
            *final(self) == old(self).after(input),
            r == old(self).reaction(input),
            final(self).wf(),
    {
        match input {
            WindowInput::CloseRequested => Reaction::Exit,
            WindowInput::CursorMoved(p) => {
                self.viewport.on_pointer_move(p);
                Reaction::Nothing
            },
            WindowInput::Scrolled { delta_is_positive } => {
                if self.surface.is_some() {
                    let step = self.viewport.on_scroll(ZoomDirection::from_scroll(delta_is_positive));
                    Reaction::Zoom(step)
                } else {
                    Reaction::Nothing
                }
            },
            WindowInput::Resized(size) => {
                match &mut self.surface {
                    Some(s) => {
                        if s.configure(size) {
                            Reaction::ApplySize(size)
                        } else {
                            Reaction::Nothing
                        }
                    },
                    None => Reaction::Nothing,
                }
            },
            WindowInput::RedrawRequested => {
                match &self.surface {
                    Some(s) => {
                        if s.can_render() {
                            Reaction::RenderFrame
                        } else {
                            Reaction::Nothing
                        }
                    },
                    None => Reaction::Nothing,
                }
            },
            WindowInput::Ignored => Reaction::Nothing,
        }
    }

    /// Records how a rendered frame ended and says what the host loop must do.
    pub fn frame_finished(&mut self, outcome: FrameOutcome) -> (action: FrameAction)
        requires
            old(self).wf(),
            old(self).surface.is_some(),
            old(self).surface.unwrap().phase == SurfacePhase::Configured,
        ensures
            *final(self) == (App {
                surface: Some(old(self).surface.unwrap().after_frame(outcome)),
                ..*old(self)
            }),
            action == old(self).surface.unwrap().frame_action(outcome),
            final(self).wf(),
    {
        let mut s = self.surface.unwrap();
        let action = s.on_frame_result(outcome);
        self.surface = Some(s);
        action
    }
}

/// A lost surface heals through the event path: the frame asks for the last size,
/// resizing to it is applied and restores the state before the frame, and the next
/// redraw renders.
pub proof fn lemma_lost_frame_then_resize_renders(a: App)
    requires
        a.wf(),
        a.surface.is_some(),
        a.surface.unwrap().phase == SurfacePhase::Configured,
    ensures
        ({
            let s = a.surface.unwrap();
            let lost = App { surface: Some(s.after_frame(FrameOutcome::SurfaceLost)), ..a };
            &&& s.frame_action(FrameOutcome::SurfaceLost) == FrameAction::Reconfigure(s.size)
            &&& lost.reaction(WindowInput::Resized(s.size)) == Reaction::ApplySize(s.size)
            &&& lost.after(WindowInput::Resized(s.size)) == a
            &&& a.reaction(WindowInput::RedrawRequested) == Reaction::RenderFrame
        }),
{
}

/// A resize to a size with a zero dimension changes nothing and applies nothing.
pub proof fn lemma_degenerate_resize_is_noop(a: App, size: SurfaceSize)
    requires
        a.wf(),
        size.width == 0 || size.height == 0,
    ensures
        a.after(WindowInput::Resized(size)) == a,
        a.reaction(WindowInput::Resized(size)) == Reaction::Nothing,
{
}

/// Before any pointer movement, a scroll only changes the zoom level: its step carries
/// no anchor, so the view center is not moved.
pub proof fn lemma_scroll_before_pointer_has_no_anchor(a: App, delta_is_positive: bool)
    requires
        a.wf(),
        a.surface.is_some(),
        a.viewport.cursor.is_none(),
    ensures
        a.reaction(WindowInput::Scrolled { delta_is_positive }) == Reaction::Zoom(
            ZoomStep {
                from_level: a.viewport.zoom_level,
                to_level: a.after(WindowInput::Scrolled { delta_is_positive }).viewport.zoom_level,
                anchor: None,
            },
        ),
        a.after(WindowInput::Scrolled { delta_is_positive }).viewport.cursor.is_none(),
        a.after(WindowInput::Scrolled { delta_is_positive }).surface == a.surface,
{
}

} // verus!
