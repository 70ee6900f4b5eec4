use vstd::prelude::*;

use crate::surface::{SurfaceSize, ViewState};

verus! {

/// What the window system reports to the render state. Events of other
/// windows arrive as `Other`.
#[derive(Clone, Copy, Debug, PartialEq, Eq, Structural)]
pub enum WindowEvent {
    Resized { width: u32, height: u32 },
    CloseRequested,
    RedrawRequested,
    AboutToWait,
    Other,
}

/// What the event loop must do in answer to one event.
#[derive(Clone, Copy, Debug, PartialEq, Eq, Structural)]
pub enum Reaction {
    /// Apply `size` to the surface, upload the camera with its new aspect,
    /// then ask the window for a redraw.
    Reconfigure { size: SurfaceSize },
    /// Leave the event loop.
    Exit,
    /// Run the frame submitter once.
    Redraw,
    /// Ask the window for a redraw.
    RequestRedraw,
    /// Nothing to do.
    Ignore,
}

impl ViewState {
    /// The state after `e`.
    pub open spec fn after(self, e: WindowEvent) -> ViewState {
        match e {
            WindowEvent::Resized { width, height } => ViewState::spec_for_size(width, height),
            _ => self,
        }
    }

    /// The answer to `e` once the state has taken it.
    pub open spec fn reaction_to(self, e: WindowEvent) -> Reaction {
        match e {
            WindowEvent::Resized { width, height } => Reaction::Reconfigure {
                size: ViewState::spec_for_size(width, height).surface,
            },
            WindowEvent::CloseRequested => Reaction::Exit,
            WindowEvent::RedrawRequested => Reaction::Redraw,
            WindowEvent::AboutToWait => Reaction::RequestRedraw,
            WindowEvent::Other => Reaction::Ignore,
        }
    }

    /// The state after every event of `events`, in order.
    pub open spec fn after_all(self, events: Seq<WindowEvent>) -> ViewState
        decreases events.len(),
    {
        if events.len() == 0 {
            self
        } else {
            self.after(events[0]).after_all(events.drop_first())
        }
    }

    /// Takes one event: a resize reconfigures, everything else leaves the
    /// state as it is.
    pub fn handle(&mut self, e: WindowEvent) -> (r: Reaction)
        ensures
            *final(self) == old(self).after(e),
            r == old(self).reaction_to(e),
            old(self).wf() ==> final(self).wf(),
    {
        match e {
            WindowEvent::Resized { width, height } => {
                let size = self.reconfigure(width, height);
                Reaction::Reconfigure { size }
            },
            WindowEvent::CloseRequested => Reaction::Exit,
            WindowEvent::RedrawRequested => Reaction::Redraw,
            WindowEvent::AboutToWait => Reaction::RequestRedraw,
            WindowEvent::Other => Reaction::Ignore,
        }
    }
}

/// A resize followed by a redraw leaves the surface at exactly the clamped
/// new size and the camera's aspect at that width over that height.
pub proof fn lemma_resize_then_redraw(s: ViewState, width: u32, height: u32)
    ensures
        ({
            let r = s.after(WindowEvent::Resized { width, height }).after(
                WindowEvent::RedrawRequested,
            );
            &&& r.surface == SurfaceSize::spec_clamped(width, height)
            &&& r.aspect.width == r.surface.width
            &&& r.aspect.height == r.surface.height
        }),
{
}

/// Whatever events arrive, a well-formed state stays well-formed: no
/// zero-sized surface is configured and the aspect follows the surface.
pub proof fn lemma_events_keep_wf(s: ViewState, events: Seq<WindowEvent>)
    requires
        s.wf(),
    ensures
        s.after_all(events).wf(),
    decreases events.len(),
{
    if events.len() > 0 {
        lemma_events_keep_wf(s.after(events[0]), events.drop_first());
    }
}

} // verus!
