use vstd::prelude::*;
use crate::frame::FramePlan;
use crate::surface::SurfaceConfig;

verus! {

/// A window-system signal, already narrowed by the shell to the events the
/// loop reacts to: a close request, a resize with the new physical size, a
/// redraw request, the moment all pending events are drained (a new frame
/// is due), and everything else.
#[derive(Clone, Copy, PartialEq, Eq, Structural, Debug)]
pub enum WindowEvent {
    CloseRequested,
    Resized(u32, u32),
    RedrawRequested,
    MainEventsCleared,
    Other,
}

/// What the shell must do after an event was dispatched: terminate the
/// event loop; ask the window for a redraw; apply the given configuration
/// to the surface; perform the steps of the frame plan; or nothing.
#[derive(Clone, Debug)]
pub enum EventResponse {
    Exit,
    RequestRedraw,
    ApplyConfig(SurfaceConfig),
    Render(FramePlan),
    Ignore,
}

} // verus!
