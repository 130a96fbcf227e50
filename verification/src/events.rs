use vstd::prelude::*;

verus! {

/// One event delivered by the window system, reduced to what the core
/// reacts to.
#[derive(Clone, Copy, PartialEq, Eq, Structural, Debug)]
pub enum WindowEvent {
    /// The user asked to close the window.
    CloseRequested,
    /// The window was resized to this pixel size.
    Resized { width: u32, height: u32 },
    /// The scale factor changed, giving the window this new pixel size.
    ScaleFactorChanged { width: u32, height: u32 },
    /// The event queue drained; the loop is idle.
    EventsCleared,
    /// The window asks to be redrawn.
    RedrawRequested,
    /// Anything else; the core ignores it.
    Other,
}

/// What the event loop does in answer to one window event.
#[derive(Clone, Copy, PartialEq, Eq, Structural, Debug)]
pub enum EventAction {
    /// Leave the event loop and shut down.
    Exit,
    /// Take exclusive access to the context and reconfigure the surface for
    /// this size.
    Reconfigure { width: u32, height: u32 },
    /// Ask the window for a redraw.
    RequestRedraw,
    /// Run one frame of the pipeline.
    RenderFrame,
    /// Nothing to do.
    Nothing,
}

/// Decides the event loop's answer to each window event: closing exits,
/// either kind of size change reconfigures the surface before any later
/// frame, an idle loop asks for a redraw, and a redraw request runs one
/// frame.
pub fn handle_event(e: WindowEvent) -> (a: EventAction)
    ensures
        e == WindowEvent::CloseRequested ==> a == EventAction::Exit,
        e matches WindowEvent::Resized { width, height } ==> a == (EventAction::Reconfigure {
            width,
            height,
        }),
        e matches WindowEvent::ScaleFactorChanged { width, height } ==> a
            == (EventAction::Reconfigure { width, height }),
        e == WindowEvent::EventsCleared ==> a == EventAction::RequestRedraw,
        e == WindowEvent::RedrawRequested ==> a == EventAction::RenderFrame,
        e == WindowEvent::Other ==> a == EventAction::Nothing,
{
    match e {
        WindowEvent::CloseRequested => EventAction::Exit,
        WindowEvent::Resized { width, height } => EventAction::Reconfigure { width, height },
        WindowEvent::ScaleFactorChanged { width, height } => EventAction::Reconfigure {
            width,
            height,
        },
        WindowEvent::EventsCleared => EventAction::RequestRedraw,
        WindowEvent::RedrawRequested => EventAction::RenderFrame,
        WindowEvent::Other => EventAction::Nothing,
    }
}

} // verus!
