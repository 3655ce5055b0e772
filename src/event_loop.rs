use vstd::prelude::*;

verus! {

/// The window events the application distinguishes.
#[derive(Clone, Copy, Debug, PartialEq, Eq, Structural)]
pub enum LoopEvent {
    /// Every pending event has been handled for this iteration.
    EventsCleared,
    RedrawRequested,
    CloseRequested,
    /// The loop has stopped and will deliver nothing more.
    LoopDestroyed,
    Other,
}

/// What the loop does in answer to one event.
#[derive(Clone, Copy, Debug, PartialEq, Eq, Structural)]
pub enum LoopAction {
    /// Ask the window for a redraw and keep polling.
    RequestRedraw,
    /// Keep polling.
    Continue,
    /// Leave the loop.
    Exit,
    /// Release every resource, in reverse order of creation.
    TearDown,
}

/// The busy-polling loop: a redraw is requested after each batch of events,
/// drawing itself does nothing, and a close request ends the loop.
pub open spec fn action_for(event: LoopEvent) -> LoopAction {
    match event {
        LoopEvent::EventsCleared => LoopAction::RequestRedraw,
        LoopEvent::RedrawRequested => LoopAction::Continue,
        LoopEvent::CloseRequested => LoopAction::Exit,
        LoopEvent::LoopDestroyed => LoopAction::TearDown,
        LoopEvent::Other => LoopAction::Continue,
    }
}

/// Decides what the loop does with one event.
pub fn handle_event(event: LoopEvent) -> (r: LoopAction)
    ensures
        r == action_for(event),
{
    match event {
        LoopEvent::EventsCleared => LoopAction::RequestRedraw,
        LoopEvent::RedrawRequested => LoopAction::Continue,
        LoopEvent::CloseRequested => LoopAction::Exit,
        LoopEvent::LoopDestroyed => LoopAction::TearDown,
        LoopEvent::Other => LoopAction::Continue,
    }
}

} // verus!
