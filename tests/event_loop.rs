use ash_gui::event_loop::{handle_event, LoopAction, LoopEvent};

#[test]
fn redraw_after_events_cleared() {
    assert_eq!(handle_event(LoopEvent::EventsCleared), LoopAction::RequestRedraw);
}

#[test]
fn redraw_is_a_no_op() {
    assert_eq!(handle_event(LoopEvent::RedrawRequested), LoopAction::Continue);
    assert_eq!(handle_event(LoopEvent::Other), LoopAction::Continue);
}

#[test]
fn close_request_exits() {
    assert_eq!(handle_event(LoopEvent::CloseRequested), LoopAction::Exit);
}

#[test]
fn loop_end_tears_down() {
    assert_eq!(handle_event(LoopEvent::LoopDestroyed), LoopAction::TearDown);
}
