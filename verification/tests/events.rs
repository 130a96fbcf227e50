use triframe::events::{handle_event, EventAction, WindowEvent};

#[test]
fn close_request_exits() {
    assert_eq!(handle_event(WindowEvent::CloseRequested), EventAction::Exit);
}

#[test]
fn resize_reconfigures_the_surface() {
    assert_eq!(
        handle_event(WindowEvent::Resized { width: 1024, height: 768 }),
        EventAction::Reconfigure { width: 1024, height: 768 }
    );
}

#[test]
fn scale_factor_change_reconfigures_the_surface() {
    assert_eq!(
        handle_event(WindowEvent::ScaleFactorChanged { width: 320, height: 200 }),
        EventAction::Reconfigure { width: 320, height: 200 }
    );
}

#[test]
fn idle_loop_requests_a_redraw() {
    assert_eq!(handle_event(WindowEvent::EventsCleared), EventAction::RequestRedraw);
}

#[test]
fn redraw_request_runs_a_frame() {
    assert_eq!(handle_event(WindowEvent::RedrawRequested), EventAction::RenderFrame);
}

#[test]
fn unrelated_events_do_nothing() {
    assert_eq!(handle_event(WindowEvent::Other), EventAction::Nothing);
}
