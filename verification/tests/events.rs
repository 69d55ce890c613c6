use triangle_demo::events::{handle_event, Action, Flow, LoopEvent};

#[test]
fn resize_is_applied() {
    assert_eq!(
        handle_event(LoopEvent::Resized(900, 700)),
        (Action::Resize(900, 700), Flow::Wait)
    );
}

#[test]
fn close_request_exits() {
    assert_eq!(handle_event(LoopEvent::CloseRequested), (Action::Nothing, Flow::Exit));
}

#[test]
fn redraw_request_paints_a_frame() {
    assert_eq!(handle_event(LoopEvent::RedrawRequested), (Action::RedrawFrame, Flow::Wait));
}

#[test]
fn other_events_are_ignored() {
    assert_eq!(handle_event(LoopEvent::LoopDestroyed), (Action::Nothing, Flow::Wait));
    assert_eq!(handle_event(LoopEvent::OtherWindow), (Action::Nothing, Flow::Wait));
    assert_eq!(handle_event(LoopEvent::Other), (Action::Nothing, Flow::Wait));
}
