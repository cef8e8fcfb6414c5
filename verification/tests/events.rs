use screengrab::capture::next_poll_step;
use screengrab::capture::FrameStatus;
use screengrab::capture::PollStep;
use screengrab::events::AppState;
use screengrab::events::ControlFlowChoice;
use screengrab::events::DragState;
use screengrab::events::EventAction;
use screengrab::events::Mode;
use screengrab::events::StartCauseKind;
use screengrab::events::WindowEventKind;
use screengrab::Point;
use screengrab::Rect;

#[test]
fn fresh_session_is_idle() {
    let s = AppState::default();
    assert_eq!(s.mode, Mode::Wait);
    assert!(!s.request_redraw);
    assert!(!s.wait_cancelled);
    assert!(!s.close_requested);
    assert_eq!(s.mouse_position, Point { x: 0, y: 0 });
    assert_eq!(s.drag, DragState::Idle);
}

#[test]
fn close_request_latches() {
    let mut s = AppState::default();
    let a = s.handle_window_event(WindowEventKind::CloseRequested);
    assert_eq!(a, EventAction::NoAction);
    assert!(s.close_requested);
    s.handle_window_event(WindowEventKind::Other);
    assert!(s.close_requested);
}

#[test]
fn drag_press_move_release_captures() {
    let mut s = AppState::default();
    s.handle_window_event(WindowEventKind::CursorMoved { position: Point { x: 5, y: 9 } });
    let a = s.handle_window_event(WindowEventKind::MouseInput { pressed: true, left: true });
    assert_eq!(a, EventAction::NoAction);
    assert_eq!(s.drag, DragState::Dragging(Point { x: 5, y: 9 }));

    let a = s.handle_window_event(WindowEventKind::CursorMoved { position: Point { x: 2, y: 3 } });
    assert_eq!(
        a,
        EventAction::Preview { rect: Rect { x_min: 2, y_min: 3, width: 3, height: 6 } },
    );

    let a = s.handle_window_event(WindowEventKind::MouseInput { pressed: false, left: true });
    assert_eq!(
        a,
        EventAction::Capture { start: Point { x: 5, y: 9 }, end: Point { x: 2, y: 3 } },
    );
    assert_eq!(s.drag, DragState::Idle);
}

#[test]
fn release_without_drag_does_nothing() {
    let mut s = AppState::default();
    let a = s.handle_window_event(WindowEventKind::MouseInput { pressed: false, left: true });
    assert_eq!(a, EventAction::NoAction);
    assert_eq!(s.drag, DragState::Idle);
}

#[test]
fn other_buttons_do_not_start_a_drag() {
    let mut s = AppState::default();
    let a = s.handle_window_event(WindowEventKind::MouseInput { pressed: true, left: false });
    assert_eq!(a, EventAction::NoAction);
    assert_eq!(s.drag, DragState::Idle);
}

#[test]
fn cursor_move_without_drag_only_tracks() {
    let mut s = AppState::default();
    let a = s.handle_window_event(WindowEventKind::CursorMoved { position: Point { x: 8, y: 4 } });
    assert_eq!(a, EventAction::NoAction);
    assert_eq!(s.mouse_position, Point { x: 8, y: 4 });
}

#[test]
fn wait_cancelled_counts_only_in_wait_until_mode() {
    let mut s = AppState::default();
    s.note_new_events(StartCauseKind::WaitCancelled);
    assert!(!s.wait_cancelled);
    s.mode = Mode::WaitUntil;
    s.note_new_events(StartCauseKind::WaitCancelled);
    assert!(s.wait_cancelled);
    s.note_new_events(StartCauseKind::Other);
    assert!(!s.wait_cancelled);
}

#[test]
fn wait_directive_follows_mode_and_flags() {
    let mut s = AppState::default();
    s.request_redraw = true;
    let d = s.about_to_wait_directive();
    assert!(d.redraw);
    assert!(!d.exit);
    assert_eq!(d.control, Some(ControlFlowChoice::Wait));

    s.mode = Mode::WaitUntil;
    s.wait_cancelled = true;
    let d = s.about_to_wait_directive();
    assert!(!d.redraw);
    assert_eq!(d.control, None);

    s.wait_cancelled = false;
    let d = s.about_to_wait_directive();
    assert_eq!(d.control, Some(ControlFlowChoice::WaitUntilDelay));

    s.mode = Mode::Poll;
    s.close_requested = true;
    let d = s.about_to_wait_directive();
    assert!(!d.redraw);
    assert!(d.exit);
    assert_eq!(d.control, Some(ControlFlowChoice::PollAfterSleep));
}

#[test]
fn poll_loop_retries_until_ready_and_fails_only_fatally() {
    assert_eq!(next_poll_step(FrameStatus::Ready), PollStep::Accept);
    assert_eq!(next_poll_step(FrameStatus::NotReady), PollStep::RetryAfterDelay);
    assert_eq!(next_poll_step(FrameStatus::Fatal), PollStep::Fail);
}
