use ruffle_ios::touch::{MouseEventKind, TouchAction, TouchHandler, TouchPhase};

/// Runs a handler to its end, answering the first dispatched event with
/// `first` and the second with `second`.
fn run(phase: TouchPhase, tap_count: usize, first: bool, second: bool) -> Vec<TouchAction> {
    let mut handler = TouchHandler::new(phase, tap_count);
    let mut actions = Vec::new();
    let mut dispatched = 0;
    let mut reply = false;
    for _ in 0..10 {
        let action = handler.next_action(reply);
        actions.push(action);
        match action {
            TouchAction::Dispatch(_) => {
                dispatched += 1;
                reply = if dispatched == 1 { first } else { second };
            }
            TouchAction::Finish(_) => return actions,
            _ => {}
        }
    }
    panic!("the handler did not finish");
}

#[test]
fn began_touch_puts_mouse_down_with_tap_count() {
    assert_eq!(
        run(TouchPhase::Began, 2, true, false),
        vec![
            TouchAction::SetMouseInStage(true),
            TouchAction::Dispatch(MouseEventKind::MouseDown { tap_count: 2 }),
            TouchAction::RedrawIfNeeded,
            TouchAction::Finish(true),
        ]
    );
}

#[test]
fn moved_touch_moves_the_mouse() {
    assert_eq!(
        run(TouchPhase::Moved, 1, false, true),
        vec![
            TouchAction::SetMouseInStage(true),
            TouchAction::Dispatch(MouseEventKind::MouseMove),
            TouchAction::RedrawIfNeeded,
            TouchAction::Finish(false),
        ]
    );
}

#[test]
fn ended_touch_handled_by_mouse_up_skips_leave() {
    assert_eq!(
        run(TouchPhase::Ended, 1, true, false),
        vec![
            TouchAction::SetMouseInStage(true),
            TouchAction::Dispatch(MouseEventKind::MouseUp),
            TouchAction::SetMouseInStage(false),
            TouchAction::RedrawIfNeeded,
            TouchAction::Finish(true),
        ]
    );
}

#[test]
fn ended_touch_not_handled_by_mouse_up_leaves() {
    for second in [false, true] {
        assert_eq!(
            run(TouchPhase::Ended, 1, false, second),
            vec![
                TouchAction::SetMouseInStage(true),
                TouchAction::Dispatch(MouseEventKind::MouseUp),
                TouchAction::SetMouseInStage(false),
                TouchAction::Dispatch(MouseEventKind::MouseLeave),
                TouchAction::RedrawIfNeeded,
                TouchAction::Finish(second),
            ]
        );
    }
}

#[test]
fn cancelled_touch_leaves() {
    assert_eq!(
        run(TouchPhase::Cancelled, 1, true, false),
        vec![
            TouchAction::SetMouseInStage(true),
            TouchAction::Dispatch(MouseEventKind::MouseLeave),
            TouchAction::RedrawIfNeeded,
            TouchAction::Finish(true),
        ]
    );
}

#[test]
fn other_phases_are_not_handled() {
    for phase in [
        TouchPhase::Stationary,
        TouchPhase::RegionEntered,
        TouchPhase::RegionMoved,
        TouchPhase::RegionExited,
    ] {
        assert_eq!(run(phase, 1, true, true), vec![TouchAction::Finish(false)]);
    }
}

#[test]
fn finished_handler_keeps_its_answer() {
    let mut handler = TouchHandler::new(TouchPhase::Began, 1);
    handler.next_action(false);
    handler.next_action(false);
    handler.next_action(true);
    assert_eq!(handler.next_action(false), TouchAction::Finish(true));
    assert_eq!(handler.next_action(false), TouchAction::Finish(true));
}
