use ruffle_ios::keys::{Press, PressPhase, UiKey};
use ruffle_ios::player_view::{any_handled, PlayerView, ViewCommand};
use ruffle_ios::touch::{TouchAction, TouchPhase};

fn ready_view() -> PlayerView {
    let mut view = PlayerView::new();
    assert_eq!(view.init(), vec![ViewCommand::ScheduleTimer]);
    assert_eq!(view.set_player(), vec![ViewCommand::MarkFrameTime]);
    view
}

#[test]
fn new_view_has_neither_timer_nor_player() {
    let view = PlayerView::new();
    assert!(!view.has_timer);
    assert!(!view.has_player);
    assert!(view.teardown().is_empty());
}

#[test]
fn start_stop_and_flush_drive_player_and_timer() {
    let mut view = ready_view();
    assert!(view.has_timer && view.has_player);
    assert!(!view.playing);
    assert_eq!(view.start(), vec![ViewCommand::SetIsPlaying(true), ViewCommand::FireTimer]);
    assert!(view.playing);
    assert_eq!(view.stop(), vec![ViewCommand::SetIsPlaying(false), ViewCommand::PauseTimer]);
    assert!(!view.playing);
    assert_eq!(view.flush(), vec![ViewCommand::FlushSharedObjects]);
    assert_eq!(view.teardown(), vec![ViewCommand::InvalidateTimer]);
}

#[test]
fn view_turns_touches_and_presses_into_events() {
    let view = ready_view();
    let mut touch = view.handle_touches(TouchPhase::Moved, 1);
    assert_eq!(touch.next_action(false), TouchAction::SetMouseInStage(true));
    let presses = vec![Press {
        key: Some(UiKey { key_code: 0x29, characters: "\u{1b}".to_string() }),
        phase: PressPhase::Began,
    }];
    assert_eq!(view.handle_presses(&presses).len(), 1);
}

#[test]
fn stopped_view_stays_paused_until_started() {
    let mut view = ready_view();
    view.start();
    view.stop();
    assert!(!view.playing);
    assert_eq!(view.flush(), vec![ViewCommand::FlushSharedObjects]);
    assert!(!view.playing);
    assert_eq!(view.start(), vec![ViewCommand::SetIsPlaying(true), ViewCommand::FireTimer]);
    assert!(view.playing);
}

#[test]
fn presses_are_handled_when_any_event_was() {
    assert!(!any_handled(&vec![]));
    assert!(!any_handled(&vec![false, false]));
    assert!(any_handled(&vec![false, true, false]));
    assert!(any_handled(&vec![true]));
}

#[test]
fn timer_is_not_fired_before_the_first_start() {
    let mut view = PlayerView::new();
    let mut commands = view.init();
    commands.extend(view.set_player());
    commands.extend(view.flush());
    commands.extend(view.stop());
    assert!(!commands.contains(&ViewCommand::FireTimer));
    assert!(!view.playing);
    assert!(view.start().contains(&ViewCommand::FireTimer));
}
