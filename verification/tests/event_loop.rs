use dumbgram::app::App;
use dumbgram::event_loop::{
    classify_terminal_event, route_received_update, FrameScheduler, KeyEventKind, LoopSchedule,
    TerminalAction, TerminalEvent, UpdateRoute, MIN_FRAME_INTERVAL_MS,
    RECONCILIATION_FOCUS_STALE_AFTER_MS, RECONCILIATION_INTERVAL_MS,
    UPDATE_SUBSCRIPTION_RETRY_DELAY_MS,
};
use dumbgram::keys::{KeyCode, KeyEvent, KeyModifiers};
use dumbgram::mouse_events::{MouseEvent, MouseEventKind};
use dumbgram::session::TELEGRAM_UPDATES_DISCONNECTED_ERROR;
use dumbgram::types::{Chat, Message, MessageStatus, Update};
use std::collections::HashMap;

fn message(id: i32, chat_id: i64) -> Message {
    Message {
        id,
        chat_id,
        thread_topic_id: None,
        sender_identity: None,
        sender_name: "Alice".to_string(),
        content: "hi".to_string(),
        timestamp: 1_700_000_000,
        is_own: false,
        is_edited: false,
        reply_to_content: None,
        media: None,
        status: MessageStatus::Sent,
        can_edit: false,
        can_delete: false,
        error: None,
    }
}

#[test]
fn terminal_event_classification_preserves_input_semantics() {
    let press = KeyEvent::new(KeyCode::Char('j'), KeyModifiers::none());
    assert_eq!(
        classify_terminal_event(TerminalEvent::Key(press, KeyEventKind::Press)),
        TerminalAction::Key(press)
    );
    for kind in [KeyEventKind::Repeat, KeyEventKind::Release] {
        assert_eq!(classify_terminal_event(TerminalEvent::Key(press, kind)), TerminalAction::Ignore);
    }
    assert_eq!(classify_terminal_event(TerminalEvent::Resize(100, 40)), TerminalAction::Resize);
    assert_eq!(
        classify_terminal_event(TerminalEvent::Paste("ignored".to_string())),
        TerminalAction::Ignore
    );
    assert_eq!(classify_terminal_event(TerminalEvent::FocusGained), TerminalAction::FocusGained);
    assert_eq!(classify_terminal_event(TerminalEvent::FocusLost), TerminalAction::FocusLost);
    assert!(matches!(
        classify_terminal_event(TerminalEvent::Mouse(MouseEvent {
            kind: MouseEventKind::Moved,
            column: 1,
            row: 2,
            modifiers: KeyModifiers::none(),
        })),
        TerminalAction::Mouse(_)
    ));
}

#[test]
fn frame_scheduler_skips_idle_and_coalesces_result_input_bursts_at_frame_cap() {
    let now = 1_000;
    let mut frames = FrameScheduler::new(false, now);
    assert!(frames.frame_deadline(now).is_none());
    assert!(frames.take_due_frame(now).is_none());

    frames.mark_dirty(now);
    frames.mark_dirty(now);
    assert_eq!(frames.take_due_frame(now), Some(0));
    assert!(frames.take_due_frame(now).is_none());

    frames.mark_dirty(now);
    assert!(frames.take_due_frame(now + MIN_FRAME_INTERVAL_MS - 1).is_none());
    assert_eq!(frames.take_due_frame(now + MIN_FRAME_INTERVAL_MS), Some(MIN_FRAME_INTERVAL_MS));
    assert!(frames.frame_deadline(now).is_none());
}

#[test]
fn first_frame_is_due_at_once_and_later_ones_after_the_interval() {
    let mut frames = FrameScheduler::new(true, 50);
    assert_eq!(frames.frame_deadline(60), Some(60));
    assert_eq!(frames.take_due_frame(60), Some(10));
    frames.mark_dirty(61);
    assert_eq!(frames.frame_deadline(61), Some(60 + MIN_FRAME_INTERVAL_MS));
}

#[test]
fn reconciliation_and_subscription_scheduling_are_single_flight() {
    let mut schedule = LoopSchedule::new();
    schedule.initial_state_pending = false;
    schedule.subscription_pending = false;
    let start = 1_000_000;
    schedule.last_reconciliation_success_at = Some(start);

    schedule.schedule_focus_reconciliation(start);
    assert!(schedule.next_reconciliation_at.is_none());
    let later = start + RECONCILIATION_FOCUS_STALE_AFTER_MS + 1;
    schedule.schedule_focus_reconciliation(later);
    let focus_deadline = schedule.next_reconciliation_at.expect("stale focus should schedule reconciliation");
    schedule.schedule_focus_reconciliation(later + 5);
    assert_eq!(schedule.next_reconciliation_at, Some(focus_deadline));
    assert!(schedule.announce_reconciliation_success);

    schedule.reconciliation_pending = true;
    schedule.next_reconciliation_at = None;
    schedule.schedule_reconciliation_now(later);
    assert!(schedule.reconciliation_requested_while_pending);
    assert!(schedule.finish_reconciliation_gate(later, later + RECONCILIATION_INTERVAL_MS));
    assert_eq!(schedule.next_reconciliation_at, Some(later));
    assert!(!schedule.reconciliation_requested_while_pending);

    schedule.schedule_subscription_retry(later);
    let subscription_deadline = schedule.next_subscription_at.expect("closed stream should schedule subscription retry");
    schedule.schedule_subscription_retry(later + 100);
    assert_eq!(schedule.next_subscription_at, Some(subscription_deadline));
    assert_eq!(subscription_deadline - later, UPDATE_SUBSCRIPTION_RETRY_DELAY_MS);
    assert_eq!(schedule.service_deadline(), Some(later));
}

#[test]
fn due_services_start_once() {
    let mut schedule = LoopSchedule::new();
    schedule.initial_state_pending = false;
    schedule.subscription_pending = false;
    schedule.next_subscription_at = Some(10);
    schedule.next_reconciliation_at = Some(20);

    assert_eq!(schedule.take_due_services(5), (false, false));
    assert_eq!(schedule.take_due_services(15), (true, false));
    assert_eq!(schedule.take_due_services(25), (false, true));
    assert_eq!(schedule.take_due_services(30), (false, false));
    assert!(schedule.subscription_pending && schedule.reconciliation_pending);
}

#[test]
fn async_subscribe_updates_result_installs_receiver() {
    let mut app = App::new();
    let mut schedule = LoopSchedule::new();

    assert_eq!(schedule.apply_subscribe_updates_result(&mut app, 1, 1, Ok(()), 0), Some(false));
    assert!(!schedule.subscription_pending);
    assert!(app.state.error_message.is_none());

    assert_eq!(schedule.apply_subscribe_updates_result(&mut app, 1, 2, Err("late".to_string()), 0), None);
    assert!(app.state.error_message.is_none());
}

#[test]
fn failed_subscription_is_retried_and_reconciled() {
    let mut app = App::new();
    let mut schedule = LoopSchedule::new();
    schedule.initial_state_pending = false;

    assert_eq!(schedule.apply_subscribe_updates_result(&mut app, 3, 3, Err("denied".to_string()), 100), Some(true));
    assert_eq!(app.state.error_message.as_deref(), Some("denied"));
    assert_eq!(schedule.next_subscription_at, Some(100 + UPDATE_SUBSCRIPTION_RETRY_DELAY_MS));
    assert_eq!(schedule.next_reconciliation_at, Some(100));
    assert!(schedule.announce_reconciliation_success);
}

#[test]
fn closed_update_stream_is_reported_and_retried() {
    let mut app = App::new();
    let mut schedule = LoopSchedule::new();
    schedule.initial_state_pending = false;
    schedule.subscription_pending = true;

    schedule.update_stream_closed(&mut app, 7);
    assert!(!schedule.subscription_pending);
    assert_eq!(schedule.next_subscription_at, Some(7 + UPDATE_SUBSCRIPTION_RETRY_DELAY_MS));
    assert_eq!(schedule.next_reconciliation_at, Some(7));
    assert_eq!(app.state.error_message.as_deref(), Some(TELEGRAM_UPDATES_DISCONNECTED_ERROR));
}

#[test]
fn queued_background_update_uses_accepted_snapshot_high_water() {
    let mut app = App::new();
    app.state.chats = vec![Chat {
        id: 1,
        name: "Alice".to_string(),
        last_message: None,
        unread_count: 0,
        is_group: false,
        folder_id: None,
    }];
    let mut schedule = LoopSchedule::new();
    let mut high_water = HashMap::new();
    high_water.insert(9i64, 30i32);
    let update = Update::NewMessage(message(30, 9));

    assert_eq!(
        route_received_update(&mut schedule, &app, &update, false, &high_water, 0),
        UpdateRoute::DeferUntilLoaded
    );
    schedule.initial_state_pending = false;
    assert_eq!(
        route_received_update(&mut schedule, &app, &update, false, &high_water, 0),
        UpdateRoute::AlreadyRepresented
    );
    assert_eq!(
        route_received_update(&mut schedule, &app, &Update::NewMessage(message(31, 9)), false, &high_water, 0),
        UpdateRoute::Apply
    );
    assert_eq!(
        route_received_update(&mut schedule, &app, &Update::NewMessage(message(5, 1)), true, &high_water, 0),
        UpdateRoute::DeferUntilConversationLoaded
    );
    assert_eq!(
        route_received_update(&mut schedule, &app, &Update::Error("gone".to_string()), false, &high_water, 40),
        UpdateRoute::ApplyError
    );
    assert_eq!(schedule.next_reconciliation_at, Some(40));
    assert!(schedule.announce_reconciliation_success);
}
