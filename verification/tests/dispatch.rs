use dumbgram::app::App;
use dumbgram::compose::{apply_reply_message_result, handle_input_focused, InputWork, ReplyMessageResult, TYPING_ACTION_COOLDOWN_MS};
use dumbgram::dispatch::{dispatch_terminal_event, handle_key_event, EventWork, KeyWork};
use dumbgram::event_loop::{LoopSchedule, TerminalAction};
use dumbgram::keys::{KeyCode, KeyEvent, KeyModifiers};
use dumbgram::layout::Rect;
use dumbgram::menu::MenuEffect;
use dumbgram::mouse_events::{ContextMenuTarget, MouseButton, MouseClickOutcome, MouseEvent, MouseEventKind};
use dumbgram::session::{NavigationAction, SAVING_EDIT_STATUS, SENDING_MESSAGE_STATUS, SENDING_REPLY_STATUS};
use dumbgram::state::{FocusedPanel, MessageSubmitAction};
use dumbgram::types::{Chat, MessageStatus, ThreadTopic};

fn key(code: KeyCode) -> KeyEvent {
    KeyEvent::new(code, KeyModifiers::none())
}

fn alice() -> Chat {
    Chat {
        id: 10,
        name: "Alice".to_string(),
        last_message: None,
        unread_count: 0,
        is_group: false,
        folder_id: None,
    }
}

fn topic(id: i32) -> ThreadTopic {
    ThreadTopic {
        id,
        title: format!("topic {id}"),
        top_message_id: id,
        unread_count: 0,
        is_closed: false,
        is_pinned: false,
    }
}

fn typed(app: &mut App, text: &str) {
    app.state.set_input(text);
    app.state.focused_panel = FocusedPanel::Input;
}

#[test]
fn submit_message_sends_plain_input_and_selects_pending_message() {
    let mut app = App::new();
    app.state.chats = vec![alice()];
    typed(&mut app, "hello");

    let work = handle_input_focused(&mut app, key(KeyCode::Enter), 1_700_000_000, 0);
    let pending = match work {
        InputWork::Send(pending) => pending,
        other => panic!("expected a send, got {other:?}"),
    };
    assert_eq!(pending.chat_id, 10);
    assert_eq!(pending.thread_top_message_id, None);
    assert_eq!(pending.content, "hello");
    assert_eq!(pending.temp_id, -1);
    assert_eq!(app.state.messages.len(), 1);
    assert_eq!(app.state.messages[0].content, "hello");
    assert_eq!(app.state.messages[0].status, MessageStatus::Sending);
    assert_eq!(app.state.selected_message_index, 0);
    assert_eq!(app.state.chats[0].last_message.as_deref(), Some("hello"));
    assert!(app.state.input_buffer.is_empty());
    assert_eq!(app.state.status_message.as_deref(), Some(SENDING_MESSAGE_STATUS));
}

#[test]
fn whitespace_input_or_no_chat_submits_nothing() {
    let mut app = App::new();
    app.state.chats = vec![alice()];
    typed(&mut app, "   ");
    assert!(matches!(handle_input_focused(&mut app, key(KeyCode::Enter), 0, 0), InputWork::Nothing));
    assert_eq!(app.state.input_text(), "   ");
    assert!(app.state.messages.is_empty());

    let mut lonely = App::new();
    typed(&mut lonely, "hello");
    assert!(matches!(handle_input_focused(&mut lonely, key(KeyCode::Enter), 0, 0), InputWork::Nothing));
    assert_eq!(lonely.state.input_text(), "hello");
}

#[test]
fn submit_saves_trimmed_edit_and_sends_reply_in_selected_topic() {
    let mut app = App::new();
    app.state.chats = vec![alice()];
    app.state.thread_topics = vec![topic(101)];
    app.state.editing_message_id = Some(5);
    typed(&mut app, "  fixed text ");

    match handle_input_focused(&mut app, key(KeyCode::Enter), 0, 0) {
        InputWork::Edit { chat_id, message_id, content } => {
            assert_eq!((chat_id, message_id, content.as_str()), (10, 5, "fixed text"));
        },
        other => panic!("expected an edit, got {other:?}"),
    }
    assert_eq!(app.state.editing_message_id, Some(5));
    assert_eq!(app.state.input_text(), "  fixed text ");
    assert_eq!(app.state.status_message.as_deref(), Some(SAVING_EDIT_STATUS));

    app.state.editing_message_id = None;
    app.state.replying_to_message_id = Some(7);
    typed(&mut app, "sure");
    match handle_input_focused(&mut app, key(KeyCode::Enter), 0, 0) {
        InputWork::Reply { chat_id, thread_top_message_id, message_id, content } => {
            assert_eq!((chat_id, thread_top_message_id, message_id, content.as_str()), (10, Some(101), 7, "sure"));
        },
        other => panic!("expected a reply, got {other:?}"),
    }
    assert_eq!(app.state.replying_to_message_id, Some(7));
    assert_eq!(app.state.input_text(), "sure");
    assert_eq!(app.state.status_message.as_deref(), Some(SENDING_REPLY_STATUS));
}

#[test]
fn prepare_message_submit_names_the_chat_and_topic() {
    let mut app = App::new();
    app.state.chats = vec![alice()];
    app.state.thread_topics = vec![topic(101), topic(102)];
    app.state.selected_thread_topic_index = 1;
    app.state.set_input("ship it");

    match app.state.prepare_message_submit() {
        Some(MessageSubmitAction::Send { chat_id, thread_top_message_id, content }) => {
            assert_eq!((chat_id, thread_top_message_id, content.as_str()), (10, Some(102), "ship it"));
        },
        other => panic!("expected a send, got {other:?}"),
    }
    assert_eq!(app.state.input_text(), "ship it");
    app.state.set_input(" ");
    assert!(app.state.prepare_message_submit().is_none());
}

#[test]
fn typing_edits_the_input_and_asks_for_the_typing_indicator() {
    let mut app = App::new();
    app.state.chats = vec![alice()];
    typed(&mut app, "hi");
    assert!(matches!(
        handle_input_focused(&mut app, key(KeyCode::Char('!')), 0, 0),
        InputWork::SendTyping { chat_id: 10, topic_id: None }
    ));
    assert_eq!(app.state.input_text(), "hi!");
    assert!(matches!(handle_input_focused(&mut app, key(KeyCode::Home), 0, 10), InputWork::Nothing));
}

#[test]
fn open_context_menu_takes_keys_before_global_keys() {
    let mut app = App::new();
    app.state.chats = vec![alice()];
    assert!(app.state.open_context_menu(ContextMenuTarget::Chat { chat_id: 10 }, 0, 0));

    assert!(matches!(handle_key_event(&mut app, key(KeyCode::Tab), 0, 0), KeyWork::Nothing));
    assert_eq!(app.state.focused_panel, FocusedPanel::Chats);
    assert!(app.state.context_menu().is_some());

    assert!(matches!(
        handle_key_event(&mut app, key(KeyCode::Enter), 0, 0),
        KeyWork::Menu(MenuEffect::OpenChatAt(0))
    ));
    assert!(app.state.context_menu().is_none());

    assert!(matches!(handle_key_event(&mut app, key(KeyCode::Tab), 0, 0), KeyWork::Nothing));
    assert_eq!(app.state.focused_panel, FocusedPanel::Messages);
}

#[test]
fn keys_reach_input_or_panels_by_focus() {
    let mut app = App::new();
    app.state.chats = vec![alice()];
    typed(&mut app, "");
    assert!(matches!(
        handle_key_event(&mut app, key(KeyCode::Char('q')), 0, 0),
        KeyWork::Input(InputWork::SendTyping { chat_id: 10, topic_id: None })
    ));
    assert_eq!(app.state.input_text(), "q");
    assert!(!app.should_quit);

    app.state.focused_panel = FocusedPanel::Chats;
    assert!(matches!(
        handle_key_event(&mut app, key(KeyCode::Char('q')), 0, 0),
        KeyWork::Navigation(NavigationAction::Nothing)
    ));
    assert!(app.should_quit);
}

#[test]
fn releasing_divider_drag_or_losing_focus_saves_preferences() {
    let mut app = App::new();
    let mut schedule = LoopSchedule::new();
    app.state.screen_area = Rect::new(0, 0, 100, 24);
    app.state.chats_area = Rect::new(0, 5, 30, 8);

    let press = MouseEvent { kind: MouseEventKind::Down(MouseButton::Left), column: 29, row: 6, modifiers: KeyModifiers::none() };
    let done = dispatch_terminal_event(&mut app, &mut schedule, TerminalAction::Mouse(press), 0, 0);
    assert!(done.dirty && !done.save_preferences);
    assert!(matches!(done.work, EventWork::Mouse(MouseClickOutcome::Handled)));
    assert!(app.state.split_drag_active);

    let release = MouseEvent { kind: MouseEventKind::Up(MouseButton::Left), column: 50, row: 6, modifiers: KeyModifiers::none() };
    let done = dispatch_terminal_event(&mut app, &mut schedule, TerminalAction::Mouse(release), 0, 0);
    assert!(done.save_preferences);
    assert!(!app.state.split_drag_active);

    app.state.split_drag_active = true;
    let done = dispatch_terminal_event(&mut app, &mut schedule, TerminalAction::FocusLost, 0, 0);
    assert!(done.dirty && done.save_preferences);
    assert!(!app.state.split_drag_active);

    let done = dispatch_terminal_event(&mut app, &mut schedule, TerminalAction::FocusLost, 0, 0);
    assert!(done.dirty && !done.save_preferences);

    let done = dispatch_terminal_event(&mut app, &mut schedule, TerminalAction::Resize, 0, 0);
    assert!(done.dirty && !done.save_preferences);
    let done = dispatch_terminal_event(&mut app, &mut schedule, TerminalAction::Ignore, 0, 0);
    assert!(!done.dirty);
}

#[test]
fn rapid_typing_sends_once_per_chat_during_cooldown() {
    let mut app = App::new();
    app.state.chats = vec![alice(), Chat { id: 11, name: "Bob".to_string(), ..alice() }];
    app.state.focused_panel = FocusedPanel::Input;

    let mut typing = Vec::new();
    for (step, character) in "A multi-sentence message. Still typing.".chars().enumerate() {
        let work = handle_input_focused(&mut app, key(KeyCode::Char(character)), 0, 1_000 + step as u64 * 50);
        if let InputWork::SendTyping { chat_id, topic_id } = work {
            typing.push((chat_id, topic_id));
        }
    }
    assert_eq!(typing, vec![(10, None)]);

    app.state.selected_chat_index = 1;
    assert!(matches!(
        handle_input_focused(&mut app, key(KeyCode::Char('!')), 0, 3_000),
        InputWork::SendTyping { chat_id: 11, topic_id: None }
    ));
    assert!(matches!(handle_input_focused(&mut app, key(KeyCode::Char('!')), 0, 3_100), InputWork::Nothing));
    assert!(matches!(
        handle_input_focused(&mut app, key(KeyCode::Char('!')), 0, 3_000 + TYPING_ACTION_COOLDOWN_MS),
        InputWork::SendTyping { chat_id: 11, topic_id: None }
    ));
}

#[test]
fn clearing_the_input_lets_the_next_typing_send_again() {
    let mut app = App::new();
    app.state.chats = vec![alice()];
    app.state.focused_panel = FocusedPanel::Input;

    assert!(matches!(handle_input_focused(&mut app, key(KeyCode::Char('a')), 0, 100), InputWork::SendTyping { .. }));
    assert!(matches!(handle_input_focused(&mut app, key(KeyCode::Backspace), 0, 200), InputWork::Nothing));
    assert!(app.state.typing_action_sent.is_none());
    assert!(matches!(handle_input_focused(&mut app, key(KeyCode::Char('b')), 0, 300), InputWork::SendTyping { .. }));
    assert!(matches!(handle_input_focused(&mut app, key(KeyCode::Left), 0, 400), InputWork::Nothing));
    assert!(matches!(handle_input_focused(&mut app, key(KeyCode::Char(' ')), 0, 500), InputWork::Nothing));
}

fn message(id: i32, chat_id: i64) -> dumbgram::types::Message {
    dumbgram::types::Message {
        id,
        chat_id,
        thread_topic_id: None,
        sender_identity: None,
        sender_name: "Alice".to_string(),
        content: format!("message {id}"),
        timestamp: 1_700_000_000,
        is_own: false,
        is_edited: false,
        reply_to_content: None,
        media: None,
        status: MessageStatus::Sent,
        can_edit: false,
        can_delete: false,
        error: None,
    }
}

#[test]
fn async_reply_message_result_appends_reply_row() {
    let mut app = App::new();
    app.state.chats = vec![Chat { id: 1, ..alice() }];
    app.state.messages = vec![message(7, 1)];
    app.state.request_reply_to_selected_message();
    app.state.begin_reply_submission(1);
    let mut reply = message(11, 1);
    reply.content = "reply".to_string();
    reply.is_own = true;

    apply_reply_message_result(
        &mut app,
        ReplyMessageResult { request_id: 1, chat_id: 1, thread_top_message_id: None, message_id: 7, result: Ok(reply) },
    );

    assert_eq!(app.state.messages.len(), 2);
    assert_eq!(app.state.messages[1].id, 11);
    assert_eq!(app.state.messages[1].content, "reply");
    assert!(!app.state.reply_submission_pending());
    assert_eq!(app.state.replying_to_message_id, None);
}

#[test]
fn stale_reply_completion_releases_only_its_matching_owner() {
    let mut app = App::new();
    app.state.chats = vec![Chat { id: 1, ..alice() }];
    app.state.messages = vec![message(7, 1), message(8, 1)];
    app.state.replying_to_message_id = Some(8);
    app.state.begin_reply_submission(1);

    apply_reply_message_result(
        &mut app,
        ReplyMessageResult { request_id: 1, chat_id: 1, thread_top_message_id: None, message_id: 7, result: Ok(message(11, 1)) },
    );

    assert!(!app.state.reply_submission_pending());
    assert_eq!(app.state.replying_to_message_id, Some(8));
    assert!(app.state.messages.iter().all(|message| message.id != 11));

    app.state.begin_reply_submission(2);
    apply_reply_message_result(
        &mut app,
        ReplyMessageResult { request_id: 1, chat_id: 1, thread_top_message_id: None, message_id: 8, result: Ok(message(12, 1)) },
    );
    assert!(app.state.reply_submission_matches(2));
}

#[test]
fn enter_waits_while_a_reply_is_on_its_way() {
    let mut app = App::new();
    app.state.chats = vec![alice()];
    app.state.messages = vec![message(7, 10)];
    app.state.request_reply_to_selected_message();
    app.state.set_input("second reply");
    app.state.begin_reply_submission(4);

    assert!(matches!(handle_key_event(&mut app, key(KeyCode::Enter), 0, 0), KeyWork::Nothing));
    assert_eq!(app.state.status_message.as_deref(), Some(SENDING_REPLY_STATUS));
    assert!(matches!(handle_input_focused(&mut app, key(KeyCode::Enter), 0, 0), InputWork::Nothing));
    assert_eq!(app.state.input_text(), "second reply");

    app.state.finish_reply_submission();
    assert!(matches!(
        handle_key_event(&mut app, key(KeyCode::Enter), 0, 0),
        KeyWork::Input(InputWork::Reply { chat_id: 10, message_id: 7, .. })
    ));
}
