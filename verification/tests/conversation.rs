use dumbgram::app::App;
use dumbgram::conversation::{
    apply_chat_message_load_result_with_outcome, ChatMessageLoad, ChatMessageLoadPurpose, ChatMessageLoadResult,
    NEWER_MESSAGES_DURING_REFRESH_ERROR,
};
use dumbgram::compose::{handle_input_focused, release_gap_submit_if_ready, InputWork};
use dumbgram::keys::{KeyCode, KeyEvent, KeyModifiers};
use dumbgram::dispatch::{handle_key_event, KeyWork};
use dumbgram::live::PresentedMessage;
use dumbgram::session::NavigationAction;
use dumbgram::state::{FocusedPanel, MessageSubmitAction};
use dumbgram::types::Update;
use dumbgram::session::LoadedReadAck;
use dumbgram::state::ConversationLoadStatus;
use dumbgram::types::{Chat, Message, MessageStatus, ThreadTopic};

fn chat(id: i64) -> Chat {
    Chat {
        id,
        name: format!("Chat {id}"),
        last_message: None,
        unread_count: 0,
        is_group: false,
        folder_id: None,
    }
}

fn message(id: i32, chat_id: i64) -> Message {
    Message {
        id,
        chat_id,
        thread_topic_id: None,
        sender_identity: None,
        sender_name: "Alice".to_string(),
        content: format!("message {id}"),
        timestamp: 1_700_000_000,
        is_own: false,
        is_edited: false,
        reply_to_content: None,
        media: None,
        status: MessageStatus::Sent,
        can_edit: false,
        can_delete: false,
        error: None,
    }
}

fn topic(id: i32, title: &str) -> ThreadTopic {
    ThreadTopic {
        id,
        title: title.to_string(),
        top_message_id: id,
        unread_count: 0,
        is_closed: false,
        is_pinned: false,
    }
}

fn load(request_id: u64, chat_id: i64, topic_id: Option<i32>, messages: Vec<Message>, thread_topics: Option<Vec<ThreadTopic>>) -> ChatMessageLoadResult {
    ChatMessageLoadResult {
        request_id,
        chat_id,
        topic_id,
        purpose: ChatMessageLoadPurpose::OpenConversation,
        result: Ok(ChatMessageLoad { messages, thread_topics }),
    }
}

#[test]
fn accepted_chat_message_load_marks_displayed_max_even_if_local_unread_is_zero() {
    let mut app = App::new();
    app.state.chats = vec![chat(1)];

    let (outcome, ack) = apply_chat_message_load_result_with_outcome(&mut app, 1, load(1, 1, None, vec![message(1, 1)], Some(Vec::new())));
    assert!(outcome.dirty && outcome.snapshot_applied);
    assert_eq!(ack, Some(LoadedReadAck::Chat { chat_id: 1, max_message_id: 1 }));

    app.state.chats[0].unread_count = 5;
    let (_, ack) = apply_chat_message_load_result_with_outcome(&mut app, 2, load(2, 1, None, vec![message(2, 1)], Some(Vec::new())));
    assert_eq!(ack, Some(LoadedReadAck::Chat { chat_id: 1, max_message_id: 2 }));
}

#[test]
fn accepted_thread_topic_message_load_marks_only_thread_read() {
    let mut app = App::new();
    app.state.chats = vec![chat(1)];
    app.state.chats[0].unread_count = 5;
    app.state.apply_loaded_selected_chat_thread_topics(vec![topic(102, "Deployments")]);

    let mut first = message(11, 1);
    first.thread_topic_id = Some(102);
    let mut latest = message(12, 1);
    latest.thread_topic_id = Some(102);
    let (outcome, ack) = apply_chat_message_load_result_with_outcome(&mut app, 3, load(3, 1, Some(102), vec![first, latest], None));
    assert!(outcome.snapshot_applied);
    assert_eq!(ack, Some(LoadedReadAck::Thread { chat_id: 1, topic_id: 102, max_message_id: 12 }));
    assert_eq!(app.state.selected_message_index, 1);
}

#[test]
fn stale_async_chat_message_loads_are_ignored() {
    let mut app = App::new();
    app.state.chats = vec![chat(1), chat(2)];
    app.state.selected_chat_index = 1;

    let (outcome, ack) = apply_chat_message_load_result_with_outcome(
        &mut app,
        2,
        load(1, 2, None, vec![message(1, 2)], Some(vec![topic(102, "Stale")])),
    );
    assert!(!outcome.dirty && !outcome.snapshot_applied);
    assert_eq!(ack, None);
    assert!(app.state.messages.is_empty());

    apply_chat_message_load_result_with_outcome(&mut app, 2, load(2, 2, None, vec![message(2, 2)], Some(vec![topic(101, "Current")])));
    assert_eq!(app.state.messages.len(), 1);
    assert_eq!(app.state.messages[0].id, 2);
    assert_eq!(app.state.thread_topics.len(), 1);
    assert_eq!(app.state.thread_topics[0].title, "Current");
}

#[test]
fn stale_async_thread_topic_message_loads_are_ignored() {
    let mut app = App::new();
    app.state.chats = vec![chat(1)];
    app.state.apply_loaded_selected_chat_thread_topics(vec![topic(101, "General"), topic(102, "Deployments")]);
    app.state.select_thread_topic_at(1);

    let mut stale = message(10, 1);
    stale.thread_topic_id = Some(101);
    let (outcome, ack) = apply_chat_message_load_result_with_outcome(&mut app, 7, load(7, 1, Some(101), vec![stale], None));
    assert!(!outcome.dirty);
    assert_eq!(ack, None);
    assert!(app.state.messages.is_empty());
    assert_eq!(app.state.selected_thread_topic_id(), Some(102));
}

#[test]
fn topic_load_opens_first_topic_of_chat_without_known_topics() {
    let mut app = App::new();
    app.state.chats = vec![chat(1)];
    let (outcome, ack) = apply_chat_message_load_result_with_outcome(
        &mut app,
        4,
        load(4, 1, Some(101), vec![message(5, 1)], Some(vec![topic(101, "General")])),
    );
    assert!(outcome.dirty);
    assert_eq!(ack, Some(LoadedReadAck::Thread { chat_id: 1, topic_id: 101, max_message_id: 5 }));
    assert_eq!(app.state.selected_thread_topic_id(), Some(101));
}

#[test]
fn failed_conversation_load_is_marked_and_shown() {
    let mut app = App::new();
    app.state.chats = vec![chat(1)];
    let (outcome, ack) = apply_chat_message_load_result_with_outcome(
        &mut app,
        1,
        ChatMessageLoadResult {
            request_id: 1,
            chat_id: 1,
            topic_id: None,
            purpose: ChatMessageLoadPurpose::OpenConversation,
            result: Err("Load messages timed out".to_string()),
        },
    );
    assert!(outcome.dirty && !outcome.snapshot_applied);
    assert_eq!(ack, None);
    assert_eq!(app.state.conversation_load_status, ConversationLoadStatus::Failed);
    assert_eq!(app.state.error_message.as_deref(), Some("Load messages timed out"));
}

fn thread_topic(id: i32, unread_count: u32) -> ThreadTopic {
    ThreadTopic { unread_count, ..topic(id, &format!("topic {id}")) }
}

fn topic_message(id: i32, chat_id: i64, topic_id: i32) -> Message {
    let mut m = message(id, chat_id);
    m.thread_topic_id = Some(topic_id);
    m
}

fn app_with_newer_gap() -> App {
    let mut app = App::new();
    app.state.chats = vec![chat(3)];
    app.state.thread_topics = vec![thread_topic(101, 0)];
    app.state.messages = (1..=500).map(|id| topic_message(id, 3, 101)).collect();
    app.state.selected_message_index = 0;
    app.state.apply_update(Update::NewMessage(topic_message(501, 3, 101)));
    assert!(app.state.newer_history_gap());
    app
}

fn refresh(request_id: u64, generation: u64, result: Result<ChatMessageLoad, String>) -> ChatMessageLoadResult {
    ChatMessageLoadResult {
        request_id,
        chat_id: 3,
        topic_id: Some(101),
        purpose: ChatMessageLoadPurpose::RefreshNewerGap { generation },
        result,
    }
}

#[test]
fn failed_newer_gap_refresh_preserves_window_input_and_gap() {
    let mut app = app_with_newer_gap();
    app.state.set_input("keep me");
    let generation = app.state.newer_history_generation();
    app.state.queue_gap_submit(
        MessageSubmitAction::Send { chat_id: 3, thread_top_message_id: Some(101), content: "keep me".to_string() },
        1,
        3,
        Some(101),
    );

    let (outcome, _) = apply_chat_message_load_result_with_outcome(&mut app, 1, refresh(1, generation, Err("refresh failed".to_string())));
    assert!(outcome.dirty);
    assert_eq!(app.state.messages.len(), 500);
    assert_eq!(app.state.input_text(), "keep me");
    assert!(app.state.newer_history_gap());
    assert!(!app.state.gap_submit_pending());
    assert_eq!(app.state.error_message.as_deref(), Some("refresh failed"));
}

#[test]
fn newer_gap_refresh_rejects_updates_that_overtake_its_generation() {
    let mut app = app_with_newer_gap();
    let generation = app.state.newer_history_generation();
    app.state.apply_update(Update::NewMessage(topic_message(502, 3, 101)));

    let (outcome, _) = apply_chat_message_load_result_with_outcome(
        &mut app,
        1,
        refresh(1, generation, Ok(ChatMessageLoad { messages: vec![topic_message(501, 3, 101)], thread_topics: None })),
    );
    assert!(outcome.dirty && !outcome.snapshot_applied);
    assert!(app.state.newer_history_gap());
    assert_eq!(app.state.messages.len(), 500);
    assert_eq!(app.state.error_message.as_deref(), Some(NEWER_MESSAGES_DURING_REFRESH_ERROR));
}

#[test]
fn newer_gap_end_refreshes_latest_without_clearing_first() {
    let mut app = app_with_newer_gap();
    let generation = app.state.newer_history_generation();
    let (outcome, ack) = apply_chat_message_load_result_with_outcome(
        &mut app,
        7,
        refresh(7, generation, Ok(ChatMessageLoad {
            messages: vec![topic_message(501, 3, 101), topic_message(502, 3, 101)],
            thread_topics: None,
        })),
    );
    assert!(outcome.snapshot_applied);
    assert_eq!(ack, Some(LoadedReadAck::Thread { chat_id: 3, topic_id: 101, max_message_id: 502 }));
    assert!(!app.state.newer_history_gap());
    assert_eq!(app.state.messages.len(), 2);
    assert!(app.state.selected_message_is_last());
}

#[test]
fn send_with_newer_gap_waits_for_latest_then_submits() {
    let mut app = app_with_newer_gap();
    app.state.focused_panel = FocusedPanel::Input;
    app.state.set_input("after refresh");

    let (action, generation) = match handle_input_focused(&mut app, KeyEvent::new(KeyCode::Enter, KeyModifiers::none()), 0, 0) {
        InputWork::RefreshBeforeSubmit { action, generation } => (action, generation),
        other => panic!("expected a refresh first, got {other:?}"),
    };
    app.state.queue_gap_submit(action, 9, 3, Some(101));
    assert!(app.state.gap_submit_pending());
    assert_eq!(app.state.input_text(), "after refresh");

    assert!(matches!(
        handle_input_focused(&mut app, KeyEvent::new(KeyCode::Char('!'), KeyModifiers::none()), 0, 0),
        InputWork::Nothing
    ));
    assert_eq!(app.state.input_text(), "after refresh");
    assert!(matches!(release_gap_submit_if_ready(&mut app, 0), InputWork::Nothing));

    apply_chat_message_load_result_with_outcome(
        &mut app,
        9,
        refresh(9, generation, Ok(ChatMessageLoad { messages: vec![topic_message(501, 3, 101)], thread_topics: None })),
    );
    let sent = match release_gap_submit_if_ready(&mut app, 1_700_000_000) {
        InputWork::Send(pending) => pending,
        other => panic!("expected the held-back send, got {other:?}"),
    };
    assert_eq!(sent.chat_id, 3);
    assert_eq!(sent.content, "after refresh");
    assert!(!app.state.gap_submit_pending());
    assert!(!app.state.newer_history_gap());
    assert!(app.state.input_buffer.is_empty());
}

#[test]
fn live_incoming_selected_chat_tail_is_shown_and_marked_read() {
    let mut app = App::new();
    app.state.chats = vec![chat(1)];
    let presented = app.state.apply_update(Update::NewMessage(message(57, 1)));
    assert_eq!(presented, Some(PresentedMessage { chat_id: 1, topic_id: None, message_id: 57 }));
    assert_eq!(app.state.selected_message().map(|m| m.id), Some(57));
    assert_eq!(app.state.chats[0].last_message.as_deref(), Some("message 57"));
    assert_eq!(app.state.chats[0].unread_count, 0);

    assert_eq!(app.state.apply_update(Update::NewMessage(message(57, 1))), None);
    assert_eq!(app.state.messages.len(), 1);
}

#[test]
fn live_incoming_while_reading_older_stays_unread_without_ack() {
    let mut app = App::new();
    app.state.chats = vec![chat(1)];
    app.state.messages = vec![message(1, 1), message(2, 1)];
    app.state.selected_message_index = 0;

    assert_eq!(app.state.apply_update(Update::NewMessage(message(3, 1))), None);
    assert_eq!(app.state.selected_message().map(|m| m.id), Some(1));
    assert_eq!(app.state.messages.len(), 3);
    assert_eq!(app.state.chats[0].unread_count, 1);
}

#[test]
fn live_incoming_topic_across_gap_is_omitted_unread_and_unacknowledged() {
    let mut app = App::new();
    app.state.chats = vec![chat(1)];
    app.state.apply_loaded_selected_chat_thread_topics(vec![thread_topic(102, 0)]);
    app.state.messages = (1..=500).map(|id| topic_message(id, 1, 102)).collect();
    app.state.selected_message_index = 0;
    assert_eq!(app.state.apply_update(Update::NewMessage(topic_message(501, 1, 102))), None);
    assert!(app.state.newer_history_gap());

    assert_eq!(app.state.apply_update(Update::NewMessage(topic_message(502, 1, 102))), None);
    assert!(!app.state.messages.iter().any(|m| m.id == 502));
    assert_eq!(app.state.thread_topics[0].unread_count, 2);
    assert_eq!(app.state.chats[0].unread_count, 2);
}

#[test]
fn live_incoming_other_thread_message_does_not_mark_selected_thread_read() {
    let mut app = App::new();
    app.state.chats = vec![chat(1), chat(2)];
    app.state.apply_loaded_selected_chat_thread_topics(vec![thread_topic(101, 0), thread_topic(102, 0)]);
    app.state.select_thread_topic_at(1);

    assert_eq!(app.state.apply_update(Update::NewMessage(topic_message(56, 1, 101))), None);
    assert!(app.state.messages.is_empty());
    assert_eq!(app.state.thread_topics[0].unread_count, 1);
    assert_eq!(app.state.thread_topics[1].unread_count, 0);

    assert_eq!(app.state.apply_update(Update::NewMessage(message(9, 2))), None);
    assert_eq!(app.state.chats[1].unread_count, 1);
    assert_eq!(app.state.thread_topics[0].unread_count, 1);
    assert_eq!(app.state.apply_update(Update::Error("stream closed".to_string())), None);
}

#[test]
fn end_key_with_newer_gap_asks_for_the_newest_messages() {
    let mut app = app_with_newer_gap();
    app.state.focused_panel = FocusedPanel::Messages;
    let generation = app.state.newer_history_generation();

    match handle_key_event(&mut app, KeyEvent::new(KeyCode::End, KeyModifiers::none()), 0, 0) {
        KeyWork::Navigation(NavigationAction::RefreshNewerGap { chat_id, topic_id, generation: g }) => {
            assert_eq!((chat_id, topic_id, g), (3, Some(101), generation));
        },
        other => panic!("expected a refresh, got {other:?}"),
    }
    assert_eq!(app.state.messages.len(), 500);
    assert!(app.state.status_message.is_none());

    app.state.selected_message_index = 10;
    assert!(matches!(
        handle_key_event(&mut app, KeyEvent::new(KeyCode::Down, KeyModifiers::none()), 0, 0),
        KeyWork::Navigation(NavigationAction::Nothing)
    ));
    assert_eq!(app.state.selected_message_index, 11);
}
