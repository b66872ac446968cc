use dumbgram::reconcile::{reconciliation_chat, reconciliation_folder, reconciliation_topic};
use std::collections::HashMap;

use dumbgram::app::App;
use dumbgram::event_loop::{LoopSchedule, RECONCILIATION_INTERVAL_MS, RECONCILIATION_RETRY_DELAY_MS};
use dumbgram::reconcile::{
    apply_reconciliation_result, apply_update_with_read_ack,
    discard_deferred_conversation_updates_represented_by_snapshot, finish_initial_load, handle_received_update,
    release_conversation_updates,
    replay_deferred_conversation_updates, replay_deferred_updates, AppliedSnapshot, DeferredUpdates,
    ReconciliationApply, ReconciliationSnapshot,
};
use dumbgram::actions::FolderChatLoad;
use dumbgram::conversation::{ChatMessageLoad, ChatMessageLoadPurpose, ChatMessageLoadResult};
use dumbgram::reconcile::{take_chat_message_load, take_folder_chat_load};
use dumbgram::requests::{ChatLoadRequests, FolderLoadRequests};
use dumbgram::session::{FolderChatLoadResult, LoadedReadAck, TELEGRAM_STATE_REFRESHED_STATUS};
use dumbgram::types::{Chat, Folder, Message, MessageStatus, ThreadTopic, Update};

fn chat(id: i64, unread_count: u32) -> Chat {
    Chat {
        id,
        name: format!("Chat {id}"),
        last_message: None,
        unread_count,
        is_group: false,
        folder_id: None,
    }
}

fn topic(id: i32, unread_count: u32) -> ThreadTopic {
    ThreadTopic {
        id,
        title: format!("Topic {id}"),
        top_message_id: id,
        unread_count,
        is_closed: false,
        is_pinned: false,
    }
}

fn message(id: i32, chat_id: i64) -> Message {
    Message {
        id,
        chat_id,
        thread_topic_id: None,
        sender_identity: None,
        sender_name: "Alice".to_string(),
        content: format!("message {id}"),
        timestamp: 1_700_000_000,
        is_own: false,
        is_edited: false,
        reply_to_content: None,
        media: None,
        status: MessageStatus::Sent,
        can_edit: false,
        can_delete: false,
        error: None,
    }
}

fn snapshot(chats: Vec<Chat>, selected_topic_id: Option<i32>, topics: Vec<ThreadTopic>, messages: Vec<Message>) -> ReconciliationSnapshot {
    ReconciliationSnapshot {
        folders: vec![Folder { id: 0, name: "All".to_string(), unread_count: 0 }],
        selected_folder_id: Some(0),
        chats,
        chat_last_message_ids: HashMap::new(),
        selected_chat_id: Some(1),
        thread_topics: topics,
        selected_topic_id,
        messages,
    }
}

fn loaded_schedule() -> LoopSchedule {
    let mut s = LoopSchedule::new();
    s.initial_state_pending = false;
    s.subscription_pending = false;
    s
}

fn app_with_chat() -> App {
    let mut app = App::new();
    app.state.chats = vec![chat(1, 0), chat(2, 0)];
    app.state.messages = vec![message(1, 1)];
    app
}

#[test]
fn snapshot_read_ack_marks_unread_chat_through_highest_message() {
    let s = snapshot(vec![chat(1, 2)], None, Vec::new(), vec![message(7, 1), message(9, 1), message(8, 1)]);
    assert_eq!(s.read_ack(), Some(LoadedReadAck::Chat { chat_id: 1, max_message_id: 9 }));
}

#[test]
fn snapshot_read_ack_skips_read_chat_and_empty_messages() {
    let s = snapshot(vec![chat(1, 0)], None, Vec::new(), vec![message(7, 1)]);
    assert_eq!(s.read_ack(), None);
    let s = snapshot(vec![chat(1, 3)], None, Vec::new(), Vec::new());
    assert_eq!(s.read_ack(), None);
}

#[test]
fn snapshot_read_ack_for_topic_follows_topic_unread_not_chat() {
    let s = snapshot(vec![chat(1, 0)], Some(10), vec![topic(10, 2), topic(20, 0)], vec![message(30, 1)]);
    assert_eq!(s.read_ack(), Some(LoadedReadAck::Thread { chat_id: 1, topic_id: 10, max_message_id: 30 }));
    let s = snapshot(vec![chat(1, 5)], Some(20), vec![topic(10, 2), topic(20, 0)], vec![message(30, 1)]);
    assert_eq!(s.read_ack(), None);
}

#[test]
fn stale_reconciliation_result_is_ignored() {
    let mut schedule = loaded_schedule();
    schedule.reconciliation_pending = true;
    let before = schedule;
    let mut app = app_with_chat();
    let mut high_water = HashMap::new();
    let (dirty, ack) = apply_reconciliation_result(&mut schedule, &mut app, &mut high_water, 1, 2, Err("boom".to_string()), 1_000);
    assert!(!dirty);
    assert_eq!(ack, None);
    assert_eq!(schedule, before);
    assert_eq!(app.state.error_message, None);
}

#[test]
fn failed_reconciliation_shows_error_and_retries_after_delay() {
    let mut schedule = loaded_schedule();
    schedule.reconciliation_pending = true;
    let mut app = app_with_chat();
    let mut high_water = HashMap::new();
    high_water.insert(2, 5);
    let (dirty, ack) = apply_reconciliation_result(&mut schedule, &mut app, &mut high_water, 3, 3, Err("network down".to_string()), 1_000);
    assert!(dirty);
    assert_eq!(ack, None);
    assert!(!schedule.reconciliation_pending);
    assert!(schedule.announce_reconciliation_success);
    assert_eq!(schedule.next_reconciliation_at, Some(1_000 + RECONCILIATION_RETRY_DELAY_MS));
    assert_eq!(app.state.error_message.as_deref(), Some("network down"));
    assert_eq!(high_water.get(&2), Some(&5));
}

#[test]
fn stale_snapshot_reconciles_again_at_once() {
    let mut schedule = loaded_schedule();
    schedule.reconciliation_pending = true;
    let mut app = app_with_chat();
    let mut high_water = HashMap::new();
    let applied = AppliedSnapshot::new(snapshot(vec![chat(1, 1)], None, Vec::new(), vec![message(4, 1)]), ReconciliationApply::Stale);
    let (dirty, ack) = apply_reconciliation_result(&mut schedule, &mut app, &mut high_water, 0, 0, Ok(applied), 500);
    assert!(dirty);
    assert_eq!(ack, None);
    assert_eq!(schedule.next_reconciliation_at, Some(500));
    assert!(high_water.is_empty());
}

#[test]
fn applied_snapshot_sets_high_water_announces_and_marks_replaced_conversation_read() {
    let mut schedule = loaded_schedule();
    schedule.reconciliation_pending = true;
    schedule.announce_reconciliation_success = true;
    let mut app = app_with_chat();
    let mut high_water = HashMap::new();
    let mut s = snapshot(vec![chat(1, 2)], None, Vec::new(), vec![message(4, 1), message(6, 1)]);
    s.chat_last_message_ids.insert(2, 3);
    let applied = AppliedSnapshot::new(s, ReconciliationApply::Applied { conversation_replaced: true });
    let (dirty, ack) = apply_reconciliation_result(&mut schedule, &mut app, &mut high_water, 0, 0, Ok(applied), 2_000);
    assert!(dirty);
    assert_eq!(ack, Some(LoadedReadAck::Chat { chat_id: 1, max_message_id: 6 }));
    assert_eq!(high_water.get(&2), Some(&3));
    assert_eq!(schedule.last_reconciliation_success_at, Some(2_000));
    assert_eq!(schedule.next_reconciliation_at, Some(2_000 + RECONCILIATION_INTERVAL_MS));
    assert!(!schedule.announce_reconciliation_success);
    assert_eq!(app.state.status_message.as_deref(), Some(TELEGRAM_STATE_REFRESHED_STATUS));
}

#[test]
fn applied_snapshot_with_follow_up_waits_to_announce_and_preserved_conversation_is_not_marked() {
    let mut schedule = loaded_schedule();
    schedule.reconciliation_pending = true;
    schedule.announce_reconciliation_success = true;
    schedule.reconciliation_requested_while_pending = true;
    let mut app = app_with_chat();
    let mut high_water = HashMap::new();
    let applied = AppliedSnapshot::new(
        snapshot(vec![chat(1, 2)], None, Vec::new(), vec![message(6, 1)]),
        ReconciliationApply::Applied { conversation_replaced: false },
    );
    let (dirty, ack) = apply_reconciliation_result(&mut schedule, &mut app, &mut high_water, 0, 0, Ok(applied), 2_000);
    assert!(dirty);
    assert_eq!(ack, None);
    assert_eq!(schedule.next_reconciliation_at, Some(2_000));
    assert!(schedule.announce_reconciliation_success);
    assert!(!schedule.reconciliation_requested_while_pending);
    assert_eq!(app.state.status_message, None);
}

#[test]
fn update_during_reconciliation_is_deferred_then_replayed() {
    let mut schedule = loaded_schedule();
    schedule.reconciliation_pending = true;
    let mut app = app_with_chat();
    let mut deferred = DeferredUpdates::new();
    let high_water = HashMap::new();
    let (dirty, ack) = handle_received_update(&mut schedule, &mut app, &mut deferred, Update::NewMessage(message(3, 1)), false, &high_water, 10);
    assert!(!dirty);
    assert_eq!(ack, None);
    assert_eq!(deferred.updates.len(), 1);
    assert_eq!(app.state.messages.len(), 1);

    schedule.reconciliation_pending = false;
    let (dirty, acks) = replay_deferred_updates(&mut schedule, &mut app, &mut deferred, false, &high_water, 11);
    assert!(dirty);
    assert!(deferred.updates.is_empty());
    assert_eq!(app.state.messages.iter().map(|m| m.id).collect::<Vec<_>>(), vec![1, 3]);
    assert_eq!(acks, vec![LoadedReadAck::Chat { chat_id: 1, max_message_id: 3 }]);
}

#[test]
fn update_already_in_reconciliation_is_dropped() {
    let mut schedule = loaded_schedule();
    let mut app = app_with_chat();
    let mut deferred = DeferredUpdates::new();
    let mut high_water = HashMap::new();
    high_water.insert(2, 5);
    let (dirty, _) = handle_received_update(&mut schedule, &mut app, &mut deferred, Update::NewMessage(message(4, 2)), false, &high_water, 10);
    assert!(!dirty);
    assert_eq!(app.state.chats[1].unread_count, 0);
    let (dirty, _) = handle_received_update(&mut schedule, &mut app, &mut deferred, Update::NewMessage(message(6, 2)), false, &high_water, 10);
    assert!(dirty);
    assert_eq!(app.state.chats[1].unread_count, 1);
}

#[test]
fn stream_error_is_shown_and_asks_for_announced_reconciliation() {
    let mut schedule = loaded_schedule();
    let mut app = app_with_chat();
    let mut deferred = DeferredUpdates::new();
    let high_water = HashMap::new();
    let (dirty, ack) = handle_received_update(&mut schedule, &mut app, &mut deferred, Update::Error("stream".to_string()), false, &high_water, 42);
    assert!(dirty);
    assert_eq!(ack, None);
    assert!(schedule.announce_reconciliation_success);
    assert_eq!(schedule.next_reconciliation_at, Some(42));
    assert_eq!(app.state.error_message.as_deref(), Some("stream"));
}

#[test]
fn selected_chat_update_waits_for_conversation_load_and_duplicates_are_discarded() {
    let mut schedule = loaded_schedule();
    let mut app = app_with_chat();
    let mut deferred = DeferredUpdates::new();
    let high_water = HashMap::new();
    handle_received_update(&mut schedule, &mut app, &mut deferred, Update::NewMessage(message(1, 1)), true, &high_water, 1);
    handle_received_update(&mut schedule, &mut app, &mut deferred, Update::NewMessage(message(5, 1)), true, &high_water, 1);
    assert_eq!(deferred.conversation_updates.len(), 2);

    let discarded = discard_deferred_conversation_updates_represented_by_snapshot(&mut deferred, &app, None);
    assert_eq!(discarded, 1);
    assert_eq!(deferred.conversation_updates.len(), 1);

    let (dirty, acks) = replay_deferred_conversation_updates(&mut schedule, &mut app, &mut deferred, &high_water, 2);
    assert!(dirty);
    assert!(deferred.conversation_updates.is_empty());
    assert_eq!(app.state.messages.iter().map(|m| m.id).collect::<Vec<_>>(), vec![1, 5]);
    assert_eq!(acks, vec![LoadedReadAck::Chat { chat_id: 1, max_message_id: 5 }]);
}

#[test]
fn snapshot_last_ids_discard_deferred_updates() {
    let mut deferred = DeferredUpdates::new();
    deferred.conversation_updates = vec![Update::NewMessage(message(8, 2)), Update::NewMessage(message(9, 2))];
    let app = app_with_chat();
    let mut ids = HashMap::new();
    ids.insert(2, 8);
    assert_eq!(discard_deferred_conversation_updates_represented_by_snapshot(&mut deferred, &app, Some(&ids)), 1);
    match &deferred.conversation_updates[0] {
        Update::NewMessage(m) => assert_eq!(m.id, 9),
        Update::Error(_) => panic!("expected a message"),
    }
}

#[test]
fn shown_update_in_topic_is_acknowledged_as_thread() {
    let mut app = app_with_chat();
    app.state.thread_topics = vec![topic(10, 0)];
    let mut m = message(12, 1);
    m.thread_topic_id = Some(10);
    app.state.messages = vec![{
        let mut first = message(11, 1);
        first.thread_topic_id = Some(10);
        first
    }];
    let ack = apply_update_with_read_ack(&mut app, Update::NewMessage(m));
    assert_eq!(ack, Some(LoadedReadAck::Thread { chat_id: 1, topic_id: 10, max_message_id: 12 }));
}

#[test]
fn first_load_counts_as_reconciliation_or_retries() {
    let mut schedule = LoopSchedule::new();
    finish_initial_load(&mut schedule, true, 100);
    assert!(!schedule.initial_state_pending);
    assert_eq!(schedule.last_reconciliation_success_at, Some(100));
    assert_eq!(schedule.next_reconciliation_at, Some(100 + RECONCILIATION_INTERVAL_MS));

    let mut schedule = LoopSchedule::new();
    finish_initial_load(&mut schedule, false, 100);
    assert!(schedule.announce_reconciliation_success);
    assert_eq!(schedule.last_reconciliation_success_at, None);
    assert_eq!(schedule.next_reconciliation_at, Some(100 + RECONCILIATION_RETRY_DELAY_MS));
}

#[test]
fn conversation_updates_wait_until_load_is_over_and_unfinished_load_fails() {
    let mut schedule = loaded_schedule();
    let mut app = app_with_chat();
    app.state.conversation_load_status = dumbgram::state::ConversationLoadStatus::Loading;
    let mut deferred = DeferredUpdates::new();
    deferred.conversation_updates.push(Update::NewMessage(message(2, 1)));
    let high_water = HashMap::new();

    let (dirty, acks) = release_conversation_updates(&mut schedule, &mut app, &mut deferred, true, &high_water, 5);
    assert!(!dirty);
    assert!(acks.is_empty());
    assert_eq!(deferred.conversation_updates.len(), 1);

    let (dirty, acks) = release_conversation_updates(&mut schedule, &mut app, &mut deferred, false, &high_water, 5);
    assert!(dirty);
    assert_eq!(app.state.conversation_load_status, dumbgram::state::ConversationLoadStatus::Failed);
    assert!(deferred.conversation_updates.is_empty());
    assert_eq!(acks, vec![LoadedReadAck::Chat { chat_id: 1, max_message_id: 2 }]);
}

#[test]
fn opened_conversation_load_drops_held_updates_it_shows() {
    let mut schedule = loaded_schedule();
    let mut app = App::new();
    app.state.chats = vec![chat(1, 0)];
    let mut deferred = DeferredUpdates::new();
    deferred.conversation_updates.push(Update::NewMessage(message(2, 1)));
    let mut chats = ChatLoadRequests::new();
    let folders = FolderLoadRequests::new();
    let request_id = chats.begin(1, ChatMessageLoadPurpose::OpenConversation);
    let load = ChatMessageLoadResult {
        request_id,
        chat_id: 1,
        topic_id: None,
        purpose: ChatMessageLoadPurpose::OpenConversation,
        result: Ok(ChatMessageLoad { messages: vec![message(1, 1), message(2, 1)], thread_topics: Some(Vec::new()) }),
    };
    let (dirty, acks) = take_chat_message_load(&mut schedule, &mut app, &mut deferred, &mut chats, &folders, &HashMap::new(), load, 7);
    assert!(dirty);
    assert_eq!(chats.active_open_request, None);
    assert!(deferred.conversation_updates.is_empty());
    assert_eq!(app.state.messages.iter().map(|m| m.id).collect::<Vec<_>>(), vec![1, 2]);
    assert_eq!(acks, vec![LoadedReadAck::Chat { chat_id: 1, max_message_id: 2 }]);
}

#[test]
fn stale_conversation_load_keeps_open_request_and_held_updates() {
    let mut schedule = loaded_schedule();
    let mut app = App::new();
    app.state.chats = vec![chat(1, 0)];
    let mut deferred = DeferredUpdates::new();
    deferred.conversation_updates.push(Update::NewMessage(message(2, 1)));
    let mut chats = ChatLoadRequests::new();
    let folders = FolderLoadRequests::new();
    chats.begin(1, ChatMessageLoadPurpose::OpenConversation);
    chats.begin(1, ChatMessageLoadPurpose::OpenConversation);
    let load = ChatMessageLoadResult {
        request_id: 1,
        chat_id: 1,
        topic_id: None,
        purpose: ChatMessageLoadPurpose::OpenConversation,
        result: Ok(ChatMessageLoad { messages: vec![message(1, 1)], thread_topics: Some(Vec::new()) }),
    };
    let (dirty, acks) = take_chat_message_load(&mut schedule, &mut app, &mut deferred, &mut chats, &folders, &HashMap::new(), load, 7);
    assert!(!dirty);
    assert!(acks.is_empty());
    assert_eq!(chats.active_open_request, Some((2, 1)));
    assert_eq!(deferred.conversation_updates.len(), 1);
    assert!(app.state.messages.is_empty());
}

#[test]
fn folder_load_shows_chats_then_replays_newer_held_update() {
    let mut schedule = loaded_schedule();
    let mut app = App::new();
    let mut deferred = DeferredUpdates::new();
    deferred.conversation_updates.push(Update::NewMessage(message(3, 1)));
    deferred.conversation_updates.push(Update::NewMessage(message(4, 1)));
    let chats = ChatLoadRequests::new();
    let mut folders = FolderLoadRequests::new();
    let request_id = folders.begin();
    let load = FolderChatLoadResult {
        request_id,
        folder_index: 0,
        folder_id: None,
        result: Ok(FolderChatLoad { chats: vec![chat(1, 0)], messages: Ok(vec![message(3, 1)]), thread_topics: Vec::new() }),
    };
    let (dirty, acks) = take_folder_chat_load(&mut schedule, &mut app, &mut deferred, &mut folders, &chats, &HashMap::new(), load, None, 9);
    assert!(dirty);
    assert!(!folders.has_active_request());
    assert!(deferred.conversation_updates.is_empty());
    assert_eq!(app.state.messages.iter().map(|m| m.id).collect::<Vec<_>>(), vec![3, 4]);
    assert_eq!(
        acks,
        vec![
            LoadedReadAck::Chat { chat_id: 1, max_message_id: 3 },
            LoadedReadAck::Chat { chat_id: 1, max_message_id: 4 },
        ]
    );
}

#[test]
fn reconciliation_reads_the_asked_folder_chat_and_topic_or_falls_back() {
    let folders = vec![
        Folder { id: 0, name: "All".to_string(), unread_count: 0 },
        Folder { id: 5, name: "Work".to_string(), unread_count: 0 },
    ];
    assert_eq!(reconciliation_folder(&folders, Some(5)), Some((5, Some(5))));
    assert_eq!(reconciliation_folder(&folders, Some(9)), Some((0, None)));
    assert_eq!(reconciliation_folder(&folders, None), Some((0, None)));
    assert_eq!(reconciliation_folder(&Vec::new(), Some(5)), None);
    let chats = vec![chat(1, 0), chat(2, 0)];
    assert_eq!(reconciliation_chat(&chats, Some(2)), Some(2));
    assert_eq!(reconciliation_chat(&chats, Some(7)), Some(1));
    assert_eq!(reconciliation_chat(&Vec::new(), Some(7)), None);
    let topics = vec![topic(10, 0)];
    assert_eq!(reconciliation_topic(&topics, Some(10)), Some(10));
    assert_eq!(reconciliation_topic(&topics, Some(20)), None);
    assert_eq!(reconciliation_topic(&topics, None), None);
}
