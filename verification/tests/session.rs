use dumbgram::actions::{FolderChatLoad, InitialStateLoad};
use dumbgram::app::App;
use dumbgram::keys::{KeyCode, KeyEvent, KeyModifiers};
use dumbgram::session::{
    handle_normal_navigation, selected_text_to_copy, NavigationAction, DELETING_MESSAGE_STATUS,
    NO_TEXT_IN_SELECTED_MESSAGE_STATUS,
    apply_delete_message_result, apply_edit_message_result, apply_folder_chat_load_result,
    apply_folder_chat_load_result_with_outcome, apply_initial_state_load_result,
    apply_link_open_result, apply_older_message_load_result, apply_older_message_navigation,
    apply_send_message_result, loaded_read_ack, message_submit_action_status, next_folder_index,
    older_message_key_navigation, open_selected_message_link, previous_folder_index,
    selected_chat_has_displayed_messages, selected_media_download_request, show_progress,
    update_represented_by_loaded_conversation, update_represented_by_reconciliation,
    update_trace_label, ConversationLoadApply, DeleteMessageResult, EditMessageResult,
    FolderChatLoadResult, InitialStateLoadResult, LoadedReadAck, OlderMessageLoadResult,
    OlderMessageNavigation, SendMessageResult, LINK_OPENED_STATUS, LOADING_CHAT_MESSAGES_STATUS,
    NO_LINK_IN_SELECTED_MESSAGE_STATUS, NO_MEDIA_IN_SELECTED_MESSAGE_STATUS, SAVING_EDIT_STATUS,
    SENDING_MESSAGE_STATUS, SENDING_REPLY_STATUS,
};
use dumbgram::state::{AppState, DeleteConfirmation, FocusedPanel, MessageSubmitAction};
use dumbgram::types::{
    Chat, Folder, Message, MessageMedia, MessageMediaKind, MessageStatus, ThreadTopic, Update,
    ALL_FOLDER_ID,
};
use std::collections::HashMap;

fn chat(id: i64) -> Chat {
    Chat {
        id,
        name: format!("Chat {id}"),
        last_message: None,
        unread_count: 0,
        is_group: false,
        folder_id: None,
    }
}

fn all_folder(unread_count: u32) -> Folder {
    Folder { id: ALL_FOLDER_ID, name: "All".to_string(), unread_count }
}

fn message(id: i32) -> Message {
    Message {
        id,
        chat_id: 1,
        thread_topic_id: None,
        sender_identity: None,
        sender_name: "Alice".to_string(),
        content: format!("message {id}"),
        timestamp: 1_700_000_000,
        is_own: false,
        is_edited: false,
        reply_to_content: None,
        media: None,
        status: MessageStatus::Sent,
        can_edit: true,
        can_delete: true,
        error: None,
    }
}

fn thread_topic(id: i32, top_message_id: i32) -> ThreadTopic {
    ThreadTopic {
        id,
        title: format!("Topic {id}"),
        top_message_id,
        unread_count: 0,
        is_closed: false,
        is_pinned: false,
    }
}

fn key(code: KeyCode) -> KeyEvent {
    KeyEvent::new(code, KeyModifiers::none())
}

fn app_with_messages(ids: &[i32]) -> App {
    let mut app = App::new();
    app.state.chats = vec![chat(1)];
    app.state.messages = ids.iter().map(|id| message(*id)).collect();
    app
}

#[test]
fn new_app_is_running_without_preferences() {
    let mut app = App::new();
    assert!(!app.should_quit);
    assert!(app.preferences_path.is_none());
    assert!(app.state.chats.is_empty());
    app.quit();
    assert!(app.should_quit);
    assert!(!App::default().should_quit);
}

#[test]
fn message_submit_progress_statuses_are_shared_constants() {
    assert_eq!(
        message_submit_action_status(&MessageSubmitAction::Edit {
            chat_id: 1,
            message_id: 2,
            content: "updated".to_string(),
        }),
        SAVING_EDIT_STATUS
    );
    assert_eq!(
        message_submit_action_status(&MessageSubmitAction::Reply {
            chat_id: 1,
            thread_top_message_id: None,
            message_id: 2,
            content: "reply".to_string(),
        }),
        SENDING_REPLY_STATUS
    );
    assert_eq!(
        message_submit_action_status(&MessageSubmitAction::Send {
            chat_id: 1,
            thread_top_message_id: None,
            content: "hello".to_string(),
        }),
        SENDING_MESSAGE_STATUS
    );
}

#[test]
fn unresolved_message_scope_never_derives_chat_wide_read_ack() {
    let chats = vec![chat(3)];
    let messages = Err("topic lookup failed".to_string());

    assert_eq!(loaded_read_ack(&chats, &messages, &vec![]), None);
}

#[test]
fn read_ack_covers_the_highest_loaded_message() {
    let chats = vec![chat(3)];
    let messages = Ok(vec![message(5), message(9), message(7)]);
    assert_eq!(
        loaded_read_ack(&chats, &messages, &vec![]),
        Some(LoadedReadAck::Chat { chat_id: 3, max_message_id: 9 })
    );
    assert_eq!(
        loaded_read_ack(&chats, &messages, &vec![thread_topic(101, 2)]),
        Some(LoadedReadAck::Thread { chat_id: 3, topic_id: 101, max_message_id: 9 })
    );
    assert_eq!(loaded_read_ack(&chats, &Ok(vec![]), &vec![]), None);
    assert_eq!(loaded_read_ack(&vec![], &messages, &vec![]), None);
}

#[test]
fn forum_initial_load_marks_only_selected_thread_read() {
    let mut app = App::new();
    let mut topic_message = message(103);
    topic_message.chat_id = 3;
    topic_message.thread_topic_id = Some(101);

    let mark_read = apply_initial_state_load_result(
        &mut app,
        InitialStateLoadResult {
            result: Ok(InitialStateLoad {
                folders: vec![all_folder(0)],
                chats: vec![chat(3)],
                messages: Ok(vec![topic_message]),
                thread_topics: vec![thread_topic(101, 2), thread_topic(102, 2)],
            }),
        },
    );

    assert_eq!(mark_read, Some(LoadedReadAck::Thread { chat_id: 3, topic_id: 101, max_message_id: 103 }));
    assert!(app.state.status_message.is_none());
}

#[test]
fn failed_initial_load_marks_nothing_read() {
    let mut app = App::new();
    let mark_read = apply_initial_state_load_result(
        &mut app,
        InitialStateLoadResult { result: Err("offline".to_string()) },
    );
    assert_eq!(mark_read, None);
    assert_eq!(app.state.error_message.as_deref(), Some("offline"));
}

#[test]
fn stale_folder_loads_are_ignored() {
    let mut app = App::new();
    app.state.folders = vec![all_folder(0), Folder { id: 2, name: "Work".to_string(), unread_count: 0 }];
    app.state.selected_folder_index = 1;
    let load = |request_id, folder_index, folder_id| FolderChatLoadResult {
        request_id,
        folder_index,
        folder_id,
        result: Ok(FolderChatLoad { chats: vec![chat(9)], messages: Ok(vec![]), thread_topics: vec![] }),
    };

    assert_eq!(apply_folder_chat_load_result(&mut app, 2, load(1, 1, Some(2))), (false, None));
    assert_eq!(apply_folder_chat_load_result(&mut app, 1, load(1, 0, None)), (false, None));
    assert!(app.state.chats.is_empty());

    let (outcome, mark_read) = apply_folder_chat_load_result_with_outcome(&mut app, 1, load(1, 1, Some(2)));
    assert_eq!(outcome, ConversationLoadApply { dirty: true, snapshot_applied: true });
    assert_eq!(mark_read, None);
    assert_eq!(app.state.chats.len(), 1);
}

#[test]
fn folder_load_marks_the_selected_chat_read() {
    let mut app = App::new();
    app.state.folders = vec![all_folder(0)];
    let mut m = message(44);
    m.chat_id = 9;
    let (dirty, mark_read) = apply_folder_chat_load_result(
        &mut app,
        3,
        FolderChatLoadResult {
            request_id: 3,
            folder_index: 0,
            folder_id: None,
            result: Ok(FolderChatLoad { chats: vec![chat(9)], messages: Ok(vec![m]), thread_topics: vec![] }),
        },
    );
    assert!(dirty);
    assert_eq!(mark_read, Some(LoadedReadAck::Chat { chat_id: 9, max_message_id: 44 }));
}

#[test]
fn older_message_key_navigation_requests_history_only_at_loaded_top() {
    let mut app = app_with_messages(&[10, 11]);
    app.state.focused_panel = FocusedPanel::Messages;
    app.state.selected_message_index = 1;
    assert_eq!(older_message_key_navigation(&app.state, &key(KeyCode::Up)), None);

    app.state.selected_message_index = 0;
    assert_eq!(older_message_key_navigation(&app.state, &key(KeyCode::Up)), Some(OlderMessageNavigation::OneLine));
    assert_eq!(older_message_key_navigation(&app.state, &key(KeyCode::PageUp)), Some(OlderMessageNavigation::Page));
    assert_eq!(older_message_key_navigation(&app.state, &key(KeyCode::Down)), None);

    app.state.focused_panel = FocusedPanel::Chats;
    assert_eq!(older_message_key_navigation(&app.state, &key(KeyCode::Up)), None);
}

#[test]
fn stale_async_older_message_loads_are_ignored() {
    let mut app = app_with_messages(&[10, 11]);
    let load = |request_id, before_message_id| OlderMessageLoadResult {
        request_id,
        chat_id: 1,
        topic_id: None,
        before_message_id,
        navigation: OlderMessageNavigation::OneLine,
        result: Ok(vec![message(8), message(9)]),
    };

    assert!(!apply_older_message_load_result(&mut app, 2, load(1, 10)));
    assert!(!apply_older_message_load_result(&mut app, 1, load(1, 11)));
    assert_eq!(app.state.messages.len(), 2);

    app.state.selected_message_index = 0;
    assert!(apply_older_message_load_result(&mut app, 1, load(1, 10)));
    assert_eq!(app.state.messages.len(), 4);
    assert_eq!(app.state.messages[0].id, 8);
    // the selection stays on message 10 and then moves one message up
    assert_eq!(app.state.selected_message_index, 1);
}

#[test]
fn older_message_navigation_moves_one_line_or_a_page() {
    let mut state = AppState::new();
    state.messages = (1..=30).map(message).collect();
    state.selected_message_index = 15;
    apply_older_message_navigation(&mut state, OlderMessageNavigation::OneLine);
    assert_eq!(state.selected_message_index, 14);
    apply_older_message_navigation(&mut state, OlderMessageNavigation::Page);
    assert_eq!(state.selected_message_index, 4);
    apply_older_message_navigation(&mut state, OlderMessageNavigation::Page);
    assert_eq!(state.selected_message_index, 0);
}

#[test]
fn folder_navigation_wraps_around() {
    let mut state = AppState::new();
    assert_eq!(previous_folder_index(&state), None);
    assert_eq!(next_folder_index(&state), None);

    state.folders = vec![all_folder(0), Folder { id: 2, name: "Work".to_string(), unread_count: 0 }, Folder { id: 3, name: "Home".to_string(), unread_count: 0 }];
    assert_eq!(previous_folder_index(&state), Some(2));
    assert_eq!(next_folder_index(&state), Some(1));
    state.selected_folder_index = 2;
    assert_eq!(next_folder_index(&state), Some(0));
    assert_eq!(previous_folder_index(&state), Some(1));
}

#[test]
fn async_send_message_result_replaces_pending_row() {
    let mut app = app_with_messages(&[10]);
    let pending = dumbgram::actions::begin_send_message(&mut app.state, 1, None, "hi".to_string(), 1_700_000_010);
    let mut sent = message(11);
    sent.content = "hi".to_string();

    apply_send_message_result(&mut app, SendMessageResult { temp_id: pending.temp_id, chat_id: 1, result: Ok(sent) });

    assert_eq!(app.state.messages.len(), 2);
    assert_eq!(app.state.messages[1].id, 11);
}

#[test]
fn send_results_for_another_chat_are_ignored() {
    let mut app = app_with_messages(&[10]);
    let pending = dumbgram::actions::begin_send_message(&mut app.state, 1, None, "hi".to_string(), 1_700_000_010);
    app.state.chats = vec![chat(2)];

    apply_send_message_result(&mut app, SendMessageResult { temp_id: pending.temp_id, chat_id: 1, result: Ok(message(11)) });

    assert_eq!(app.state.messages[1].id, pending.temp_id);
}

#[test]
fn async_edit_message_result_updates_confirmed_row() {
    let mut app = app_with_messages(&[10]);
    app.state.editing_message_id = Some(10);

    apply_edit_message_result(
        &mut app,
        EditMessageResult { chat_id: 1, message_id: 10, content: "edited".to_string(), result: Ok(()) },
    );

    assert_eq!(app.state.messages[0].content, "edited");
    assert!(app.state.editing_message_id.is_none());

    apply_edit_message_result(
        &mut app,
        EditMessageResult { chat_id: 1, message_id: 10, content: "late".to_string(), result: Ok(()) },
    );
    assert_eq!(app.state.messages[0].content, "edited");
}

#[test]
fn async_delete_message_result_removes_confirmed_row() {
    let mut app = app_with_messages(&[10, 11]);

    apply_delete_message_result(
        &mut app,
        DeleteMessageResult { confirmation: DeleteConfirmation { chat_id: 1, message_id: 10 }, result: Ok(()) },
    );

    assert_eq!(app.state.messages.len(), 1);
    assert_eq!(app.state.messages[0].id, 11);
}

#[test]
fn media_download_needs_downloadable_media() {
    let mut app = app_with_messages(&[10]);
    assert_eq!(selected_media_download_request(&mut app), None);
    assert_eq!(app.state.status_message.as_deref(), Some(NO_MEDIA_IN_SELECTED_MESSAGE_STATUS));

    app.state.messages[0].media = Some(MessageMedia { kind: MessageMediaKind::Sticker, local_path: None });
    assert_eq!(selected_media_download_request(&mut app), None);

    app.state.messages[0].media = Some(MessageMedia { kind: MessageMediaKind::Photo, local_path: None });
    app.state.status_message = None;
    assert_eq!(selected_media_download_request(&mut app), Some((1, 10, MessageMediaKind::Photo)));
    assert!(app.state.status_message.is_none());
}

#[test]
fn selected_message_link_is_opened_or_its_lack_reported() {
    let mut app = app_with_messages(&[10]);
    assert_eq!(open_selected_message_link(&mut app), None);
    assert_eq!(app.state.status_message.as_deref(), Some(NO_LINK_IN_SELECTED_MESSAGE_STATUS));

    app.state.messages[0].content = "docs at https://example.org/guide.".to_string();
    assert_eq!(open_selected_message_link(&mut app), Some("https://example.org/guide".to_string()));

    apply_link_open_result(&mut app, Ok(()));
    assert_eq!(app.state.status_message.as_deref(), Some(LINK_OPENED_STATUS));
    apply_link_open_result(&mut app, Err("no browser".to_string()));
    assert_eq!(app.state.error_message.as_deref(), Some("Open link failed: no browser"));
    assert!(app.state.status_message.is_none());
}

#[test]
fn loading_progress_does_not_set_status_banner() {
    let mut app = App::new();

    show_progress(&mut app, LOADING_CHAT_MESSAGES_STATUS);
    assert!(app.state.status_message.is_none());

    show_progress(&mut app, SENDING_MESSAGE_STATUS);
    assert_eq!(app.state.status_message.as_deref(), Some(SENDING_MESSAGE_STATUS));
}

#[test]
fn displayed_messages_need_the_selected_chat() {
    let app = app_with_messages(&[10]);
    assert!(selected_chat_has_displayed_messages(&app, 1, &vec![message(1)]));
    assert!(!selected_chat_has_displayed_messages(&app, 2, &vec![message(1)]));
    assert!(!selected_chat_has_displayed_messages(&app, 1, &vec![]));
}

#[test]
fn represented_other_topic_update_is_not_replayed_into_selected_topic_state() {
    let mut app = app_with_messages(&[10, 20]);
    app.state.thread_topics = vec![thread_topic(101, 30), thread_topic(102, 5)];
    let mut other_topic = message(25);
    other_topic.thread_topic_id = Some(102);
    assert!(!update_represented_by_loaded_conversation(&app, &Update::NewMessage(other_topic.clone()), None));
    other_topic.id = 4;
    assert!(update_represented_by_loaded_conversation(&app, &Update::NewMessage(other_topic), None));

    let mut selected_topic = message(15);
    selected_topic.thread_topic_id = Some(101);
    assert!(update_represented_by_loaded_conversation(&app, &Update::NewMessage(selected_topic.clone()), None));
    selected_topic.id = 21;
    assert!(!update_represented_by_loaded_conversation(&app, &Update::NewMessage(selected_topic), None));
}

#[test]
fn snapshot_last_ids_represent_older_messages_of_any_chat() {
    let app = app_with_messages(&[]);
    let mut ids = HashMap::new();
    ids.insert(7i64, 50i32);
    let mut elsewhere = message(50);
    elsewhere.chat_id = 7;
    assert!(update_represented_by_loaded_conversation(&app, &Update::NewMessage(elsewhere.clone()), Some(&ids)));
    elsewhere.id = 51;
    assert!(!update_represented_by_loaded_conversation(&app, &Update::NewMessage(elsewhere), Some(&ids)));
    assert!(!update_represented_by_loaded_conversation(&app, &Update::Error("x".to_string()), Some(&ids)));
}

#[test]
fn reconciliation_deduplicates_background_updates_already_in_snapshot() {
    let app = app_with_messages(&[10]);
    let mut high_water = HashMap::new();
    high_water.insert(7i64, 40i32);
    high_water.insert(1i64, 40i32);
    let mut background = message(40);
    background.chat_id = 7;
    assert!(update_represented_by_reconciliation(&app, &Update::NewMessage(background.clone()), &high_water));
    background.id = 41;
    assert!(!update_represented_by_reconciliation(&app, &Update::NewMessage(background), &high_water));

    // the selected conversation is never deduplicated this way
    assert!(!update_represented_by_reconciliation(&app, &Update::NewMessage(message(5)), &high_water));
}

#[test]
fn update_trace_labels_name_errors() {
    assert_eq!(update_trace_label(&Update::Error("gone".to_string())), "update:gone");
    assert_eq!(update_trace_label(&Update::NewMessage(message(1))), "update");
}

#[test]
fn delete_confirmation_answers_before_any_panel() {
    let mut app = app_with_messages(&[10]);
    app.state.focused_panel = FocusedPanel::Messages;
    app.state.delete_confirmation = Some(DeleteConfirmation { chat_id: 1, message_id: 10 });

    assert!(matches!(handle_normal_navigation(&mut app, key(KeyCode::Down)), NavigationAction::Nothing));
    assert!(app.state.delete_confirmation.is_some());

    match handle_normal_navigation(&mut app, key(KeyCode::Char('y'))) {
        NavigationAction::DeleteMessage(c) => assert_eq!(c, DeleteConfirmation { chat_id: 1, message_id: 10 }),
        other => panic!("unexpected {other:?}"),
    }
    assert!(app.state.delete_confirmation.is_none());
    assert_eq!(app.state.status_message.as_deref(), Some(DELETING_MESSAGE_STATUS));

    app.state.delete_confirmation = Some(DeleteConfirmation { chat_id: 1, message_id: 10 });
    assert!(matches!(handle_normal_navigation(&mut app, key(KeyCode::Esc)), NavigationAction::Nothing));
    assert!(app.state.delete_confirmation.is_none());
}

#[test]
fn up_on_the_first_message_asks_for_older_history() {
    let mut app = app_with_messages(&[10, 11]);
    app.state.focused_panel = FocusedPanel::Messages;
    match handle_normal_navigation(&mut app, key(KeyCode::PageUp)) {
        NavigationAction::LoadOlderMessages { chat_id, topic_id, before_message_id, navigation } => {
            assert_eq!((chat_id, topic_id, before_message_id), (1, None, 10));
            assert_eq!(navigation, OlderMessageNavigation::Page);
        }
        other => panic!("unexpected {other:?}"),
    }
}

#[test]
fn panels_take_keys_in_order_and_leave_work_for_the_loop() {
    let mut app = app_with_messages(&[10]);
    app.state.chats = vec![chat(1), chat(2)];
    app.state.focused_panel = FocusedPanel::Chats;
    assert!(matches!(handle_normal_navigation(&mut app, key(KeyCode::Down)), NavigationAction::OpenChatAt(1)));

    app.state.focused_panel = FocusedPanel::Folders;
    app.state.folders = vec![all_folder(0), Folder { id: 4, name: "Work".to_string(), unread_count: 0 }];
    assert!(matches!(handle_normal_navigation(&mut app, key(KeyCode::Right)), NavigationAction::OpenFolderAt(1)));
    assert!(matches!(handle_normal_navigation(&mut app, key(KeyCode::Left)), NavigationAction::OpenFolderAt(1)));

    assert!(matches!(handle_normal_navigation(&mut app, key(KeyCode::Char('?'))), NavigationAction::SavePreferences));
    assert!(!app.state.show_help_bar);
    assert!(matches!(handle_normal_navigation(&mut app, key(KeyCode::Char('x'))), NavigationAction::Nothing));
    assert!(!app.should_quit);
    assert!(matches!(handle_normal_navigation(&mut app, key(KeyCode::Char('q'))), NavigationAction::Nothing));
    assert!(app.should_quit);
}

#[test]
fn message_keys_hand_links_and_media_to_the_loop() {
    let mut app = app_with_messages(&[10]);
    app.state.focused_panel = FocusedPanel::Messages;
    app.state.messages[0].content = "see http://example.com".to_string();
    match handle_normal_navigation(&mut app, key(KeyCode::Char('o'))) {
        NavigationAction::OpenLink(url) => assert_eq!(url, "http://example.com"),
        other => panic!("unexpected {other:?}"),
    }
    app.state.messages[0].media = Some(MessageMedia { kind: MessageMediaKind::Document, local_path: None });
    match handle_normal_navigation(&mut app, key(KeyCode::Char('s'))) {
        NavigationAction::DownloadMedia { chat_id, message_id, kind } => {
            assert_eq!((chat_id, message_id, kind), (1, 10, MessageMediaKind::Document))
        }
        other => panic!("unexpected {other:?}"),
    }
    assert!(matches!(handle_normal_navigation(&mut app, key(KeyCode::Char('c'))), NavigationAction::CopySelectedText));
}

#[test]
fn copying_needs_text() {
    let mut app = app_with_messages(&[10]);
    assert_eq!(selected_text_to_copy(&mut app), Some("message 10".to_string()));
    app.state.messages[0].content = "  \n ".to_string();
    assert_eq!(selected_text_to_copy(&mut app), None);
    assert_eq!(app.state.status_message.as_deref(), Some(NO_TEXT_IN_SELECTED_MESSAGE_STATUS));
}
