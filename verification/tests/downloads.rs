use dumbgram::app::App;
use dumbgram::downloads::{
    apply_download_media_result, apply_downloaded_media_open_result, apply_media_preview_result, open_selected_downloaded_media,
    DownloadMediaResult, DownloadedMedia, MediaPreviewResult,
};
use dumbgram::state::ConversationLoadStatus;
use dumbgram::menu::{execute_context_menu_action, MenuEffect};
use dumbgram::mouse_events::{ContextMenuAction, ContextMenuTarget};
use dumbgram::session::{DOWNLOADED_MEDIA_OPENED_STATUS, MEDIA_DOWNLOADED_STATUS, NO_DOWNLOADED_MEDIA_STATUS};
use dumbgram::types::{Message, MessageMedia, MessageMediaKind, MessageStatus};

fn photo(id: i32) -> Message {
    Message {
        id,
        chat_id: 10,
        thread_topic_id: None,
        sender_identity: None,
        sender_name: "Alice".to_string(),
        content: String::new(),
        timestamp: 1_700_000_000,
        is_own: false,
        is_edited: false,
        reply_to_content: None,
        media: Some(MessageMedia { kind: MessageMediaKind::Photo, local_path: None }),
        status: MessageStatus::Sent,
        can_edit: false,
        can_delete: false,
        error: None,
    }
}

fn saved(chat_id: i64, message_id: i32, path: &str) -> DownloadMediaResult {
    DownloadMediaResult {
        chat_id,
        message_id,
        result: Ok(DownloadedMedia { path: path.to_string(), bytes: 42 }),
    }
}

#[test]
fn finished_download_is_recorded_and_reported() {
    let mut app = App::new();
    app.state.messages = vec![photo(1), photo(2)];

    assert_eq!(open_selected_downloaded_media(&mut app), None);
    assert_eq!(app.state.status_message.as_deref(), Some(NO_DOWNLOADED_MEDIA_STATUS));

    apply_download_media_result(&mut app, saved(10, 1, "/home/a/Downloads/photo-1.jpg"));
    assert_eq!(app.state.status_message.as_deref(), Some(MEDIA_DOWNLOADED_STATUS));
    assert_eq!(open_selected_downloaded_media(&mut app).as_deref(), Some("/home/a/Downloads/photo-1.jpg"));

    app.state.selected_message_index = 1;
    assert_eq!(open_selected_downloaded_media(&mut app), None);
}

#[test]
fn saving_again_replaces_the_file_of_that_message_only() {
    let mut app = App::new();
    app.state.messages = vec![photo(1), photo(2)];
    apply_download_media_result(&mut app, saved(10, 1, "first.jpg"));
    apply_download_media_result(&mut app, saved(10, 2, "second.jpg"));
    apply_download_media_result(&mut app, saved(10, 1, "again.jpg"));

    assert_eq!(app.state.downloaded_media.len(), 2);
    assert_eq!(app.state.downloaded_media_path(10, 1).as_deref(), Some("again.jpg"));
    assert_eq!(app.state.downloaded_media_path(10, 2).as_deref(), Some("second.jpg"));
    assert_eq!(app.state.downloaded_media_path(11, 1), None);
}

#[test]
fn failed_download_shows_error_and_records_nothing() {
    let mut app = App::new();
    apply_download_media_result(
        &mut app,
        DownloadMediaResult {
            chat_id: 10,
            message_id: 1,
            result: Err("Download media failed: disk full".to_string()),
        },
    );
    assert_eq!(app.state.error_message.as_deref(), Some("Download media failed: disk full"));
    assert!(app.state.status_message.is_none());
    assert!(app.state.downloaded_media.is_empty());
}

#[test]
fn saved_file_is_offered_and_opened_from_the_context_menu() {
    let mut app = App::new();
    app.state.messages = vec![photo(1)];
    let target = ContextMenuTarget::Message { chat_id: 10, message_id: 1 };
    assert_eq!(
        app.state.context_actions_for_target(target),
        vec![ContextMenuAction::ReplyMessage, ContextMenuAction::SaveMessageMedia]
    );

    apply_download_media_result(&mut app, saved(10, 1, "photo.jpg"));
    assert_eq!(
        app.state.context_actions_for_target(target),
        vec![
            ContextMenuAction::ReplyMessage,
            ContextMenuAction::SaveMessageMedia,
            ContextMenuAction::OpenDownloadedMedia
        ]
    );
    assert_eq!(
        execute_context_menu_action(&mut app, target, ContextMenuAction::OpenDownloadedMedia),
        MenuEffect::OpenDownloadedMedia
    );
}

#[test]
fn opening_saved_file_reports_outcome() {
    let mut app = App::new();
    apply_downloaded_media_open_result(&mut app, Ok(()));
    assert_eq!(app.state.status_message.as_deref(), Some(DOWNLOADED_MEDIA_OPENED_STATUS));

    apply_downloaded_media_open_result(&mut app, Err("no opener".to_string()));
    assert_eq!(app.state.error_message.as_deref(), Some("Open downloaded media failed: no opener"));
    assert!(app.state.status_message.is_none());
}

#[test]
fn media_preview_result_rejects_cross_chat_collision_and_keeps_errors_silent() {
    let mut app = App::new();
    app.state.chats = vec![dumbgram::types::Chat {
        id: 2,
        name: "Chat 2".to_string(),
        last_message: None,
        unread_count: 0,
        is_group: false,
        folder_id: None,
    }];
    let mut shown = photo(7);
    shown.chat_id = 2;
    shown.content = "unchanged".to_string();
    shown.media = Some(MessageMedia::photo());
    app.state.messages = vec![shown];
    app.state.conversation_load_status = ConversationLoadStatus::Failed;

    assert!(!apply_media_preview_result(
        &mut app,
        1,
        MediaPreviewResult { request_id: 1, chat_id: 1, message_id: 7, result: Ok(Some("/tmp/chat-a.png".to_string())) },
    ));
    assert!(app.state.messages[0].media.as_ref().and_then(|media| media.local_path.as_ref()).is_none());

    assert!(!apply_media_preview_result(
        &mut app,
        2,
        MediaPreviewResult { request_id: 2, chat_id: 2, message_id: 7, result: Err("preview unavailable".to_string()) },
    ));
    assert_eq!(app.state.messages[0].content, "unchanged");
    assert_eq!(app.state.conversation_load_status, ConversationLoadStatus::Failed);
    assert!(app.state.error_message.is_none());

    assert!(apply_media_preview_result(
        &mut app,
        3,
        MediaPreviewResult { request_id: 3, chat_id: 2, message_id: 7, result: Ok(Some("/tmp/chat-b.png".to_string())) },
    ));
    assert_eq!(
        app.state.messages[0].media.as_ref().and_then(|media| media.local_image_path()),
        Some("/tmp/chat-b.png".to_string())
    );
    assert_eq!(app.state.selected_media_preview_request(), None);
}

#[test]
fn stale_preview_request_is_ignored() {
    let mut app = App::new();
    app.state.messages = vec![photo(1), photo(2)];
    assert_eq!(app.state.selected_media_preview_request(), Some((10, 1)));
    assert!(!apply_media_preview_result(
        &mut app,
        5,
        MediaPreviewResult { request_id: 4, chat_id: 10, message_id: 1, result: Ok(Some("old.png".to_string())) },
    ));
    app.state.selected_message_index = 1;
    assert!(!apply_media_preview_result(
        &mut app,
        5,
        MediaPreviewResult { request_id: 5, chat_id: 10, message_id: 1, result: Ok(Some("moved.png".to_string())) },
    ));
    assert!(!apply_media_preview_result(
        &mut app,
        5,
        MediaPreviewResult { request_id: 5, chat_id: 10, message_id: 2, result: Ok(None) },
    ));
    assert!(app.state.messages.iter().all(|m| m.media.as_ref().map_or(true, |media| media.local_path.is_none())));
}
