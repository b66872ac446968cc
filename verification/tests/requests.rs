use dumbgram::app::App;
use dumbgram::conversation::ChatMessageLoadPurpose;
use dumbgram::requests::{
    selected_conversation_load_active, ChatLoadRequests, FolderLoadRequests, PreviewRequest, PreviewRequests, RequestIds,
};
use dumbgram::types::Chat;

fn chat(id: i64) -> Chat {
    Chat {
        id,
        name: format!("Chat {id}"),
        last_message: None,
        unread_count: 0,
        is_group: false,
        folder_id: None,
    }
}

#[test]
fn request_ids_count_up_and_saturate() {
    let mut ids = RequestIds::new();
    assert_eq!(ids.begin(), 1);
    assert_eq!(ids.begin(), 2);
    ids.latest_request_id = u64::MAX;
    assert_eq!(ids.begin(), u64::MAX);
}

#[test]
fn opening_a_chat_tracks_the_open_request_until_its_result() {
    let mut chats = ChatLoadRequests::new();
    let id = chats.begin(7, ChatMessageLoadPurpose::OpenConversation);
    assert_eq!(id, 1);
    assert!(chats.has_active_open_for(7));
    assert!(!chats.has_active_open_for(8));
    assert!(!chats.finish_open_request(2));
    assert!(chats.has_active_open_for(7));
    assert!(chats.finish_open_request(1));
    assert!(!chats.has_active_open_for(7));
    assert!(!chats.finish_open_request(1));
}

#[test]
fn refresh_and_cancel_leave_no_open_request() {
    let mut chats = ChatLoadRequests::new();
    chats.begin(7, ChatMessageLoadPurpose::OpenConversation);
    let id = chats.begin_newer_gap_refresh(7, 3);
    assert_eq!(id, 2);
    assert_eq!(chats.active_open_request, None);
    chats.begin(7, ChatMessageLoadPurpose::OpenConversation);
    chats.cancel_open_request();
    assert_eq!(chats.latest_request_id, 4);
    assert_eq!(chats.active_open_request, None);
}

#[test]
fn folder_requests_track_the_load_on_its_way() {
    let mut folders = FolderLoadRequests::new();
    let id = folders.begin();
    assert!(folders.has_active_request());
    assert!(!folders.finish_request(id + 1));
    assert!(folders.finish_request(id));
    assert!(!folders.has_active_request());
    folders.begin();
    folders.cancel_request();
    assert!(!folders.has_active_request());
    assert_eq!(folders.latest_request_id, 3);
}

#[test]
fn conversation_load_is_active_for_folder_loads_and_opening_selected_chat() {
    let mut app = App::new();
    app.state.chats = vec![chat(1), chat(2)];
    let mut chats = ChatLoadRequests::new();
    let mut folders = FolderLoadRequests::new();
    assert!(!selected_conversation_load_active(&app, &chats, &folders));
    chats.begin(2, ChatMessageLoadPurpose::OpenConversation);
    assert!(!selected_conversation_load_active(&app, &chats, &folders));
    chats.begin(1, ChatMessageLoadPurpose::OpenConversation);
    assert!(selected_conversation_load_active(&app, &chats, &folders));
    chats.cancel_open_request();
    folders.begin();
    assert!(selected_conversation_load_active(&app, &chats, &folders));
}

#[test]
fn preview_requests_start_once_per_message_and_cancel_on_none() {
    let mut previews = PreviewRequests::new();
    assert_eq!(
        previews.request(Some((1, 10))),
        PreviewRequest::Started { request_id: 1, chat_id: 1, message_id: 10 }
    );
    assert_eq!(previews.request(Some((1, 10))), PreviewRequest::Unchanged);
    assert_eq!(
        previews.request(Some((1, 11))),
        PreviewRequest::Started { request_id: 2, chat_id: 1, message_id: 11 }
    );
    assert_eq!(previews.request(None), PreviewRequest::Cancelled);
    assert_eq!(previews.request(None), PreviewRequest::Unchanged);
    assert_eq!(previews.latest_request_id, 2);
}
