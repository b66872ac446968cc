use dumbgram::keys::KeyModifiers;
use dumbgram::layout::Rect;
use dumbgram::mouse_events::{
    handle_mouse_click, handle_mouse_scroll, ContextMenuAction, ContextMenuTarget, MouseButton,
    MouseClickOutcome, MouseEvent, MouseEventKind, MouseScrollOutcome,
};
use dumbgram::state::{AppState, FocusedPanel, DEFAULT_SPLIT_RATIO};
use dumbgram::types::{Chat, Folder, Message, MessageMedia, MessageMediaKind, MessageStatus, ThreadTopic, ALL_FOLDER_ID};

fn mouse(kind: MouseEventKind, column: u16, row: u16) -> MouseEvent {
    MouseEvent {
        kind,
        column,
        row,
        modifiers: KeyModifiers::none(),
    }
}

fn left_down(column: u16, row: u16) -> MouseEvent {
    mouse(MouseEventKind::Down(MouseButton::Left), column, row)
}

fn chat(id: i64, name: &str) -> Chat {
    Chat {
        id,
        name: name.to_string(),
        last_message: None,
        unread_count: 0,
        is_group: false,
        folder_id: None,
    }
}

fn message(id: i32) -> Message {
    message_with_content(id, &format!("message {id}"))
}

fn message_with_content(id: i32, content: &str) -> Message {
    Message {
        id,
        chat_id: 7,
        thread_topic_id: None,
        sender_identity: None,
        sender_name: "me".to_string(),
        content: content.to_string(),
        timestamp: 1_700_000_000,
        is_own: true,
        is_edited: false,
        reply_to_content: None,
        media: None,
        status: MessageStatus::Sent,
        can_edit: true,
        can_delete: true,
        error: None,
    }
}

fn folder(id: i32, name: &str) -> Folder {
    Folder {
        id,
        name: name.to_string(),
        unread_count: 0,
    }
}

fn all_folder(unread_count: u32) -> Folder {
    Folder {
        id: ALL_FOLDER_ID,
        name: "All".to_string(),
        unread_count,
    }
}

fn thread_topic(id: i32, title: &str) -> ThreadTopic {
    ThreadTopic {
        id,
        title: title.to_string(),
        top_message_id: id + 1000,
        unread_count: 0,
        is_closed: false,
        is_pinned: false,
    }
}

fn menu_target(state: &AppState) -> Option<ContextMenuTarget> {
    state.context_menu().map(|menu| menu.target)
}

#[test]
fn chat_scroll_focuses_chats_without_opening_or_loading_chat() {
    let mut state = AppState::new();
    state.chats_area = Rect::new(10, 5, 20, 8);
    state.chats = (1..=5).map(|id| chat(id, &format!("Chat {id}"))).collect();
    state.focused_panel = FocusedPanel::Messages;

    assert_eq!(
        handle_mouse_scroll(&mut state, mouse(MouseEventKind::ScrollDown, 11, 6)),
        MouseScrollOutcome::Handled
    );
    assert_eq!(state.focused_panel, FocusedPanel::Chats);
    assert_eq!(state.selected_chat_index, 0);
    assert_eq!(state.chat_scroll_offset, 1);

    state.focused_panel = FocusedPanel::Messages;
    assert_eq!(
        handle_mouse_scroll(&mut state, mouse(MouseEventKind::ScrollUp, 11, 6)),
        MouseScrollOutcome::Handled
    );
    assert_eq!(state.focused_panel, FocusedPanel::Chats);
    assert_eq!(state.selected_chat_index, 0);
    assert_eq!(state.chat_scroll_offset, 0);
}

#[test]
fn chat_scroll_is_handled_without_opening_chat_when_no_alternate_chat_exists() {
    let mut state = AppState::new();
    state.chats_area = Rect::new(10, 5, 20, 8);
    state.focused_panel = FocusedPanel::Messages;

    assert_eq!(
        handle_mouse_scroll(&mut state, mouse(MouseEventKind::ScrollDown, 11, 6)),
        MouseScrollOutcome::Handled
    );
    assert_eq!(state.focused_panel, FocusedPanel::Chats);

    state.focused_panel = FocusedPanel::Messages;
    state.chats = vec![chat(1, "Chat 1")];
    assert_eq!(
        handle_mouse_scroll(&mut state, mouse(MouseEventKind::ScrollUp, 11, 6)),
        MouseScrollOutcome::Handled
    );
    assert_eq!(state.focused_panel, FocusedPanel::Chats);
}

#[test]
fn message_scroll_moves_message_selection_and_focuses_messages() {
    let mut state = AppState::new();
    state.messages_area = Rect::new(30, 5, 40, 8);
    state.messages = vec![message(1), message(2)];
    state.focused_panel = FocusedPanel::Chats;

    assert_eq!(
        handle_mouse_scroll(&mut state, mouse(MouseEventKind::ScrollDown, 31, 6)),
        MouseScrollOutcome::Handled
    );
    assert_eq!(state.focused_panel, FocusedPanel::Messages);
    assert_eq!(state.selected_message_index, 1);

    assert_eq!(
        handle_mouse_scroll(&mut state, mouse(MouseEventKind::ScrollUp, 31, 6)),
        MouseScrollOutcome::Handled
    );
    assert_eq!(state.selected_message_index, 0);
}

#[test]
fn non_scroll_or_out_of_bounds_mouse_events_are_ignored() {
    let mut state = AppState::new();
    state.chats_area = Rect::new(10, 5, 20, 8);

    assert_eq!(
        handle_mouse_scroll(&mut state, mouse(MouseEventKind::ScrollDown, 0, 0)),
        MouseScrollOutcome::Ignored
    );
    assert_eq!(
        handle_mouse_scroll(&mut state, mouse(MouseEventKind::Moved, 11, 6)),
        MouseScrollOutcome::Ignored
    );
}

#[test]
fn folder_click_requests_opening_clicked_visible_folder() {
    let mut state = AppState::new();
    state.folders_area = Rect::new(0, 0, 80, 3);
    state.folders = vec![all_folder(0), folder(2, "Work")];
    state.selected_folder_index = 1;

    assert_eq!(handle_mouse_click(&mut state, left_down(2, 1)), MouseClickOutcome::OpenFolderAt(0));
    assert_eq!(state.focused_panel, FocusedPanel::Folders);
}

#[test]
fn selected_folder_click_is_handled_without_opening_folder() {
    let mut state = AppState::new();
    state.folders_area = Rect::new(0, 0, 80, 3);
    state.folders = vec![all_folder(0), folder(2, "Work")];

    assert_eq!(handle_mouse_click(&mut state, left_down(2, 1)), MouseClickOutcome::Handled);
    assert_eq!(state.focused_panel, FocusedPanel::Folders);
}

#[test]
fn folder_click_uses_rendered_label_widths_not_equal_segments() {
    let mut state = AppState::new();
    state.folders_area = Rect::new(0, 0, 40, 3);
    state.folders = vec![folder(1, "好"), folder(2, "Work")];

    assert_eq!(handle_mouse_click(&mut state, left_down(5, 1)), MouseClickOutcome::Handled);
    assert_eq!(state.focused_panel, FocusedPanel::Folders);

    assert_eq!(handle_mouse_click(&mut state, left_down(8, 1)), MouseClickOutcome::OpenFolderAt(1));
}

#[test]
fn thread_topic_click_selects_topic_and_requests_open() {
    let mut state = AppState::new();
    state.thread_topics_area = Rect::new(30, 5, 60, 3);
    state.thread_topics = vec![thread_topic(101, "General"), thread_topic(102, "Deployments")];

    assert_eq!(handle_mouse_click(&mut state, left_down(45, 6)), MouseClickOutcome::OpenThreadTopicAt(1));
    assert_eq!(state.focused_panel, FocusedPanel::Messages);
    assert_eq!(state.selected_thread_topic_index, 1);
}

#[test]
fn selected_thread_topic_click_is_handled_without_reopening() {
    let mut state = AppState::new();
    state.thread_topics_area = Rect::new(30, 5, 60, 3);
    state.thread_topics = vec![thread_topic(101, "General"), thread_topic(102, "Deployments")];

    assert_eq!(handle_mouse_click(&mut state, left_down(32, 6)), MouseClickOutcome::Handled);
    assert_eq!(state.focused_panel, FocusedPanel::Messages);
    assert_eq!(state.selected_thread_topic_index, 0);
}

#[test]
fn chat_click_requests_opening_clicked_chat() {
    let mut state = AppState::new();
    state.chats_area = Rect::new(0, 5, 30, 8);
    state.chats = (1..=5).map(|id| chat(id, &format!("Chat {id}"))).collect();
    state.chat_scroll_offset = 3;

    assert_eq!(handle_mouse_click(&mut state, left_down(2, 8)), MouseClickOutcome::OpenChatAt(4));
    assert_eq!(state.focused_panel, FocusedPanel::Chats);
}

#[test]
fn chat_search_click_uses_filtered_scroll_offset() {
    let mut state = AppState::new();
    state.chats_area = Rect::new(0, 5, 30, 8);
    state.chats = (1..=5).map(|id| chat(id, &format!("Chat {id}"))).collect();
    state.begin_chat_search();
    state.push_chat_search_char('c');
    state.chat_search_scroll_offset = 2;

    assert_eq!(handle_mouse_click(&mut state, left_down(2, 8)), MouseClickOutcome::OpenChatAt(3));
    assert_eq!(state.focused_panel, FocusedPanel::Chats);
}

#[test]
fn selected_or_out_of_range_chat_click_is_handled_without_opening_chat() {
    let mut state = AppState::new();
    state.chats_area = Rect::new(0, 5, 30, 8);
    state.chats = vec![chat(1, "Chat 1"), chat(2, "Chat 2")];
    state.selected_chat_index = 1;

    assert_eq!(handle_mouse_click(&mut state, left_down(2, 8)), MouseClickOutcome::Handled);
    assert_eq!(state.focused_panel, FocusedPanel::Chats);

    assert_eq!(handle_mouse_click(&mut state, left_down(2, 12)), MouseClickOutcome::Handled);
}

#[test]
fn right_click_opens_stable_context_targets_and_menu_blocks_wheel() {
    let mut state = AppState::new();
    state.screen_area = Rect::new(0, 0, 80, 24);
    state.chats_area = Rect::new(0, 5, 30, 8);
    state.messages_area = Rect::new(30, 5, 50, 8);
    state.chats = (1..=5).map(|id| chat(id, &format!("Chat {id}"))).collect();
    state.messages = vec![message(1), message(2)];

    assert_eq!(
        handle_mouse_click(&mut state, mouse(MouseEventKind::Down(MouseButton::Right), 2, 8)),
        MouseClickOutcome::Handled
    );
    assert_eq!(state.selected_chat_index, 0);
    assert!(matches!(menu_target(&state), Some(ContextMenuTarget::Chat { chat_id: 2 })));

    assert_eq!(
        handle_mouse_scroll(&mut state, mouse(MouseEventKind::ScrollDown, 2, 6)),
        MouseScrollOutcome::Handled
    );
    assert_eq!(state.chat_scroll_offset, 0);

    let outside_click = left_down(79, 0);
    assert_eq!(handle_mouse_scroll(&mut state, outside_click), MouseScrollOutcome::Ignored);
    assert_eq!(handle_mouse_click(&mut state, outside_click), MouseClickOutcome::Handled);
    assert!(state.context_menu().is_none());
    assert_eq!(
        handle_mouse_click(&mut state, mouse(MouseEventKind::Down(MouseButton::Right), 29, 6)),
        MouseClickOutcome::Ignored
    );
    assert!(state.context_menu().is_none());

    assert_eq!(
        handle_mouse_click(&mut state, mouse(MouseEventKind::Down(MouseButton::Right), 32, 7)),
        MouseClickOutcome::Handled
    );
    assert_eq!(state.selected_message_index, 1);
    assert!(matches!(
        menu_target(&state),
        Some(ContextMenuTarget::Message { chat_id: 7, message_id: 2 })
    ));
}

#[test]
fn divider_drag_exclusively_captures_mouse_until_release() {
    let mut state = AppState::new();
    state.screen_area = Rect::new(0, 0, 100, 24);
    state.chats_area = Rect::new(0, 5, 30, 8);
    state.messages_area = Rect::new(30, 5, 70, 8);
    state.chats = (1..=5).map(|id| chat(id, &format!("Chat {id}"))).collect();

    assert_eq!(handle_mouse_click(&mut state, left_down(29, 6)), MouseClickOutcome::Handled);
    assert!(state.split_drag_active);

    assert_eq!(
        handle_mouse_scroll(&mut state, mouse(MouseEventKind::ScrollDown, 2, 6)),
        MouseScrollOutcome::Handled
    );
    assert_eq!(state.chat_scroll_offset, 0);
    assert_eq!(
        handle_mouse_click(&mut state, mouse(MouseEventKind::Down(MouseButton::Right), 2, 6)),
        MouseClickOutcome::Handled
    );
    assert!(state.context_menu().is_none());

    handle_mouse_click(&mut state, mouse(MouseEventKind::Drag(MouseButton::Left), 29, 6));
    assert_eq!(state.split_ratio, DEFAULT_SPLIT_RATIO);

    let drag = mouse(MouseEventKind::Drag(MouseButton::Left), 60, 6);
    assert_eq!(handle_mouse_scroll(&mut state, drag), MouseScrollOutcome::Ignored);
    handle_mouse_click(&mut state, drag);
    assert_eq!(state.split_ratio, 60);
    let release = mouse(MouseEventKind::Up(MouseButton::Left), 120, 30);
    assert_eq!(handle_mouse_scroll(&mut state, release), MouseScrollOutcome::Ignored);
    handle_mouse_click(&mut state, release);
    assert!(!state.split_drag_active);
}

#[test]
fn message_and_input_clicks_update_local_state() {
    let mut state = AppState::new();
    state.messages_area = Rect::new(0, 5, 40, 8);
    state.input_area = Rect::new(0, 20, 20, 3);
    state.messages = vec![message(1), message(2)];
    state.set_input("a好b");
    state.move_input_cursor_to_end();

    assert_eq!(handle_mouse_click(&mut state, left_down(2, 7)), MouseClickOutcome::Handled);
    assert_eq!(state.focused_panel, FocusedPanel::Messages);
    assert_eq!(state.selected_message_index, 1);

    assert_eq!(handle_mouse_click(&mut state, left_down(4, 21)), MouseClickOutcome::Handled);
    assert_eq!(state.focused_panel, FocusedPanel::Input);
    assert_eq!(state.input_cursor(), 2);
}

#[test]
fn message_border_click_does_not_open_visible_url() {
    let mut state = AppState::new();
    state.messages_area = Rect::new(30, 5, 80, 8);
    state.messages = vec![message_with_content(1, "go https://example.org now")];

    let url_column = 30 + 1 + 2 + 4 + 3;
    assert_eq!(handle_mouse_click(&mut state, left_down(url_column, 5)), MouseClickOutcome::Ignored);
    assert_eq!(state.selected_message_index, 0);
}

#[test]
fn message_click_on_visible_url_requests_link_open() {
    let mut state = AppState::new();
    state.messages_area = Rect::new(30, 5, 80, 8);
    state.messages = vec![message_with_content(1, "go https://example.org now")];

    let url_column = 30 + 1 + 2 + 4 + 3;
    assert_eq!(
        handle_mouse_click(&mut state, left_down(url_column, 6)),
        MouseClickOutcome::OpenLink("https://example.org".to_string())
    );
    assert_eq!(state.focused_panel, FocusedPanel::Messages);
    assert_eq!(state.selected_message_index, 0);
}

#[test]
fn reply_preview_row_does_not_open_url_from_hidden_body_line() {
    let mut state = AppState::new();
    state.messages_area = Rect::new(30, 5, 35, 4);
    let mut reply = message_with_content(1, "prefix https://example.org/path");
    reply.reply_to_content = Some("visible reply preview".to_string());
    state.messages = vec![reply];

    let hidden_url_column = 30 + 1 + 2 + 4 + 2;
    assert_eq!(handle_mouse_click(&mut state, left_down(hidden_url_column, 7)), MouseClickOutcome::Handled);
    assert_eq!(state.focused_panel, FocusedPanel::Messages);
    assert_eq!(state.selected_message_index, 0);
}

#[test]
fn message_click_on_wrapped_url_continuation_requests_link_open() {
    let mut state = AppState::new();
    state.messages_area = Rect::new(30, 5, 35, 8);
    state.messages = vec![message_with_content(1, "prefix https://example.org/path")];

    let wrapped_url_column = 30 + 1 + 2 + 4 + 2;
    assert_eq!(
        handle_mouse_click(&mut state, left_down(wrapped_url_column, 7)),
        MouseClickOutcome::OpenLink("https://example.org/path".to_string())
    );
    assert_eq!(state.focused_panel, FocusedPanel::Messages);
    assert_eq!(state.selected_message_index, 0);
}

#[test]
fn context_menu_entries_follow_what_the_message_allows() {
    let mut state = AppState::new();
    let mut failed = message_with_content(3, "see https://example.org");
    failed.status = MessageStatus::Failed;
    failed.can_edit = false;
    failed.media = Some(MessageMedia { kind: MessageMediaKind::Photo, local_path: None });
    state.messages = vec![message(1), failed];

    assert_eq!(
        state.context_actions_for_target(ContextMenuTarget::Message { chat_id: 7, message_id: 1 }),
        vec![
            ContextMenuAction::ReplyMessage,
            ContextMenuAction::EditMessage,
            ContextMenuAction::CopyMessageText,
            ContextMenuAction::DeleteMessage,
        ]
    );
    assert_eq!(
        state.context_actions_for_target(ContextMenuTarget::Message { chat_id: 7, message_id: 3 }),
        vec![
            ContextMenuAction::ReplyMessage,
            ContextMenuAction::CopyMessageText,
            ContextMenuAction::OpenMessageLink,
            ContextMenuAction::SaveMessageMedia,
            ContextMenuAction::DismissFailedSend,
        ]
    );
    assert!(state
        .context_actions_for_target(ContextMenuTarget::Message { chat_id: 7, message_id: 9 })
        .is_empty());
    assert!(!state.open_context_menu(ContextMenuTarget::Chat { chat_id: 1 }, 0, 0));
    assert!(state.context_menu().is_none());
}

#[test]
fn context_menu_click_takes_entry_under_pointer_and_closes_menu() {
    let mut state = AppState::new();
    let mut unread = chat(4, "Unread");
    unread.unread_count = 3;
    state.chats = vec![unread];
    assert!(state.open_context_menu(ContextMenuTarget::Chat { chat_id: 4 }, 10, 2));

    handle_mouse_click(&mut state, mouse(MouseEventKind::Moved, 12, 4));
    assert_eq!(state.context_menu().map(|menu| menu.highlighted), Some(1));

    assert_eq!(
        handle_mouse_click(&mut state, left_down(12, 5)),
        MouseClickOutcome::ContextMenuAction(ContextMenuTarget::Chat { chat_id: 4 }, ContextMenuAction::CopyChatName)
    );
    assert!(state.context_menu().is_none());
}

#[test]
fn context_menu_highlight_stops_at_first_and_last_entry() {
    let mut state = AppState::new();
    state.chats = vec![chat(4, "Read")];
    assert!(state.open_context_menu(ContextMenuTarget::Chat { chat_id: 4 }, 0, 0));

    state.move_context_menu_highlight(-1);
    assert_eq!(state.context_menu().map(|menu| menu.highlighted), Some(0));
    state.move_context_menu_highlight(5);
    assert_eq!(state.context_menu().map(|menu| menu.highlighted), Some(1));
    assert_eq!(
        state.take_highlighted_context_menu_action(),
        Some((ContextMenuTarget::Chat { chat_id: 4 }, ContextMenuAction::CopyChatName))
    );
    assert!(state.context_menu().is_none());
}

#[test]
fn divider_drag_keeps_split_inside_bounds() {
    let mut state = AppState::new();
    state.screen_area = Rect::new(0, 0, 100, 24);
    state.chats_area = Rect::new(0, 5, 30, 8);
    assert_eq!(handle_mouse_click(&mut state, left_down(29, 6)), MouseClickOutcome::Handled);

    handle_mouse_click(&mut state, mouse(MouseEventKind::Drag(MouseButton::Left), 2, 6));
    assert_eq!(state.split_ratio, 20);
    handle_mouse_click(&mut state, mouse(MouseEventKind::Drag(MouseButton::Left), 97, 6));
    assert_eq!(state.split_ratio, 80);
    handle_mouse_click(&mut state, mouse(MouseEventKind::Drag(MouseButton::Left), 43, 6));
    assert_eq!(state.split_ratio, 45);
}
