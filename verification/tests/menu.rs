use dumbgram::app::App;
use dumbgram::keys::{KeyCode, KeyEvent, KeyModifiers};
use dumbgram::layout::Rect;
use dumbgram::menu::{execute_context_menu_action, handle_context_menu_key, route_mouse_event, ContextMenuKeyOutcome, MenuEffect};
use dumbgram::mouse_events::{ContextMenuAction, ContextMenuTarget, MouseButton, MouseClickOutcome, MouseEvent, MouseEventKind};
use dumbgram::session::{DOWNLOADING_MEDIA_STATUS, NO_LINK_IN_SELECTED_MESSAGE_STATUS};
use dumbgram::state::{DeleteConfirmation, FocusedPanel};
use dumbgram::types::{Chat, Message, MessageMedia, MessageMediaKind, MessageStatus};

fn key(code: KeyCode) -> KeyEvent {
    KeyEvent::new(code, KeyModifiers::none())
}

fn chat(id: i64) -> Chat {
    Chat {
        id,
        name: format!("Chat {id}"),
        last_message: None,
        unread_count: 0,
        is_group: false,
        folder_id: None,
    }
}

fn message(id: i32) -> Message {
    Message {
        id,
        chat_id: 10,
        thread_topic_id: None,
        sender_identity: None,
        sender_name: "me".to_string(),
        content: format!("message {id}"),
        timestamp: 1_700_000_000,
        is_own: true,
        is_edited: false,
        reply_to_content: None,
        media: None,
        status: MessageStatus::Sent,
        can_edit: true,
        can_delete: true,
        error: None,
    }
}

#[test]
fn context_menu_keyboard_blocks_underlying_quit_and_closes_before_delete_confirmation() {
    let mut app = App::new();
    app.state.chats = vec![chat(10)];
    app.state.messages = vec![message(7)];
    assert!(app.state.open_context_menu(ContextMenuTarget::Message { chat_id: 10, message_id: 7 }, 1, 1));

    assert_eq!(handle_context_menu_key(&mut app.state, key(KeyCode::Char('q'))), ContextMenuKeyOutcome::Handled);
    assert!(!app.should_quit);
    assert!(app.state.context_menu().is_some());

    let last = app.state.context_menu().expect("menu remains open").actions.len() - 1;
    app.state.context_menu.as_mut().expect("menu remains mutable").highlighted = last;
    let taken = handle_context_menu_key(&mut app.state, key(KeyCode::Enter));
    assert_eq!(
        taken,
        ContextMenuKeyOutcome::Take(ContextMenuTarget::Message { chat_id: 10, message_id: 7 }, ContextMenuAction::DeleteMessage)
    );
    assert!(app.state.context_menu().is_none());

    assert_eq!(
        execute_context_menu_action(
            &mut app,
            ContextMenuTarget::Message { chat_id: 10, message_id: 7 },
            ContextMenuAction::DeleteMessage
        ),
        MenuEffect::Nothing
    );
    assert_eq!(app.state.delete_confirmation(), Some(DeleteConfirmation { chat_id: 10, message_id: 7 }));
}

#[test]
fn context_menu_keys_move_highlight_and_close() {
    let mut app = App::new();
    app.state.chats = vec![chat(10)];
    assert_eq!(handle_context_menu_key(&mut app.state, key(KeyCode::Esc)), ContextMenuKeyOutcome::NoMenu);

    assert!(app.state.open_context_menu(ContextMenuTarget::Chat { chat_id: 10 }, 0, 0));
    assert_eq!(handle_context_menu_key(&mut app.state, key(KeyCode::Down)), ContextMenuKeyOutcome::Handled);
    assert_eq!(app.state.context_menu().map(|menu| menu.highlighted), Some(1));
    assert_eq!(handle_context_menu_key(&mut app.state, key(KeyCode::Up)), ContextMenuKeyOutcome::Handled);
    assert_eq!(app.state.context_menu().map(|menu| menu.highlighted), Some(0));
    assert_eq!(
        handle_context_menu_key(&mut app.state, KeyEvent::new(KeyCode::Char('c'), KeyModifiers::control_only())),
        ContextMenuKeyOutcome::Handled
    );
    assert!(app.state.context_menu().is_none());
}

#[test]
fn chat_menu_entries_open_mark_read_and_copy_name() {
    let mut app = App::new();
    let mut unread = chat(4);
    unread.unread_count = 2;
    app.state.chats = vec![chat(3), unread];

    assert_eq!(
        execute_context_menu_action(&mut app, ContextMenuTarget::Chat { chat_id: 4 }, ContextMenuAction::OpenChat),
        MenuEffect::OpenChatAt(1)
    );
    assert_eq!(
        execute_context_menu_action(&mut app, ContextMenuTarget::Chat { chat_id: 4 }, ContextMenuAction::MarkChatRead),
        MenuEffect::MarkChatRead(4)
    );
    assert_eq!(app.state.chats[1].unread_count, 0);
    assert_eq!(
        execute_context_menu_action(&mut app, ContextMenuTarget::Chat { chat_id: 4 }, ContextMenuAction::MarkChatRead),
        MenuEffect::Nothing
    );
    assert_eq!(
        execute_context_menu_action(&mut app, ContextMenuTarget::Chat { chat_id: 3 }, ContextMenuAction::CopyChatName),
        MenuEffect::CopyChatName("Chat 3".to_string())
    );
    assert_eq!(
        execute_context_menu_action(&mut app, ContextMenuTarget::Chat { chat_id: 9 }, ContextMenuAction::OpenChat),
        MenuEffect::Nothing
    );
}

#[test]
fn message_menu_entries_select_message_before_acting() {
    let mut app = App::new();
    let mut linked = message(2);
    linked.content = "see https://example.org".to_string();
    linked.media = Some(MessageMedia { kind: MessageMediaKind::Document, local_path: None });
    app.state.messages = vec![message(1), linked];

    assert_eq!(
        execute_context_menu_action(
            &mut app,
            ContextMenuTarget::Message { chat_id: 10, message_id: 2 },
            ContextMenuAction::OpenMessageLink
        ),
        MenuEffect::OpenLink("https://example.org".to_string())
    );
    assert_eq!(app.state.selected_message_index, 1);

    assert_eq!(
        execute_context_menu_action(
            &mut app,
            ContextMenuTarget::Message { chat_id: 10, message_id: 2 },
            ContextMenuAction::SaveMessageMedia
        ),
        MenuEffect::DownloadMedia { chat_id: 10, message_id: 2, kind: MessageMediaKind::Document }
    );
    assert_eq!(app.state.status_message.as_deref(), Some(DOWNLOADING_MEDIA_STATUS));

    assert_eq!(
        execute_context_menu_action(
            &mut app,
            ContextMenuTarget::Message { chat_id: 10, message_id: 1 },
            ContextMenuAction::ReplyMessage
        ),
        MenuEffect::Nothing
    );
    assert_eq!(app.state.selected_message_index, 0);
    assert_eq!(app.state.replying_to_message_id, Some(1));
    assert_eq!(app.state.focused_panel, FocusedPanel::Input);

    assert_eq!(
        execute_context_menu_action(
            &mut app,
            ContextMenuTarget::Message { chat_id: 10, message_id: 1 },
            ContextMenuAction::OpenMessageLink
        ),
        MenuEffect::Nothing
    );
    assert_ne!(app.state.status_message.as_deref(), Some(NO_LINK_IN_SELECTED_MESSAGE_STATUS));
}

#[test]
fn mouse_events_are_ignored_while_delete_confirmation_is_open() {
    let mut app = App::new();
    app.state.focused_panel = FocusedPanel::Messages;
    app.state.messages_area = Rect::new(0, 4, 40, 8);
    app.state.input_area = Rect::new(0, 20, 40, 3);
    app.state.messages = vec![message(1), message(2)];
    app.state.selected_message_index = 0;
    app.state.set_delete_confirmation(DeleteConfirmation { chat_id: 10, message_id: 1 });

    let scroll_up = MouseEvent { kind: MouseEventKind::ScrollUp, column: 5, row: 5, modifiers: KeyModifiers::none() };
    assert_eq!(route_mouse_event(&mut app.state, scroll_up), MouseClickOutcome::Ignored);
    assert_eq!(app.state.focused_panel, FocusedPanel::Messages);
    assert_eq!(app.state.selected_message_index, 0);
    assert!(app.state.status_message.is_none());
    assert!(app.state.error_message.is_none());
    assert!(app.state.delete_confirmation().is_some());

    let input_click = MouseEvent {
        kind: MouseEventKind::Down(MouseButton::Left),
        column: 1,
        row: 21,
        modifiers: KeyModifiers::none(),
    };
    assert_eq!(route_mouse_event(&mut app.state, input_click), MouseClickOutcome::Ignored);
    assert_eq!(app.state.focused_panel, FocusedPanel::Messages);
    assert!(app.state.delete_confirmation().is_some());

    app.state.cancel_delete_confirmation();
    assert_eq!(route_mouse_event(&mut app.state, input_click), MouseClickOutcome::Handled);
    assert_eq!(app.state.focused_panel, FocusedPanel::Input);
}

#[test]
fn mouse_scroll_up_at_loaded_top_moves_locally_without_loading_history() {
    let mut app = App::new();
    app.state.focused_panel = FocusedPanel::Messages;
    app.state.messages_area = Rect::new(0, 0, 80, 12);
    app.state.messages = vec![message(1), message(2)];
    app.state.selected_message_index = 0;

    let scroll_up = MouseEvent { kind: MouseEventKind::ScrollUp, column: 5, row: 5, modifiers: KeyModifiers::none() };
    assert_eq!(route_mouse_event(&mut app.state, scroll_up), MouseClickOutcome::Handled);

    assert_eq!(app.state.focused_panel, FocusedPanel::Messages);
    assert_eq!(app.state.selected_message_index, 0);
    assert_eq!(app.state.messages.len(), 2);
    assert!(app.state.status_message.is_none());
    assert!(app.state.error_message.is_none());
}
