use dumbgram::export::{
    chat_candidate, photo_field, resolve_chat_query, sender_fields, ChatCandidate, ChatKind,
    ChatShape, ExportChat, ExportField, ExportMedia, ExportMessage, InlineButton,
    InlineButtonKind, MediaDir, PHOTO_PLACEHOLDER,
};
use serde_json::Value;

fn to_value(fields: Vec<(String, ExportField)>) -> Value {
    let mut out = serde_json::Map::new();
    for (key, field) in fields {
        let value = match field {
            ExportField::Int(i) => Value::from(i),
            ExportField::Text(s) => Value::String(s),
            ExportField::Entities(items) => Value::Array(
                items.into_iter().map(|t| typed(&t.kind, &t.text)).collect(),
            ),
            ExportField::Buttons(rows) => Value::Array(
                rows.into_iter()
                    .map(|row| Value::Array(row.into_iter().map(|t| typed(&t.kind, &t.text)).collect()))
                    .collect(),
            ),
        };
        out.insert(key, value);
    }
    Value::Object(out)
}

fn typed(kind: &str, text: &str) -> Value {
    object(vec![("type", Value::from(kind)), ("text", Value::from(text))])
}

fn object(entries: Vec<(&str, Value)>) -> Value {
    let mut map = serde_json::Map::new();
    for (key, value) in entries {
        map.insert(key.to_string(), value);
    }
    Value::Object(map)
}

fn message(text: &str) -> ExportMessage {
    ExportMessage {
        id: 7,
        service: false,
        date: 1_772_359_200,
        edited: None,
        from: Some(("Alice Doe".to_string(), "user42".to_string())),
        reply_to_message_id: None,
        media: None,
        text: text.to_string(),
        inline_buttons: Vec::new(),
    }
}

#[test]
fn unedited_text_message_matches_desktop_fields() {
    assert_eq!(
        to_value(message("hi").to_json()),
        object(vec![
            ("id", Value::from(7)),
            ("type", Value::from("message")),
            ("date", Value::from("2026-03-01T10:00:00")),
            ("date_unixtime", Value::from("1772359200")),
            ("from", Value::from("Alice Doe")),
            ("from_id", Value::from("user42")),
            ("text", Value::from("hi")),
            ("text_entities", Value::Array(vec![typed("plain", "hi")])),
        ])
    );
}

#[test]
fn edited_message_includes_edit_dates_as_strings() {
    let value = to_value(ExportMessage { edited: Some(1_772_359_260), ..message("hi") }.to_json());

    assert_eq!(value["edited"], "2026-03-01T10:01:00");
    assert_eq!(value["edited_unixtime"], "1772359260");
}

#[test]
fn optional_fields_are_omitted_when_absent() {
    let value = to_value(ExportMessage { from: None, ..message("hi") }.to_json());

    for key in [
        "edited",
        "edited_unixtime",
        "from",
        "from_id",
        "reply_to_message_id",
        "photo",
        "file",
        "mime_type",
        "inline_bot_buttons",
    ] {
        assert!(value.get(key).is_none(), "{key} should be omitted");
    }
}

#[test]
fn reply_id_is_a_number() {
    let value = to_value(ExportMessage { reply_to_message_id: Some(118), ..message("hi") }.to_json());

    assert_eq!(value["reply_to_message_id"], 118);
}

#[test]
fn photo_and_document_media_use_placeholders() {
    let photo = to_value(
        ExportMessage { media: Some(ExportMedia::Photo(PHOTO_PLACEHOLDER.into())), ..message("") }
            .to_json(),
    );
    assert_eq!(photo["photo"], "(photo)");
    assert!(photo.get("file").is_none());

    let document = to_value(
        ExportMessage {
            media: Some(ExportMedia::Document { mime_type: Some("application/pdf".into()) }),
            ..message("")
        }
        .to_json(),
    );
    assert_eq!(document["file"], "(file)");
    assert_eq!(document["mime_type"], "application/pdf");

    let unknown_mime = to_value(
        ExportMessage { media: Some(ExportMedia::Document { mime_type: None }), ..message("") }
            .to_json(),
    );
    assert_eq!(unknown_mime["file"], "(file)");
    assert!(unknown_mime.get("mime_type").is_none());
}

#[test]
fn empty_text_has_no_entities() {
    let value = to_value(message("").to_json());

    assert_eq!(value["text"], "");
    assert_eq!(value["text_entities"], Value::Array(Vec::new()));
}

#[test]
fn inline_buttons_keep_rows() {
    let button = |kind, text: &str| InlineButton { kind, text: text.into() };
    let value = to_value(
        ExportMessage {
            inline_buttons: vec![
                vec![
                    button(InlineButtonKind::Callback, "Confirm"),
                    button(InlineButtonKind::Callback, "Cancel"),
                ],
                vec![button(InlineButtonKind::Url, "Docs"), button(InlineButtonKind::Other, "Share")],
            ],
            ..message("Pick")
        }
        .to_json(),
    );

    assert_eq!(
        value["inline_bot_buttons"],
        Value::Array(vec![
            Value::Array(vec![typed("callback", "Confirm"), typed("callback", "Cancel")]),
            Value::Array(vec![typed("url", "Docs"), typed("other", "Share")]),
        ])
    );
}

#[test]
fn service_message_has_only_identity_and_date() {
    let value = to_value(
        ExportMessage {
            service: true,
            edited: Some(1_772_359_260),
            reply_to_message_id: Some(1),
            ..message("joined")
        }
        .to_json(),
    );

    assert_eq!(
        value,
        object(vec![
            ("id", Value::from(7)),
            ("type", Value::from("service")),
            ("date", Value::from("2026-03-01T10:00:00")),
            ("date_unixtime", Value::from("1772359200")),
        ])
    );
}

#[test]
fn export_date_at_the_epoch() {
    let value = to_value(ExportMessage { date: 0, ..message("x") }.to_json());
    assert_eq!(value["date"], "1970-01-01T00:00:00");
    assert_eq!(value["date_unixtime"], "0");
}

#[test]
fn bot_api_chat_id_per_chat_kind() {
    let own_user_id = 555;
    assert_eq!(ChatKind::Personal.bot_api_chat_id(42, own_user_id), 555);
    assert_eq!(ChatKind::Bot.bot_api_chat_id(42, own_user_id), 555);
    assert_eq!(ChatKind::Group.bot_api_chat_id(42, own_user_id), -42);
    assert_eq!(ChatKind::Supergroup.bot_api_chat_id(1234567890, own_user_id), -1001234567890);
    assert_eq!(ChatKind::Channel.bot_api_chat_id(1234567890, own_user_id), -1001234567890);
}

#[test]
fn lookup_id_is_user_id_for_private_chats_and_bot_api_id_otherwise() {
    assert_eq!(ChatKind::Bot.lookup_id(42), 42);
    assert_eq!(ChatKind::Group.lookup_id(42), -42);
    assert_eq!(ChatKind::Channel.lookup_id(42), -1000000000042);
}

#[test]
fn megagroup_wrapped_as_group_is_a_supergroup() {
    let megagroup = ExportChat {
        id: 9,
        name: "Finance".to_string(),
        shape: ChatShape::Group { raw_is_channel: true },
    };
    assert_eq!(ChatKind::of(&megagroup.shape), ChatKind::Supergroup);
    assert_eq!(sender_fields(&megagroup), ("Finance".to_string(), "channel9".to_string()));

    assert_eq!(ChatKind::of(&ChatShape::Channel), ChatKind::Channel);
    assert_eq!(ChatKind::of(&ChatShape::Group { raw_is_channel: false }), ChatKind::Group);
}

#[test]
fn users_are_personal_chats_or_bots() {
    assert_eq!(ChatKind::of(&ChatShape::User { is_bot: false }), ChatKind::Personal);
    assert_eq!(ChatKind::of(&ChatShape::User { is_bot: true }), ChatKind::Bot);
    let bot = ExportChat { id: 100, name: "Finance Bot".to_string(), shape: ChatShape::User { is_bot: true } };
    let candidate = chat_candidate(&bot);
    assert_eq!(candidate.lookup_id, 100);
    assert_eq!(candidate.name, "Finance Bot");
}

#[test]
fn export_type_and_peer_id_per_chat_kind() {
    assert_eq!(ChatKind::Personal.export_type(), "personal_chat");
    assert_eq!(ChatKind::Bot.export_type(), "bot_chat");
    assert_eq!(ChatKind::Group.export_type(), "private_group");
    assert_eq!(ChatKind::Supergroup.export_type(), "private_supergroup");
    assert_eq!(ChatKind::Channel.export_type(), "private_channel");
    assert_eq!(ChatKind::Bot.peer_id(1), "user1");
    assert_eq!(ChatKind::Group.peer_id(1), "chat1");
    assert_eq!(ChatKind::Supergroup.peer_id(1), "channel1");
}

fn chats() -> Vec<ChatCandidate> {
    let chat = |id, lookup_id, name: &str| ChatCandidate { id, lookup_id, name: name.into() };
    vec![
        chat(100, 100, "Finance Bot"),
        chat(4242424242, -4242424242, "Expenses"),
        chat(300, -1000000000300, "Expenses family"),
        chat(400, -400, "Fitness"),
    ]
}

#[test]
fn chat_query_matches_chat_id() {
    assert_eq!(resolve_chat_query("100", &chats()).unwrap(), 0);
    assert_eq!(resolve_chat_query("300", &chats()).unwrap(), 2);
}

#[test]
fn chat_query_matches_negative_bot_api_id() {
    assert_eq!(resolve_chat_query("-4242424242", &chats()).unwrap(), 1);
    assert_eq!(resolve_chat_query("-1000000000300", &chats()).unwrap(), 2);
}

#[test]
fn chat_query_exact_name_beats_substring() {
    assert_eq!(resolve_chat_query("expenses", &chats()).unwrap(), 1);
    assert_eq!(resolve_chat_query("family", &chats()).unwrap(), 2);
}

#[test]
fn chat_query_lists_ambiguous_candidates_by_lookup_id() {
    let error = resolve_chat_query("fi", &chats()).unwrap_err();

    assert!(error.contains("100\tFinance Bot"), "{error}");
    assert!(error.contains("-400\tFitness"), "{error}");
    assert!(!error.contains("Expenses"), "{error}");
}

#[test]
fn chat_query_ambiguity_message_lists_every_candidate() {
    let error = resolve_chat_query("fi", &chats()).unwrap_err();
    assert_eq!(
        error,
        "\"fi\" matches 2 chats; re-run with a chat id:\n100\tFinance Bot\n-400\tFitness"
    );
}

#[test]
fn chat_query_without_match_fails() {
    let error = resolve_chat_query("nope", &chats()).unwrap_err();

    assert_eq!(error, "no chat matches \"nope\"");
}

#[test]
fn photo_field_without_media_dir_is_placeholder() {
    assert_eq!(photo_field(5, None), "(photo)");
}

#[test]
fn photo_field_is_relative_inside_json_dir_and_absolute_outside() {
    let media_dir = |dir: &str| MediaDir { dir: dir.into(), json_dir: "/exports".into() };

    assert_eq!(photo_field(5, Some(&media_dir("/exports/photos"))), "photos/photo_5.jpg");
    assert_eq!(photo_field(5, Some(&media_dir("/media"))), "/media/photo_5.jpg");
    assert_eq!(photo_field(5, Some(&media_dir("/exports-photos"))), "/exports-photos/photo_5.jpg");
}

#[test]
fn photo_path_names_the_file_after_the_message() {
    let dir = MediaDir { dir: "/media".into(), json_dir: "/exports".into() };
    assert_eq!(dir.photo_path(-3), "/media/photo_-3.jpg");
}
