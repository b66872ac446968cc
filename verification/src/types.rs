//! Telegram entities as the client shows them.

use vstd::prelude::*;

verus! {

/// Folder id of the "all chats" folder; it filters nothing.
pub const ALL_FOLDER_ID: i32 = 0;

/// Sender name shown on the account's own messages.
pub const OWN_SENDER_NAME: &'static str = "You";

/// A chat folder.
#[derive(Debug, Clone)]
pub struct Folder {
    pub id: i32,
    pub name: String,
    pub unread_count: u32,
}

/// A chat in the chat list.
#[derive(Debug, Clone)]
pub struct Chat {
    pub id: i64,
    pub name: String,
    pub last_message: Option<String>,
    pub unread_count: u32,
    pub is_group: bool,
    pub folder_id: Option<i32>,
}

/// A forum topic of a group.
#[derive(Debug, Clone)]
pub struct ThreadTopic {
    pub id: i32,
    pub title: String,
    pub top_message_id: i32,
    pub unread_count: u32,
    pub is_closed: bool,
    pub is_pinned: bool,
}

/// Delivery state of a message.
#[derive(Debug, Clone, Copy, PartialEq, Eq, Structural)]
pub enum MessageStatus {
    Sending,
    Sent,
    Delivered,
    Read,
    Failed,
}

/// Kind of media attached to a message.
#[derive(Debug, Clone, Copy, PartialEq, Eq, Structural)]
pub enum MessageMediaKind {
    Photo,
    Video,
    Audio,
    Voice,
    Document,
    Sticker,
    Other,
}

impl MessageMediaKind {
    /// Photos, videos, audio, voice notes and documents can be saved to disk.
    pub open spec fn is_downloadable_spec(self) -> bool {
        match self {
            MessageMediaKind::Sticker | MessageMediaKind::Other => false,
            _ => true,
        }
    }

    pub fn is_downloadable(&self) -> (b: bool)
        ensures
            b == self.is_downloadable_spec(),
    {
        match self {
            MessageMediaKind::Sticker | MessageMediaKind::Other => false,
            _ => true,
        }
    }
}

/// Media attached to a message, with the file of its preview once one was fetched.
#[derive(Debug, Clone)]
pub struct MessageMedia {
    pub kind: MessageMediaKind,
    pub local_path: Option<String>,
}

impl MessageMedia {
    /// A photo without a fetched preview.
    pub fn photo() -> (m: MessageMedia)
        ensures
            m.kind == MessageMediaKind::Photo,
            m.local_path is None,
    {
        MessageMedia { kind: MessageMediaKind::Photo, local_path: None }
    }

    /// The file of a photo's fetched preview.
    pub fn local_image_path(&self) -> (r: Option<String>)
        ensures
            r == (if self.kind == MessageMediaKind::Photo { self.local_path } else { None }),
    {
        match self.kind {
            MessageMediaKind::Photo => copy_opt_string(&self.local_path),
            _ => None,
        }
    }
}

/// A message of a chat; `timestamp` is seconds since the Unix epoch.
#[derive(Debug, Clone)]
pub struct Message {
    pub id: i32,
    pub chat_id: i64,
    pub thread_topic_id: Option<i32>,
    pub sender_identity: Option<i64>,
    pub sender_name: String,
    pub content: String,
    pub timestamp: i64,
    pub is_own: bool,
    pub is_edited: bool,
    pub reply_to_content: Option<String>,
    pub media: Option<MessageMedia>,
    pub status: MessageStatus,
    pub can_edit: bool,
    pub can_delete: bool,
    pub error: Option<String>,
}

pub fn copy_opt_string(s: &Option<String>) -> (r: Option<String>)
    ensures
        r == *s,
{
    match s {
        Some(v) => Some(v.clone()),
        None => None,
    }
}

impl Folder {
    pub fn copy(&self) -> (r: Folder)
        ensures
            r == *self,
    {
        Folder { id: self.id, name: self.name.clone(), unread_count: self.unread_count }
    }
}

impl Chat {
    pub fn copy(&self) -> (r: Chat)
        ensures
            r == *self,
    {
        Chat {
            id: self.id,
            name: self.name.clone(),
            last_message: copy_opt_string(&self.last_message),
            unread_count: self.unread_count,
            is_group: self.is_group,
            folder_id: self.folder_id,
        }
    }
}

impl ThreadTopic {
    pub fn copy(&self) -> (r: ThreadTopic)
        ensures
            r == *self,
    {
        ThreadTopic {
            id: self.id,
            title: self.title.clone(),
            top_message_id: self.top_message_id,
            unread_count: self.unread_count,
            is_closed: self.is_closed,
            is_pinned: self.is_pinned,
        }
    }
}

impl Message {
    pub fn copy(&self) -> (r: Message)
        ensures
            r == *self,
    {
        Message {
            id: self.id,
            chat_id: self.chat_id,
            thread_topic_id: self.thread_topic_id,
            sender_identity: self.sender_identity,
            sender_name: self.sender_name.clone(),
            content: self.content.clone(),
            timestamp: self.timestamp,
            is_own: self.is_own,
            is_edited: self.is_edited,
            reply_to_content: copy_opt_string(&self.reply_to_content),
            media: match &self.media {
                Some(m) => Some(MessageMedia { kind: m.kind, local_path: copy_opt_string(&m.local_path) }),
                None => None,
            },
            status: self.status,
            can_edit: self.can_edit,
            can_delete: self.can_delete,
            error: copy_opt_string(&self.error),
        }
    }
}

/// A deep copy of a chat list.
pub fn copy_chats(chats: &Vec<Chat>) -> (r: Vec<Chat>)
    ensures
        r@ == chats@,
{
    let mut r: Vec<Chat> = Vec::new();
    let mut k: usize = 0;
    while k < chats.len()
        invariant
            k <= chats.len(),
            r@ == chats@.subrange(0, k as int),
        decreases chats.len() - k,
    {
        r.push(chats[k].copy());
        k += 1;
        assert(r@ =~= chats@.subrange(0, k as int));
    }
    assert(chats@.subrange(0, chats@.len() as int) =~= chats@);
    r
}


/// What Telegram pushes to the client while it runs.
#[derive(Debug, Clone)]
pub enum Update {
    /// A message arrived in some chat.
    NewMessage(Message),
    /// The update stream failed with this error.
    Error(String),
}

} // verus!
