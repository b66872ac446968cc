//! The request ids of background loads. Each new request of a loader gets the next id,
//! and only a result that carries the latest id is taken; conversation and folder loads
//! also remember the request still open.

use crate::app::App;
use crate::conversation::ChatMessageLoadPurpose;
use vstd::prelude::*;

verus! {

/// The id after `id`, stopping at the largest id.
pub open spec fn next_request_id(id: u64) -> u64 {
    if id < u64::MAX {
        (id + 1) as u64
    } else {
        id
    }
}

fn bump_request_id(id: u64) -> (r: u64)
    ensures
        r == next_request_id(id),
{
    id.saturating_add(1)
}

/// Request ids of a loader whose requests are not tracked further (older messages,
/// reconciliation, the update subscription).
#[derive(Debug, Clone, Copy, PartialEq, Eq, Structural)]
pub struct RequestIds {
    pub latest_request_id: u64,
}

impl RequestIds {
    pub fn new() -> (r: RequestIds)
        ensures
            r.latest_request_id == 0,
    {
        RequestIds { latest_request_id: 0 }
    }

    /// Starts a request: its id is the next one, which becomes the latest.
    pub fn begin(&mut self) -> (request_id: u64)
        ensures
            final(self).latest_request_id == next_request_id(old(self).latest_request_id),
            request_id == final(self).latest_request_id,
    {
        self.latest_request_id = bump_request_id(self.latest_request_id);
        self.latest_request_id
    }
}

/// Request ids of conversation loads, and the load that opens a conversation while it
/// is on its way (its request id and chat).
#[derive(Debug, Clone, Copy, PartialEq, Eq)]
pub struct ChatLoadRequests {
    pub latest_request_id: u64,
    pub active_open_request: Option<(u64, i64)>,
}

impl ChatLoadRequests {
    pub fn new() -> (r: ChatLoadRequests)
        ensures
            r.latest_request_id == 0,
            r.active_open_request is None,
    {
        ChatLoadRequests { latest_request_id: 0, active_open_request: None }
    }

    /// Starts a load of `chat_id`: the next id becomes the latest; a load that opens the
    /// conversation is the open one, a refresh leaves none open.
    pub fn begin(&mut self, chat_id: i64, purpose: ChatMessageLoadPurpose) -> (request_id: u64)
        ensures
            final(self).latest_request_id == next_request_id(old(self).latest_request_id),
            request_id == final(self).latest_request_id,
            final(self).active_open_request == match purpose {
                ChatMessageLoadPurpose::OpenConversation => Some((request_id, chat_id)),
                ChatMessageLoadPurpose::RefreshNewerGap { .. } => None,
            },
    {
        self.latest_request_id = bump_request_id(self.latest_request_id);
        let request_id = self.latest_request_id;
        self.active_open_request = match purpose {
            ChatMessageLoadPurpose::OpenConversation => Some((request_id, chat_id)),
            ChatMessageLoadPurpose::RefreshNewerGap { .. } => None,
        };
        request_id
    }

    /// Whether the conversation of `chat_id` is being opened.
    pub fn has_active_open_for(&self, chat_id: i64) -> (r: bool)
        ensures
            r == (self.active_open_request matches Some((_, c)) && c == chat_id),
    {
        match self.active_open_request {
            Some((_, active_chat_id)) => active_chat_id == chat_id,
            None => false,
        }
    }

    /// Abandons the load on its way: its result will no longer be the latest, and no
    /// conversation is being opened.
    pub fn cancel_open_request(&mut self)
        ensures
            final(self).latest_request_id == next_request_id(old(self).latest_request_id),
            final(self).active_open_request is None,
    {
        self.latest_request_id = bump_request_id(self.latest_request_id);
        self.active_open_request = None;
    }

    /// The result of `request_id` arrived: when it is the open load, no load is open any
    /// more and `true` is returned; otherwise nothing changes.
    pub fn finish_open_request(&mut self, request_id: u64) -> (finished: bool)
        ensures
            finished == (old(self).active_open_request matches Some((id, _)) && id == request_id),
            finished ==> *final(self) == (ChatLoadRequests { active_open_request: None, ..*old(self) }),
            !finished ==> *final(self) == *old(self),
    {
        match self.active_open_request {
            Some((active_request_id, _)) => {
                if active_request_id == request_id {
                    self.active_open_request = None;
                    true
                } else {
                    false
                }
            },
            None => false,
        }
    }

    /// Starts the load of the newest messages across a gap of this generation (of the
    /// topic's thread when a topic is open), and returns its request id.
    pub fn begin_newer_gap_refresh(&mut self, chat_id: i64, generation: u64) -> (request_id: u64)
        ensures
            final(self).latest_request_id == next_request_id(old(self).latest_request_id),
            request_id == final(self).latest_request_id,
            final(self).active_open_request is None,
    {
        self.begin(chat_id, ChatMessageLoadPurpose::RefreshNewerGap { generation })
    }
}

/// Request ids of folder loads, and the folder load on its way.
#[derive(Debug, Clone, Copy, PartialEq, Eq, Structural)]
pub struct FolderLoadRequests {
    pub latest_request_id: u64,
    pub active_request_id: Option<u64>,
}

impl FolderLoadRequests {
    pub fn new() -> (r: FolderLoadRequests)
        ensures
            r.latest_request_id == 0,
            r.active_request_id is None,
    {
        FolderLoadRequests { latest_request_id: 0, active_request_id: None }
    }

    /// Starts a folder load: the next id becomes the latest and the one on its way.
    pub fn begin(&mut self) -> (request_id: u64)
        ensures
            final(self).latest_request_id == next_request_id(old(self).latest_request_id),
            request_id == final(self).latest_request_id,
            final(self).active_request_id == Some(request_id),
    {
        self.latest_request_id = bump_request_id(self.latest_request_id);
        self.active_request_id = Some(self.latest_request_id);
        self.latest_request_id
    }

    pub fn has_active_request(&self) -> (r: bool)
        ensures
            r == self.active_request_id is Some,
    {
        self.active_request_id.is_some()
    }

    /// Abandons the folder load on its way.
    pub fn cancel_request(&mut self)
        ensures
            final(self).latest_request_id == next_request_id(old(self).latest_request_id),
            final(self).active_request_id is None,
    {
        self.latest_request_id = bump_request_id(self.latest_request_id);
        self.active_request_id = None;
    }

    /// The result of `request_id` arrived: when it is the load on its way, none is any
    /// more and `true` is returned; otherwise nothing changes.
    pub fn finish_request(&mut self, request_id: u64) -> (finished: bool)
        ensures
            finished == (old(self).active_request_id == Some(request_id)),
            finished ==> *final(self) == (FolderLoadRequests { active_request_id: None, ..*old(self) }),
            !finished ==> *final(self) == *old(self),
    {
        match self.active_request_id {
            Some(id) => {
                if id == request_id {
                    self.active_request_id = None;
                    true
                } else {
                    false
                }
            },
            None => false,
        }
    }
}

/// Whether the selected conversation is still loading: a folder load is on its way, or
/// the selected chat is being opened.
pub open spec fn conversation_load_active_spec(app: App, chats: ChatLoadRequests, folders: FolderLoadRequests) -> bool {
    folders.active_request_id is Some || (app.state.selected_chat_id_spec() matches Some(id)
        && chats.active_open_request matches Some((_, c)) && c == id)
}

pub fn selected_conversation_load_active(app: &App, chats: &ChatLoadRequests, folders: &FolderLoadRequests) -> (r: bool)
    ensures
        r == conversation_load_active_spec(*app, *chats, *folders),
{
    if folders.has_active_request() {
        return true;
    }
    match app.state.selected_chat_id() {
        Some(chat_id) => chats.has_active_open_for(chat_id),
        None => false,
    }
}

/// What asking for the preview of a message did: nothing (it is the one last asked for),
/// dropped the preview being loaded (no message asked for), or started the load with
/// this request id.
#[derive(Debug, Clone, Copy, PartialEq, Eq, Structural)]
pub enum PreviewRequest {
    Unchanged,
    Cancelled,
    Started { request_id: u64, chat_id: i64, message_id: i32 },
}

/// Request ids of media previews and the message last asked for.
#[derive(Debug, Clone, Copy, PartialEq, Eq)]
pub struct PreviewRequests {
    pub latest_request_id: u64,
    pub last_requested: Option<(i64, i32)>,
}

impl PreviewRequests {
    pub fn new() -> (r: PreviewRequests)
        ensures
            r.latest_request_id == 0,
            r.last_requested is None,
    {
        PreviewRequests { latest_request_id: 0, last_requested: None }
    }

    /// Asks for the preview of `request` (chat and message id), or for none. Asking again
    /// for the message last asked for changes nothing; otherwise it becomes the last one
    /// asked for, and a message gets a new request id.
    pub fn request(&mut self, request: Option<(i64, i32)>) -> (r: PreviewRequest)
        ensures
            old(self).last_requested == request ==> r == PreviewRequest::Unchanged && *final(self) == *old(self),
            old(self).last_requested != request ==> final(self).last_requested == request && match request {
                None => r == PreviewRequest::Cancelled && final(self).latest_request_id == old(self).latest_request_id,
                Some((chat_id, message_id)) => {
                    &&& final(self).latest_request_id == next_request_id(old(self).latest_request_id)
                    &&& r == (PreviewRequest::Started { request_id: final(self).latest_request_id, chat_id, message_id })
                },
            },
    {
        let same = match (self.last_requested, request) {
            (Some((c1, m1)), Some((c2, m2))) => c1 == c2 && m1 == m2,
            (None, None) => true,
            _ => false,
        };
        if same {
            return PreviewRequest::Unchanged;
        }
        self.last_requested = request;
        match request {
            None => PreviewRequest::Cancelled,
            Some((chat_id, message_id)) => {
                self.latest_request_id = bump_request_id(self.latest_request_id);
                PreviewRequest::Started { request_id: self.latest_request_id, chat_id, message_id }
            },
        }
    }
}

} // verus!
