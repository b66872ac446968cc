//! Saved media and previews: where each message's media was saved, recording a finished
//! download, opening the saved file of the selected message, and attaching a fetched
//! photo preview to the selected message.

use crate::app::App;
use crate::session::{
    status_reported, DOWNLOADED_MEDIA_OPENED_STATUS, MEDIA_DOWNLOADED_STATUS, NO_DOWNLOADED_MEDIA_STATUS,
    OPEN_DOWNLOADED_MEDIA_FAILED_PREFIX,
};
use crate::state::{AppState, DownloadRecord};
use crate::types::{Message, MessageMedia, MessageMediaKind};
use crate::text::concat;
use vstd::prelude::*;

verus! {

/// The first of `records[k..]` for this message.
pub open spec fn record_position(records: Seq<DownloadRecord>, chat_id: i64, message_id: i32, k: int) -> Option<int>
    decreases records.len() - k,
{
    if k < 0 || k >= records.len() {
        None
    } else if records[k].chat_id == chat_id && records[k].message_id == message_id {
        Some(k)
    } else {
        record_position(records, chat_id, message_id, k + 1)
    }
}

/// Where the media of this message was saved, if it was.
pub open spec fn download_path_spec(records: Seq<DownloadRecord>, chat_id: i64, message_id: i32) -> Option<Seq<char>> {
    match record_position(records, chat_id, message_id, 0) {
        Some(i) => Some(records[i].path@),
        None => None,
    }
}

pub proof fn lemma_record_position_range(records: Seq<DownloadRecord>, chat_id: i64, message_id: i32, k: int)
    ensures
        record_position(records, chat_id, message_id, k) matches Some(i) ==> k <= i < records.len()
            && records[i].chat_id == chat_id && records[i].message_id == message_id
            && forall|j: int| k <= j < i ==> !(#[trigger] records[j].chat_id == chat_id && records[j].message_id == message_id),
        k >= 0 && record_position(records, chat_id, message_id, k) is None ==> forall|j: int|
            k <= j < records.len() ==> !(#[trigger] records[j].chat_id == chat_id && records[j].message_id == message_id),
    decreases records.len() - k,
{
    if 0 <= k < records.len() && !(records[k].chat_id == chat_id && records[k].message_id == message_id) {
        lemma_record_position_range(records, chat_id, message_id, k + 1);
    }
}

proof fn lemma_record_position_first(records: Seq<DownloadRecord>, chat_id: i64, message_id: i32, k: int, i: int)
    requires
        0 <= k <= i < records.len(),
        records[i].chat_id == chat_id && records[i].message_id == message_id,
        forall|j: int| k <= j < i ==> !(#[trigger] records[j].chat_id == chat_id && records[j].message_id == message_id),
    ensures
        record_position(records, chat_id, message_id, k) == Some(i),
    decreases i - k,
{
    if k < i {
        lemma_record_position_first(records, chat_id, message_id, k + 1, i);
    }
}

/// The records after saving this message's media at `path`: its record takes the new path,
/// or a record is added for it.
pub open spec fn recorded(records: Seq<DownloadRecord>, chat_id: i64, message_id: i32, path: String) -> Seq<DownloadRecord> {
    match record_position(records, chat_id, message_id, 0) {
        Some(i) => records.update(i, DownloadRecord { chat_id, message_id, path }),
        None => records.push(DownloadRecord { chat_id, message_id, path }),
    }
}

/// What a recorded download gives back: the file just saved for that message, and for
/// every other message what was there before.
pub proof fn lemma_recorded_download_is_found(records: Seq<DownloadRecord>, chat_id: i64, message_id: i32, path: String, other_chat: i64, other_message: i32)
    ensures
        download_path_spec(recorded(records, chat_id, message_id, path), chat_id, message_id) == Some(path@),
        !(other_chat == chat_id && other_message == message_id) ==> download_path_spec(
            recorded(records, chat_id, message_id, path),
            other_chat,
            other_message,
        ) == download_path_spec(records, other_chat, other_message),
{
    let new = recorded(records, chat_id, message_id, path);
    lemma_record_position_range(records, chat_id, message_id, 0);
    lemma_record_position_range(records, other_chat, other_message, 0);
    match record_position(records, chat_id, message_id, 0) {
        Some(i) => {
            assert forall|j: int| 0 <= j < i implies !(#[trigger] new[j].chat_id == chat_id && new[j].message_id == message_id) by {
                assert(new[j] == records[j]);
            }
            lemma_record_position_first(new, chat_id, message_id, 0, i);
        },
        None => {
            lemma_record_position_first(new, chat_id, message_id, 0, records.len() as int);
        },
    }
    if !(other_chat == chat_id && other_message == message_id) {
        lemma_record_position_range(new, other_chat, other_message, 0);
        match record_position(records, other_chat, other_message, 0) {
            Some(o) => {
                assert forall|j: int| 0 <= j < o implies !(#[trigger] new[j].chat_id == other_chat && new[j].message_id == other_message) by {
                    if j < records.len() && new[j] != records[j] {
                        assert(new[j].chat_id == chat_id && new[j].message_id == message_id);
                    }
                }
                lemma_record_position_first(new, other_chat, other_message, 0, o);
            },
            None => {
                match record_position(new, other_chat, other_message, 0) {
                    Some(o) => {
                        if o < records.len() {
                            assert(records[o].chat_id == other_chat && records[o].message_id == other_message);
                        }
                    },
                    None => {},
                }
            },
        }
    }
}

/// A finished media download: the saved file and its size in bytes.
#[derive(Debug, Clone)]
pub struct DownloadedMedia {
    pub path: String,
    pub bytes: u64,
}

/// The outcome of downloading a message's media.
#[derive(Debug)]
pub struct DownloadMediaResult {
    pub chat_id: i64,
    pub message_id: i32,
    pub result: Result<DownloadedMedia, String>,
}

impl AppState {
    /// Where the media of this message was saved.
    pub fn downloaded_media_path(&self, chat_id: i64, message_id: i32) -> (r: Option<String>)
        ensures
            match r {
                Some(p) => download_path_spec(self.downloaded_media@, chat_id, message_id) == Some(p@),
                None => download_path_spec(self.downloaded_media@, chat_id, message_id) is None,
            },
    {
        match self.download_record_index(chat_id, message_id) {
            Some(i) => {
                proof {
                    lemma_record_position_range(self.downloaded_media@, chat_id, message_id, 0);
                }
                Some(self.downloaded_media[i].path.clone())
            },
            None => None,
        }
    }

    fn download_record_index(&self, chat_id: i64, message_id: i32) -> (r: Option<usize>)
        ensures
            match r {
                Some(i) => record_position(self.downloaded_media@, chat_id, message_id, 0) == Some(i as int),
                None => record_position(self.downloaded_media@, chat_id, message_id, 0) is None,
            },
    {
        let mut k: usize = 0;
        while k < self.downloaded_media.len()
            invariant
                k <= self.downloaded_media@.len(),
                record_position(self.downloaded_media@, chat_id, message_id, 0)
                    == record_position(self.downloaded_media@, chat_id, message_id, k as int),
            decreases self.downloaded_media.len() - k,
        {
            if self.downloaded_media[k].chat_id == chat_id && self.downloaded_media[k].message_id == message_id {
                return Some(k);
            }
            k += 1;
        }
        None
    }

    /// Records that the media of this message was saved at `path` (see `recorded`).
    pub fn record_downloaded_media(&mut self, chat_id: i64, message_id: i32, path: String)
        ensures
            old(self).wf() ==> final(self).wf(),
            final(self).downloaded_media@ == recorded(old(self).downloaded_media@, chat_id, message_id, path),
            *final(self) == (AppState { downloaded_media: final(self).downloaded_media, ..*old(self) }),
    {
        let record = DownloadRecord { chat_id, message_id, path };
        match self.download_record_index(chat_id, message_id) {
            Some(i) => {
                proof {
                    lemma_record_position_range(self.downloaded_media@, chat_id, message_id, 0);
                }
                self.downloaded_media.set(i, record);
            },
            None => self.downloaded_media.push(record),
        }
    }

    /// Where the media of the selected message was saved.
    pub open spec fn selected_download_path_spec(&self) -> Option<Seq<char>> {
        match self.selected_message_spec() {
            Some(m) => download_path_spec(self.downloaded_media@, m.chat_id, m.id),
            None => None,
        }
    }

    pub fn selected_message_download_path(&self) -> (r: Option<String>)
        ensures
            match r {
                Some(p) => self.selected_download_path_spec() == Some(p@),
                None => self.selected_download_path_spec() is None,
            },
    {
        match self.selected_message() {
            Some(m) => self.downloaded_media_path(m.chat_id, m.id),
            None => None,
        }
    }
}

/// Shows the outcome of a media download: the saved file is recorded and
/// `MEDIA_DOWNLOADED_STATUS` reported, or the error is shown.
pub fn apply_download_media_result(app: &mut App, download: DownloadMediaResult)
    ensures
        old(app).state.wf() ==> final(app).state.wf(),
        final(app).should_quit == old(app).should_quit,
        final(app).preferences_path == old(app).preferences_path,
        match download.result {
            Ok(saved) => {
                let with_record = AppState {
                    downloaded_media: final(app).state.downloaded_media,
                    ..old(app).state
                };
                &&& final(app).state.downloaded_media@ == recorded(
                    old(app).state.downloaded_media@,
                    download.chat_id,
                    download.message_id,
                    saved.path,
                )
                &&& status_reported(with_record, final(app).state, MEDIA_DOWNLOADED_STATUS@)
            },
            Err(e) => final(app).state == (AppState { status_message: None, error_message: Some(e), ..old(app).state }),
        },
{
    match download.result {
        Ok(saved) => {
            app.state.record_downloaded_media(download.chat_id, download.message_id, saved.path);
            app.state.set_status(MEDIA_DOWNLOADED_STATUS);
        },
        Err(error) => app.state.set_error(error),
    }
}

/// The saved file of the selected message, to open; without one the lack of it is
/// reported.
pub fn open_selected_downloaded_media(app: &mut App) -> (path: Option<String>)
    ensures
        old(app).state.wf() ==> final(app).state.wf(),
        final(app).should_quit == old(app).should_quit,
        final(app).preferences_path == old(app).preferences_path,
        match path {
            Some(p) => old(app).state.selected_download_path_spec() == Some(p@) && final(app).state == old(app).state,
            None => old(app).state.selected_download_path_spec() is None
                && status_reported(old(app).state, final(app).state, NO_DOWNLOADED_MEDIA_STATUS@),
        },
{
    let path = app.state.selected_message_download_path();
    if path.is_none() {
        app.state.set_status(NO_DOWNLOADED_MEDIA_STATUS);
    }
    path
}

/// Reports how opening a saved file went: `DOWNLOADED_MEDIA_OPENED_STATUS`, or
/// `Open downloaded media failed: <error>`.
pub fn apply_downloaded_media_open_result(app: &mut App, result: Result<(), String>)
    ensures
        old(app).state.wf() ==> final(app).state.wf(),
        final(app).should_quit == old(app).should_quit,
        final(app).preferences_path == old(app).preferences_path,
        match result {
            Ok(_) => status_reported(old(app).state, final(app).state, DOWNLOADED_MEDIA_OPENED_STATUS@),
            Err(e) => {
                &&& final(app).state.error_message is Some
                &&& final(app).state.error_message->0@ == OPEN_DOWNLOADED_MEDIA_FAILED_PREFIX@ + ": "@ + e@
                &&& final(app).state == (AppState {
                    status_message: None,
                    error_message: final(app).state.error_message,
                    ..old(app).state
                })
            },
        },
{
    match result {
        Ok(_) => app.state.set_status(DOWNLOADED_MEDIA_OPENED_STATUS),
        Err(error) => {
            let prefix = concat(OPEN_DOWNLOADED_MEDIA_FAILED_PREFIX, ": ");
            app.state.set_error(concat(prefix.as_str(), error.as_str()));
        },
    }
}

/// The preview the selected message wants: its chat and id when it is a photo whose
/// preview was not fetched yet.
pub open spec fn preview_request_spec(s: AppState) -> Option<(i64, i32)> {
    match s.selected_message_spec() {
        Some(m) => match m.media {
            Some(media) => if media.kind == MessageMediaKind::Photo && media.local_path is None {
                Some((m.chat_id, m.id))
            } else {
                None
            },
            None => None,
        },
        None => None,
    }
}

/// A fetched preview as the event loop receives it: the request it answers, the message
/// it is for, and the file (none when the message has no preview).
#[derive(Debug)]
pub struct MediaPreviewResult {
    pub request_id: u64,
    pub chat_id: i64,
    pub message_id: i32,
    pub result: Result<Option<String>, String>,
}

/// `m` with its media showing the preview file `path`.
pub open spec fn with_preview(m: Message, path: String) -> Message {
    match m.media {
        Some(media) => Message { media: Some(MessageMedia { local_path: Some(path), ..media }), ..m },
        None => m,
    }
}

impl AppState {
    /// The preview the selected message wants (see `preview_request_spec`).
    pub fn selected_media_preview_request(&self) -> (r: Option<(i64, i32)>)
        ensures
            r == preview_request_spec(*self),
    {
        match self.selected_message() {
            Some(m) => match &m.media {
                Some(media) => {
                    let is_photo = match media.kind {
                        MessageMediaKind::Photo => true,
                        _ => false,
                    };
                    if is_photo && media.local_path.is_none() {
                        Some((m.chat_id, m.id))
                    } else {
                        None
                    }
                },
                None => None,
            },
            None => None,
        }
    }

    /// Attaches the preview file `path` to the selected message when it is this message
    /// and has media; reports whether it did.
    pub fn apply_selected_media_preview(&mut self, chat_id: i64, message_id: i32, path: String) -> (applied: bool)
        ensures
            old(self).wf() ==> final(self).wf(),
            applied == (old(self).selected_message_spec() matches Some(m) && m.chat_id == chat_id && m.id == message_id
                && m.media is Some),
            applied ==> *final(self) == (AppState {
                messages: final(self).messages,
                ..*old(self)
            }) && final(self).messages@ == old(self).messages@.update(
                old(self).selected_message_index as int,
                with_preview(old(self).messages@[old(self).selected_message_index as int], path),
            ),
            !applied ==> *final(self) == *old(self),
    {
        let i = self.selected_message_index;
        if i >= self.messages.len() {
            return false;
        }
        let m = &self.messages[i];
        if m.chat_id != chat_id || m.id != message_id {
            return false;
        }
        let kind = match &m.media {
            Some(media) => media.kind,
            None => return false,
        };
        let mut updated = m.copy();
        updated.media = Some(MessageMedia { kind, local_path: Some(path) });
        self.messages.set(i, updated);
        true
    }
}

/// Attaches a fetched preview when it answers the latest request and is still the preview
/// the selected message wants; reports whether the message changed. A stale result, a
/// message without preview, or a failed fetch changes nothing and shows no error.
pub fn apply_media_preview_result(app: &mut App, latest_request_id: u64, preview: MediaPreviewResult) -> (applied: bool)
    ensures
        old(app).state.wf() ==> final(app).state.wf(),
        final(app).should_quit == old(app).should_quit,
        final(app).preferences_path == old(app).preferences_path,
        applied <==> (preview.request_id == latest_request_id
            && preview_request_spec(old(app).state) == Some((preview.chat_id, preview.message_id))
            && preview.result matches Ok(Some(_))),
        applied ==> final(app).state == (AppState { messages: final(app).state.messages, ..old(app).state })
            && final(app).state.messages@ == old(app).state.messages@.update(
                old(app).state.selected_message_index as int,
                with_preview(old(app).state.messages@[old(app).state.selected_message_index as int], preview.result->Ok_0->0),
            ),
        !applied ==> final(app).state == old(app).state,
{
    if preview.request_id != latest_request_id {
        return false;
    }
    match app.state.selected_media_preview_request() {
        Some((chat_id, message_id)) => {
            if chat_id != preview.chat_id || message_id != preview.message_id {
                return false;
            }
        },
        None => return false,
    }
    match preview.result {
        Ok(Some(path)) => app.state.apply_selected_media_preview(preview.chat_id, preview.message_id, path),
        _ => false,
    }
}

} // verus!
