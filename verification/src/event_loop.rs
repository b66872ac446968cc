//! The event loop's own decisions: which terminal events it acts on, when a frame is
//! due, and when Telegram state is reconciled or the update subscription retried.
//!
//! Times are milliseconds on the loop's monotonic clock.

use crate::app::App;
use crate::keys::{KeyCode, KeyEvent};
use crate::mouse_events::MouseEvent;
use crate::session::{represented_by_reconciliation_spec, update_represented_by_reconciliation, TELEGRAM_UPDATES_DISCONNECTED_ERROR};
use crate::state::AppState;
use crate::types::Update;
use std::collections::HashMap;
use vstd::prelude::*;

verus! {

/// Shortest time between two drawn frames.
pub const MIN_FRAME_INTERVAL_MS: u64 = 16;
/// How long after a successful reconciliation the next one is due.
pub const RECONCILIATION_INTERVAL_MS: u64 = 300000;
/// How long after a failed reconciliation it is tried again.
pub const RECONCILIATION_RETRY_DELAY_MS: u64 = 10000;
/// How old the last reconciliation may be before regaining focus reconciles again.
pub const RECONCILIATION_FOCUS_STALE_AFTER_MS: u64 = 30000;
/// How long after the update stream closed the subscription is retried.
pub const UPDATE_SUBSCRIPTION_RETRY_DELAY_MS: u64 = 5000;

// ----- terminal events -----

/// Whether a key was pressed, held or released.
#[derive(Debug, Clone, Copy, PartialEq, Eq, Structural)]
pub enum KeyEventKind {
    Press,
    Repeat,
    Release,
}

/// What the terminal reports.
#[derive(Debug, Clone)]
pub enum TerminalEvent {
    Key(KeyEvent, KeyEventKind),
    Mouse(MouseEvent),
    Resize(u16, u16),
    FocusGained,
    FocusLost,
    Paste(String),
}

/// A terminal event waiting for the next loop step is dropped, not handled, while a send
/// or reply is held back until the newest messages are loaded, and an Enter is dropped
/// while a reply is on its way.
pub open spec fn staged_event_blocked_spec(state: AppState, staged: Option<TerminalEvent>) -> bool {
    (state.gap_submit is Some && staged is Some) || (state.reply_submission is Some
        && (staged matches Some(TerminalEvent::Key(key, _)) && key.code == KeyCode::Enter))
}

/// Whether the staged terminal event is dropped (see `staged_event_blocked_spec`).
pub fn staged_event_blocked(state: &AppState, staged: &Option<TerminalEvent>) -> (r: bool)
    ensures
        r == staged_event_blocked_spec(*state, *staged),
{
    let enter = match staged {
        Some(TerminalEvent::Key(key, _)) => match key.code {
            KeyCode::Enter => true,
            _ => false,
        },
        _ => false,
    };
    (state.gap_submit_pending() && staged.is_some()) || (state.reply_submission_pending() && enter)
}

/// A loop step ready to run: whether to redraw, and the terminal event to handle.
#[derive(Debug)]
pub struct PreparedLoopStep {
    pub dirty: bool,
    pub terminal_event: Option<TerminalEvent>,
}

/// Ends the preparation of a loop step. The staged event leaves its slot: it is dropped
/// when `blocked` (see `staged_event_blocked`, decided before the ready results were
/// taken), else it is the event to handle. The step redraws when a notification expired,
/// when the ready results changed something, or when an event was dropped.
pub fn finish_loop_step(
    staged: &mut Option<TerminalEvent>,
    blocked: bool,
    results_dirty: bool,
    notification_expired: bool,
) -> (r: PreparedLoopStep)
    ensures
        *final(staged) is None,
        r.terminal_event == if blocked { None } else { *old(staged) },
        r.dirty == (notification_expired || results_dirty || blocked),
{
    let event = staged.take();
    PreparedLoopStep {
        dirty: notification_expired || results_dirty || blocked,
        terminal_event: if blocked { None } else { event },
    }
}

/// The work the loop takes in one step, in the order it takes it: the update
/// subscription, the first load, reconciliations, the updates held back for a
/// conversation load once it is over, the staged update, newly pushed updates, then the
/// results of conversation, older-message and folder loads, of sends, deletions, edits
/// and replies, of downloads and of previews.
#[derive(Debug, Clone, Copy, PartialEq, Eq, Structural)]
pub enum DrainStep {
    Subscription,
    InitialState,
    Reconciliation,
    ConversationUpdates,
    StagedUpdate,
    QueuedUpdates,
    ChatMessages,
    OlderMessages,
    FolderChats,
    SentMessages,
    DeletedMessages,
    EditedMessages,
    Replies,
    Downloads,
    Previews,
}

/// Which work is waiting for the loop.
#[derive(Debug, Clone, Copy, PartialEq, Eq, Structural)]
pub struct ReadyWork {
    pub subscription: bool,
    pub initial_state: bool,
    pub reconciliation: bool,
    pub conversation_updates: bool,
    pub staged_update: bool,
    pub queued_updates: bool,
    pub chat_messages: bool,
    pub older_messages: bool,
    pub folder_chats: bool,
    pub sent_messages: bool,
    pub deleted_messages: bool,
    pub edited_messages: bool,
    pub replies: bool,
    pub downloads: bool,
    pub previews: bool,
}

/// The first waiting work in the order of `DrainStep`; none when nothing waits.
pub open spec fn next_drain_step_spec(w: ReadyWork) -> Option<DrainStep> {
    if w.subscription {
        Some(DrainStep::Subscription)
    } else if w.initial_state {
        Some(DrainStep::InitialState)
    } else if w.reconciliation {
        Some(DrainStep::Reconciliation)
    } else if w.conversation_updates {
        Some(DrainStep::ConversationUpdates)
    } else if w.staged_update {
        Some(DrainStep::StagedUpdate)
    } else if w.queued_updates {
        Some(DrainStep::QueuedUpdates)
    } else if w.chat_messages {
        Some(DrainStep::ChatMessages)
    } else if w.older_messages {
        Some(DrainStep::OlderMessages)
    } else if w.folder_chats {
        Some(DrainStep::FolderChats)
    } else if w.sent_messages {
        Some(DrainStep::SentMessages)
    } else if w.deleted_messages {
        Some(DrainStep::DeletedMessages)
    } else if w.edited_messages {
        Some(DrainStep::EditedMessages)
    } else if w.replies {
        Some(DrainStep::Replies)
    } else if w.downloads {
        Some(DrainStep::Downloads)
    } else if w.previews {
        Some(DrainStep::Previews)
    } else {
        None
    }
}

/// The work the loop takes next (see `next_drain_step_spec`).
pub fn next_drain_step(w: ReadyWork) -> (r: Option<DrainStep>)
    ensures
        r == next_drain_step_spec(w),
{
    if w.subscription {
        Some(DrainStep::Subscription)
    } else if w.initial_state {
        Some(DrainStep::InitialState)
    } else if w.reconciliation {
        Some(DrainStep::Reconciliation)
    } else if w.conversation_updates {
        Some(DrainStep::ConversationUpdates)
    } else if w.staged_update {
        Some(DrainStep::StagedUpdate)
    } else if w.queued_updates {
        Some(DrainStep::QueuedUpdates)
    } else if w.chat_messages {
        Some(DrainStep::ChatMessages)
    } else if w.older_messages {
        Some(DrainStep::OlderMessages)
    } else if w.folder_chats {
        Some(DrainStep::FolderChats)
    } else if w.sent_messages {
        Some(DrainStep::SentMessages)
    } else if w.deleted_messages {
        Some(DrainStep::DeletedMessages)
    } else if w.edited_messages {
        Some(DrainStep::EditedMessages)
    } else if w.replies {
        Some(DrainStep::Replies)
    } else if w.downloads {
        Some(DrainStep::Downloads)
    } else if w.previews {
        Some(DrainStep::Previews)
    } else {
        None
    }
}

/// What the loop does with a terminal event.
#[derive(Debug, Clone, Copy, PartialEq, Eq, Structural)]
pub enum TerminalAction {
    Key(KeyEvent),
    Mouse(MouseEvent),
    Resize,
    FocusLost,
    FocusGained,
    Ignore,
}

pub open spec fn classify_spec(event: TerminalEvent) -> TerminalAction {
    match event {
        TerminalEvent::Key(key, kind) => if kind == KeyEventKind::Press {
            TerminalAction::Key(key)
        } else {
            TerminalAction::Ignore
        },
        TerminalEvent::Mouse(mouse) => TerminalAction::Mouse(mouse),
        TerminalEvent::Resize(_, _) => TerminalAction::Resize,
        TerminalEvent::FocusLost => TerminalAction::FocusLost,
        TerminalEvent::FocusGained => TerminalAction::FocusGained,
        TerminalEvent::Paste(_) => TerminalAction::Ignore,
    }
}

/// Key presses and mouse events are acted on, resizes and focus changes noted; key
/// repeats and releases and pasted text are ignored.
pub fn classify_terminal_event(event: TerminalEvent) -> (action: TerminalAction)
    ensures
        action == classify_spec(event),
{
    match event {
        TerminalEvent::Key(key, kind) => if kind == KeyEventKind::Press {
            TerminalAction::Key(key)
        } else {
            TerminalAction::Ignore
        },
        TerminalEvent::Mouse(mouse) => TerminalAction::Mouse(mouse),
        TerminalEvent::Resize(_, _) => TerminalAction::Resize,
        TerminalEvent::FocusLost => TerminalAction::FocusLost,
        TerminalEvent::FocusGained => TerminalAction::FocusGained,
        TerminalEvent::Paste(_) => TerminalAction::Ignore,
    }
}

// ----- frames -----

/// Whether a frame is owed, since when, and when the last one was drawn.
#[derive(Debug, Clone, Copy, PartialEq, Eq, Structural)]
pub struct FrameScheduler {
    pub dirty: bool,
    pub dirty_since: Option<u64>,
    pub last_draw_at: Option<u64>,
}

/// `now` minus `since`, or 0 when `since` is later.
pub open spec fn elapsed(since: u64, now: u64) -> u64 {
    if now >= since {
        (now - since) as u64
    } else {
        0
    }
}

impl FrameScheduler {
    /// A scheduler that owes a frame (since `now`) or not.
    pub fn new(dirty: bool, now: u64) -> (s: FrameScheduler)
        ensures
            s == (FrameScheduler { dirty, dirty_since: if dirty { Some(now) } else { None }, last_draw_at: None }),
    {
        FrameScheduler { dirty, dirty_since: if dirty { Some(now) } else { None }, last_draw_at: None }
    }

    /// Something changed: a frame is owed, since `now` unless one was owed already.
    pub fn mark_dirty(&mut self, now: u64)
        ensures
            *final(self) == (FrameScheduler {
                dirty: true,
                dirty_since: if old(self).dirty { old(self).dirty_since } else { Some(now) },
                ..*old(self)
            }),
    {
        if !self.dirty {
            self.dirty_since = Some(now);
        }
        self.dirty = true;
    }

    /// When the owed frame may be drawn: at once before the first frame, otherwise the
    /// frame interval after the last one; none when no frame is owed.
    pub fn frame_deadline(&self, now: u64) -> (r: Option<u64>)
        requires
            self.last_draw_at matches Some(last) ==> last <= u64::MAX - MIN_FRAME_INTERVAL_MS,
        ensures
            r == (if !self.dirty {
                None
            } else {
                match self.last_draw_at {
                    Some(last) => Some((last + MIN_FRAME_INTERVAL_MS) as u64),
                    None => Some(now),
                }
            }),
    {
        if !self.dirty {
            return None;
        }
        match self.last_draw_at {
            Some(last) => Some(last + MIN_FRAME_INTERVAL_MS),
            None => Some(now),
        }
    }

    /// Whether a frame is due at `now`: owed, and not within the frame interval of the
    /// last one.
    pub open spec fn frame_due(&self, now: u64) -> bool {
        &&& self.dirty
        &&& (self.last_draw_at matches Some(last) ==> now >= last + MIN_FRAME_INTERVAL_MS)
    }

    /// Takes the due frame at `now`, if any, and returns how long it was owed.
    pub fn take_due_frame(&mut self, now: u64) -> (r: Option<u64>)
        ensures
            !old(self).frame_due(now) ==> r is None && *final(self) == *old(self),
            old(self).frame_due(now) ==> {
                &&& r == Some(match old(self).dirty_since {
                    Some(since) => elapsed(since, now),
                    None => 0u64,
                })
                &&& *final(self) == (FrameScheduler { dirty: false, dirty_since: None, last_draw_at: Some(now) })
            },
    {
        if !self.dirty {
            return None;
        }
        if let Some(last) = self.last_draw_at {
            if now < last || now - last < MIN_FRAME_INTERVAL_MS {
                return None;
            }
        }
        self.dirty = false;
        self.last_draw_at = Some(now);
        let waited = match self.dirty_since {
            Some(since) => if now >= since {
                now - since
            } else {
                0
            },
            None => 0,
        };
        self.dirty_since = None;
        Some(waited)
    }
}

/// Frames are never drawn closer together than the frame interval, and a drawn frame
/// settles what was owed: right after a frame is taken at `now`, none is due before
/// `now` plus the interval, and none at all until something changes again.
pub proof fn lemma_frames_are_rate_limited(s: FrameScheduler, now: u64, later: u64)
    requires
        s.frame_due(now),
    ensures
        ({
            let after = FrameScheduler { dirty: false, dirty_since: None, last_draw_at: Some(now) };
            &&& !after.frame_due(later)
            &&& ({
                let marked = FrameScheduler { dirty: true, dirty_since: Some(later), ..after };
                marked.frame_due(later) <==> later >= now + MIN_FRAME_INTERVAL_MS
            })
        }),
{
}

// ----- reconciliation and subscription -----

/// When the loop next reconciles Telegram state and retries its update subscription.
#[derive(Debug, Clone, Copy, PartialEq, Eq, Structural)]
pub struct LoopSchedule {
    pub initial_state_pending: bool,
    pub reconciliation_pending: bool,
    pub subscription_pending: bool,
    pub next_reconciliation_at: Option<u64>,
    pub last_reconciliation_success_at: Option<u64>,
    pub next_subscription_at: Option<u64>,
    pub announce_reconciliation_success: bool,
    pub reconciliation_requested_while_pending: bool,
}

/// The schedule after regaining focus at `now`: unchanged while the last reconciliation is
/// recent; else the result will be announced, and a reconciliation runs at once, or right
/// after the one (or the initial load) still pending.
pub open spec fn focus_reconciliation_scheduled(old: LoopSchedule, now: u64) -> LoopSchedule {
    if !old.reconciliation_stale(now) {
        old
    } else if old.reconciliation_pending || old.initial_state_pending {
        LoopSchedule { announce_reconciliation_success: true, reconciliation_requested_while_pending: true, ..old }
    } else {
        LoopSchedule {
            announce_reconciliation_success: true,
            next_reconciliation_at: Some(earliest(old.next_reconciliation_at, now)),
            ..old
        }
    }
}

/// The earlier of a present deadline and `deadline`.
pub open spec fn earliest(current: Option<u64>, deadline: u64) -> u64 {
    match current {
        Some(c) => if c < deadline {
            c
        } else {
            deadline
        },
        None => deadline,
    }
}

impl LoopSchedule {
    /// The schedule of a loop that starts: the first load and the subscription are on
    /// their way, nothing else is scheduled.
    pub fn new() -> (s: LoopSchedule)
        ensures
            s == (LoopSchedule {
                initial_state_pending: true,
                reconciliation_pending: false,
                subscription_pending: true,
                next_reconciliation_at: None,
                last_reconciliation_success_at: None,
                next_subscription_at: None,
                announce_reconciliation_success: false,
                reconciliation_requested_while_pending: false,
            }),
    {
        LoopSchedule {
            initial_state_pending: true,
            reconciliation_pending: false,
            subscription_pending: true,
            next_reconciliation_at: None,
            last_reconciliation_success_at: None,
            next_subscription_at: None,
            announce_reconciliation_success: false,
            reconciliation_requested_while_pending: false,
        }
    }

    /// Asks for a reconciliation by `deadline`. While one (or the first load) is on its
    /// way the request is remembered instead; otherwise the earlier deadline stands.
    pub fn schedule_reconciliation_at(&mut self, deadline: u64)
        ensures
            old(self).reconciliation_pending || old(self).initial_state_pending ==> *final(self) == (LoopSchedule {
                reconciliation_requested_while_pending: true,
                ..*old(self)
            }),
            !(old(self).reconciliation_pending || old(self).initial_state_pending) ==> *final(self) == (LoopSchedule {
                next_reconciliation_at: Some(earliest(old(self).next_reconciliation_at, deadline)),
                ..*old(self)
            }),
    {
        if self.reconciliation_pending || self.initial_state_pending {
            self.reconciliation_requested_while_pending = true;
            return;
        }
        self.next_reconciliation_at = Some(match self.next_reconciliation_at {
            Some(current) => if current < deadline {
                current
            } else {
                deadline
            },
            None => deadline,
        });
    }

    /// A reconciliation finished: the next one is due at once when one was asked for
    /// meanwhile, else at `default_deadline`. Returns whether one was asked for.
    pub fn finish_reconciliation_gate(&mut self, now: u64, default_deadline: u64) -> (follow_up: bool)
        ensures
            follow_up == old(self).reconciliation_requested_while_pending,
            *final(self) == (LoopSchedule {
                reconciliation_requested_while_pending: false,
                next_reconciliation_at: Some(if follow_up { now } else { default_deadline }),
                ..*old(self)
            }),
    {
        let follow_up_requested = self.reconciliation_requested_while_pending;
        self.reconciliation_requested_while_pending = false;
        self.next_reconciliation_at = Some(if follow_up_requested { now } else { default_deadline });
        follow_up_requested
    }

    pub fn schedule_reconciliation_now(&mut self, now: u64)
        ensures
            old(self).reconciliation_pending || old(self).initial_state_pending ==> *final(self) == (LoopSchedule {
                reconciliation_requested_while_pending: true,
                ..*old(self)
            }),
            !(old(self).reconciliation_pending || old(self).initial_state_pending) ==> *final(self) == (LoopSchedule {
                next_reconciliation_at: Some(earliest(old(self).next_reconciliation_at, now)),
                ..*old(self)
            }),
    {
        self.schedule_reconciliation_at(now);
    }

    /// After the update stream closed: retry the subscription after the retry delay,
    /// unless a subscription is already on its way or an earlier retry is set.
    pub fn schedule_subscription_retry(&mut self, now: u64)
        requires
            now <= u64::MAX - UPDATE_SUBSCRIPTION_RETRY_DELAY_MS,
        ensures
            old(self).subscription_pending ==> *final(self) == *old(self),
            !old(self).subscription_pending ==> *final(self) == (LoopSchedule {
                next_subscription_at: Some(earliest(old(self).next_subscription_at, (now + UPDATE_SUBSCRIPTION_RETRY_DELAY_MS) as u64)),
                ..*old(self)
            }),
    {
        if self.subscription_pending {
            return;
        }
        let deadline = now + UPDATE_SUBSCRIPTION_RETRY_DELAY_MS;
        self.next_subscription_at = Some(match self.next_subscription_at {
            Some(current) => if current < deadline {
                current
            } else {
                deadline
            },
            None => deadline,
        });
    }

    /// Whether the last successful reconciliation is missing or older than the focus
    /// staleness limit at `now`.
    pub open spec fn reconciliation_stale(&self, now: u64) -> bool {
        match self.last_reconciliation_success_at {
            Some(last) => elapsed(last, now) >= RECONCILIATION_FOCUS_STALE_AFTER_MS,
            None => true,
        }
    }

    /// Regaining focus reconciles at once (and announces the result) when the state is
    /// stale (see `focus_reconciliation_scheduled`); otherwise nothing changes.
    pub fn schedule_focus_reconciliation(&mut self, now: u64)
        ensures
            *final(self) == focus_reconciliation_scheduled(*old(self), now),
    {
        let stale = match self.last_reconciliation_success_at {
            Some(last) => {
                let waited = if now >= last {
                    now - last
                } else {
                    0
                };
                waited >= RECONCILIATION_FOCUS_STALE_AFTER_MS
            },
            None => true,
        };
        if stale {
            self.announce_reconciliation_success = true;
            self.schedule_reconciliation_at(now);
        }
    }

    /// The earliest of the reconciliation and subscription deadlines.
    pub fn service_deadline(&self) -> (r: Option<u64>)
        ensures
            r == match (self.next_reconciliation_at, self.next_subscription_at) {
                (Some(a), Some(b)) => Some(if a < b { a } else { b }),
                (Some(a), None) => Some(a),
                (None, Some(b)) => Some(b),
                (None, None) => None,
            },
    {
        match (self.next_reconciliation_at, self.next_subscription_at) {
            (Some(a), Some(b)) => Some(if a < b { a } else { b }),
            (Some(a), None) => Some(a),
            (None, Some(b)) => Some(b),
            (None, None) => None,
        }
    }

    /// The update subscription answered `request_id`. An answer to an older request is
    /// ignored (returns `None`). Otherwise the subscription is no longer on its way; on
    /// success the retry is cleared, and on error the error is shown, a reconciliation
    /// is asked for at once (announced) and a retry scheduled. Returns whether the
    /// screen changed.
    pub fn apply_subscribe_updates_result(&mut self, app: &mut App, request_id: u64, latest_request_id: u64, result: Result<(), String>, now: u64) -> (redraw: Option<bool>)
        requires
            now <= u64::MAX - UPDATE_SUBSCRIPTION_RETRY_DELAY_MS,
        ensures
            request_id != latest_request_id ==> redraw is None && *final(self) == *old(self) && final(app).state == old(app).state,
            request_id == latest_request_id ==> match result {
                Ok(_) => {
                    &&& redraw == Some(false)
                    &&& *final(self) == (LoopSchedule { subscription_pending: false, next_subscription_at: None, ..*old(self) })
                    &&& final(app).state == old(app).state
                },
                Err(e) => {
                    let gated = old(self).reconciliation_pending || old(self).initial_state_pending;
                    &&& redraw == Some(true)
                    &&& final(app).state == (AppState { status_message: None, error_message: Some(e), ..old(app).state })
                    &&& final(self).subscription_pending == false
                    &&& final(self).announce_reconciliation_success
                    &&& gated ==> final(self).reconciliation_requested_while_pending
                    &&& !gated ==> final(self).next_reconciliation_at == Some(earliest(old(self).next_reconciliation_at, now))
                    &&& final(self).next_subscription_at == Some(earliest(old(self).next_subscription_at, (now + UPDATE_SUBSCRIPTION_RETRY_DELAY_MS) as u64))
                },
            },
            final(app).should_quit == old(app).should_quit,
            old(app).state.wf() ==> final(app).state.wf(),
    {
        if request_id != latest_request_id {
            return None;
        }
        self.subscription_pending = false;
        match result {
            Ok(_) => {
                self.next_subscription_at = None;
                Some(false)
            },
            Err(error) => {
                app.state.set_error(error);
                self.announce_reconciliation_success = true;
                self.schedule_reconciliation_now(now);
                self.schedule_subscription_retry(now);
                Some(true)
            },
        }
    }
}


impl LoopSchedule {
    /// What is due at `now`: a subscription retry whose time came (unless one is on its
    /// way) and a reconciliation whose time came (unless one or the first load is on its
    /// way). Each one started is marked on its way and its deadline cleared. Returns
    /// (subscribe, reconcile).
    pub fn take_due_services(&mut self, now: u64) -> (r: (bool, bool))
        ensures
            r.0 == (old(self).next_subscription_at matches Some(d) && d <= now && !old(self).subscription_pending),
            r.1 == (old(self).next_reconciliation_at matches Some(d) && d <= now && !old(self).reconciliation_pending
                && !old(self).initial_state_pending),
            *final(self) == (LoopSchedule {
                next_subscription_at: if r.0 { None } else { old(self).next_subscription_at },
                subscription_pending: r.0 || old(self).subscription_pending,
                next_reconciliation_at: if r.1 { None } else { old(self).next_reconciliation_at },
                reconciliation_pending: r.1 || old(self).reconciliation_pending,
                ..*old(self)
            }),
    {
        let subscribe = match self.next_subscription_at {
            Some(deadline) => deadline <= now && !self.subscription_pending,
            None => false,
        };
        if subscribe {
            self.next_subscription_at = None;
            self.subscription_pending = true;
        }
        let reconcile = match self.next_reconciliation_at {
            Some(deadline) => deadline <= now && !self.reconciliation_pending && !self.initial_state_pending,
            None => false,
        };
        if reconcile {
            self.next_reconciliation_at = None;
            self.reconciliation_pending = true;
        }
        (subscribe, reconcile)
    }

    /// The update stream closed: the disconnection is shown, the subscription retried
    /// after the retry delay and a reconciliation asked for at once (announced).
    pub fn update_stream_closed(&mut self, app: &mut App, now: u64)
        requires
            now <= u64::MAX - UPDATE_SUBSCRIPTION_RETRY_DELAY_MS,
        ensures
            final(self).subscription_pending == false,
            final(self).announce_reconciliation_success,
            final(self).next_subscription_at == Some(earliest(old(self).next_subscription_at, (now + UPDATE_SUBSCRIPTION_RETRY_DELAY_MS) as u64)),
            old(self).reconciliation_pending || old(self).initial_state_pending ==> final(self).reconciliation_requested_while_pending
                && final(self).next_reconciliation_at == old(self).next_reconciliation_at,
            !(old(self).reconciliation_pending || old(self).initial_state_pending) ==> final(self).next_reconciliation_at
                == Some(earliest(old(self).next_reconciliation_at, now)),
            final(app).state.error_message is Some,
            final(app).state.error_message->0@ == TELEGRAM_UPDATES_DISCONNECTED_ERROR@,
            final(app).state == (AppState { status_message: None, error_message: final(app).state.error_message, ..old(app).state }),
            final(app).should_quit == old(app).should_quit,
            old(app).state.wf() ==> final(app).state.wf(),
    {
        self.subscription_pending = false;
        self.announce_reconciliation_success = true;
        self.schedule_subscription_retry(now);
        self.schedule_reconciliation_now(now);
        app.state.set_error(String::from_str(TELEGRAM_UPDATES_DISCONNECTED_ERROR));
    }
}

/// Where a pushed update goes.
#[derive(Debug, Clone, Copy, PartialEq, Eq, Structural)]
pub enum UpdateRoute {
    /// An error from the stream: shown at once, and a reconciliation is asked for.
    ApplyError,
    /// Held until the first load or the running reconciliation is applied.
    DeferUntilLoaded,
    /// A message for the conversation being loaded: held until it is shown.
    DeferUntilConversationLoaded,
    /// Already brought by the last reconciliation: dropped.
    AlreadyRepresented,
    /// Shown now.
    Apply,
}

pub open spec fn route_spec(s: LoopSchedule, state: AppState, update: Update, conversation_load_active: bool, high_water_ids: Map<i64, i32>) -> UpdateRoute {
    if update is Error {
        UpdateRoute::ApplyError
    } else if s.initial_state_pending || s.reconciliation_pending {
        UpdateRoute::DeferUntilLoaded
    } else if conversation_load_active && (update matches Update::NewMessage(m) && state.selected_chat_id_spec() == Some(m.chat_id)) {
        UpdateRoute::DeferUntilConversationLoaded
    } else if represented_by_reconciliation_spec(state, update, high_water_ids) {
        UpdateRoute::AlreadyRepresented
    } else {
        UpdateRoute::Apply
    }
}

/// Decides where a pushed update goes (see `route_spec`); for a stream error the
/// reconciliation it calls for is scheduled (announced) at `now`.
pub fn route_received_update(schedule: &mut LoopSchedule, app: &App, update: &Update, conversation_load_active: bool, high_water_ids: &HashMap<i64, i32>, now: u64) -> (route: UpdateRoute)
    ensures
        route == route_spec(*old(schedule), app.state, *update, conversation_load_active, high_water_ids@),
        route != UpdateRoute::ApplyError ==> *final(schedule) == *old(schedule),
        route == UpdateRoute::ApplyError ==> {
            let gated = old(schedule).reconciliation_pending || old(schedule).initial_state_pending;
            &&& final(schedule).announce_reconciliation_success
            &&& gated ==> *final(schedule) == (LoopSchedule {
                announce_reconciliation_success: true,
                reconciliation_requested_while_pending: true,
                ..*old(schedule)
            })
            &&& !gated ==> *final(schedule) == (LoopSchedule {
                announce_reconciliation_success: true,
                next_reconciliation_at: Some(earliest(old(schedule).next_reconciliation_at, now)),
                ..*old(schedule)
            })
        },
{
    if let Update::Error(_) = update {
        schedule.announce_reconciliation_success = true;
        schedule.schedule_reconciliation_now(now);
        return UpdateRoute::ApplyError;
    }
    if schedule.initial_state_pending || schedule.reconciliation_pending {
        return UpdateRoute::DeferUntilLoaded;
    }
    if conversation_load_active {
        if let Update::NewMessage(m) = update {
            if app.state.selected_chat_id() == Some(m.chat_id) {
                return UpdateRoute::DeferUntilConversationLoaded;
            }
        }
    }
    if update_represented_by_reconciliation(app, update, high_water_ids) {
        return UpdateRoute::AlreadyRepresented;
    }
    UpdateRoute::Apply
}

/// Reconciliation is single flight: while one (or the first load) is on its way, asking
/// again never moves the next reconciliation, only remembers the request; otherwise the
/// next reconciliation only ever moves earlier.
pub proof fn lemma_reconciliation_single_flight(s: LoopSchedule, deadline: u64)
    ensures
        s.reconciliation_pending || s.initial_state_pending ==> {
            let after = LoopSchedule { reconciliation_requested_while_pending: true, ..s };
            after.next_reconciliation_at == s.next_reconciliation_at
        },
        !(s.reconciliation_pending || s.initial_state_pending) ==> {
            let next = earliest(s.next_reconciliation_at, deadline);
            &&& next <= deadline
            &&& (s.next_reconciliation_at matches Some(c) ==> next <= c)
        },
{
}

} // verus!
