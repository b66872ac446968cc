//! Reconciliation with Telegram's state, and the updates pushed while a load or a
//! reconciliation is on its way.

use std::collections::HashMap;

use crate::app::App;
use crate::event_loop::{
    route_received_update, route_spec, LoopSchedule, UpdateRoute, RECONCILIATION_INTERVAL_MS,
    RECONCILIATION_RETRY_DELAY_MS,
};
use crate::conversation::{apply_chat_message_load_result_with_outcome, chat_load_applied, ChatMessageLoadResult};
use crate::live::{incoming_applied, PresentedMessage};
use crate::requests::{conversation_load_active_spec, selected_conversation_load_active, ChatLoadRequests, FolderLoadRequests};
use crate::mouse_state::chat_position;
use crate::session::{
    apply_folder_chat_load_result_with_outcome, folder_load_applied, FolderChatLoadResult, ack_for_selection, highest_message_id, keep_ack_for_selection, max_message_id, represented_by_loaded_spec,
    update_represented_by_loaded_conversation, ConversationLoadApply, LoadedReadAck, TELEGRAM_STATE_REFRESHED_STATUS,
};
use crate::state::AppState;
use crate::types::{Chat, Folder, Message, ThreadTopic, Update};
use vstd::prelude::*;

verus! {

/// Telegram's state as a reconciliation read it: the folders and chats, the last message
/// id of each chat, and the selected conversation with its newest messages.
#[derive(Debug)]
pub struct ReconciliationSnapshot {
    pub folders: Vec<Folder>,
    pub selected_folder_id: Option<i32>,
    pub chats: Vec<Chat>,
    pub chat_last_message_ids: HashMap<i64, i32>,
    pub selected_chat_id: Option<i64>,
    pub thread_topics: Vec<ThreadTopic>,
    pub selected_topic_id: Option<i32>,
    pub messages: Vec<Message>,
}

/// The first of `topics[k..]` with this id.
pub open spec fn topic_position(topics: Seq<ThreadTopic>, topic_id: i32, k: int) -> Option<int>
    decreases topics.len() - k,
{
    if k < 0 || k >= topics.len() {
        None
    } else if topics[k].id == topic_id {
        Some(k)
    } else {
        topic_position(topics, topic_id, k + 1)
    }
}

/// Whether the first chat with this id has unread messages.
pub open spec fn chat_unread_spec(chats: Seq<Chat>, chat_id: i64) -> bool {
    match chat_position(chats, chat_id, 0) {
        Some(i) => chats[i].unread_count > 0,
        None => false,
    }
}

/// Whether the first topic with this id has unread messages.
pub open spec fn topic_unread_spec(topics: Seq<ThreadTopic>, topic_id: i32) -> bool {
    match topic_position(topics, topic_id, 0) {
        Some(i) => topics[i].unread_count > 0,
        None => false,
    }
}

/// What a snapshot asks to mark read: with a chat selected and messages in the snapshot,
/// the selected topic's thread when a topic is selected and it has unread messages, else
/// the chat when it has unread messages, up to the highest message id of the snapshot.
pub open spec fn reconciliation_read_ack_spec(s: ReconciliationSnapshot) -> Option<LoadedReadAck> {
    match s.selected_chat_id {
        None => None,
        Some(chat_id) => if s.messages@.len() == 0 {
            None
        } else {
            let max = max_message_id(s.messages@, s.messages@.len() as int);
            match s.selected_topic_id {
                Some(topic_id) => if topic_unread_spec(s.thread_topics@, topic_id) {
                    Some(LoadedReadAck::Thread { chat_id, topic_id, max_message_id: max })
                } else {
                    None
                },
                None => if chat_unread_spec(s.chats@, chat_id) {
                    Some(LoadedReadAck::Chat { chat_id, max_message_id: max })
                } else {
                    None
                },
            }
        },
    }
}

fn chat_has_unread(chats: &Vec<Chat>, chat_id: i64) -> (r: bool)
    ensures
        r == chat_unread_spec(chats@, chat_id),
{
    let mut k: usize = 0;
    while k < chats.len()
        invariant
            k <= chats@.len(),
            chat_position(chats@, chat_id, 0) == chat_position(chats@, chat_id, k as int),
        decreases chats.len() - k,
    {
        if chats[k].id == chat_id {
            return chats[k].unread_count > 0;
        }
        k += 1;
    }
    false
}

fn topic_has_unread(topics: &Vec<ThreadTopic>, topic_id: i32) -> (r: bool)
    ensures
        r == topic_unread_spec(topics@, topic_id),
{
    let mut k: usize = 0;
    while k < topics.len()
        invariant
            k <= topics@.len(),
            topic_position(topics@, topic_id, 0) == topic_position(topics@, topic_id, k as int),
        decreases topics.len() - k,
    {
        if topics[k].id == topic_id {
            return topics[k].unread_count > 0;
        }
        k += 1;
    }
    false
}

impl ReconciliationSnapshot {
    /// What this snapshot asks to mark read (see `reconciliation_read_ack_spec`).
    pub fn read_ack(&self) -> (r: Option<LoadedReadAck>)
        ensures
            r == reconciliation_read_ack_spec(*self),
    {
        let chat_id = match self.selected_chat_id {
            Some(id) => id,
            None => return None,
        };
        if self.messages.len() == 0 {
            return None;
        }
        let max = highest_message_id(&self.messages);
        match self.selected_topic_id {
            Some(topic_id) => if topic_has_unread(&self.thread_topics, topic_id) {
                Some(LoadedReadAck::Thread { chat_id, topic_id, max_message_id: max })
            } else {
                None
            },
            None => if chat_has_unread(&self.chats, chat_id) {
                Some(LoadedReadAck::Chat { chat_id, max_message_id: max })
            } else {
                None
            },
        }
    }
}

/// How the state took a snapshot: applied (and whether the open conversation was
/// replaced by the snapshot's messages), or refused because the user moved elsewhere
/// since the reconciliation started.
#[derive(Debug, Clone, Copy, PartialEq, Eq, Structural)]
pub enum ReconciliationApply {
    Applied { conversation_replaced: bool },
    Stale,
}

/// A snapshot after the state took it: how, the snapshot's last message id per chat, and
/// what the snapshot asked to mark read.
#[derive(Debug)]
pub struct AppliedSnapshot {
    pub apply: ReconciliationApply,
    pub chat_last_message_ids: HashMap<i64, i32>,
    pub read_ack: Option<LoadedReadAck>,
}

impl AppliedSnapshot {
    /// Keeps of `snapshot` what is still needed once the state took it.
    pub fn new(snapshot: ReconciliationSnapshot, apply: ReconciliationApply) -> (r: AppliedSnapshot)
        ensures
            r.apply == apply,
            r.chat_last_message_ids@ == snapshot.chat_last_message_ids@,
            r.read_ack == reconciliation_read_ack_spec(snapshot),
    {
        let read_ack = snapshot.read_ack();
        AppliedSnapshot { apply, chat_last_message_ids: snapshot.chat_last_message_ids, read_ack }
    }
}

/// The schedule once a reconciliation finished: nothing on its way, the next one due at
/// once when one was asked for meanwhile, else at `default_deadline`.
pub open spec fn reconciliation_finished(s: LoopSchedule, now: u64, default_deadline: u64) -> LoopSchedule {
    LoopSchedule {
        reconciliation_pending: false,
        reconciliation_requested_while_pending: false,
        next_reconciliation_at: Some(if s.reconciliation_requested_while_pending { now } else { default_deadline }),
        ..s
    }
}

/// Takes the result of reconciliation `request_id`. A result that is not the latest
/// request's is ignored (`false`, nothing changes). Otherwise the reconciliation is over
/// and the result redraws:
/// - an error is shown and announced on the next success; the next attempt is due after
///   the retry delay (at once when one was asked for meanwhile);
/// - a stale snapshot changes nothing but the schedule; the next attempt is due at once;
/// - an applied snapshot sets the high water ids to its last message ids and the time of
///   the last success to `now`; the next reconciliation is due after the interval (at
///   once when one was asked for meanwhile, and then the success is not announced yet);
///   an awaited announcement shows "Telegram state refreshed". When the snapshot replaced
///   the open conversation, its read acknowledgement is returned if it is for what the
///   state shows.
pub fn apply_reconciliation_result(
    schedule: &mut LoopSchedule,
    app: &mut App,
    high_water_ids: &mut HashMap<i64, i32>,
    request_id: u64,
    latest_request_id: u64,
    result: Result<AppliedSnapshot, String>,
    now: u64,
) -> (r: (bool, Option<LoadedReadAck>))
    requires
        now <= u64::MAX - RECONCILIATION_INTERVAL_MS,
    ensures
        old(app).state.wf() ==> final(app).state.wf(),
        request_id != latest_request_id ==> {
            &&& r == (false, None::<LoadedReadAck>)
            &&& *final(schedule) == *old(schedule)
            &&& *final(app) == *old(app)
            &&& final(high_water_ids)@ == old(high_water_ids)@
        },
        request_id == latest_request_id ==> r.0 && match result {
            Err(e) => {
                &&& r.1 is None
                &&& *final(schedule) == LoopSchedule {
                    announce_reconciliation_success: true,
                    ..reconciliation_finished(*old(schedule), now, (now + RECONCILIATION_RETRY_DELAY_MS) as u64)
                }
                &&& *final(app) == App {
                    state: AppState { status_message: None, error_message: Some(e), ..old(app).state },
                    ..*old(app)
                }
                &&& final(high_water_ids)@ == old(high_water_ids)@
            },
            Ok(applied) => match applied.apply {
                ReconciliationApply::Stale => {
                    &&& r.1 is None
                    &&& *final(schedule) == reconciliation_finished(*old(schedule), now, now)
                    &&& *final(app) == *old(app)
                    &&& final(high_water_ids)@ == old(high_water_ids)@
                },
                ReconciliationApply::Applied { conversation_replaced } => {
                    let announced = old(schedule).announce_reconciliation_success
                        && !old(schedule).reconciliation_requested_while_pending;
                    &&& final(high_water_ids)@ == applied.chat_last_message_ids@
                    &&& *final(schedule) == LoopSchedule {
                        last_reconciliation_success_at: Some(now),
                        announce_reconciliation_success: old(schedule).announce_reconciliation_success && !announced,
                        ..reconciliation_finished(*old(schedule), now, (now + RECONCILIATION_INTERVAL_MS) as u64)
                    }
                    &&& announced ==> {
                        &&& final(app).state.status_message is Some
                        &&& final(app).state.status_message->0@ == TELEGRAM_STATE_REFRESHED_STATUS@
                        &&& *final(app) == App {
                            state: AppState {
                                status_message: final(app).state.status_message,
                                error_message: None,
                                ..old(app).state
                            },
                            ..*old(app)
                        }
                    }
                    &&& !announced ==> *final(app) == *old(app)
                    &&& r.1 == if conversation_replaced {
                        ack_for_selection(applied.read_ack, old(app).state)
                    } else {
                        None
                    }
                },
            },
        },
{
    if request_id != latest_request_id {
        return (false, None);
    }
    schedule.reconciliation_pending = false;
    match result {
        Err(e) => {
            app.state.set_error(e);
            schedule.announce_reconciliation_success = true;
            schedule.finish_reconciliation_gate(now, now + RECONCILIATION_RETRY_DELAY_MS);
            (true, None)
        },
        Ok(applied) => match applied.apply {
            ReconciliationApply::Stale => {
                schedule.finish_reconciliation_gate(now, now);
                (true, None)
            },
            ReconciliationApply::Applied { conversation_replaced } => {
                *high_water_ids = applied.chat_last_message_ids;
                schedule.last_reconciliation_success_at = Some(now);
                let follow_up = schedule.finish_reconciliation_gate(now, now + RECONCILIATION_INTERVAL_MS);
                if schedule.announce_reconciliation_success && !follow_up {
                    app.state.set_status(TELEGRAM_STATE_REFRESHED_STATUS);
                    schedule.announce_reconciliation_success = false;
                }
                let ack = if conversation_replaced {
                    keep_ack_for_selection(applied.read_ack, &app.state)
                } else {
                    None
                };
                (true, ack)
            },
        },
    }
}


// ----- pushed updates -----

/// The read acknowledgement for a message shown at the end of the open conversation: its
/// thread when it belongs to a topic, else its chat, up to the message.
pub open spec fn presented_ack(p: Option<PresentedMessage>) -> Option<LoadedReadAck> {
    match p {
        Some(p) => match p.topic_id {
            Some(topic_id) => Some(LoadedReadAck::Thread { chat_id: p.chat_id, topic_id, max_message_id: p.message_id }),
            None => Some(LoadedReadAck::Chat { chat_id: p.chat_id, max_message_id: p.message_id }),
        },
        None => None,
    }
}

/// `new` is `old` after `update` was applied to its state (see `AppState::apply_update`),
/// and `r` what is to be marked read for it.
pub open spec fn update_applied(old: App, new: App, update: Update, r: Option<LoadedReadAck>) -> bool {
    &&& new == App { state: new.state, ..old }
    &&& match update {
        Update::NewMessage(m) => exists|p: Option<PresentedMessage>|
            #![trigger incoming_applied(old.state, new.state, m, p)]
            incoming_applied(old.state, new.state, m, p) && r == presented_ack(p),
        Update::Error(e) => r is None && new.state == AppState {
            status_message: None,
            error_message: Some(e),
            ..old.state
        },
    }
}

/// Applies a pushed update and says what to mark read: the message when it was shown at
/// the end of the open conversation.
pub fn apply_update_with_read_ack(app: &mut App, update: Update) -> (r: Option<LoadedReadAck>)
    ensures
        old(app).state.wf() ==> final(app).state.wf(),
        update_applied(*old(app), *final(app), update, r),
{
    let presented = app.state.apply_update(update);
    match presented {
        Some(p) => match p.topic_id {
            Some(topic_id) => Some(LoadedReadAck::Thread { chat_id: p.chat_id, topic_id, max_message_id: p.message_id }),
            None => Some(LoadedReadAck::Chat { chat_id: p.chat_id, max_message_id: p.message_id }),
        },
        None => None,
    }
}

/// Updates held back: those that came while the first load or a reconciliation was on
/// its way, and those for the conversation being loaded.
#[derive(Debug)]
pub struct DeferredUpdates {
    pub updates: Vec<Update>,
    pub conversation_updates: Vec<Update>,
}

impl DeferredUpdates {
    pub fn new() -> (d: DeferredUpdates)
        ensures
            d.updates@.len() == 0,
            d.conversation_updates@.len() == 0,
    {
        DeferredUpdates { updates: Vec::new(), conversation_updates: Vec::new() }
    }
}

/// The schedule after a stream error asked for a reconciliation at `now` (announced).
pub open spec fn error_reconciliation_scheduled(s: LoopSchedule, now: u64) -> LoopSchedule {
    if s.reconciliation_pending || s.initial_state_pending {
        LoopSchedule { announce_reconciliation_success: true, reconciliation_requested_while_pending: true, ..s }
    } else {
        LoopSchedule {
            announce_reconciliation_success: true,
            next_reconciliation_at: Some(crate::event_loop::earliest(s.next_reconciliation_at, now)),
            ..s
        }
    }
}

/// The loop's view of itself around a pushed update: the schedule, the application, and
/// the two queues of held-back updates.
pub type UpdateLoopView = (LoopSchedule, App, Seq<Update>, Seq<Update>);

/// `after` is `before` once `update` went where `route_spec` sends it: applied (an error
/// also asks for a reconciliation at `now`), held back in the matching queue, or dropped
/// as already represented; `r` says whether it was applied (a redraw) and what to mark
/// read.
pub open spec fn update_handled(
    before: UpdateLoopView,
    update: Update,
    conversation_load_active: bool,
    high_water_ids: Map<i64, i32>,
    now: u64,
    after: UpdateLoopView,
    r: (bool, Option<LoadedReadAck>),
) -> bool {
    let route = route_spec(before.0, before.1.state, update, conversation_load_active, high_water_ids);
    &&& route == UpdateRoute::ApplyError ==> after.0 == error_reconciliation_scheduled(before.0, now)
    &&& route != UpdateRoute::ApplyError ==> after.0 == before.0
    &&& (route == UpdateRoute::Apply || route == UpdateRoute::ApplyError) ==> {
        &&& r.0
        &&& update_applied(before.1, after.1, update, r.1)
        &&& after.2 == before.2
        &&& after.3 == before.3
    }
    &&& !(route == UpdateRoute::Apply || route == UpdateRoute::ApplyError) ==> {
        &&& r == (false, None::<LoadedReadAck>)
        &&& after.1 == before.1
    }
    &&& route == UpdateRoute::DeferUntilLoaded ==> after.2 == before.2.push(update) && after.3 == before.3
    &&& route == UpdateRoute::DeferUntilConversationLoaded ==> after.2 == before.2 && after.3 == before.3.push(update)
    &&& route == UpdateRoute::AlreadyRepresented ==> after.2 == before.2 && after.3 == before.3
}

/// Takes a pushed update where `route_spec` sends it (see `update_handled`).
pub fn handle_received_update(
    schedule: &mut LoopSchedule,
    app: &mut App,
    deferred: &mut DeferredUpdates,
    update: Update,
    conversation_load_active: bool,
    high_water_ids: &HashMap<i64, i32>,
    now: u64,
) -> (r: (bool, Option<LoadedReadAck>))
    ensures
        old(app).state.wf() ==> final(app).state.wf(),
        update_handled(
            (*old(schedule), *old(app), old(deferred).updates@, old(deferred).conversation_updates@),
            update,
            conversation_load_active,
            high_water_ids@,
            now,
            (*final(schedule), *final(app), final(deferred).updates@, final(deferred).conversation_updates@),
            r,
        ),
{
    let route = route_received_update(schedule, app, &update, conversation_load_active, high_water_ids, now);
    match route {
        UpdateRoute::ApplyError | UpdateRoute::Apply => {
            let ack = apply_update_with_read_ack(app, update);
            (true, ack)
        },
        UpdateRoute::DeferUntilLoaded => {
            deferred.updates.push(update);
            (false, None)
        },
        UpdateRoute::DeferUntilConversationLoaded => {
            deferred.conversation_updates.push(update);
            (false, None)
        },
        UpdateRoute::AlreadyRepresented => (false, None),
    }
}

/// Whether any of the handled updates was applied.
pub open spec fn any_applied(rs: Seq<(bool, Option<LoadedReadAck>)>) -> bool
    decreases rs.len(),
{
    if rs.len() == 0 {
        false
    } else {
        any_applied(rs.drop_last()) || rs.last().0
    }
}

/// The read acknowledgements of the handled updates, in order.
pub open spec fn acks_of(rs: Seq<(bool, Option<LoadedReadAck>)>) -> Seq<LoadedReadAck>
    decreases rs.len(),
{
    if rs.len() == 0 {
        Seq::empty()
    } else {
        match rs.last().1 {
            Some(a) => acks_of(rs.drop_last()).push(a),
            None => acks_of(rs.drop_last()),
        }
    }
}

/// `trace` lists the loop's view before and after each of `updates`, handled one after
/// the other from `start` (see `update_handled`), and `rs` what handling each returned.
pub open spec fn replay_trace(
    start: UpdateLoopView,
    updates: Seq<Update>,
    conversation_load_active: bool,
    high_water_ids: Map<i64, i32>,
    now: u64,
    trace: Seq<UpdateLoopView>,
    rs: Seq<(bool, Option<LoadedReadAck>)>,
) -> bool {
    &&& trace.len() == updates.len() + 1
    &&& rs.len() == updates.len()
    &&& trace[0] == start
    &&& forall|k: int|
        0 <= k < updates.len() ==> #[trigger] update_handled(
            trace[k],
            updates[k],
            conversation_load_active,
            high_water_ids,
            now,
            trace[k + 1],
            rs[k],
        )
}

/// `end` is `start` after `updates` were handled one after the other (see
/// `update_handled`); `dirty` says whether any was applied and `acks` lists what to mark
/// read, in order.
pub open spec fn updates_replayed(
    start: UpdateLoopView,
    updates: Seq<Update>,
    conversation_load_active: bool,
    high_water_ids: Map<i64, i32>,
    now: u64,
    end: UpdateLoopView,
    dirty: bool,
    acks: Seq<LoadedReadAck>,
) -> bool {
    exists|trace: Seq<UpdateLoopView>, rs: Seq<(bool, Option<LoadedReadAck>)>|
        #![trigger replay_trace(start, updates, conversation_load_active, high_water_ids, now, trace, rs)]
        replay_trace(start, updates, conversation_load_active, high_water_ids, now, trace, rs)
            && trace.last() == end
            && dirty == any_applied(rs)
            && acks == acks_of(rs)
}

fn replay(
    schedule: &mut LoopSchedule,
    app: &mut App,
    deferred: &mut DeferredUpdates,
    updates: Vec<Update>,
    conversation_load_active: bool,
    high_water_ids: &HashMap<i64, i32>,
    now: u64,
) -> (r: (bool, Vec<LoadedReadAck>))
    ensures
        old(app).state.wf() ==> final(app).state.wf(),
        updates_replayed(
            (*old(schedule), *old(app), old(deferred).updates@, old(deferred).conversation_updates@),
            updates@,
            conversation_load_active,
            high_water_ids@,
            now,
            (*final(schedule), *final(app), final(deferred).updates@, final(deferred).conversation_updates@),
            r.0,
            r.1@,
        ),
{
    let ghost start: UpdateLoopView = (*schedule, *app, deferred.updates@, deferred.conversation_updates@);
    let ghost all = updates@;
    let ghost start_wf = app.state.wf();
    let ghost mut trace: Seq<UpdateLoopView> = seq![start];
    let ghost mut rs: Seq<(bool, Option<LoadedReadAck>)> = Seq::empty();
    let mut dirty = false;
    let mut acks: Vec<LoadedReadAck> = Vec::new();
    for u in it: updates.into_iter()
        invariant
            it.seq() == all,
            start_wf ==> app.state.wf(),
            replay_trace(start, all.take(it.index() as int), conversation_load_active, high_water_ids@, now, trace, rs),
            trace.last() == (*schedule, *app, deferred.updates@, deferred.conversation_updates@),
            dirty == any_applied(rs),
            acks@ == acks_of(rs),
    {
        let ghost i = it.index() as int;
        proof {
            assert(0 <= i < all.len());
            assert(u == all[i]);
        }
        let r = handle_received_update(schedule, app, deferred, u, conversation_load_active, high_water_ids, now);
        dirty = dirty || r.0;
        if let Some(a) = r.1 {
            acks.push(a);
        }
        proof {
            let old_trace = trace;
            let old_rs = rs;
            trace = trace.push((*schedule, *app, deferred.updates@, deferred.conversation_updates@));
            rs = rs.push(r);
            assert(rs.drop_last() =~= old_rs);
            assert(trace.drop_last() =~= old_trace);
            assert forall|k: int| 0 <= k < i + 1 implies #[trigger] update_handled(
                trace[k],
                all.take(i + 1)[k],
                conversation_load_active,
                high_water_ids@,
                now,
                trace[k + 1],
                rs[k],
            ) by {
                if k < i {
                    assert(all.take(i + 1)[k] == all.take(i)[k]);
                    assert(update_handled(old_trace[k], all.take(i)[k], conversation_load_active, high_water_ids@, now, old_trace[k + 1], old_rs[k]));
                }
            }
        }
    }
    proof {
        assert(all.take(all.len() as int) =~= all);
    }
    (dirty, acks)
}

/// Handles, in order, the updates held back while the first load or a reconciliation
/// was on its way (an update may be held back again). Returns whether any was applied
/// and what to mark read.
pub fn replay_deferred_updates(
    schedule: &mut LoopSchedule,
    app: &mut App,
    deferred: &mut DeferredUpdates,
    conversation_load_active: bool,
    high_water_ids: &HashMap<i64, i32>,
    now: u64,
) -> (r: (bool, Vec<LoadedReadAck>))
    ensures
        old(app).state.wf() ==> final(app).state.wf(),
        updates_replayed(
            (*old(schedule), *old(app), Seq::empty(), old(deferred).conversation_updates@),
            old(deferred).updates@,
            conversation_load_active,
            high_water_ids@,
            now,
            (*final(schedule), *final(app), final(deferred).updates@, final(deferred).conversation_updates@),
            r.0,
            r.1@,
        ),
{
    let mut taken: Vec<Update> = Vec::new();
    std::mem::swap(&mut taken, &mut deferred.updates);
    replay(schedule, app, deferred, taken, conversation_load_active, high_water_ids, now)
}

/// Handles, in order, the updates held back while the open conversation loaded, now that
/// no conversation load is active. Returns whether any was applied and what to mark read.
pub fn replay_deferred_conversation_updates(
    schedule: &mut LoopSchedule,
    app: &mut App,
    deferred: &mut DeferredUpdates,
    high_water_ids: &HashMap<i64, i32>,
    now: u64,
) -> (r: (bool, Vec<LoadedReadAck>))
    ensures
        old(app).state.wf() ==> final(app).state.wf(),
        updates_replayed(
            (*old(schedule), *old(app), old(deferred).updates@, Seq::empty()),
            old(deferred).conversation_updates@,
            false,
            high_water_ids@,
            now,
            (*final(schedule), *final(app), final(deferred).updates@, final(deferred).conversation_updates@),
            r.0,
            r.1@,
        ),
{
    let mut taken: Vec<Update> = Vec::new();
    std::mem::swap(&mut taken, &mut deferred.conversation_updates);
    replay(schedule, app, deferred, taken, false, high_water_ids, now)
}

/// Whether a held-back conversation update is still to be applied once the conversation
/// was loaded (see `represented_by_loaded_spec`).
pub open spec fn still_needed(state: AppState, ids: Option<Map<i64, i32>>) -> spec_fn(Update) -> bool {
    |u: Update| !represented_by_loaded_spec(state, u, ids)
}

pub open spec fn ids_view(ids: Option<&HashMap<i64, i32>>) -> Option<Map<i64, i32>> {
    match ids {
        Some(ids) => Some(ids@),
        None => None,
    }
}

/// Drops the held-back conversation updates that the loaded conversation (or the
/// snapshot's last message ids) already shows, keeping the others in order. Returns how
/// many were dropped.
pub fn discard_deferred_conversation_updates_represented_by_snapshot(
    deferred: &mut DeferredUpdates,
    app: &App,
    chat_last_message_ids: Option<&HashMap<i64, i32>>,
) -> (discarded: usize)
    ensures
        final(deferred).updates@ == old(deferred).updates@,
        final(deferred).conversation_updates@ == old(deferred).conversation_updates@.filter(
            still_needed(app.state, ids_view(chat_last_message_ids)),
        ),
        discarded == old(deferred).conversation_updates@.len() - final(deferred).conversation_updates@.len(),
{
    let mut taken: Vec<Update> = Vec::new();
    std::mem::swap(&mut taken, &mut deferred.conversation_updates);
    let ghost all = taken@;
    let ghost keep = still_needed(app.state, ids_view(chat_last_message_ids));
    let before = taken.len();
    let mut kept: Vec<Update> = Vec::new();
    for u in it: taken.into_iter()
        invariant
            it.seq() == all,
            keep == still_needed(app.state, ids_view(chat_last_message_ids)),
            kept@ == all.take(it.index() as int).filter(keep),
            before == all.len(),
    {
        let ghost i = it.index() as int;
        let ghost prefix = all.take(i + 1);
        proof {
            assert(0 <= i < all.len());
            assert(prefix.len() == i + 1);
            assert(u == all[i]);
            assert(prefix.drop_last() =~= all.take(i));
            assert(prefix.last() == u);
        }
        let ghost kept_before = kept@;
        if !update_represented_by_loaded_conversation(app, &u, chat_last_message_ids) {
            kept.push(u);
        }
        proof {
            reveal(Seq::filter);
            assert(prefix.filter(keep) == if keep(u) {
                all.take(i).filter(keep).push(u)
            } else {
                all.take(i).filter(keep)
            });
            assert(kept@ == prefix.filter(keep));
        }
    }
    proof {
        assert(all.take(all.len() as int) =~= all);
    }
    let discarded = before - kept.len();
    deferred.conversation_updates = kept;
    discarded
}

// ----- the loop taking results -----

/// The schedule once the first load arrived: it is no longer pending and counts as a
/// reconciliation; after a success the next reconciliation is due after the interval,
/// after a failure after the retry delay and announced (either at once when one was asked
/// for meanwhile).
pub open spec fn initial_load_finished(s: LoopSchedule, succeeded: bool, now: u64) -> LoopSchedule {
    if succeeded {
        LoopSchedule {
            initial_state_pending: false,
            last_reconciliation_success_at: Some(now),
            reconciliation_requested_while_pending: false,
            next_reconciliation_at: Some(
                if s.reconciliation_requested_while_pending { now } else { (now + RECONCILIATION_INTERVAL_MS) as u64 },
            ),
            ..s
        }
    } else {
        LoopSchedule {
            initial_state_pending: false,
            announce_reconciliation_success: true,
            reconciliation_requested_while_pending: false,
            next_reconciliation_at: Some(
                if s.reconciliation_requested_while_pending { now } else { (now + RECONCILIATION_RETRY_DELAY_MS) as u64 },
            ),
            ..s
        }
    }
}

/// Schedules after the first load arrived (see `initial_load_finished`).
pub fn finish_initial_load(schedule: &mut LoopSchedule, succeeded: bool, now: u64)
    requires
        now <= u64::MAX - RECONCILIATION_INTERVAL_MS,
    ensures
        *final(schedule) == initial_load_finished(*old(schedule), succeeded, now),
{
    schedule.initial_state_pending = false;
    if succeeded {
        schedule.last_reconciliation_success_at = Some(now);
        schedule.finish_reconciliation_gate(now, now + RECONCILIATION_INTERVAL_MS);
    } else {
        schedule.announce_reconciliation_success = true;
        schedule.finish_reconciliation_gate(now, now + RECONCILIATION_RETRY_DELAY_MS);
    }
}

/// Whether the updates held back for a conversation load are due: no conversation load
/// is active, neither the first load nor a reconciliation is on its way, and some are
/// held back.
pub open spec fn conversation_updates_due(s: LoopSchedule, conversation_load_active: bool, held: Seq<Update>) -> bool {
    !conversation_load_active && !s.initial_state_pending && !s.reconciliation_pending && held.len() > 0
}

/// Whether the open conversation is still shown as loading.
pub open spec fn still_loading(app: App) -> bool {
    app.state.conversation_load_status == crate::state::ConversationLoadStatus::Loading
}

/// The application once the conversation load is over: a load still shown as loading
/// has failed.
pub open spec fn load_settled(app: App) -> App {
    if still_loading(app) {
        App {
            state: AppState { conversation_load_status: crate::state::ConversationLoadStatus::Failed, ..app.state },
            ..app
        }
    } else {
        app
    }
}

/// Once the conversation load is over (see `conversation_updates_due`), a load still
/// shown as loading is marked failed and the held-back conversation updates are handled
/// in order. Returns whether anything is to be redrawn and what to mark read; when the
/// updates are not due nothing changes.
pub fn release_conversation_updates(
    schedule: &mut LoopSchedule,
    app: &mut App,
    deferred: &mut DeferredUpdates,
    conversation_load_active: bool,
    high_water_ids: &HashMap<i64, i32>,
    now: u64,
) -> (r: (bool, Vec<LoadedReadAck>))
    ensures
        old(app).state.wf() ==> final(app).state.wf(),
        !conversation_updates_due(*old(schedule), conversation_load_active, old(deferred).conversation_updates@) ==> {
            &&& !r.0 && r.1@.len() == 0
            &&& *final(schedule) == *old(schedule)
            &&& *final(app) == *old(app)
            &&& final(deferred).updates@ == old(deferred).updates@
            &&& final(deferred).conversation_updates@ == old(deferred).conversation_updates@
        },
        conversation_updates_due(*old(schedule), conversation_load_active, old(deferred).conversation_updates@) ==> exists|dirty: bool|
            #![trigger updates_replayed(
                (*old(schedule), load_settled(*old(app)), old(deferred).updates@, Seq::empty()),
                old(deferred).conversation_updates@,
                false,
                high_water_ids@,
                now,
                (*final(schedule), *final(app), final(deferred).updates@, final(deferred).conversation_updates@),
                dirty,
                r.1@,
            )]
            {
                &&& updates_replayed(
                    (*old(schedule), load_settled(*old(app)), old(deferred).updates@, Seq::empty()),
                    old(deferred).conversation_updates@,
                    false,
                    high_water_ids@,
                    now,
                    (*final(schedule), *final(app), final(deferred).updates@, final(deferred).conversation_updates@),
                    dirty,
                    r.1@,
                )
                &&& r.0 == (still_loading(*old(app)) || dirty)
            },
{
    if conversation_load_active || schedule.initial_state_pending || schedule.reconciliation_pending
        || deferred.conversation_updates.len() == 0 {
        return (false, Vec::new());
    }
    let was_loading = match app.state.conversation_load_status {
        crate::state::ConversationLoadStatus::Loading => true,
        _ => false,
    };
    if was_loading {
        app.state.mark_conversation_load_failed();
    }
    let ghost settled = (*schedule, *app, deferred.updates@, Seq::<Update>::empty());
    let ghost held = deferred.conversation_updates@;
    let (dirty, acks) = replay_deferred_conversation_updates(schedule, app, deferred, high_water_ids, now);
    proof {
        assert(updates_replayed(
            settled,
            held,
            false,
            high_water_ids@,
            now,
            (*schedule, *app, deferred.updates@, deferred.conversation_updates@),
            dirty,
            acks@,
        ));
        assert(settled.1 == load_settled(*old(app)));
        assert(was_loading == still_loading(*old(app)));
    }
    let res = (was_loading || dirty, acks);
    proof {
        assert(updates_replayed(
            (*old(schedule), load_settled(*old(app)), old(deferred).updates@, Seq::empty()),
            old(deferred).conversation_updates@,
            false,
            high_water_ids@,
            now,
            (*schedule, *app, deferred.updates@, deferred.conversation_updates@),
            dirty,
            res.1@,
        ));
    }
    res
}

/// `after` is `before` once a conversation load is over: when it `finished` and no other
/// is active, a load still shown as loading has failed and the held-back conversation
/// updates were handled in order (`r` says whether anything is to be redrawn and what to
/// mark read); otherwise nothing changed.
pub open spec fn conversation_load_settled(
    before: UpdateLoopView,
    finished: bool,
    conversation_load_active: bool,
    high_water_ids: Map<i64, i32>,
    now: u64,
    after: UpdateLoopView,
    r: (bool, Seq<LoadedReadAck>),
) -> bool {
    if finished && !conversation_load_active {
        exists|dirty: bool|
            #![trigger updates_replayed((before.0, load_settled(before.1), before.2, Seq::empty()), before.3, false, high_water_ids, now, after, dirty, r.1)]
            {
                &&& updates_replayed(
                    (before.0, load_settled(before.1), before.2, Seq::empty()),
                    before.3,
                    false,
                    high_water_ids,
                    now,
                    after,
                    dirty,
                    r.1,
                )
                &&& r.0 == (still_loading(before.1) || dirty)
            }
    } else {
        after == before && !r.0 && r.1.len() == 0
    }
}

proof fn lemma_conversation_load_settled(
    before: UpdateLoopView,
    conversation_load_active: bool,
    high_water_ids: Map<i64, i32>,
    now: u64,
    after: UpdateLoopView,
    r: (bool, Seq<LoadedReadAck>),
    dirty: bool,
)
    requires
        !conversation_load_active,
        updates_replayed(
            (before.0, load_settled(before.1), before.2, Seq::empty()),
            before.3,
            false,
            high_water_ids,
            now,
            after,
            dirty,
            r.1,
        ),
        r.0 == (still_loading(before.1) || dirty),
    ensures
        conversation_load_settled(before, true, conversation_load_active, high_water_ids, now, after, r),
{
}

/// Settles a conversation load that is over (see `conversation_load_settled`).
pub fn settle_conversation_load(
    schedule: &mut LoopSchedule,
    app: &mut App,
    deferred: &mut DeferredUpdates,
    finished: bool,
    conversation_load_active: bool,
    high_water_ids: &HashMap<i64, i32>,
    now: u64,
) -> (r: (bool, Vec<LoadedReadAck>))
    ensures
        old(app).state.wf() ==> final(app).state.wf(),
        conversation_load_settled(
            (*old(schedule), *old(app), old(deferred).updates@, old(deferred).conversation_updates@),
            finished,
            conversation_load_active,
            high_water_ids@,
            now,
            (*final(schedule), *final(app), final(deferred).updates@, final(deferred).conversation_updates@),
            (r.0, r.1@),
        ),
{
    if !finished || conversation_load_active {
        return (false, Vec::new());
    }
    let was_loading = match app.state.conversation_load_status {
        crate::state::ConversationLoadStatus::Loading => true,
        _ => false,
    };
    if was_loading {
        app.state.mark_conversation_load_failed();
    }
    let ghost settled = (*schedule, *app, deferred.updates@, Seq::<Update>::empty());
    let ghost held = deferred.conversation_updates@;
    let (dirty, acks) = replay_deferred_conversation_updates(schedule, app, deferred, high_water_ids, now);
    let res = (was_loading || dirty, acks);
    proof {
        assert(settled.1 == load_settled(*old(app)));
        assert(was_loading == still_loading(*old(app)));
        assert(updates_replayed(
            (*old(schedule), load_settled(*old(app)), old(deferred).updates@, Seq::empty()),
            old(deferred).conversation_updates@,
            false,
            high_water_ids@,
            now,
            (*schedule, *app, deferred.updates@, deferred.conversation_updates@),
            dirty,
            res.1@,
        ));
        lemma_conversation_load_settled(
            (*old(schedule), *old(app), old(deferred).updates@, old(deferred).conversation_updates@),
            conversation_load_active,
            high_water_ids@,
            now,
            (*schedule, *app, deferred.updates@, deferred.conversation_updates@),
            (res.0, res.1@),
            dirty,
        );
    }
    res
}

/// `app` showing `state`.
pub open spec fn with_state(app: App, state: AppState) -> App {
    App { state, ..app }
}

/// The acknowledgement as a list of at most one.
pub open spec fn ack_seq(ack: Option<LoadedReadAck>) -> Seq<LoadedReadAck> {
    match ack {
        Some(a) => seq![a],
        None => Seq::empty(),
    }
}

/// The held-back conversation updates once a load was shown: when it showed a snapshot
/// of the conversation, those it already shows are dropped.
pub open spec fn kept_after_load(held: Seq<Update>, shown: AppState, snapshot_applied: bool, ids: Option<Map<i64, i32>>) -> Seq<Update> {
    if snapshot_applied {
        held.filter(still_needed(shown, ids))
    } else {
        held
    }
}

/// Whether the open load `chats` remembers is the one `request_id` answers.
pub open spec fn answers_open_request(chats: ChatLoadRequests, request_id: u64) -> bool {
    chats.active_open_request matches Some((id, _)) && id == request_id
}

/// `after` is `before` once conversation load `load` was taken: shown as `shown` with
/// outcome `applied` (see `chat_load_applied`), held-back updates that the shown snapshot
/// already has dropped, and the conversation settled as `settled` when the open load is
/// over (see `conversation_load_settled`); `r` says whether anything is to be redrawn and
/// what to mark read, the load's own acknowledgement first.
pub open spec fn chat_load_taken(
    before: UpdateLoopView,
    old_chats: ChatLoadRequests,
    new_chats: ChatLoadRequests,
    folders: FolderLoadRequests,
    high_water_ids: Map<i64, i32>,
    load: ChatMessageLoadResult,
    now: u64,
    after: UpdateLoopView,
    r: (bool, Seq<LoadedReadAck>),
    shown: AppState,
    applied: (ConversationLoadApply, Option<LoadedReadAck>),
    settled: (bool, Seq<LoadedReadAck>),
) -> bool {
    &&& chat_load_applied(before.1.state, shown, old_chats.latest_request_id, load, applied)
    &&& conversation_load_settled(
        (before.0, with_state(before.1, shown), before.2, kept_after_load(before.3, shown, applied.0.snapshot_applied, None)),
        answers_open_request(old_chats, load.request_id),
        conversation_load_active_spec(with_state(before.1, shown), new_chats, folders),
        high_water_ids,
        now,
        after,
        settled,
    )
    &&& r.0 == (applied.0.dirty || settled.0)
    &&& r.1 == ack_seq(applied.1) + settled.1
}

/// Takes the result of a conversation load (see `chat_load_taken`); the open request it
/// answers is finished.
pub fn take_chat_message_load(
    schedule: &mut LoopSchedule,
    app: &mut App,
    deferred: &mut DeferredUpdates,
    chats: &mut ChatLoadRequests,
    folders: &FolderLoadRequests,
    high_water_ids: &HashMap<i64, i32>,
    load: ChatMessageLoadResult,
    now: u64,
) -> (r: (bool, Vec<LoadedReadAck>))
    ensures
        old(app).state.wf() ==> final(app).state.wf(),
        final(chats).latest_request_id == old(chats).latest_request_id,
        final(chats).active_open_request == if answers_open_request(*old(chats), load.request_id) {
            None
        } else {
            old(chats).active_open_request
        },
        exists|shown: AppState, applied: (ConversationLoadApply, Option<LoadedReadAck>), settled: (bool, Seq<LoadedReadAck>)|
            #![trigger chat_load_taken(
                (*old(schedule), *old(app), old(deferred).updates@, old(deferred).conversation_updates@),
                *old(chats), *final(chats), *folders, high_water_ids@, load, now,
                (*final(schedule), *final(app), final(deferred).updates@, final(deferred).conversation_updates@),
                (r.0, r.1@), shown, applied, settled)]
            chat_load_taken(
                (*old(schedule), *old(app), old(deferred).updates@, old(deferred).conversation_updates@),
                *old(chats),
                *final(chats),
                *folders,
                high_water_ids@,
                load,
                now,
                (*final(schedule), *final(app), final(deferred).updates@, final(deferred).conversation_updates@),
                (r.0, r.1@),
                shown,
                applied,
                settled,
            ),
{
    let finished = chats.finish_open_request(load.request_id);
    let ghost old_held = deferred.conversation_updates@;
    let applied = apply_chat_message_load_result_with_outcome(app, chats.latest_request_id, load);
    let ghost shown = app.state;
    if applied.0.snapshot_applied {
        discard_deferred_conversation_updates_represented_by_snapshot(deferred, app, None);
    }
    proof {
        assert(deferred.conversation_updates@ == kept_after_load(old_held, shown, applied.0.snapshot_applied, None));
    }
    let active = selected_conversation_load_active(app, chats, folders);
    let ghost before = (*schedule, *app, deferred.updates@, deferred.conversation_updates@);
    let settled = settle_conversation_load(schedule, app, deferred, finished, active, high_water_ids, now);
    let mut acks: Vec<LoadedReadAck> = Vec::new();
    if let Some(a) = applied.1 {
        acks.push(a);
    }
    let ghost first = acks@;
    let dirty = applied.0.dirty || settled.0;
    let mut rest = settled.1;
    acks.append(&mut rest);
    let res = (dirty, acks);
    proof {
        assert(first == ack_seq(applied.1));
        assert(before.1 == with_state(*old(app), shown));
        assert(active == conversation_load_active_spec(with_state(*old(app), shown), *chats, *folders));
        assert(finished == answers_open_request(*old(chats), load.request_id));
        assert(chat_load_taken(
            (*old(schedule), *old(app), old(deferred).updates@, old(deferred).conversation_updates@),
            *old(chats),
            *chats,
            *folders,
            high_water_ids@,
            load,
            now,
            (*schedule, *app, deferred.updates@, deferred.conversation_updates@),
            (res.0, res.1@),
            shown,
            applied,
            (settled.0, settled.1@),
        ));
    }
    res
}

/// `after` is `before` once folder load `load` was taken: shown as `shown` with outcome
/// `applied` (see `folder_load_applied`), held-back updates that the shown snapshot (with
/// the chats' last message ids `ids`, when known) already has dropped, and the
/// conversation settled as `settled` when the folder load is over (see
/// `conversation_load_settled`); `r` says whether anything is to be redrawn and what to
/// mark read, the load's own acknowledgement first.
pub open spec fn folder_load_taken(
    before: UpdateLoopView,
    old_folders: FolderLoadRequests,
    new_folders: FolderLoadRequests,
    chats: ChatLoadRequests,
    high_water_ids: Map<i64, i32>,
    load: FolderChatLoadResult,
    ids: Option<Map<i64, i32>>,
    now: u64,
    after: UpdateLoopView,
    r: (bool, Seq<LoadedReadAck>),
    shown: AppState,
    applied: (ConversationLoadApply, Option<LoadedReadAck>),
    settled: (bool, Seq<LoadedReadAck>),
) -> bool {
    &&& folder_load_applied(before.1.state, shown, old_folders.latest_request_id, load, applied)
    &&& conversation_load_settled(
        (before.0, with_state(before.1, shown), before.2, kept_after_load(before.3, shown, applied.0.snapshot_applied, ids)),
        old_folders.active_request_id == Some(load.request_id),
        conversation_load_active_spec(with_state(before.1, shown), chats, new_folders),
        high_water_ids,
        now,
        after,
        settled,
    )
    &&& r.0 == (applied.0.dirty || settled.0)
    &&& r.1 == ack_seq(applied.1) + settled.1
}

/// Takes the result of a folder load (see `folder_load_taken`); the folder request it
/// answers is finished.
pub fn take_folder_chat_load(
    schedule: &mut LoopSchedule,
    app: &mut App,
    deferred: &mut DeferredUpdates,
    folders: &mut FolderLoadRequests,
    chats: &ChatLoadRequests,
    high_water_ids: &HashMap<i64, i32>,
    load: FolderChatLoadResult,
    chat_last_message_ids: Option<&HashMap<i64, i32>>,
    now: u64,
) -> (r: (bool, Vec<LoadedReadAck>))
    ensures
        old(app).state.wf() ==> final(app).state.wf(),
        final(folders).latest_request_id == old(folders).latest_request_id,
        final(folders).active_request_id == if old(folders).active_request_id == Some(load.request_id) {
            None
        } else {
            old(folders).active_request_id
        },
        exists|shown: AppState, applied: (ConversationLoadApply, Option<LoadedReadAck>), settled: (bool, Seq<LoadedReadAck>)|
            #![trigger folder_load_taken(
                (*old(schedule), *old(app), old(deferred).updates@, old(deferred).conversation_updates@),
                *old(folders), *final(folders), *chats, high_water_ids@, load, ids_view(chat_last_message_ids), now,
                (*final(schedule), *final(app), final(deferred).updates@, final(deferred).conversation_updates@),
                (r.0, r.1@), shown, applied, settled)]
            folder_load_taken(
                (*old(schedule), *old(app), old(deferred).updates@, old(deferred).conversation_updates@),
                *old(folders),
                *final(folders),
                *chats,
                high_water_ids@,
                load,
                ids_view(chat_last_message_ids),
                now,
                (*final(schedule), *final(app), final(deferred).updates@, final(deferred).conversation_updates@),
                (r.0, r.1@),
                shown,
                applied,
                settled,
            ),
{
    let finished = folders.finish_request(load.request_id);
    let ghost old_held = deferred.conversation_updates@;
    let applied = apply_folder_chat_load_result_with_outcome(app, folders.latest_request_id, load);
    let ghost shown = app.state;
    if applied.0.snapshot_applied {
        discard_deferred_conversation_updates_represented_by_snapshot(deferred, app, chat_last_message_ids);
    }
    proof {
        assert(deferred.conversation_updates@ == kept_after_load(
            old_held,
            shown,
            applied.0.snapshot_applied,
            ids_view(chat_last_message_ids),
        ));
    }
    let active = selected_conversation_load_active(app, chats, folders);
    let settled = settle_conversation_load(schedule, app, deferred, finished, active, high_water_ids, now);
    let mut acks: Vec<LoadedReadAck> = Vec::new();
    if let Some(a) = applied.1 {
        acks.push(a);
    }
    let ghost first = acks@;
    let dirty = applied.0.dirty || settled.0;
    let mut rest = settled.1;
    acks.append(&mut rest);
    let res = (dirty, acks);
    proof {
        assert(first == ack_seq(applied.1));
        assert(folder_load_taken(
            (*old(schedule), *old(app), old(deferred).updates@, old(deferred).conversation_updates@),
            *old(folders),
            *folders,
            *chats,
            high_water_ids@,
            load,
            ids_view(chat_last_message_ids),
            now,
            (*schedule, *app, deferred.updates@, deferred.conversation_updates@),
            (res.0, res.1@),
            shown,
            applied,
            (settled.0, settled.1@),
        ));
    }
    res
}

// ----- what a reconciliation reads -----

/// The first of `folders[k..]` with this id.
pub open spec fn folder_position(folders: Seq<Folder>, folder_id: i32, k: int) -> Option<int>
    decreases folders.len() - k,
{
    if k < 0 || k >= folders.len() {
        None
    } else if folders[k].id == folder_id {
        Some(k)
    } else {
        folder_position(folders, folder_id, k + 1)
    }
}

/// The folder a reconciliation reads: the one with the id it was asked for, when there is
/// one, else the first folder; none without folders. Returns its id and the chat filter
/// it stands for (none for the "all chats" folder).
pub open spec fn reconciliation_folder_spec(folders: Seq<Folder>, wanted: Option<i32>) -> Option<(i32, Option<i32>)> {
    let found = match wanted {
        Some(id) => folder_position(folders, id, 0),
        None => None,
    };
    let chosen = match found {
        Some(i) => Some(i),
        None => if folders.len() > 0 { Some(0int) } else { None },
    };
    match chosen {
        Some(i) => Some((folders[i].id, crate::state::folder_filter_id_spec(folders[i]))),
        None => None,
    }
}

pub fn reconciliation_folder(folders: &Vec<Folder>, wanted: Option<i32>) -> (r: Option<(i32, Option<i32>)>)
    ensures
        r == reconciliation_folder_spec(folders@, wanted),
{
    if let Some(id) = wanted {
        let mut k: usize = 0;
        while k < folders.len()
            invariant
                k <= folders@.len(),
                wanted == Some(id),
                folder_position(folders@, id, 0) == folder_position(folders@, id, k as int),
            decreases folders.len() - k,
        {
            if folders[k].id == id {
                assert(folder_position(folders@, id, k as int) == Some(k as int));
                return Some((folders[k].id, crate::state::folder_filter_id(&folders[k])));
            }
            k += 1;
        }
    }
    if folders.len() > 0 {
        Some((folders[0].id, crate::state::folder_filter_id(&folders[0])))
    } else {
        None
    }
}

/// The chat a reconciliation reads: the one with the id it was asked for, when it is
/// among the chats, else the first chat; none without chats.
pub open spec fn reconciliation_chat_spec(chats: Seq<Chat>, wanted: Option<i64>) -> Option<i64> {
    match wanted {
        Some(id) if chat_position(chats, id, 0) is Some => Some(id),
        _ => if chats.len() > 0 { Some(chats[0].id) } else { None },
    }
}

pub fn reconciliation_chat(chats: &Vec<Chat>, wanted: Option<i64>) -> (r: Option<i64>)
    ensures
        r == reconciliation_chat_spec(chats@, wanted),
{
    if let Some(id) = wanted {
        let mut k: usize = 0;
        while k < chats.len()
            invariant
                k <= chats@.len(),
                wanted == Some(id),
                chat_position(chats@, id, 0) == chat_position(chats@, id, k as int),
            decreases chats.len() - k,
        {
            if chats[k].id == id {
                assert(chat_position(chats@, id, k as int) == Some(k as int));
                return Some(id);
            }
            k += 1;
        }
    }
    if chats.len() > 0 {
        Some(chats[0].id)
    } else {
        None
    }
}

/// The topic a reconciliation reads: the one it was asked for, only while the chat
/// still has it.
pub open spec fn reconciliation_topic_spec(topics: Seq<ThreadTopic>, wanted: Option<i32>) -> Option<i32> {
    match wanted {
        Some(id) if topic_position(topics, id, 0) is Some => Some(id),
        _ => None,
    }
}

pub fn reconciliation_topic(topics: &Vec<ThreadTopic>, wanted: Option<i32>) -> (r: Option<i32>)
    ensures
        r == reconciliation_topic_spec(topics@, wanted),
{
    if let Some(id) = wanted {
        let mut k: usize = 0;
        while k < topics.len()
            invariant
                k <= topics@.len(),
                wanted == Some(id),
                topic_position(topics@, id, 0) == topic_position(topics@, id, k as int),
            decreases topics.len() - k,
        {
            if topics[k].id == id {
                assert(topic_position(topics@, id, k as int) == Some(k as int));
                return Some(id);
            }
            k += 1;
        }
    }
    None
}

} // verus!
