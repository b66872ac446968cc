//! Routing one terminal event: keys to the context menu, the global keys, the input or the
//! panels; mouse events to the wheel and click handlers; focus changes to the divider drag
//! and the reconciliation schedule. What is left to do comes back to the event loop.

use crate::app::App;
use crate::compose::{handle_input_focused, input_focused_done, InputWork};
use crate::event_loop::{focus_reconciliation_scheduled, LoopSchedule, TerminalAction};
use crate::global_keys::{global_key_consumes, global_key_done, handle_global_key, GlobalKeyOutcome};
use crate::keys::{KeyCode, KeyEvent};
use crate::menu::{
    execute_context_menu_action, handle_context_menu_key, menu_action_done, menu_key_done, mouse_routed,
    route_mouse_event, ContextMenuKeyOutcome, MenuEffect,
};
use crate::mouse_events::{MouseButton, MouseClickOutcome, MouseEventKind};
use crate::session::{
    handle_normal_navigation, navigation_done, status_reported, NavigationAction, REFRESHING_LATEST_BEFORE_SEND_STATUS,
    SENDING_REPLY_STATUS,
};
use crate::state::{AppState, FocusedPanel};
use vstd::prelude::*;

verus! {

/// The work a key leaves for the event loop.
#[derive(Debug, Clone)]
pub enum KeyWork {
    Nothing,
    /// From an entry taken in the context menu.
    Menu(MenuEffect),
    /// From the input.
    Input(InputWork),
    /// From the panels.
    Navigation(NavigationAction),
}

/// What a key does. While a send or reply is held back until the newest messages are
/// loaded, every key only reports that; while a reply is on its way, Enter only reports it. While a context
/// menu is open the menu takes it; Enter on a highlighted
/// entry takes that entry (see `menu_action_done`). Otherwise a global key takes it when
/// it can; else the input takes it when focused (see `input_focused_done`), and the panels
/// otherwise (see `navigation_done`).
pub open spec fn key_event_done(old: App, new: App, key: KeyEvent, timestamp: i64, now: u64, r: KeyWork) -> bool {
    if old.state.gap_submit is Some {
        &&& r is Nothing
        &&& status_reported(old.state, new.state, REFRESHING_LATEST_BEFORE_SEND_STATUS@)
        &&& new.should_quit == old.should_quit
        &&& new.preferences_path == old.preferences_path
    } else if old.state.reply_submission is Some && key.code == KeyCode::Enter {
        &&& r is Nothing
        &&& status_reported(old.state, new.state, SENDING_REPLY_STATUS@)
        &&& new.should_quit == old.should_quit
        &&& new.preferences_path == old.preferences_path
    } else if old.state.context_menu is Some {
        let m = old.state.context_menu->0;
        if key.code == KeyCode::Enter && m.highlighted < m.actions@.len() {
            r matches KeyWork::Menu(e) && menu_action_done(
                App { state: AppState { context_menu: None, ..old.state }, ..old },
                new,
                m.target,
                m.actions@[m.highlighted as int],
                e,
            )
        } else {
            &&& r is Nothing
            &&& menu_key_done(old.state, new.state, key, ContextMenuKeyOutcome::Handled)
            &&& new.should_quit == old.should_quit
            &&& new.preferences_path == old.preferences_path
        }
    } else if global_key_consumes(old.state, key) {
        &&& r is Nothing
        &&& global_key_done(old.state, new.state, key, GlobalKeyOutcome::Handled)
        &&& new.should_quit == old.should_quit
        &&& new.preferences_path == old.preferences_path
    } else if old.state.focused_panel == FocusedPanel::Input {
        r matches KeyWork::Input(w) && input_focused_done(old, new, key, timestamp, now, w)
    } else {
        &&& r matches KeyWork::Navigation(a) && navigation_done(old, new, key, a)
        &&& new.preferences_path == old.preferences_path
    }
}

/// Handles a key at `now` (see `key_event_done`); `timestamp` stamps a message sent by it.
#[verifier::spinoff_prover]
pub fn handle_key_event(app: &mut App, key: KeyEvent, timestamp: i64, now: u64) -> (r: KeyWork)
    requires
        old(app).state.wf(),
    ensures
        final(app).state.wf(),
        key_event_done(*old(app), *final(app), key, timestamp, now, r),
{
    if app.state.gap_submit_pending() {
        app.state.set_status(REFRESHING_LATEST_BEFORE_SEND_STATUS);
        return KeyWork::Nothing;
    }
    if app.state.reply_submission_pending() && key.code == KeyCode::Enter {
        app.state.set_status(SENDING_REPLY_STATUS);
        return KeyWork::Nothing;
    }
    match handle_context_menu_key(&mut app.state, key) {
        ContextMenuKeyOutcome::Take(target, action) => {
            return KeyWork::Menu(execute_context_menu_action(app, target, action));
        },
        ContextMenuKeyOutcome::Handled => return KeyWork::Nothing,
        ContextMenuKeyOutcome::NoMenu => {},
    }
    if handle_global_key(&mut app.state, key) == GlobalKeyOutcome::Handled {
        return KeyWork::Nothing;
    }
    if app.state.focused_panel == FocusedPanel::Input {
        KeyWork::Input(handle_input_focused(app, key, timestamp, now))
    } else {
        KeyWork::Navigation(handle_normal_navigation(app, key))
    }
}

/// The work a terminal event leaves for the event loop.
#[derive(Debug, Clone)]
pub enum EventWork {
    Nothing,
    Key(KeyWork),
    Mouse(MouseClickOutcome),
}

/// What handling a terminal event asks of the event loop besides its work: whether to
/// draw a new frame, and whether to save the preferences.
#[derive(Debug, Clone)]
pub struct Dispatched {
    pub dirty: bool,
    pub save_preferences: bool,
    pub work: EventWork,
}

/// What a terminal event does. A key (see `key_event_done`) or a mouse event (see
/// `mouse_routed`) is handled and redrawn; releasing the left button ends a divider drag
/// and saves the preferences. A resize only redraws. Losing focus ends a divider drag,
/// saving the preferences. Regaining focus schedules a reconciliation when the state is
/// stale (see `focus_reconciliation_scheduled`) without a redraw. Other events do
/// nothing.
pub open spec fn event_dispatched(
    old_app: App,
    new_app: App,
    old_schedule: LoopSchedule,
    new_schedule: LoopSchedule,
    action: TerminalAction,
    now: u64,
    timestamp: i64,
    r: Dispatched,
) -> bool {
    match action {
        TerminalAction::Key(key) => {
            &&& r.dirty && !r.save_preferences
            &&& r.work matches EventWork::Key(w) && key_event_done(old_app, new_app, key, timestamp, now, w)
            &&& new_schedule == old_schedule
        },
        TerminalAction::Mouse(ev) => {
            &&& r.dirty
            &&& r.save_preferences == (old_app.state.split_drag_active && ev.kind == MouseEventKind::Up(MouseButton::Left))
            &&& r.work matches EventWork::Mouse(o) && mouse_routed(old_app.state, new_app.state, ev, o)
            &&& new_app == (App { state: new_app.state, ..old_app })
            &&& new_schedule == old_schedule
        },
        TerminalAction::Resize => {
            &&& r.dirty && !r.save_preferences && r.work is Nothing
            &&& new_app == old_app && new_schedule == old_schedule
        },
        TerminalAction::FocusLost => {
            &&& r.dirty && r.work is Nothing
            &&& r.save_preferences == old_app.state.split_drag_active
            &&& new_app == (App { state: AppState { split_drag_active: false, ..old_app.state }, ..old_app })
            &&& new_schedule == old_schedule
        },
        TerminalAction::FocusGained => {
            &&& !r.dirty && !r.save_preferences && r.work is Nothing
            &&& new_app == old_app
            &&& new_schedule == focus_reconciliation_scheduled(old_schedule, now)
        },
        TerminalAction::Ignore => {
            &&& !r.dirty && !r.save_preferences && r.work is Nothing
            &&& new_app == old_app && new_schedule == old_schedule
        },
    }
}

/// Handles a terminal event at `now` (see `event_dispatched`); `timestamp` stamps a
/// message sent by it.
pub fn dispatch_terminal_event(app: &mut App, schedule: &mut LoopSchedule, action: TerminalAction, now: u64, timestamp: i64) -> (r: Dispatched)
    requires
        old(app).state.wf(),
    ensures
        final(app).state.wf(),
        event_dispatched(*old(app), *final(app), *old(schedule), *final(schedule), action, now, timestamp, r),
{
    match action {
        TerminalAction::Key(key) => {
            let work = handle_key_event(app, key, timestamp, now);
            Dispatched { dirty: true, save_preferences: false, work: EventWork::Key(work) }
        },
        TerminalAction::Mouse(mouse_event) => {
            let was_dragging = app.state.split_drag_active;
            let released = match mouse_event.kind {
                MouseEventKind::Up(MouseButton::Left) => true,
                _ => false,
            };
            let outcome = route_mouse_event(&mut app.state, mouse_event);
            Dispatched { dirty: true, save_preferences: was_dragging && released, work: EventWork::Mouse(outcome) }
        },
        TerminalAction::Resize => Dispatched { dirty: true, save_preferences: false, work: EventWork::Nothing },
        TerminalAction::FocusLost => {
            let was_dragging = app.state.split_drag_active;
            if was_dragging {
                app.state.end_split_drag();
            }
            Dispatched { dirty: true, save_preferences: was_dragging, work: EventWork::Nothing }
        },
        TerminalAction::FocusGained => {
            schedule.schedule_focus_reconciliation(now);
            Dispatched { dirty: false, save_preferences: false, work: EventWork::Nothing }
        },
        TerminalAction::Ignore => Dispatched { dirty: false, save_preferences: false, work: EventWork::Nothing },
    }
}

} // verus!
