//! Verified core of a small terminal Telegram client: link detection, text layout,
//! application state, keyboard and mouse decisions, command-line parsing and the
//! chat export document model.

pub mod actions;
pub mod app;
pub mod app_keys;
pub mod chat_keys;
pub mod cli;
pub mod dispatch;
pub mod downloads;
pub mod compose;
pub mod config;
pub mod conversation;
pub mod confirm_keys;
pub mod event_loop;
pub mod export;
pub mod folder_keys;
pub mod global_keys;
pub mod input_keys;
pub mod keys;
pub mod layout;
pub mod links;
pub mod live;
pub mod menu;
pub mod message_keys;
pub mod mouse_events;
pub mod mouse_state;
pub mod paths;
pub mod pathstr;
pub mod preferences;
pub mod reconcile;
pub mod requests;
pub mod session;
pub mod state;
pub mod text;
pub mod theme;
pub mod types;
