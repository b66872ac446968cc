# dumbgram

The verified core of Dumbgram, a small terminal Telegram client. Everything under
`src/` is checked by Verus: each public function states in its contract what it returns
and how it changes the client state, and the laws of the library are proof functions.

## Layout

- `src/state.rs`, `src/types.rs` — the client state and the chats, folders, topics and
  messages it holds; `AppState::wf` is kept by every operation.
- `src/*_keys.rs`, `src/compose.rs`, `src/menu.rs`, `src/dispatch.rs` — what a key, a
  submitted input or a context menu entry does, and the work it leaves for the event loop.
- `src/mouse_events.rs`, `src/mouse_state.rs`, `src/layout.rs` — hit testing on the last
  frame: tabs, chat rows, wrapped message rows and links, the divider and the menu.
- `src/actions.rs`, `src/session.rs`, `src/conversation.rs`, `src/downloads.rs` — applying
  what Telegram answered: loads, sends, edits, replies, deletions, downloads, previews.
- `src/event_loop.rs`, `src/reconcile.rs`, `src/requests.rs` — frame pacing, the
  reconciliation and subscription schedule, received updates and the updates held back
  while loads run, and the request ids of background loads.
- `src/links.rs`, `src/text.rs` — link detection and text helpers.
- `src/cli.rs`, `src/config.rs`, `src/paths.rs`, `src/pathstr.rs`, `src/preferences.rs` —
  command line, configuration and preference values.
- `src/export.rs` — the chat export document.
- `app/` — the command-line program around the library: arguments, configuration and
  preference files, converting terminal key and mouse events, opening links and files,
  the diagnostics log and the JSON export writer. It runs `--help` and `--check-config`;
  the Telegram client, the terminal interface and the mock backend are not part of this
  program, so the other modes stop with an error.
