# rttx

The client model of rttx, a terminal workspace manager whose workspaces
live in a local or remote daemon, written as a Verus library: every
function in `src/` carries a contract that Verus proves.

## Layout

- `src/session/` — the layout tree of a workspace (splits, terminals,
  swapping, depth limits), pane recovery recipes and session state.
- `src/runtime.rs` — managed runtimes: endpoints, placeholder bindings,
  connection problems and statuses, and how they are presented.
- `src/daemon.rs`, `src/daemon_bridge.rs`, `src/daemon_bridge/actor.rs` —
  the daemon connection: error texts, frame boundaries, the heartbeat,
  reconnect back-off, and the endpoint actor's decisions as a state machine
  from (state, event) to (state, effects).
- `src/store/` — the persisted documents: envelopes and their validation,
  the load protocol with backup recovery, document models, migrations and
  configuration export.
- `src/bookmarks.rs`, `src/places.rs`, `src/commands.rs`, `src/host.rs`,
  `src/leader.rs`, `src/shortcuts.rs`, `src/color_scheme.rs`,
  `src/preferences.rs`, `src/config.rs` — the user's library of places,
  commands and hosts, key bindings, palettes, preferences and profiles.
- `src/*_window.rs`, `src/form_dialog.rs`, `src/host_tag_picker.rs`,
  `src/parameter_dialog.rs`, `src/listing.rs`, `src/sidebar.rs` — what the
  dialogs decide: form validation, pickers, sectioned lists, labels.
- `src/text.rs`, `src/order.rs`, `src/seqs.rs`, `src/str_map.rs` — text
  operations, string order, sequence lemmas and a sorted string-keyed map.
- `app/` — the I/O edge: environment lookups, JSON files on disk (serde
  forms of the library's types), export files and log retention on disk.
- `tests/` — tests of the library on concrete values.

`uuid` is called from `src/` behind trusted wrappers (`src/ids.rs`);
`serde` and `serde_json` are used by `app/`.
