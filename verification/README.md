# smart_review

The state of a terminal program for reviewing pull requests, with its behaviour stated as
contracts and proved by Verus: what a key, a click or a finished job does to it, and what each part
of the screen then says.

- `src/` is the library.
  - `app*.rs` hold the state and its transitions: keys (`app_keys`), the mouse (`app_mouse`),
    finished jobs (`app_jobs`), popups and themes (`app_overlay`), models (`app_models`), the
    analysis (`app_analysis`) and the conversation (`app_chat`).
  - `diff_view`, `rows`, `split`, `tree`, `plan` and `patch` hold the diff: its rows, the
    side-by-side view, the file tree and the reading order. `diff_laws` and `tree_laws` state what
    holds of them as a whole, as `action_laws` and `action_ids` do for the registry of actions.
  - `drafts`, `draft`, `discussion`, `chat`, `session`, `model_picker`, `list_view`, `notices` and
    `panel` hold the other parts of the state.
  - `components/` says what each part of the screen shows, as lines (`paint`) in rectangles
    (`layout`).
  - `text`, `layout` and `time` call `ratatui` and `chrono`.
- `app/` draws those lines with `ratatui`, reads events with `crossterm` and runs the editor.
- `tests/` runs the library on concrete values.
