# macronx_tui

A keyboard-driven terminal client for the inbox workflows of a Macronx API:
list inboxes, inspect one, refresh the list, and create an entry with JSON
payload and metadata.

The decisions of the client are a Verus-verified library under `src/`:

- `form`: the screens and the create form (active field, editing, clearing).
- `app`: the client state as a state machine. A key press or an API reply
  gives the next state and the request (`Action`) to make; every transition
  is proved against a specification over `AppView`, and keeps the invariant
  `AppView::wf`. The proof functions named `law_*` state the properties that
  span several transitions.
- `json`: which form texts count as JSON (through `serde_json`) or as blank.
- `dates`: the human-readable rendering of the API's timestamps.
- `endpoints`, `config`: the API addresses, the `Authorization` value, and
  the settings with their default.
- `display`: what the screens show (input boxes, status line, popup area).
- `models`, `text`: the API records and string helpers.

`app/` is the program around it: it reads the environment and the terminal,
performs the HTTP requests with `reqwest`, and draws with `ratatui`.
