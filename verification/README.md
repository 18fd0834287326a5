# rockbot_tui

The state and rules of the RockBot terminal interface, verified with Verus.

`src/` is the library. Every function there carries a contract that Verus
proves:

- `app_state`, `navigation`, `active_chat`, `chat_state`, `chat_input`,
  `chat_send`: the application state, how gateway messages update it, page
  and list navigation, the per-session chats, the chat input line and
  sending.
- `keys`, `keybindings`, `input`: key events, the keybinding grammar
  (parse and display) and its lookup, and what keys mean in text fields.
- `credential_forms`, `provider_form`, `agent_form`, `session_form`,
  `permission_form`, `schemas`, `modes`: the modal forms and input modes.
- `editor`, `line_edit`: the context-file editor and the input line, with
  byte-offset cursors over UTF-8 text.
- `slots`, `menu`, `widgets`, `ui_model`, `geometry`: the card bar, the
  menu, small texts drawn by the interface, and screen rectangles.
- `codec`, `agent_config`, `text`: base64, the agent configuration edits,
  and character-level helpers.
- `laws`: properties spanning several operations.

`app/` holds what the library cannot: the terminal (raw mode, events),
conversions from the terminal backend's key types, serde forms of the
keybinding configuration, and colours and animations.

`tests/` exercises the library on concrete values.
