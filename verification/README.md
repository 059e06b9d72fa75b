# twitch_tui

A terminal client for Twitch: browse saved, followed and category streams,
search channels, watch streams and videos with streamlink, chat over IRC, and
get a desktop notice when a saved channel goes live.

The crate is in two parts.

- `src/` is the library, verified with Verus: the client state and what each
  key and each background result does to it, the Helix request addresses and
  headers and what the answers become, chat wrapping and mention detection,
  viewer-count and uptime formatting, the thumbnail cache and layout, the
  text of every pane, and the notices to send. `src/laws.rs` states the
  properties that hold across operations (the selection stays in the list,
  the chat stays bounded, a page is appended, a second poll sends no notice,
  and so on).
- `app/` is the terminal program around it: the event loop, the terminal
  drawing with ratatui, HTTP with reqwest, IRC with twitch-irc, SQLite with
  rusqlite, the settings file with serde and toml, and the player and
  notification commands.

Settings live in `config.toml` in the configuration directory (on Linux
`~/.config/twitch-tui/`), with `[twitch] client_id`, `oauth_token` and
`username`, and `poll_interval_secs`, `default_quality`,
`notifications_enabled` and `chat_enabled`.
