# orbolay

The logic of a Discord voice and notification overlay, verified with Verus.

- `src/` — the verified library: configuration and its defaults (`config`),
  colour parsing (`colors`), voice-channel members (`user`), the bridge
  protocol's state changes (`websocket`), the RPC commands and IPC framing
  (`rpc`), the access-token exchange decisions (`auth`), what the voice
  section shows (`components`), key bindings (`keys`, `overlay`), monitor
  choice (`display`), instance detection (`process`) and the avatar cache
  (`image`), configuration reloads and redraw syncing (`sync`). `payloads` holds the message records; `text` the string
  operations the rest is built on.
- `app/` — the program around it: command line, configuration file, the
  websocket server, the IPC socket, HTTP, the keyboard hook and X11.
- `tests/` — tests of the library on concrete values.
