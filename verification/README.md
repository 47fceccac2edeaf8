# studio_bridge

The logic of a bridge between Roblox Studio and remote tools, written in Verus. Two programs share it:

- the hub hands tasks out to helpers, follows their heartbeats, and drains helpers that are blocked;
- the helper runs beside Studio, claims tasks, routes commands to the plugins of those tasks, stops and
  launches sessions, sends screenshots and logs on, and keeps one connection per task.

## Layout

- `src/` is the library. `hub` and `helper` hold the two state machines, each a plain value with
  functions from a state and an event to the next state and a reply. The other modules are what both
  use: texts, tables, clocks, identifiers, URLs, JSON, the folders of the user, and the messages on the
  socket.
- `tests/` runs the library on concrete values.
- `app/` holds the programs: HTTP, web sockets, processes, files and JSON. It reads the clock and hands
  the library the present moment.

Contracts speak of the view of each type (`TaskRecordView`, `HelperStateView` and so on). What holds
across several functions stands as public proof functions whose names begin with `law_`.

## What is believed without proof

`text` (`String::push`, `str::to_lowercase`, `String::from_utf8_lossy`), `debug` (the `Debug` form of a text), `ids` (`uuid`),
`encoding` (`base64`), `json` (`serde_json`) and `pattern` (`regex`) wrap functions from outside the
library. Each wrapper says what it claims of its function.
