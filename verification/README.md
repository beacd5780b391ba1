# trumpet

An agent nexus daemon: agents register, share tools, exchange chat messages
and hand each other A2A tasks through one local daemon reached over a Unix
socket.

## Layout

- `src/` — the library, written in Verus and verified: the agent, tool,
  task, chat and push-notification stores with their contracts and laws,
  the task state machine, configuration layering and validation, the
  code-tools sandbox, the HTTP/SSE wire handling, the MCP request routing and
  prompt texts, the A2A paging and agent card, and the snapshot encryption.
- `app/` — the `trumpet` binary around the library: command-line parsing,
  the daemon's HTTP, WebSocket and MCP servers, file and socket I/O,
  signals, and JSON/TOML/MessagePack encoding.
- `tests/` — tests of the library on concrete values.

`app/` reads files, sockets, signals and the environment, encodes and decodes
JSON and MessagePack, and hands the text and values it read to the library,
which decides what they mean; configuration documents are parsed and
layered in `src/`.
