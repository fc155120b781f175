# web-browser-lsp

A text-based web browser served as a language server. The library in `src/`
holds the server's decisions, verified with Verus; `app/` is the program
that runs them over stdin and stdout.

- `src/worker.rs`, `src/worker/lsp.rs`: what the server answers to each
  request and notification (shutdown, the tab request, formatting, exit),
  and its state (whether shutdown was asked, the tab).
- `src/message.rs`: the JSON-RPC messages as plain values.
- `src/capabilities.rs`: what client and server tell each other at
  initialization.
- `src/wire.rs`: the calls into serde_json and lsp_types, trusted.
- `src/decimal.rs`, `src/lib.rs`: decimal notation and the per-process
  scratch directory.
- `src/tab.rs`: the browser tab and the text of its buffer.
- `src/server.rs`, `src/lsp_ext.rs`: the browser server and its protocol
  extension (the tab request).
