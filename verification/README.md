# cursor_api

The request-shaping core of an OpenAI-compatible chat proxy in front of the
Cursor upstream, verified with Verus.

- `src/version.rs`: the Cursor client version, its `major.minor.patch` text
  (written and read back losslessly) and its in-memory byte image.
- `src/model.rs` and `src/model/`: the chat-completion wire model.
- `src/adapter.rs`: image data URLs, tools and tool results.
- `src/plan.rs`: the instructions and the conversation a request becomes.
- `src/upstream.rs`: the upstream messages built from the plan (kinds,
  server bubble ids, modes, images, links, web references, tool results,
  supported tools), which error a failing step gives, and why reordering
  the messages keeps the outcome.
- `src/completions.rs`: refusing a request, continuing a tool call, or
  starting a conversation.
- `app/`: the request path around the library, the JSON forms of the model (serde), the process-wide version
  headers, and conversions to the `image` and `http` crates.
