# term-cat

A terminal chat client for local OpenAI-compatible LLM servers, with a
tool-calling loop, built around a library whose logic is proved with Verus.

- `src/` — the verified library: wire types and the lowering of streamed
  chunks into events, the SSE line grammar, the channel-marker filter, the
  tool-call accumulator and the tool-calling state machine, the input
  buffer, the chat history, key mapping, the application state machine, the
  frame decisions, what the screen shows, request shaping and response
  checks, and error messages.
- `app/` — the program around it: environment configuration, HTTP and SSE
  transport (`ureq`), JSON encoding (`serde`), tool execution (`rig-cat`),
  the producer thread (`comp-cat-rs`) and the terminal (`crossterm`,
  `ratatui`).
- `tests/` — tests of the library on concrete values.
