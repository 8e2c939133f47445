# mcp-poc

A Theater actor that translates the requests of other actors for a Model Context Protocol (MCP)
server, which it runs as a child process and talks to over standard input and output.

- `src/` is the verified library. It decides what the actor does; it does no input or output.
  - `actor`: the handlers, one for each event of the runtime.
  - `turn`: what a handler asks of the runtime, and how it goes on with the replies.
  - `state`: the state of the actor, and the sending of requests from it.
  - `message`, `process`: the messages, and how the server is started.
  - `json`, `text`: compact JSON text, lines and numbers.
  - `laws`: what holds of whole turns and of sequences of them.
- `app/` is ordinary Rust around it: the runtime's calls, and the serde forms of what is stored
  and read.
- `tests/` runs the library.

What a handler does with a reply of the runtime is verified for every reply. The library rests
on the contracts of a few wrappers around `serde_json`, all in `src/json.rs`, and one around
`String::from_utf8`, in `src/text.rs`.
