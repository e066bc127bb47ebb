# trae_acp_gateway

An OpenAI-compatible local gateway in front of an ACP agent (the Trae CLI):
`/v1/chat/completions` and `/v1/models` requests are turned into ACP
JSON-RPC turns with a spawned agent process, and the agent's answers are
turned back into OpenAI responses (buffered or streamed as SSE).

## Layout

- `src/` — the verified library (Verus). Every decision of the gateway lives
  here with its contract:
  - `json.rs`: JSON values as the protocol logic reads and builds them.
  - `acp.rs`: what the agent sends (ids, messages, updates, usage).
  - `agent.rs`: answering agent requests (permission policy), reading
    `session/new` results (session id, advertised models), classifying the
    agent's messages, and the request / prompt-turn state machine.
  - `openai.rs`: flattening chat messages into one prompt; completion,
    chunk, usage, error and model-list bodies.
  - `http.rs`: what each HTTP endpoint answers for a request and a turn result.
  - `path.rs`: joining paths by the rules of `Path::join` on Unix and on
    Windows (drive, UNC, device and verbatim prefixes).
  - `config.rs`: command-line settings, workdir expansion, agent command
    resolution, `PATH` for the agent.
  - `update.rs`: release assets, version comparison (via `semver`), update
    check reports and plans, notification texts, settings path.
  - `logs.rs`, `desktop.rs`: the tray app's bounded log window, its
    settings, and the decisions of its gateway supervision (start, stop,
    toggle, restart after saving, crash detection).
  - `text.rs`: character-level string helpers.
- `app/` — the program around it: argument parsing, the HTTP server, the agent
  subprocess and its pipes, GitHub downloads, files and the environment.
- `tests/` — tests of the library.
