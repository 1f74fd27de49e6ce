# uni_llm

One client for the chat APIs of several model vendors: OpenAI and the
services that speak its protocol (DeepSeek, DashScope, GLM, Ollama),
Anthropic, Google Gemini and Baidu Wenxin; plus the DashScope request,
response, streaming and task types.

The library in `src/` is written in Verus and verified. It decides
everything that does not need the network: request bodies (as JSON trees
with a mathematical model), URLs and headers, the reading of answers,
error classification, the retry backoff and the fallback chain (as state
machines whose steps are verified), server-sent-event framing, and the
configuration defaults. Its contracts state each result exactly over spec
functions; the laws that span several calls are public proof functions.

`app/` is plain Rust around it: TOML loading, logging, the reqwest
transport, the async client that runs the state machines, and the serde
forms of the data types. `tests/` exercises the library on concrete values.

Layout of `src/`:

- `text.rs`, `json.rs`: strings and JSON, with their models;
- `config.rs`, `error.rs`, `types.rs`: configuration, errors, chat types;
- `providers/`: one module per vendor protocol, and provider creation;
- `client.rs`: settings, request building, retry and fallback machines;
- `request.rs`, `response.rs`, `stream.rs`, `task.rs`: the DashScope types.
