# workbench

The rules of a local multi-agent workbench daemon, written in Verus and
proved against their contracts: the versioned NDJSON protocol (commands,
events, replies, bounded subscription queues), the MCP gateway's pinning,
policy, HTTP framing and redaction, the `OpenRouter` adapter's budget, stream
decoding and attempt slot, and the daemon's session folding, recovery,
cancellation, reconciliation and status decisions.

Layout:

- `src/` — the verified library. `protocol/`, `mcp/`, `openrouter/` and
  `daemon/` follow the components; `json.rs` holds the library's model of a
  JSON document, `text.rs` the character and string helpers, `digest.rs` and
  `failure.rs` what the components share.
- `tests/` — tests of the library, run against the real outside crates.
- `app/` — what stays outside the proofs: file system and socket work, the
  serde encodings of the library's types, float costs, and the conversions
  between `serde_json::Value` and the library's JSON model.
