# aeron-cache-embedded-client

A client library for the Aeron Cache server, written in Verus. The library (`src/`) holds the
client's logic with machine-checked contracts; `app/` holds the I/O around it.

## Layout

- `src/model.rs` — requests, responses and update events shared by all transports.
- `src/mirror.rs` — `LocalMirror`, the key/value map that embedded caches keep in sync.
- `src/unified_cache.rs` — how update events change a local mirror, and embedded caches (of
  strings, counters and JSON objects) over any `CacheTransport` (`src/transport.rs`).
- `src/order.rs` — the order of text keys, and arranging keyed entries in that order.
- `src/json.rs` — JSON values, RFC 7386 deep merge for object mirrors, and JSON text output.
- `src/endpoints.rs` — REST request planning (method, URL, accepted statuses) and WebSocket
  subscription URLs and query strings.
- `src/bidi/` — the bidirectional WebSocket transport: outgoing frames (`frames.rs`) and the
  routing of incoming frames to pending requests and listeners (`router.rs`).
- `src/gateway/` — the Aeron gateway transport: command planning, wire enumeration mapping,
  response mapping and routing of decoded frames.
- `src/messages.rs` — the gateway wire enumerations and their one-byte codes.
- `src/text.rs`, `src/correlation.rs` — text building, integer parsing and printing,
  correlation ids.
- `app/` — the HTTP client (reqwest), the WebSocket readers (tungstenite), the bidi connection,
  the serde copies of the model types, and views that keep an embedded cache in sync with its
  subscriptions (`LiveCache`, `LiveCounters`, `EmbeddedObjects`). The Aeron gateway client itself
  is absent: it needs the `rusteron_client` crate and the gateway's SBE codecs, which are not
  available here; its decisions are in `src/gateway/`.
- `tests/` — tests of the library on concrete values.
