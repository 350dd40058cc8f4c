# honcho_ai

A client library for Honcho, the memory and social-cognition service for AI
agents, whose core is verified with Verus.

## Layout

- `src/` — the verified library:
  - `routes` — API paths, with every identifier checked and percent-encoded;
  - `sse` — the incremental parser of streamed dialectic answers;
  - `dialectic_stream` — accumulation of a streamed answer;
  - `error` — the error model and the mapping of HTTP error responses;
  - `retry` — which failed requests are sent again, and after how long;
  - `types` — API data types, pagination, validation bodies;
  - `client`, `session`, `upload`, `blocking` — settings, request
    preparation and the checks made before a request is sent;
  - `json`, `text`, `message`, `request` — supporting models.
- `tests/` — tests of the library on concrete values.
- `app/` — the I/O around the library: the HTTP transport, byte streams,
  paging, the blocking runtime, environment settings and the JSON forms of
  the library's types.

Calls into `serde_json` and the standard library that the
verified code relies on stand behind small trusted wrappers whose contracts
name or state what those calls return.
