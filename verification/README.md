# tower-sesh

An opinionated session middleware for `tower` services, with its core verified by Verus.

## Layout

- `src/` is the verified library:
  - `id.rs`: session ids and their text form (URL-safe base64 of the 16 little-endian bytes);
  - `expires.rs`: spans of time, instants and the expiry of a session;
  - `session_store.rs`: the session-store contract over the records a store holds, and a
    store that layers a cache over a backend;
  - `memory_store.rs`: an in-memory store;
  - `session.rs`: the lazily loaded session; each operation returns its result and the
    update it makes to the response's cookie;
  - `middleware.rs`: reading the session id from `Cookie` headers, and the `Set-Cookie`
    header of the response;
  - `table_names.rs`, `dynamodb.rs`: configuration of the SQL and DynamoDB stores;
  - `laws.rs`: properties that relate the operations to one another.
- `app/` holds what runs around the library: the `tower` service and layer, the `axum`
  extractor, the session handed to handlers (which writes each operation's cookie update
  into the request's shared updater, as the verified `record_update` computes it), a store
  shared between requests, and conversions to and from `time` types.
- `tests/` exercises the library on concrete values.
