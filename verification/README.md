# http_server_bridge

The bridge between the Dart side of LocalSend and its HTTP server, with its
logic verified by Verus.

- `src/` is the verified library:
  - `server`: the server's settings and its lifecycle (start at most once
    while running, stop for good, one listener for the event stream);
  - `event`: the events reported to the Dart side and their accessors;
  - `forward`: how the server's own events become those events;
  - `request`: the requests that travel with events and answer at most once;
  - `upload`: the accounting of a streamed upload against its announced size;
  - `wire`: registrations and file descriptions, and the v2 registration
    conversion;
  - `error`: the errors and their texts, with a verified decimal rendering;
  - `channel`: the tokio channel endpoints and `bytes::Bytes` that the
    library carries, and the calls it makes on them (trusted).
- `app/` holds the asynchronous side: locks, forwarding loops, relays of
  answers to the server's own channels, and conversions to the server's types.
- `tests/` exercises the library on concrete values.
