# rust_chat

A small TCP chat service with a verified core.

- `src/` is the library, checked by Verus:
  - `auth` — the account store (sign-up, log-in, nickname change) and the
    laws that relate its operations;
  - `message` — the messages exchanged between server and clients;
  - `codec` — the framing rules of the wire codecs over `bytes::BytesMut`;
  - `connection` — what the server decides for each message of a
    connection, before and after log-in;
  - `client` — how the client reads typed commands and shows messages;
  - `text` — character-level helpers (splitting, searching);
  - `bench` — the counters of the load-test client.
- `app/` holds the programs (server, client, load test, greeting server):
  sockets, async tasks, JSON encoding and the `tokio_util` codec traits.
- `tests/` exercises the library.
