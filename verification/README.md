# sentiric_sip_b2bua_service

A SIP back-to-back user agent: its call logic is a library with proved
contracts, and a thin asynchronous process runs around it.

## Layout

- `src/` — the verified library (no I/O):
  - `text` — character helpers: white space, trimming, words, prefixes,
    searching, decimal numbers, `u16` parsing.
  - `sdp` — the caller's RTP address (`ip:port`) read from an SDP offer.
  - `sip` — SIP header values: caller tag, contact, tagged To header, the
    headers of the 200 OK, the BYE and the outbound INVITE.
  - `store` — the call store (sessions by Call-ID, INVITEs being worked on,
    calls cancelled early) over `dashmap`, and the writes its backup is to get.
  - `config` — the settings, read from the values of the environment variables.
  - `events` — the `call.started`, `call.answered` and `call.ended` events, and
    the JSON payloads of generic events (through `serde_json`).
  - `retry` — when a remote call is tried again and when it is given up.
  - `handler` — what happens to each call: the set-up of an incoming call as a
    step function from state and event to next state and action, BYE, CANCEL,
    ACK, termination and outbound calls.
  - `engine` — which handling an incoming packet gets.
  - `service` — Call-IDs of requested calls, and the TLS rules of the clients.
- `app/` — the process: sockets, Redis, RabbitMQ, gRPC, HTTP; it carries out
  the actions the library decides on.
- `tests/` — tests of the library on concrete values.
