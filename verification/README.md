# mania (verified core)

The protocol logic of the mania QQ client, written in Verus and proved
against its contracts.

- `src/` — the verified library:
  - `sign.rs`: the sign-server socket frame (request layout, reply split),
    the HTTP request and its fallback, the transport choice;
  - `hex.rs`: lower-case hex rendering;
  - `chain.rs`: message chains, what resolving each element fetches or
    uploads, and how the answers are folded back; sender metadata;
  - `events.rs`: system notices, the uid lookups they need and the events
    they turn into;
  - `video.rs`: the group video download request and the reading of its reply;
  - `config.rs`, `client.rs`: configuration and the client handle;
  - `buffer.rs`, `media.rs`: the byte buffer of the `bytes` crate and media
    index descriptions.
- `app/` — the I/O around it: the Linux sign provider's socket and HTTP
  transports, the loop that performs the lookups and downloads, client
  start-up.
- `tests/` — tests on concrete values.
