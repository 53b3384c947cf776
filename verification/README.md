# closeshare

The verified core of a local-network file sharing tool.

`src/` is checked by Verus. It holds the protocol's data and decisions:

- `auth` – group codes: checking, validating, generating.
- `chunker`, `parallel` – splitting a file into chunks and sharing the
  chunks among connections, with proofs that the chunks tile the file and
  that every chunk goes to exactly one connection.
- `codec` – length-prefixed frames, with round-trip proofs.
- `integrity`, `compression`, `crypto` – BLAKE3 checksums (hex), zstd, and
  AES-256-GCM sealing of chunk payloads under a per-transfer key.
- `message`, `peer`, `config`, `metadata`, `state`, `error`, `archive` – the
  data of the protocol and the application.
- `discovery`, `exchange`, `sender`, `receiver` – what a device does with
  each message it hears, as functions from state and message to action;
  the sender resends a chunk until it is acknowledged as delivered.

`app/` is the application around it: sockets, files, settings on disk, the
shared state, serde forms of the messages, and the commands of the user
interface.
