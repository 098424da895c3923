# faena

Client-side rules of a voting-room app, verified with Verus.

- `src/` is the library. It checks new accounts (`registrar`) and new rooms
  (`crear_sala`), decides what each screen action does before any request
  (`entrada`), what the answer of the server leads to (`respuesta`, `login`),
  which message each event of the peer-to-peer node becomes (`p2pcon`), and
  holds dates and times as plain values (`tiempo`), with the calls into
  `chrono` that read, parse, shift and print them. `leyes` states the
  properties that span several calls.
- `app/` is the Android side: JNI entry points, the Tokio runtime, HTTP with
  `reqwest`, JSON with `serde`, token decoding with `jsonwebtoken` and the
  `libp2p` swarm. It carries out what the library decides.
- `tests/` runs the library on concrete values.
