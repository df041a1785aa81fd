# MuxDeck engine

MuxDeck turns a phone or tablet into a programmable button deck for a desktop. The daemon,
`muxdeckd`, listens on a TLS WebSocket, pairs devices with a one-time code, authenticates them
by an Ed25519 challenge, serves their button layouts, and injects the keystrokes their buttons
stand for.

The decisions the daemon makes live in the `muxdeck` library, written in Verus and verified:

- `protocol`: the wire types, their validation, and the signed buffers of the handshake and of
  pairing.
- `engine`: the session state machine, the capability matrix, pairing, the device registry,
  the profile and action stores, settings, the request handler that answers every op, the
  planning of input requests, the auto-start file formats and tool-output readers, mDNS
  records, and the identity's derived identifiers.
- `input`: the backend seam, the key tables of Windows, macOS and Linux, what each platform
  backend emits, and a recording backend for tests.
- `keyed`: vectors kept sorted by a string key, viewed as maps.
- `text`: string building and inspection stated over character sequences.
- `primitives`: the outside computations (SHA-256, base64, Ed25519, entropy, clocks), each a
  thin call with a trusted contract.

`app/` is the program around it: argument handling, the files in the config directory, the
socket loop, the uinput device, the telemetry sampler, mDNS, auto-start registration, and the
admin client of the `pair` subcommands.
