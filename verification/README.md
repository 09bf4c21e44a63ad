# aap

A verified decoder for the Apple Accessory Protocol (AAP) that AirPods speak
over their L2CAP control channel (PSM 0x1001).

- `src/protocol.rs`: protocol constants (commands, control sub-commands) and
  the value types carried in packets (microphone mode, ANC mode, battery
  component, charging status, ear status), with their byte and name
  encodings.
- `src/parser.rs`: the packet parser. `parse` turns a raw packet into an
  `AapEvent` or a `ParseError`; its contract is `spec_parse`, the meaning of
  every packet written as a specification.
- `src/text.rs`: string comparison, splitting of zero-separated fields, and
  lossy UTF-8 decoding (through `String::from_utf8_lossy`).
- `src/laws.rs`: properties proved of every packet (refusals, the
  disconnection sentinel, battery mirroring and truncation, toggles, ...).
- `app/`: the error type with `thiserror`'s `Error` and a `parse` that logs
  refused commands with `tracing`.
