# hartlab_protocol

The host-side rules of the HartLab PolarFire SoC GDB playground, verified
with Verus.

- `src/elf.rs` — the allowlist an uploaded firmware image must pass: a
  static little-endian RV64 executable with a loadable segment over the
  playground DDR base (0x8000_0000), at most 4 MiB.
- `src/gdb_guard.rs` — the default-deny filter on GDB payloads, including
  the unwrapping of `-interpreter-exec console "…"`.
- `src/wire.rs` — control plane ↔ agent messages, their line framing, and the
  agent's answer to each message.
- `src/session.rs` — when the control plane accepts a session request (a
  stub: no container, no slot taken, no `/ws`).
- `src/base64.rs` — strict (RFC 4648, canonical padding) decoding of uploaded
  images.
- `src/text.rs` — the character-level text functions the filter uses.

`app/` holds the two programs (`agent`, `control`), the JSON encoding of the
messages, and the HTTP server; `tests/` holds the tests.
