# iex_protocols

Parsers for the IEX market data protocols, written in Verus and verified against their
contracts.

- `src/transport_v1.rs`: the IEX Transport Protocol header and the walk over its message block.
- `src/tops_v1.rs`, `src/deep_plus_v1.rs`: TOPS and DEEP+ messages, their validity checks and
  the parser that reads one message from bytes.
- `src/common.rs`: types shared by the protocols (space padded strings, prices, timestamps).
- `src/endian.rs`, `src/wire.rs`: byte order wrappers and little-endian field readers.
- `src/wire_integer.rs`: the integer type names that message descriptions may use.
- `app/`: the description-to-Rust generator built on `syn` and `quote`, and floating point
  views of prices.
- `tests/`: tests of the library, one file per area.
