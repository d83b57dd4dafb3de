# turul_mcp_protocol

Types and rules of the Model Context Protocol in three revisions
(2025-06-18, 2025-11-25 and the 2026-07-28 draft), written in Verus: each
constructor, builder and rule carries a contract, and the laws that tie
operations together are proved.

- `src/` is the verified library. `json.rs` models JSON values and object
  members (and their insertion law), `text.rs` the character-level helpers,
  `rpc_error.rs` JSON-RPC error objects; one module per protocol revision
  holds its request, result, notification, schema and error types. Numbers
  the protocol carries as floating point are held as IEEE-754 bit patterns.
- `tests/` exercises the library on concrete values.
- `app/` is the unverified edge: conversion to and from `serde_json` values,
  `serde`/`thiserror` copies of library types, JSON-RPC error objects of
  `turul-rpc`, the compliance harness's git and file work, and the
  floating-point computations.
