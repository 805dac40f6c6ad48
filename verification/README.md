# qsync

A delta file-synchronisation tool over QUIC. The library in `src/` is
verified with Verus; `app/` holds the client and server programs around it.

- `src/message/`: message types, the 12-byte header codec, framing (with
  optional zstd compression of the body), and the protocol messages.
- `src/file/`: file and directory metadata, block checksums (BLAKE3 in
  lowercase hex), the breadth-first walk that collects them, the paths of the
  temporary sync tree, and block/timestamp arithmetic.
- `src/client/`, `src/server/`: the options of each program and the decisions
  each takes (reading answers, the per-file block-by-block sync, routing
  requests, error replies).
- `src/helpers.rs`: rendering an error with its chain of causes.
- `app/`: the client and server programs (run as `qsync_client` / `qsync_server`,
  or `qsync client ...` / `qsync server ...`); all network and
  filesystem work, and the serde forms of the messages.
