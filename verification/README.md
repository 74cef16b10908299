# zephyrfs_cli

Command-line client for the ZephyrFS peer-to-peer storage network, written in
Verus.

- `src/` is the verified library: the configuration and its defaults, the
  requests sent to a node, path handling, the decisions each command takes
  (which file, which output path, which format, when to refuse) and every
  line of text it prints, the sorting and filtering of listings, and the usage
  counters.  Each public function states what it returns in its `ensures`.
  Calls into `humansize`, `chrono`, `dirs` and `std` that the library relies
  on are declared in `src/display.rs`, `src/config.rs` and `src/metrics.rs`
  with the contracts that the rest of the proof uses.
- `app/` is the program around it: argument parsing with `clap`, the HTTP
  client, file and terminal input and output, serialization, and the
  floating-point gauges of the metrics.
- `tests/` runs the library on concrete values.
