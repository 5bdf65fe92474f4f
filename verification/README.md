# rustaria

A download manager driven by aria2: a job queue with a status state machine,
a scheduler, post-processing (sorting files into category folders, unpacking
archives, merging streamed media, hook scripts), browser and clipboard
integration, a terminal UI and a command line.

## Layout

- `src/` is the library, written in Verus and verified: the job lifecycle and
  its state machine, the decisions taken around the aria2c daemon (restart
  policy and backoff, command line, JSON-RPC request pieces, event handling,
  the GID/job mapping and its persisted form), the configuration schema and
  its defaults, the scheduling policy and the cron grammar of its active
  window, the post-processing rules, the
  browser's native-messaging framing and replies, the clipboard monitor, URL
  patterns and media detection, the state kept across restarts, the values
  the database queries are given, the terminal UI's key handling and the
  command line's parsing and formatting. Each public function states what it
  returns in its `ensures`; the laws that relate several functions are public
  proof functions beside them.
- `app/` is the binary around it: argument parsing, the configuration and
  state files, SQLite, HTTP and WebSocket exchanges with aria2, the aria2c
  process, archives, FFmpeg and hook processes, desktop notifications and
  the terminal drawing. It hands the library plain values and acts on what
  the library decides.
- `tests/` exercises the library on concrete values.

Regular expressions, `~` expansion, JSON and bincode encoding, the clock and
Unicode lower-casing are done by their crates (`regex`, `shellexpand`,
`serde_json`, `bincode`, `chrono`) and the standard library, behind small
trusted wrappers whose contracts say what the library relies on (the bincode
byte format is written out in full, so that reading back what was written is
proved).
