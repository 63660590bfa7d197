# khukri

The core of the Khukri download manager, written in Verus: the functions
in `src/` carry contracts that Verus proves, except the calls into std and
outside crates gathered in `src/trusted.rs`, whose contracts are believed
as the crates' sources and documentation state them.

## Layout

- `src/` — the verified library.
  - `segment.rs`, `retry.rs`, `queue.rs`, `config.rs`, `download.rs`,
    `error.rs`, `db.rs`: the download engine's rules — how a file is split
    into byte ranges, when a request is retried and how long to wait, which
    queued download starts next, which configurations are refused, how a
    transfer is routed and how it ends.
  - `bridge/`: the browser's native-messaging host — framing, request
    normalization (file names, forwarded headers), host registration, the
    events sent to the extension and the yt-dlp command line.
  - `desktop/`: the desktop application — settings and their repair, the
    download list, the media jobs, the bundled bridge and the yt-dlp
    self-update, whose steps form a state machine (`updater::update_step`).
  - `text.rs`: string functions on character sequences with their specs.
  - `trusted.rs`: the calls into std and outside crates (`url`, `reqwest`,
    `rand`, `serde_json`, `uuid`, `sha2`, `std::path`) with the contracts the
    rest of the library relies on.
- `tests/` — tests of the library on concrete values.
- `app/` — the program around the library: the native-messaging bridge's
  main loop, the network, disk, database and process work, and the desktop
  commands without a window shell.

Laws of the library are public proof functions named `lemma_*`.
