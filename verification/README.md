# fetching_cli

A small command-line client for Spotify metadata and audio downloads, built on
librespot, whose decision-making core is verified with Verus.

## Layout

- `src/` — the verified library.
  - `error.rs` — exit codes, the kind of a failed request, the error value,
    and the JSON error report.
  - `text.rs` — character-level helpers (prefixes, substrings, separators,
    Unicode white-space trimming, decimal text).
  - `uri.rs` — recognising arguments, turning `open.spotify.com` links into
    `spotify:` URIs, parsing URIs with librespot.
  - `audio.rs` — hex file IDs, audio formats and their order of preference,
    the format of a requested file, the OGG header that is stripped, and the
    error each download step reports.
  - `metadata.rs` — the metadata records reported as JSON, and which kind of
    item a URI asks for.
  - `credentials.rs`, `auth.rs`, `session.rs` — stored credentials and their
    expiry, credentials from a new token, classification of refresh and
    connection failures.
  - `cli.rs` — what the positional arguments ask for, and whether stored
    credentials are used, refreshed or replaced.
  - `laws.rs` — properties relating several functions, proved over their
    specifications.
- `tests/` — tests of the library on concrete values.
- `app/` — the program around the library: argument parsing, logging, file
  and network I/O through librespot, and JSON serialization.
