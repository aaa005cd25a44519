# assert_tv

Deterministic tests with external test vectors. Code under test exposes its
inputs ("consts") and outputs to a session. An `Init` session records them; a
`Check` session hands the recorded inputs back and refuses outputs that differ
from the recorded ones.

- `src/` is the library, verified with Verus.
  - `session`: sessions, and what comes of an observed entry.
  - `data`: the entries of a test vector, and the steps of storing and loading
    them with their sidecar files.
  - `entry`, `json`: entries and their values.
  - `offload`, `path`: what is in a sidecar file, and where it is.
  - `message`: what a refused entry is reported with.
  - `laws`, `round_trip`: what holds of the library as a whole.
- `app/` keeps sessions per thread and does the file work: it opens, parses and
  writes the files that the library asks for.
- `tests/` runs the library with an in-memory set of files.

What is believed without proof is said at each wrapper of `serde_json`, `zstd`,
`std::path` and `format!`.
