# proofdesk

The verified core of ProofDesk, a desktop tool that proofreads Chinese
manuscripts with an OpenAI-compatible model.

- `src/` is the library, written in Verus: every function carries a
  contract that Verus proves.  Calls into `zip`, `quick-xml`, `serde_json`,
  `uuid` and `std::path` sit behind small trusted wrappers whose contracts
  say what those crates document.
- `tests/` runs the library on concrete inputs.
- `app/` is the application shell in plain Rust: SQLite through
  `rusqlite`, the project files, HTTP calls through `reqwest`, background
  jobs on `tokio`, the front-end commands and the command-line probe.
