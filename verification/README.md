# expense_core

The core of an expense-tracking desktop application, written in Verus: the
rules of its receipt storage, token encryption, schema and storage migrations,
error handling, structured and security-audit logging, and form checks, each
with a contract that Verus proves.

Layout:

- `src/` — the verified library.
  - `security/` — AES-256-GCM token encryption, the JSON envelope of an
    encrypted token (written and read with serde_json), the token service and
    its records, and the security models.
  - `receipts/` — user directory paths and access rules, file names, formats,
    sizes and content types, the local cache's naming and limits.
  - `migrations/` — migration errors and their handling and retry decisions,
    the structured logger and the security audit, the schema checks, the
    storage-migration run as a state machine, batch bookkeeping, receipt URL
    rewriting, and the automatic schema migrations (definitions, registry,
    executor decisions).
  - `text.rs`, `checksum.rs`, `clock.rs` — text and number rendering, SHA-256
    checksums, and timestamps.
- `tests/` — tests of the library.
- `app/` — the application around it: database and storage access, logging
  sinks, serde forms of the records, and the front end's commands.
