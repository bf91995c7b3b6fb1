# proven_core

Proven Core — tenancy, identity, authorization (RBAC with overrides and attribute policies),
project membership and teams, file objects with upload/scan/share flows, the audit engine
(hash-chained log, search, exports, retention), settings, feature flags and licensing — as a
library verified with Verus.

Layout:

- `src/` — the verified library.
  - `domain/` — records, enumerations and their wire codes, the permission catalog, the
    permission and role engines, attribute policies, errors.
  - `application/` — the in-memory store and the services over it (`CoreServices`), each
    operation with a contract stated over the store's tables and the published events.
  - `infrastructure/` — object-storage adapters and virus-scan hooks.
  - `api.rs` — request bodies and the commands they become, and principal extraction.
  - `external.rs` — the trusted calls into the clock, UUIDs, SHA-256, hex, calendar and JSON
    scalar encodings.
  - `laws.rs` — properties spanning several operations, proved.
- `tests/` — scenario tests.
- `app/` — the axum HTTP adapter: routing, JSON encoding, error responses.
