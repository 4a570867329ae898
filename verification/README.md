# soter

SMT-backed safety and policy assurance, verified with Verus.

Soter produces *searched* evidence: an SMT query (SMT-LIB text plus execution
options) is run by a backend and yields a report whose status is `sat`,
`unsat`, `unknown`, `timeout` or `error`. Reports are never proof claims.

## Layout

- `src/` — the verified library.
  - `types` — queries, reports, errors; query validation; the stable query
    hash (SHA-256 over length-framed UTF-8 parts) and the proof that its input
    determines the query; the runtime-config JSON.
  - `arbiter` — the typed Arbiter expense-commit invariant, its SMT-LIB
    rendering, and proofs that the text names its threshold, determines it,
    and differs between the two policy models.
  - `backend`, `cvc5`, `cvc5_sys` — the backend interface, the scripted test
    backend, and the CVC5 backend over the native boundary.
  - `tenants`, `interceptor`, `convert`, `service`, `status` — the decisions of
    the solver service: tenant allowlist and in-flight permits, request
    admission, wire mapping, and the `Check` pipeline.
  - `suggestor`, `formation`, `provenance` — suggestor decisions, capability
    catalog, provenance marker.
  - `text`, `hashing` — character and byte helpers with exact specifications.
- `tests/` — tests of the library.
- `app/` — the gRPC server binary, async adapters, JSON forms, the native
  CVC5 FFI, and the Converge suggestor.
