# catalog

The catalog and discovery service of the platform: project metadata,
versions (upload, validation, yank and un-yank) and discovery search.

## Layout

- `src/` — the verified library.
  - `domain/` — projects, versions, slugs, and the error type with the
    status and body each error is answered with.
  - `validation/` — the upload validation pipeline: the size gate and the
    interface, compilation, dependency and security stages, each deciding
    from what was read of the extracted archive.
  - `handlers/` — every endpoint as a flow: started with the request's
    inputs, resumed with the outcome of each step it asks for (a database
    operation, reading the upload, validating, storing the artifact,
    publishing an event) until it answers. `handlers/laws.rs` states what
    holds over whole runs: nothing is changed before ownership is
    established, and only artifacts that passed validation are stored and
    recorded.
  - `search.rs` — discovery queries: paging, ordering and the query text.
  - `repository/` — the rules applied around the stored data: slug
    candidates, label normalization, metadata merging, ownership and yank
    state.
  - `products.rs` — the product listing's slug, filter, cache keys and
    page count. The service does not serve a product listing: these are
    the listing's rules only, with no routes, store or page templates
    behind them.
- `app/` — the service around the library: configuration, the Postgres
  pool, multipart reading, archive extraction, the toolchain checks,
  artifact storage, event publishing and the HTTP routes.
- `tests/` — tests of the library.

## Running

`CATALOG_DATABASE_URL` is required; `CATALOG_ARTIFACT_ROOT`,
`CATALOG_BIND_ADDR`, `CATALOG_MAX_ARTIFACT_BYTES`,
`CATALOG_MAX_DEPENDENCIES` and `CATALOG_COMPILE_TIMEOUT_SECS` are
optional. Setting `CATALOG_REAL_COMPILE_CHECKS=1` runs `cargo check` and
`cargo audit` on uploads; otherwise those stages report a non-blocking
skip.
