# kicad_gateway

The verified core of the KiCad MCP Gateway companion: the local component
that lets a remote agent use a KiCad MCP server on this machine only under
explicit, local, revocable authorization.

## Layout

- `src/` — the library, verified with Verus.
  - `capability`, `risk`, `ids`, `crockford`, `time_model`,
    `workspace_set`, `text`: the vocabulary (capabilities and profiles, risk
    levels, typed ids and their base32 text, instants and spans, workspace
    sets).
  - `authorization`, `session`: access grants and leases, the transport-era
    session record and its mapping to grants.
  - `config`: layered configuration (CLI, environment, file, defaults) and
    its validation.
  - `identity`, `device`, `memory_store`: device key material,
    fingerprints, signing, and the in-memory secret store.
  - `daemon`, `pending`, `status`, `audit`, `operation`: the daemon's
    decisions on remote operations (device binding, fail-closed audit,
    approval and denial), the queue of operations waiting for approval, and
    what status views report.
  - `lifecycle`: the desktop's supervision of the packaged daemon and the
    CLI's daemon commands, as decisions over probe outcomes.
  - `checkpoints`: which directory entries a snapshot copies or a restore
    clears, and when a restore or delete is refused.
  - `bridge`: the local MCP server client's endpoint check and response
    interpretation.
  - `error`, `clock`, `approval`, `transport_state`: the stable error-code
    trait, time sources, and the approval and connectivity records.
- `tests/` — tests of the library.
- `app/` — the runtime around it: environment and config-file reading,
  directory walks and checkpoint restore, the device table and the OS
  keyring, the HTTP client, the daemon's request flows, the status view,
  the CLI's daemon commands, and the loops that carry out the library's
  decisions.
