# kaze_backend

The logic of a rental-agreement service, verified with Verus.

- `src/typst.rs`: rendering of values as Typst literals and the unquoting of
  date calls.
- `src/agreement.rs`: the sections of an agreement, their Typst calls, and the
  assembly of the whole document.
- `src/cache.rs`: the state of an agreement proposal while both parties confirm
  and sign, and the store of proposals, from which a proposal expires as soon
  as an update completes it, and is handed back to be recorded. The store
  models the service's expiring cache, moka's asynchronous `future::Cache`:
  every call into that cache is awaited, which verified code cannot do, so
  its behaviour (expiry asked on updates only, removal on invalidation) is
  written and proved here instead of being called.
- `src/diia.rs`: requests to the Diia sharing and signing services and the
  handling of their answers.
- `src/s3.rs`: storage keys of agreement files.
- `src/server_error.rs`: errors and the HTTP replies they get.
- `src/text.rs`: decimal rendering and parsing of integers.
- `src/server.rs`, `src/config.rs`, `src/eusign.rs`, `src/routes.rs`: settings,
  documents and request bodies.

`app/` holds the command line, the configuration file, the JSON forms of the
data and the saving of proposals to disk.
