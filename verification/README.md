# pulsar_ui

The logic of the Pulsar launcher's UI crates (entry screen, marketplace
search, enum editor), written in Verus with its specifications proved.

- `src/` is the verified library. Each module holds one concern: text and
  number formatting (`text`), the recent-projects list, cloud servers and
  their requests (`cloud`, `cloud_servers`), the card-grid arithmetic
  (`grid`), the marketplace search (URL building, result cache, session
  state, likes, image fetch queue), the enum asset model with its code
  generator and editor states, the plugin catalogue, the first-run intro
  and the dependency setup flow.
- `app/` is the unverified shell around it: HTTP, files, processes, and the
  serde shapes of the JSON the launcher reads and writes.
- `tests/` exercises the library on concrete values.
