# portcellar

Compatibility engineering for running Windows games under Wine on macOS: game
profiles and module catalogs, porting analysis of installed games, Wine bottle
plans (snapshots, dependency installs, rollback), Steam client inspection, launch
plans and smoke-run evidence.

## Layout

- `src/` — the library, verified with Verus: option parsing for the commands,
  profile and module validation, PE image scanning, Steam log and process
  interpretation, launch, configuration and bottle plans, the launch environment,
  runtime options files, staging decisions and fingerprints, the Steam browser
  patch decisions, evidence records, and the texts of the reports, drafts and
  scripts it writes. Each public function states its result in
  its contract.
- `tests/` — tests of the library on concrete values.
- `app/` — the `portcellar` command: it reads the disk, the environment and the
  process table, hands what it found to the library, prints and writes the
  results and runs the plans. Walking the profile and module catalogs (reading
  each file between the library's checks), probing engines and components, and
  the host and Steam sections of the printed doctor report are done there.

Private analysis, runtime, prefix and evidence state lives under the state root
(`PORTCELLAR_STATE_ROOT`, else `.portcellar/` in a checkout, else the platform's
application data directory).
