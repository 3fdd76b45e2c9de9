# libobs-wrapper

The decision logic of a safe wrapper around libobs (the OBS Studio library), written in
Verus and proved against its contracts.

libobs itself is reached through FFI, which cannot be verified; everything the wrapper
decides around those calls lives in `src/` as functions over plain values:

- `capabilities`, `rank`, `flags`, `text`: snapshots of discovered source, output, encoder
  and service types, deterministic selectors, and the compatibility planner that picks an
  output and encoders for a request or reports why none fits.
- `discovery`, `property_types`, `property_kinds`, `properties`, `property_snapshot`:
  ordering and filtering of enumerated types, kind checks before objects are created, and
  property descriptions built from the raw values libobs reports.
- `output`: audio mixer bounds, output compositions, the checks made before an output is
  reconfigured, started, paused or stopped, and pipeline validation.
- `runtime_slot`, `runtime_report`, `version`, `logging`, `crash_handler`: the single
  process-wide runtime slot, the runtime's queue answers and log messages, the version
  check, log levels and the default crash handler.
- `registry`, `updater`, `display`, `lib_support`, `error`: the context's registries, the
  settings change log, and shared types.

`app/` holds what stays outside verification: process-global state (the runtime slot
behind a mutex and condition variable, the global logger), the file logger, and the work
queue of the OBS runtime thread.
