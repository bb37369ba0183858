# fennec

Home-battery scheduling for Fox ESS inverters, with its core proved correct by Verus.

- `src/` is the verified library: interval sets, series deltas, the conversion of a battery
  plan into Fox ESS time slots, Fox Cloud groups and MQ2200 device schedules, Modbus value
  decoding and `modbus+tcp` URLs, the MQ2200 state registers, battery energy bookkeeping and the
  Fox ESS Cloud request signature. Each public function states its result in its contract, and
  the properties that span functions are public proof functions (`lemma_*`).
- `tests/` runs the library on concrete values.
- `app/` holds what the verifier does not take: HTTP clients (Fox ESS Cloud, Frank Energie,
  Home Assistant, heartbeats), Modbus TCP reads, JSON and query-string formats, console tables,
  command-line arguments, and the floating-point battery simulator.

Not carried over: the `hunt`, `run`, `log`, `burrow`, `go` and `trace` commands and the process
entry point. They drive the price-optimising solver, the energy profile, the cron schedule and
the measurement database, whose sources are not part of this project, and the solver and the
energy profile compute in floating point. The MiniQube and MQ2200 schedule writers and the
MiniQube metrics reader need the device protocol crate of the same workspace, which is not a
dependency here; the schedules that they would write are built and verified in `src/`.
