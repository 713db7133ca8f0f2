# zeitgeist_service

How a standalone Zeitgeist node starts, with the decisions proved, and the genesis of the network that
cross-chain messages are tried on.

- `src/` is the library, verified with Verus. `service_standalone` begins a startup, `plan` says which
  stages it goes through, `actions` what each stage asks for, `startup` takes the outcomes. `laws` states
  what holds of every run. `keystore` and `inherents` hold the rules on remote keystores and on slots.
  `test_net` and `host_configuration` describe the chains of the test network.
- `app/` is ordinary Rust: it performs the actions with Substrate's client crates, and builds the chains.
- `tests/` runs the library.

A startup never acts by itself. It names one action at a time; the driver performs it and reports the
outcome, and the startup names the next one, completes, or fails.
