[package]
name = "zeitgeist_service"
version = "0.1.0"
edition = "2021"
publish = false

[dependencies]
frame-support = "=22.0.0"
frame-system = "=22.0.0"
pallet-balances = "=22.0.0"
pallet-xcm = "1"
polkadot-primitives = "=1.0.0"
polkadot-runtime-parachains = "=1.0.0"
sp-api = "=20.0.0"
sp-consensus-aura = "=0.26.0"
sp-io = "=24.0.0"
sp-timestamp = "=20.0.0"

# Not called: held back so that fewer packages are resolved below the crates above.
ahash = "=0.8.11"
backtrace = "=0.3.67"
chrono = { version = "=0.4.19", default-features = false }
url = "=2.3.1"
