//! The startup of a standalone node, as decisions: which parts of the service are built, in which
//! order, with which parameters, and what each failure leads to. A driver performs the actions and
//! reports their outcomes. Beside it stands the genesis of the network that cross-chain messages are
//! tried on.
pub mod actions;
pub mod config;
pub mod error;
pub mod guarantees;
pub mod host_configuration;
pub mod inherents;
pub mod keystore;
pub mod laws;
pub mod plan;
pub mod service_standalone;
pub mod startup;
pub mod test_net;
