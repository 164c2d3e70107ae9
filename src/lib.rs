//! Provisioning and teardown of a disposable local blockchain test environment:
//! key material, settings documents for the peer daemons, and the lifecycle
//! state machine that sequences provisioning, steady-state running and teardown.

pub mod entropy;
pub mod keys;
pub mod lifecycle;
pub mod resources;
pub mod runs;
pub mod settings;
pub mod text;
