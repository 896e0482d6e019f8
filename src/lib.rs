//! Connection and launch logic for a local signer daemon: the line protocol
//! spoken over its endpoint, the trust session that permits a silent restart,
//! and the state machine that decides between a background and an interactive
//! launch.

pub mod hosts;
pub mod launch;
pub mod mode;
pub mod paths;
pub mod session;
pub mod shell;
pub mod text;
pub mod wire;
