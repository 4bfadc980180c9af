//! The logic of a small blog: its articles, the markup around highlighted
//! code, the nonce of its content security policy, and the server that
//! collects the host's statistics and tells its sessions about them.

pub mod error;
pub mod highlighter;
pub mod hub_laws;
pub mod model;
pub mod nonce;
pub mod ring;
pub mod session;
pub mod session_laws;
pub mod stats;
