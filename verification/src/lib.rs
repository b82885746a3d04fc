//! Verified core of a wallet front end: endpoint resolution, the two signing
//! back ends, bridging of transaction requests to an injected wallet, and the
//! trigger/result polling protocol.

pub mod bindings;
pub mod bridge;
pub mod client;
pub mod config;
pub mod contract;
pub mod hex;
pub mod local;
pub mod pages;
pub mod primitives;
pub mod protocol;
pub mod route;
pub mod text;
pub mod viem;
