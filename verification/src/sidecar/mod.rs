//! The sidecar's own logic: simulation results, EVM and Solana
//! simulation, trust-policy administration, background-scan inputs and
//! the request and response bodies of its API.

pub mod evm;
pub mod policies;
pub mod scan;
pub mod simulation;
pub mod solana;
pub mod workflows;
