//! Bastion: the verified core of a programmable trust runtime for
//! autonomous agents (execution planning, durable workflow decisions,
//! trust policies, background scanning and a Web2 API firewall).

pub mod text;
pub mod ids;
pub mod transaction;
pub mod plan;
pub mod policy;
pub mod risk;
pub mod sidecar;
pub mod adapter;
pub mod audit;
pub mod decision;
pub mod digest;
pub mod firewall;
pub mod atomicity;
pub mod decomposer;
pub mod clock;
pub mod json;
pub mod keyed;
pub mod num;
pub mod workflow;
