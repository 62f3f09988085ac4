//! Declarative trust policies: their resources, the engine rules they map
//! to, their lifecycle, exceptions, reports and background scanning.

pub mod exception;
pub mod lifecycle;
pub mod report;
pub mod rules;
pub mod scanner;
pub mod trust_policy;
