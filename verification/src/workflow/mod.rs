//! Durable workflows: state, events, definitions and the decisions of the
//! execution loop.

pub mod activities;
pub mod definition;
pub mod engine;
pub mod error;
pub mod event;
pub mod keys;
pub mod plan_adapter;
pub mod state;
