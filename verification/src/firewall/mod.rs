//! The Web2 API firewall: agents' API calls, the rules they are checked
//! against, OpenAPI-derived allowlists, and the proxy engine that decides.

pub mod engine;
pub mod event;
pub mod openapi;
pub mod rules;
