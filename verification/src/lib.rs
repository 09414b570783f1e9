//! Orchestration core for upstream self-service authentication flows.
//!
//! The library models one "flow" (login or registration) as a sequence of
//! pure decision steps between outbound HTTP calls: initiating a flow,
//! fetching its state with the right CSRF token, translating the upstream
//! UI-node description into a form model, and classifying the outcome of a
//! submission. The calling boundary performs the actual network I/O and
//! hands each response back as plain values.

pub mod fetch;
pub mod form;
pub mod http;
pub mod initiate;
pub mod json;
pub mod location;
pub mod model;
pub mod pages;
pub mod pairs;
pub mod relay;
pub mod submit;
pub mod text;
pub mod translate;
