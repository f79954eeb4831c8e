//! Validated avalanche-hazard classification.
//!
//! The library receives the structured verdict of an external vision
//! service, decodes it from its wire form, and cross-checks the declared
//! hazard category against the structured sub-observations with a
//! deterministic rule-based scoring engine before accepting it.  A small
//! state machine tracks the lifecycle of one in-flight request so a
//! display layer can poll without blocking.

pub mod text;
pub mod schema;
pub mod scoring;
pub mod lifecycle;
pub mod json;
pub mod codec;
pub mod jsontext;
pub mod orchestrator;
