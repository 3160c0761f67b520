//! Verified core of a directory-cleanup tool: discovery and filtering of
//! candidate subtrees, preservation (backup/archive) planning, and the
//! deletion orchestrator's state machine.

pub mod config;
pub mod discovery;
pub mod orchestrator;
pub mod preserve;
pub mod selection;
pub mod summary;
pub mod model;
pub mod strutil;
