//! Release automation for game projects: build contexts, upload descriptors
//! rendered from templates, and the ordered steps of a release.

pub mod error;
pub mod template;
pub mod config;
pub mod decimal;
pub mod context;
pub mod release;
