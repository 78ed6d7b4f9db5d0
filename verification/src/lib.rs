//! Core logic of a desktop administration tool for Windows Always-On VPN:
//! payload encoding for elevated execution, task-definition document
//! construction, the elevated-action lifecycle state machine, VPN profile
//! synthesis, and configuration-export validation.
pub mod config;
pub mod export;
pub mod ops;
pub mod payload;
pub mod profile;
pub mod runner;
pub mod strutil;
pub mod taskdoc;
pub mod xml;
