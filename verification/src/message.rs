//! Relaying one text to the workspaces that a request selects.

pub mod handler;
pub mod service;
