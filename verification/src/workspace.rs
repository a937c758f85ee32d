//! Workspaces: the repository that keeps them, the service over it and the
//! answers that the boundary gives.

pub mod handler;
pub mod repository;
pub mod service;
