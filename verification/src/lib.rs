//! Workspaces are chat destinations, on Slack or on Discord, that a webhook
//! reaches. This library keeps their records and relays a message to the ones
//! that a request selects.
//!
//! - `entity`: the workspace, its id and its type.
//! - `workspace`: the repository that every backend answers to, the backend
//!   that keeps the records in memory, what the relational backend makes of
//!   the database's answers, the service over a repository and the answers
//!   of the boundary.
//! - `message`: what is posted to a webhook, by the workspace's type, and the
//!   dispatcher that sends one message to many workspaces.
//! - `validation`, `status`, `text`: the rules for request bodies, the
//!   response statuses, and integers in decimal.
//!
//! The library waits for nothing: whoever calls it talks to the database and
//! to the webhooks, and hands over what came back.

pub mod entity;
pub mod message;
pub mod status;
pub mod text;
pub mod validation;
pub mod workspace;
