//! Records changes between commits and turns them into one commit message.

pub mod message;
pub mod model;
pub mod text;
pub mod tracker;
pub mod workflow;
