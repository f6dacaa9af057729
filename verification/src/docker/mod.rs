//! The container tool: images, the command that builds one, and mounts.

pub mod commands;
pub mod image;
pub mod twoliter;
