//! The orchestration core of a build tool for a Linux-based operating system:
//! it decides how the tool bundle is installed, which container image is
//! built, which host paths and environment variables reach the task runner,
//! and how a helper container is cleaned up.

pub mod error;
pub mod common;
pub mod text;
pub mod path;
pub mod variables;
pub mod env;
pub mod task;
pub mod tools;
pub mod mounts;
pub mod guard;
pub mod cmd;
pub mod docker;
