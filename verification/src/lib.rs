//! Coordination logic of a launcher that hands a command-line request to a
//! long-lived background worker: where a project's session lives on disk,
//! how the worker is started, what is sent to it, and how its exit status is
//! recovered.

pub mod decimal;
pub mod launcher;
pub mod namespace;
pub mod paths;
pub mod project_root;
pub mod protocol;
pub mod relay;
pub mod request;
pub mod text;
