//! Locates or installs the oxc language server for a project and builds the
//! command that an editor host uses to launch it.
//!
//! The host's services (file checks, npm queries, settings) stay outside this
//! library: a [`launch::LaunchSession`] decides, step by step, what to ask of the
//! host next and what to do with each answer.
pub mod launch;
pub mod paths;
pub mod platform;
