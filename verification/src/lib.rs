//! The decisions behind `cargo tako`, the tool for developing TAKO smart
//! contracts: where the platform-tools are, how a contract is built, which
//! file the build produced, and whether that file is a contract for the
//! architecture it was built for.
//!
//! Nothing here reads the file system, the environment or the clock, and
//! nothing starts a process. The caller records what it saw in a
//! [`disk::Disk`], runs the [`process::Invocation`]s it is handed, and
//! reports what they gave as a [`process::RunOutcome`]. What the library
//! answers is a function of those values, and each contract says which.
//!
//! - [`toolchain`]: the search for an installation of the platform-tools
//! - [`invoke`]: the build command, its outcome, and the dump of a binary
//! - [`util`]: the search for the built binary
//! - [`verify`]: the check of a binary's header
//! - [`template`], [`init`]: new projects
//! - [`testing`]: the test runner
//! - [`config`], [`error`]: settings and failures
//! - [`disk`], [`process`], [`path`], [`text`]: the values all of these work on

pub mod config;
pub mod disk;
pub mod error;
pub mod init;
pub mod invoke;
pub mod path;
pub mod process;
pub mod template;
pub mod testing;
pub mod text;
pub mod toolchain;
pub mod util;
pub mod verify;
