//! Decision logic for a program that keeps its own compiled artifact up to
//! date: staleness detection, compiler invocation, re-execution, and the
//! editor-tooling descriptor for a standalone source file.
//!
//! The library performs no I/O. Each facility is a small state machine: a
//! state says what the driver has to do next, and the driver reports what
//! happened by calling the transition of that state.

pub mod edition;
pub mod invocation;
pub mod logging;
pub mod project;
pub mod rebuild;
pub mod staleness;

pub use edition::RustEdition;
pub use invocation::{toolchain, CompilerInvocation};
pub use logging::{LogLevel, Stream};
pub use project::{
    descriptor_file, first_line, generate_project, sysroot_query, Checking, Generate,
    ProjectDescriptor, ProjectError, QueryOutcome, Querying, Writing,
};
pub use rebuild::{
    rebuild, rebuild_edition, rebuild_edition_args, Idle, Rebuild, Rebuilding, Respawning,
};
pub use staleness::{classify, needs_rebuild, Freshness};
