//! Command routing, execution planning and output filtering for embedding applications.
//!
//! The library decides; the application around it performs. Whatever starts a process, reads a
//! pipe or touches a file is done outside and reported back as a plain value.

pub mod capture;
pub mod chain;
pub mod execute;
pub mod failure;
pub mod guard;
pub mod plan;
pub mod platform;
pub mod process;
pub mod route;
pub mod runner;
pub mod shell_lexer;
pub mod spelling;
pub mod text;

pub use execute::{
    execute, execute_with_options, ExecuteOptions, ExecutionResult, ExecutionRoute,
    DEFAULT_OUTPUT_LIMIT,
};
pub use failure::{
    BeforeStartError, ExecuteError, MayHaveStartedError, MayHaveStartedKind, PartialOutput,
};
pub use process::CancellationToken;
