//! Safe, verified core of a shader-compiler binding: option flags, error logs,
//! the per-compilation state machine, the process guard ledger, and the
//! planning logic of the native build pipeline.

pub mod builder;
pub mod command;
pub mod compile;
pub mod drive;
pub mod driver;
pub mod error_log;
pub mod fetch;
pub mod flags;
pub mod generator;
pub mod manifest;
pub mod prebuilt;
pub mod process;
pub mod target;
pub mod text;

pub use driver::compile;
pub use error_log::GlslangErrorLog;
pub use flags::CompileOptionFlags;
pub use process::GlslangProcess;
