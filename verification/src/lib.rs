//! Build-step plugin logic for compiling GLSL shader sources to SPIR-V.
//!
//! The library covers the compile-step core: repairing the dependency files
//! that the external shader compiler emits, computing intermediate output
//! paths, assembling the compiler command line for a build configuration,
//! and classifying the compiler's diagnostics. Running the external compiler
//! itself is process I/O and lives outside the library.

pub mod command;
pub mod diagnostics;
pub mod paths;
pub mod sanitize;
pub mod step;

pub use command::Configuration;
pub use paths::compute_output_path;
pub use sanitize::sanitize_dependency_text;
pub use step::{CompileCommand, CompileError, FragmentCompiler, ShaderKind, VertexCompiler};
