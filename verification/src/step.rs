//! The per-kind compile steps and the plan of one compiler invocation.
//!
//! A compile step turns one shader source file into one SPIR-V artifact by
//! running the external compiler. The step itself is stateless; the two
//! kinds differ only in the recognized source extension and the output
//! suffix. The library computes the full invocation — program name,
//! argument list, and output path — as a pure function; the caller spawns
//! the process, feeds captured standard error back through
//! [`crate::diagnostics::classify_stderr`], repairs the dependency file with
//! [`crate::sanitize::sanitize_dependency_text`], and settles the result
//! with [`finish_compile`].

use vstd::prelude::*;
use crate::command::{Configuration, command_args, build_command_args};
use crate::paths::{intermediate_output_path, compute_output_path};

verus! {

/// The kind of shader a compile step handles.
#[derive(Clone, Copy, PartialEq, Eq, Structural, Debug)]
pub enum ShaderKind {
    Vertex,
    Fragment,
}

impl ShaderKind {
    /// The extension of source files of this kind.
    pub open spec fn spec_source_extension(self) -> Seq<char> {
        match self {
            ShaderKind::Vertex => "vert"@,
            ShaderKind::Fragment => "frag"@,
        }
    }

    /// The suffix of intermediate output files of this kind.
    pub open spec fn spec_output_extension(self) -> Seq<char> {
        match self {
            ShaderKind::Vertex => "vert.spirv"@,
            ShaderKind::Fragment => "frag.spirv"@,
        }
    }

    /// The extension by which the surrounding build engine recognizes
    /// source files of this kind.
    pub fn source_extension(self) -> (r: &'static str)
        ensures
            r@ == self.spec_source_extension(),
    {
        match self {
            ShaderKind::Vertex => "vert",
            ShaderKind::Fragment => "frag",
        }
    }

    /// The output-file extension passed into the invocation plan.
    pub fn output_extension(self) -> (r: &'static str)
        ensures
            r@ == self.spec_output_extension(),
    {
        match self {
            ShaderKind::Vertex => "vert.spirv",
            ShaderKind::Fragment => "frag.spirv",
        }
    }
}

/// The conventional executable name of the external shader compiler.
pub open spec fn compiler_program() -> Seq<char> {
    "glslc"@
}

/// One fully determined invocation of the external compiler: the program to
/// run, its arguments in order, and the path of the artifact the invocation
/// produces.
pub struct CompileCommand {
    /// The executable name of the external compiler.
    pub program: String,
    /// The complete argument list, in the order handed to the process.
    pub args: Vec<String>,
    /// Where the compiled artifact is written; returned to the build engine
    /// on success.
    pub output_path: String,
}

/// Plans the compilation of one source file of the given kind: computes the
/// intermediate output path and assembles the external compiler's argument
/// list for the configuration and the caller's extra flags.
pub fn plan_compile_one(
    kind: ShaderKind,
    source: &str,
    intermediate_dir: &str,
    config: Configuration,
    dependency_path: &str,
    extra_flags: &Vec<String>,
) -> (r: CompileCommand)
    ensures
        r.program@ == compiler_program(),
        r.output_path@ == intermediate_output_path(
            source@,
            intermediate_dir@,
            kind.spec_output_extension(),
        ),
        r.args.deep_view() == command_args(
            source@,
            dependency_path@,
            intermediate_output_path(source@, intermediate_dir@, kind.spec_output_extension()),
            extra_flags.deep_view(),
            config,
        ),
{
    let out = compute_output_path(source, intermediate_dir, kind.output_extension());
    let args = build_command_args(source, dependency_path, out.as_str(), extra_flags, config);
    CompileCommand { program: String::from_str("glslc"), args, output_path: out }
}

/// The one failure a finished invocation can report: the external compiler
/// exited with an unsuccessful status.
#[derive(Clone, Copy, PartialEq, Eq, Structural, Debug)]
pub enum CompileError {
    CompilerReportedError,
}

/// Settles one finished invocation: when the compiler exited successfully
/// the intermediate output path is returned, and otherwise the build is in
/// error and must abort. The decision follows the exit status alone.
pub fn finish_compile(compiler_succeeded: bool, output_path: String) -> (r: Result<
    String,
    CompileError,
>)
    ensures
        compiler_succeeded <==> r is Ok,
        compiler_succeeded ==> (r matches Ok(p) && p@ == output_path@),
        !compiler_succeeded ==> (r matches Err(e) && e == CompileError::CompilerReportedError),
{
    if compiler_succeeded {
        Ok(output_path)
    } else {
        Err(CompileError::CompilerReportedError)
    }
}

/// Compiles vertex shaders: the compile step for `.vert` sources, producing
/// `.vert.spirv` artifacts.
pub struct VertexCompiler;

impl VertexCompiler {
    /// The extension of the source files this step recognizes.
    pub fn source_file_extension() -> (r: &'static str)
        ensures
            r@ == ShaderKind::Vertex.spec_source_extension(),
    {
        ShaderKind::Vertex.source_extension()
    }

    /// Plans the compilation of one vertex shader source file.
    pub fn plan_compile_one(
        source: &str,
        intermediate_dir: &str,
        config: Configuration,
        dependency_path: &str,
        extra_flags: &Vec<String>,
    ) -> (r: CompileCommand)
        ensures
            r.program@ == compiler_program(),
            r.output_path@ == intermediate_output_path(
                source@,
                intermediate_dir@,
                ShaderKind::Vertex.spec_output_extension(),
            ),
            r.args.deep_view() == command_args(
                source@,
                dependency_path@,
                intermediate_output_path(
                    source@,
                    intermediate_dir@,
                    ShaderKind::Vertex.spec_output_extension(),
                ),
                extra_flags.deep_view(),
                config,
            ),
    {
        plan_compile_one(
            ShaderKind::Vertex,
            source,
            intermediate_dir,
            config,
            dependency_path,
            extra_flags,
        )
    }
}

/// Compiles fragment shaders: the compile step for `.frag` sources,
/// producing `.frag.spirv` artifacts.
pub struct FragmentCompiler;

impl FragmentCompiler {
    /// The extension of the source files this step recognizes.
    pub fn source_file_extension() -> (r: &'static str)
        ensures
            r@ == ShaderKind::Fragment.spec_source_extension(),
    {
        ShaderKind::Fragment.source_extension()
    }

    /// Plans the compilation of one fragment shader source file.
    pub fn plan_compile_one(
        source: &str,
        intermediate_dir: &str,
        config: Configuration,
        dependency_path: &str,
        extra_flags: &Vec<String>,
    ) -> (r: CompileCommand)
        ensures
            r.program@ == compiler_program(),
            r.output_path@ == intermediate_output_path(
                source@,
                intermediate_dir@,
                ShaderKind::Fragment.spec_output_extension(),
            ),
            r.args.deep_view() == command_args(
                source@,
                dependency_path@,
                intermediate_output_path(
                    source@,
                    intermediate_dir@,
                    ShaderKind::Fragment.spec_output_extension(),
                ),
                extra_flags.deep_view(),
                config,
            ),
    {
        plan_compile_one(
            ShaderKind::Fragment,
            source,
            intermediate_dir,
            config,
            dependency_path,
            extra_flags,
        )
    }
}

} // verus!
