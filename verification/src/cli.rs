//! The subcommand-style invocation surface: plain data carried from
//! argument parsing into the library.

use vstd::prelude::*;

verus! {

/// Arguments of a run: whether to run under a debugger, and what to
/// forward to the executable.
pub struct ExeArgs {
    pub debug: bool,
    pub args: Vec<String>,
}

/// What the invocation asks for: a build alone, or a build and run.
pub enum Commands {
    Build {},
    Run(ExeArgs),
}

/// An invocation in subcommand form.
pub struct Args {
    /// Project path to build (containing the root CMakeLists.txt)
    pub project: String,
    /// Build type
    pub build_type: String,
    /// Overriding build directory
    pub build_dir: Option<String>,
    /// CMake target to build
    pub target: String,
    /// Number of parallel build jobs
    pub jobs: u8,
    /// Arguments to forward to CMake
    pub cmake_args: Vec<String>,
    /// Overriding configuration file
    pub config: Option<String>,
    pub command: Commands,
}

} // verus!
