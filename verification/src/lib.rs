//! Baldur, a C++/CMake project builder: build, run and debug.
//!
//! The library holds the orchestration logic: configuration layering with
//! defined precedence, derivation of the build directory from the build
//! flavor, construction of the configure/build/run command lines, the
//! decision rules for deleting and reconfiguring a build directory, the
//! `compile_commands.json` symlink policy, and debugger resolution. A thin
//! binary around it performs the file, process and terminal work.

use vstd::prelude::*;

pub mod build_path;
pub mod cfg;
pub mod cli;
pub mod cmake;
pub mod docker;
pub mod locate;
pub mod orchestrate;
pub mod strutil;

verus! {

/// One flag-style invocation: every decision the orchestration takes is a
/// function of these values and of the resolved configuration.
pub struct Args {
    /// Project path to build (containing the root CMakeLists.txt)
    pub project: String,
    /// Build type
    pub build_type: String,
    /// Overriding build directory
    pub build_dir: Option<String>,
    /// CMake target to build
    pub target: String,
    /// Clean build
    pub delete: bool,
    /// Skip confirmations (can be handy for scripting)
    pub no_confirm: bool,
    /// Skip CMake configure (only applicable if it is already configured)
    pub no_configure: bool,
    /// Number of parallel build jobs
    pub jobs: u8,
    /// Arguments to forward to CMake
    pub cmake_args: Vec<String>,
    /// Overriding configuration file
    pub config: Option<String>,
    /// Run the built binary
    pub run: bool,
    /// Run under debugger
    pub debug: bool,
    /// Arguments to be forwarded to the executable
    pub exe_args: Vec<String>,
}

} // verus!
