//! The fatal error taxonomy of a build invocation.
//!
//! Nothing is recovered locally: every variant unwinds the whole
//! invocation, and a single top-level caller turns it into a
//! process-level abort.

use vstd::prelude::*;

verus! {

/// The toolchain stage an external command belongs to.
#[derive(Clone, Copy, PartialEq, Eq, Structural, Debug)]
pub enum Stage {
    /// Generating or configuring the build system.
    Configuring,
    /// Compiling.
    Building,
    /// Installing the built artifacts.
    Installing,
}

impl Stage {
    /// The operation name reported when a command of this stage fails.
    pub fn describe(&self) -> (r: &'static str)
        ensures
            self is Configuring ==> r@ == "configuring build"@,
            self is Building ==> r@ == "building"@,
            self is Installing ==> r@ == "installing"@,
    {
        match self {
            Stage::Configuring => "configuring build",
            Stage::Building => "building",
            Stage::Installing => "installing",
        }
    }
}

/// What became of an attempt to run one external command.
#[derive(Clone, Copy, PartialEq, Eq, Structural, Debug)]
pub enum SpawnOutcome {
    /// The executable could not be invoked at all.
    NotFound,
    /// The process ran to completion and exited with this code.
    Exited(i32),
}

/// A fatal build failure. Every variant aborts the invocation; there
/// is no partial-success state.
#[derive(Debug)]
pub enum BuildError {
    /// No target triple was configured.
    MissingTargetTriple,
    /// No host triple was configured.
    MissingHostTriple,
    /// Dynamic linking was requested on the MSVC family, which this
    /// plan does not support.
    UnsupportedDynamicMsvc,
    /// The source tree has neither a `configure` script nor an
    /// `autogen.sh` to generate one.
    MissingConfigureScript,
    /// A required executable was absent; carries the attempted
    /// command line.
    ToolchainNotFound { command: String },
    /// An external command of a toolchain stage exited with a
    /// non-zero status; carries the stage, the full command line and
    /// the exit code.
    StageFailed { stage: Stage, command: String, exit_code: i32 },
    /// Neither `lib` nor `lib64` was a readable directory under the
    /// install root after an apparently successful build.
    LibDirNotFound,
    /// No file with the expected name prefix was found when resolving
    /// the built artifact.
    ArtifactNotFound { prefix: String },
    /// More than one file with the expected name prefix was found, so
    /// the artifact to rename is ambiguous.
    AmbiguousArtifact { prefix: String },
}

} // verus!
