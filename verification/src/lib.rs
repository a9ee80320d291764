//! Build orchestrator for a vendored native `libzmq` source tree.
//!
//! Given a set of user-facing build options and a target platform, the
//! library derives a deterministic build plan (compiler defines, include
//! paths, source groups, toolchain flags), sequences the toolchain steps
//! of a clean build, resolves the produced artifacts, and renders the
//! artifact metadata lines for a consuming build pipeline.
//!
//! The library itself performs no I/O: probing the toolchain, spawning
//! the build processes, and copying files are left to the caller, which
//! hands the outcomes back as plain values.

pub mod artifacts;
pub mod driver;
pub mod error;
pub mod options;
pub mod paths;
pub mod plan;
pub mod platform;
pub mod report;
pub mod sources;
pub mod strutil;

pub use options::Build;
pub use options::LibLocation;

use vstd::prelude::*;

verus! {

/// How a resolved library is expected to be linked by the consumer.
#[derive(Clone, Copy, PartialEq, Eq, Structural, Debug)]
pub enum LinkKind {
    /// Archived into the consumer.
    Static,
    /// Resolved at load time.
    Dynamic,
    /// Left to the linker's default.
    Unspecified,
}

impl View for LinkKind {
    type V = LinkKind;

    open spec fn view(&self) -> LinkKind {
        *self
    }
}

impl DeepView for LinkKind {
    type V = LinkKind;

    open spec fn deep_view(&self) -> LinkKind {
        *self
    }
}

} // verus!
