//! Platform classification: mapping a target triple to a platform
//! family and deriving the capability flags the plan builder consumes.

use vstd::prelude::*;

use crate::strutil::contains_sub;
use crate::strutil::has_substring;

verus! {

/// The platform family a target triple falls into.
///
/// Classification is a pure, total function of the triple's content;
/// unrecognized triples fall into [`Family::Other`], which gets the
/// most portable treatment.
#[derive(Clone, Copy, PartialEq, Eq, Structural, Debug)]
pub enum Family {
    /// Windows with the MSVC toolchain.
    Msvc,
    /// Windows with a GNU-style toolchain.
    WindowsGnu,
    /// Linux.
    Linux,
    /// Apple platforms.
    Apple,
    /// The BSD family.
    Bsd,
    /// Anything unrecognized.
    Other,
}

/// The family that a target triple's content selects, by the first
/// matching marker substring.
pub open spec fn classified_family(t: Seq<char>) -> Family {
    if has_substring(t, "msvc"@) {
        Family::Msvc
    } else if has_substring(t, "windows"@) {
        Family::WindowsGnu
    } else if has_substring(t, "linux"@) {
        Family::Linux
    } else if has_substring(t, "apple"@) {
        Family::Apple
    } else if has_substring(t, "freebsd"@) || has_substring(t, "openbsd"@) {
        Family::Bsd
    } else {
        Family::Other
    }
}

/// Maps a target triple to its platform family.
///
/// Stable: the result depends on the triple's characters alone, never
/// on the host environment.
pub fn classify(target: &str) -> (f: Family)
    ensures
        f == classified_family(target@),
{
    if contains_sub(target, "msvc") {
        Family::Msvc
    } else if contains_sub(target, "windows") {
        Family::WindowsGnu
    } else if contains_sub(target, "linux") {
        Family::Linux
    } else if contains_sub(target, "apple") {
        Family::Apple
    } else if contains_sub(target, "freebsd") || contains_sub(target, "openbsd") {
        Family::Bsd
    } else {
        Family::Other
    }
}

/// Whether the triple alone already guarantees that the C library
/// provides `strlcpy`, with no probe needed: Apple, the BSDs, Android
/// and musl all package it.
pub open spec fn strlcpy_implied(t: Seq<char>) -> bool {
    ||| has_substring(t, "apple"@)
    ||| has_substring(t, "freebsd"@)
    ||| has_substring(t, "openbsd"@)
    ||| has_substring(t, "android"@)
    ||| has_substring(t, "musl"@)
}

/// Whether the triple selects a GNU C library environment, where
/// `strlcpy` availability depends on the glibc version and must be
/// probed.
pub open spec fn env_gnu(t: Seq<char>) -> bool {
    has_substring(t, "gnu"@)
}

/// Whether a `strlcpy` probe is needed for this triple: only a GNU
/// environment whose triple does not already imply the symbol.
pub fn needs_strlcpy_probe(target: &str) -> (r: bool)
    ensures
        r == (env_gnu(target@) && !strlcpy_implied(target@)),
{
    let implied = strlcpy_implied_exec(target);
    let gnu = contains_sub(target, "gnu");
    gnu && !implied
}

/// Whether the triple alone guarantees `strlcpy`.
pub fn strlcpy_implied_exec(target: &str) -> (r: bool)
    ensures
        r == strlcpy_implied(target@),
{
    contains_sub(target, "apple") || contains_sub(target, "freebsd") || contains_sub(
        target,
        "openbsd",
    ) || contains_sub(target, "android") || contains_sub(target, "musl")
}

/// The effective `strlcpy` capability: what the triple implies,
/// strengthened by a positive probe result in a GNU environment.
pub fn strlcpy_effective(target: &str, probed: bool) -> (r: bool)
    ensures
        r == (strlcpy_implied(target@) || (env_gnu(target@) && probed)),
{
    strlcpy_implied_exec(target) || (contains_sub(target, "gnu") && probed)
}

/// A platform classification together with the capability flags that
/// feed plan derivation. Computed fresh per build invocation: the
/// probe results depend on the active toolchain, which may change
/// between runs.
#[derive(Clone, Copy, PartialEq, Eq, Structural, Debug)]
pub struct PlatformInfo {
    /// The platform family.
    pub family: Family,
    /// The C library provides `strlcpy`.
    pub has_strlcpy: bool,
    /// The C++ compiler accepts the C++11 language standard.
    pub has_cxx11: bool,
    /// The IPC socket headers are available.
    pub has_ipc_headers: bool,
}

impl PlatformInfo {
    /// Assembles a classification from a family and probed
    /// capability flags.
    pub fn new(family: Family, has_strlcpy: bool, has_cxx11: bool, has_ipc_headers: bool) -> (r:
        Self)
        ensures
            r == (PlatformInfo { family, has_strlcpy, has_cxx11, has_ipc_headers }),
    {
        PlatformInfo { family, has_strlcpy, has_cxx11, has_ipc_headers }
    }
}

/// The narrow yes/no questions asked of the host toolchain before
/// planning.
#[derive(Clone, Copy, PartialEq, Eq, Structural, Debug)]
pub enum ProbeKind {
    /// Does the C library export `strlcpy`?
    StrlcpyAvailable,
    /// Does the compiler accept the C++11 language standard?
    Cxx11Supported,
    /// Are the IPC socket headers available?
    IpcHeadersAvailable,
}

/// Which probes one build invocation runs.
#[derive(Clone, Copy, PartialEq, Eq, Structural, Debug)]
pub struct ProbesNeeded {
    /// Run the `strlcpy` probe.
    pub strlcpy: bool,
    /// Run the C++11 probe.
    pub cxx11: bool,
    /// Run the IPC-header probe.
    pub ipc_headers: bool,
}

/// The probes a target needs: `strlcpy` only in a GNU environment
/// whose triple does not already imply it; the C++11 probe everywhere
/// but MSVC, whose compiler starts at C++14; the IPC-header probe on
/// the Windows families, where the headers may be absent.
pub fn probes_needed(target: &str) -> (r: ProbesNeeded)
    ensures
        r.strlcpy == (env_gnu(target@) && !strlcpy_implied(target@)),
        r.cxx11 == !(classified_family(target@) is Msvc),
        r.ipc_headers == (classified_family(target@) is Msvc || classified_family(
            target@,
        ) is WindowsGnu),
{
    let family = classify(target);
    ProbesNeeded {
        strlcpy: needs_strlcpy_probe(target),
        cxx11: family != Family::Msvc,
        ipc_headers: family == Family::Msvc || family == Family::WindowsGnu,
    }
}

} // verus!
