//! Build plan derivation: the pure mapping from user options and
//! platform classification to the compiler defines, include paths,
//! source groups and toolchain arguments of one build.

use vstd::prelude::*;

use crate::options::Build;
use crate::options::BuildView;
use crate::options::LibLocationView;
use crate::platform::Family;
use crate::platform::PlatformInfo;
use crate::strutil::clone_strings;
use crate::strutil::push_str;
use crate::strutil::push_string;
use crate::strutil::concat2;
use crate::strutil::contains_sub;
use crate::strutil::has_substring;
use crate::strutil::join_path;
use crate::strutil::joined;
use crate::strutil::str_eq;
use crate::sources::cpp_source_names;
use crate::sources::vendored_cpp_names;
use crate::LinkKind;

verus! {

/// One compiler define: a preprocessor name and its value. Consumers
/// treat the presence of a name as the signal, so an omitted toggle
/// means an omitted define, never a define with a false value.
pub type Define = (Seq<char>, Seq<char>);

/// The defines that every build gets, whatever the options: the test
/// suite stays off, the C++11 standard library implements condition
/// variables, the bundled SHA-1 is used for WebSocket handshakes, and
/// the WebSocket transport is on.
pub open spec fn base_defines() -> Seq<Define> {
    seq![
        ("ZMQ_BUILD_TESTS"@, "OFF"@),
        ("ZMQ_USE_CV_IMPL_STL11"@, "1"@),
        ("ZMQ_USE_BUILTIN_SHA1"@, "1"@),
        ("ZMQ_HAVE_WS"@, "1"@),
    ]
}

/// The defines of the feature toggles: each toggle maps one-to-one
/// onto a named define, present exactly when the toggle is on.
pub open spec fn toggle_defines(o: BuildView) -> Seq<Define> {
    (if o.enable_draft {
        seq![("ZMQ_BUILD_DRAFT_API"@, "1"@)]
    } else {
        Seq::empty()
    }) + (if o.enable_curve {
        seq![("ZMQ_HAVE_CURVE"@, "1"@)]
    } else {
        Seq::empty()
    }) + (if o.enable_perf_tool {
        seq![("ZMQ_BUILD_PERF_TOOL"@, "1"@)]
    } else {
        Seq::empty()
    })
}

/// The crypto backend define: an external `libsodium` when one is
/// given, otherwise the bundled fallback implementation. The two are
/// mutually exclusive, never both active.
pub open spec fn crypto_defines(o: BuildView) -> Seq<Define> {
    if o.libsodium is Some {
        seq![("ZMQ_USE_LIBSODIUM"@, "1"@)]
    } else {
        seq![("ZMQ_USE_TWEETNACL"@, "1"@)]
    }
}

/// The linkage defines: the build-static/not-shared pair when static
/// linkage is requested, and on the MSVC family additionally the
/// consumer-facing static marker that its linker model needs.
pub open spec fn linkage_defines(o: BuildView, f: Family) -> Seq<Define> {
    if o.link_static {
        seq![("ZMQ_BUILD_STATIC"@, "1"@), ("ZMQ_BUILD_SHARED"@, "0"@)] + (if f is Msvc {
            seq![("ZMQ_STATIC"@, "1"@)]
        } else {
            Seq::empty()
        })
    } else {
        Seq::empty()
    }
}

/// The defines of both Windows families: epoll through the bundled
/// `wepoll`, a Vista baseline, and Unix-domain socket support; IPC
/// only where the headers were probed and the target is not UWP. The
/// GNU toolchain additionally knows `strnlen`.
pub open spec fn windows_defines(o: BuildView, p: PlatformInfo) -> Seq<Define> {
    seq![
        ("ZMQ_HAVE_WINDOWS"@, "1"@),
        ("ZMQ_IOTHREAD_POLLER_USE_EPOLL"@, "1"@),
        ("ZMQ_POLL_BASED_ON_POLL"@, "1"@),
        ("_WIN32_WINNT"@, "0x0600"@),
        ("ZMQ_HAVE_STRUCT_SOCKADDR_UN"@, "1"@),
    ] + (if p.family is WindowsGnu {
        seq![("HAVE_STRNLEN"@, "1"@)]
    } else {
        Seq::empty()
    }) + (if p.has_ipc_headers && !has_substring(o.target_triple, "uwp"@) {
        seq![("ZMQ_HAVE_IPC"@, "1"@)]
    } else {
        Seq::empty()
    })
}

/// The platform-family defines. Exactly one IO-multiplexing poller
/// define is selected per family: epoll on the Windows families and
/// Linux, kqueue on Apple and the BSDs, and select as the most
/// portable choice for anything unrecognized.
pub open spec fn family_defines(o: BuildView, p: PlatformInfo) -> Seq<Define> {
    match p.family {
        Family::Msvc => windows_defines(o, p),
        Family::WindowsGnu => windows_defines(o, p),
        Family::Linux => seq![
            ("ZMQ_HAVE_LINUX"@, "1"@),
            ("ZMQ_IOTHREAD_POLLER_USE_EPOLL"@, "1"@),
            ("ZMQ_POLL_BASED_ON_POLL"@, "1"@),
            ("ZMQ_HAVE_IPC"@, "1"@),
            ("HAVE_STRNLEN"@, "1"@),
            ("ZMQ_HAVE_UIO"@, "1"@),
            ("ZMQ_HAVE_STRUCT_SOCKADDR_UN"@, "1"@),
        ],
        Family::Apple | Family::Bsd => seq![
            ("ZMQ_IOTHREAD_POLLER_USE_KQUEUE"@, "1"@),
            ("ZMQ_POLL_BASED_ON_POLL"@, "1"@),
            ("HAVE_STRNLEN"@, "1"@),
            ("ZMQ_HAVE_UIO"@, "1"@),
            ("ZMQ_HAVE_IPC"@, "1"@),
            ("ZMQ_HAVE_STRUCT_SOCKADDR_UN"@, "1"@),
        ],
        Family::Other => seq![
            ("ZMQ_IOTHREAD_POLLER_USE_SELECT"@, "1"@),
            ("ZMQ_POLL_BASED_ON_SELECT"@, "1"@),
        ],
    }
}

/// The `strlcpy` define, present exactly when the capability is.
pub open spec fn strlcpy_defines(p: PlatformInfo) -> Seq<Define> {
    if p.has_strlcpy {
        seq![("ZMQ_HAVE_STRLCPY"@, "1"@)]
    } else {
        Seq::empty()
    }
}

/// Every define of the plan, in derivation order.
pub open spec fn plan_defines(o: BuildView, p: PlatformInfo) -> Seq<Define> {
    base_defines() + toggle_defines(o) + crypto_defines(o) + linkage_defines(o, p.family)
        + family_defines(o, p) + strlcpy_defines(p)
}

/// Appends one define.
fn push_define(v: &mut Vec<(String, String)>, name: &str, value: &str)
    ensures
        final(v).deep_view() == old(v).deep_view().push((name@, value@)),
{
    let pair = (name.to_owned(), value.to_owned());
    v.push(pair);
    proof {
        assert(v.deep_view() =~= old(v).deep_view().push((name@, value@)));
    }
}

/// Appends the defines every build gets.
fn push_base_defines(v: &mut Vec<(String, String)>)
    ensures
        final(v).deep_view() == old(v).deep_view() + base_defines(),
{
    push_define(v, "ZMQ_BUILD_TESTS", "OFF");
    push_define(v, "ZMQ_USE_CV_IMPL_STL11", "1");
    push_define(v, "ZMQ_USE_BUILTIN_SHA1", "1");
    push_define(v, "ZMQ_HAVE_WS", "1");
    proof {
        assert(v.deep_view() =~= old(v).deep_view() + base_defines());
    }
}

/// Appends the feature-toggle defines.
fn push_toggle_defines(v: &mut Vec<(String, String)>, o: &Build)
    ensures
        final(v).deep_view() == old(v).deep_view() + toggle_defines(o@),
{
    if o.is_draft_enabled() {
        push_define(v, "ZMQ_BUILD_DRAFT_API", "1");
    }
    if o.is_curve_enabled() {
        push_define(v, "ZMQ_HAVE_CURVE", "1");
    }
    if o.is_perf_tool_enabled() {
        push_define(v, "ZMQ_BUILD_PERF_TOOL", "1");
    }
    proof {
        assert(v.deep_view() =~= old(v).deep_view() + toggle_defines(o@));
    }
}

/// Appends the crypto backend define.
fn push_crypto_defines(v: &mut Vec<(String, String)>, o: &Build)
    ensures
        final(v).deep_view() == old(v).deep_view() + crypto_defines(o@),
{
    if o.libsodium().is_some() {
        push_define(v, "ZMQ_USE_LIBSODIUM", "1");
    } else {
        push_define(v, "ZMQ_USE_TWEETNACL", "1");
    }
    proof {
        assert(v.deep_view() =~= old(v).deep_view() + crypto_defines(o@));
    }
}

/// Appends the linkage defines.
fn push_linkage_defines(v: &mut Vec<(String, String)>, o: &Build, family: Family)
    ensures
        final(v).deep_view() == old(v).deep_view() + linkage_defines(o@, family),
{
    if o.is_link_static() {
        push_define(v, "ZMQ_BUILD_STATIC", "1");
        push_define(v, "ZMQ_BUILD_SHARED", "0");
        if family == Family::Msvc {
            push_define(v, "ZMQ_STATIC", "1");
        }
    }
    proof {
        assert(v.deep_view() =~= old(v).deep_view() + linkage_defines(o@, family));
    }
}

/// Appends the platform-family defines.
fn push_family_defines(v: &mut Vec<(String, String)>, o: &Build, p: &PlatformInfo)
    ensures
        final(v).deep_view() == old(v).deep_view() + family_defines(o@, *p),
{
    match p.family {
        Family::Msvc | Family::WindowsGnu => {
            push_define(v, "ZMQ_HAVE_WINDOWS", "1");
            push_define(v, "ZMQ_IOTHREAD_POLLER_USE_EPOLL", "1");
            push_define(v, "ZMQ_POLL_BASED_ON_POLL", "1");
            push_define(v, "_WIN32_WINNT", "0x0600");
            push_define(v, "ZMQ_HAVE_STRUCT_SOCKADDR_UN", "1");
            if p.family == Family::WindowsGnu {
                push_define(v, "HAVE_STRNLEN", "1");
            }
            if p.has_ipc_headers && !contains_sub(o.target(), "uwp") {
                push_define(v, "ZMQ_HAVE_IPC", "1");
            }
        },
        Family::Linux => {
            push_define(v, "ZMQ_HAVE_LINUX", "1");
            push_define(v, "ZMQ_IOTHREAD_POLLER_USE_EPOLL", "1");
            push_define(v, "ZMQ_POLL_BASED_ON_POLL", "1");
            push_define(v, "ZMQ_HAVE_IPC", "1");
            push_define(v, "HAVE_STRNLEN", "1");
            push_define(v, "ZMQ_HAVE_UIO", "1");
            push_define(v, "ZMQ_HAVE_STRUCT_SOCKADDR_UN", "1");
        },
        Family::Apple | Family::Bsd => {
            push_define(v, "ZMQ_IOTHREAD_POLLER_USE_KQUEUE", "1");
            push_define(v, "ZMQ_POLL_BASED_ON_POLL", "1");
            push_define(v, "HAVE_STRNLEN", "1");
            push_define(v, "ZMQ_HAVE_UIO", "1");
            push_define(v, "ZMQ_HAVE_IPC", "1");
            push_define(v, "ZMQ_HAVE_STRUCT_SOCKADDR_UN", "1");
        },
        Family::Other => {
            push_define(v, "ZMQ_IOTHREAD_POLLER_USE_SELECT", "1");
            push_define(v, "ZMQ_POLL_BASED_ON_SELECT", "1");
        },
    }
    proof {
        assert(v.deep_view() =~= old(v).deep_view() + family_defines(o@, *p));
    }
}

/// Appends the `strlcpy` define when the capability is present.
fn push_strlcpy_defines(v: &mut Vec<(String, String)>, p: &PlatformInfo)
    ensures
        final(v).deep_view() == old(v).deep_view() + strlcpy_defines(*p),
{
    if p.has_strlcpy {
        push_define(v, "ZMQ_HAVE_STRLCPY", "1");
    }
    proof {
        assert(v.deep_view() =~= old(v).deep_view() + strlcpy_defines(*p));
    }
}

/// The scratch directory that holds the generated platform header:
/// toolchains that bypass the vendored build system get an empty
/// `platform.hpp` there, all real configuration flowing through the
/// defines instead.
pub open spec fn scratch_include_dir(o: BuildView) -> Seq<char> {
    joined(joined(o.out_dir, "build"@), "scratch"@)
}

/// The include directories of the plan, in search order: the vendored
/// headers and sources first, then the root of each C source group —
/// the bundled SHA-1 always, the bundled `wepoll` on the Windows
/// families — then an external crypto library's headers, then the
/// platform-dependent extra directory. First match wins in lookup.
pub open spec fn plan_includes(o: BuildView, p: PlatformInfo) -> Seq<Seq<char>> {
    seq![
        joined(o.vendor_dir, "include"@),
        joined(o.vendor_dir, "src"@),
        joined(joined(o.vendor_dir, "external"@), "sha1"@),
    ] + (match o.libsodium {
        Some(l) => seq![l.include_dir],
        None => Seq::empty(),
    }) + (if p.family is Msvc || p.family is WindowsGnu {
        seq![joined(joined(o.vendor_dir, "external"@), "wepoll"@)]
    } else {
        Seq::empty()
    }) + (match p.family {
        Family::Msvc => seq![joined(o.vendor_dir, "builds/deprecated-msvc"@)],
        Family::WindowsGnu | Family::Linux | Family::Apple | Family::Bsd => seq![
            scratch_include_dir(o),
        ],
        Family::Other => Seq::empty(),
    })
}

/// The path of one C++ translation unit under the vendored tree.
pub open spec fn cpp_path(vendor_dir: Seq<char>, name: &str) -> Seq<char> {
    joined(joined(vendor_dir, "src"@), name@ + ".cpp"@)
}

/// The C++ source group of the plan: every vendored C++ translation
/// unit, in compilation order.
pub open spec fn plan_cpp_sources(o: BuildView) -> Seq<Seq<char>> {
    Seq::new(cpp_source_names().len(), |i: int| cpp_path(o.vendor_dir, cpp_source_names()[i]))
}

/// The C source group of the plan: the bundled SHA-1, and on the
/// Windows families the bundled `wepoll` shim that provides epoll.
pub open spec fn plan_c_sources(o: BuildView, p: PlatformInfo) -> Seq<Seq<char>> {
    seq![joined(joined(joined(o.vendor_dir, "external"@), "sha1"@), "sha1.c"@)] + (
    if p.family is Msvc || p.family is WindowsGnu {
        seq![joined(joined(joined(o.vendor_dir, "external"@), "wepoll"@), "wepoll.c"@)]
    } else {
        Seq::empty()
    })
}

/// The extra compiler flags of the plan. The MSVC family needs
/// whole-program optimization off and synchronous exception
/// unwinding on, purely to avoid a known linkage failure there; no
/// other family takes extra flags.
pub open spec fn plan_extra_flags(p: PlatformInfo) -> Seq<Seq<char>> {
    if p.family is Msvc {
        seq!["/GL-"@, "/EHsc"@]
    } else {
        Seq::empty()
    }
}

/// The C++ language standard the compiler is asked for: C++11 where
/// the probe found it accepted, except on MSVC, whose compiler starts
/// at C++14 and gets no standard flag.
pub open spec fn plan_cpp_std(p: PlatformInfo) -> Option<Seq<char>> {
    if !(p.family is Msvc) && p.has_cxx11 {
        Some("c++11"@)
    } else {
        None
    }
}

/// The configuration label forwarded verbatim to whichever toolchain
/// stage consumes it.
pub open spec fn plan_config_label(o: BuildView) -> Seq<char> {
    if o.build_debug {
        "Debug"@
    } else {
        "Release"@
    }
}

/// The cross-compilation arguments of the configure stage, appended
/// exactly when the host and target triples differ. The pairing —
/// the host triple behind `--target=` and the target triple behind
/// `--host=` — is the historically accumulated convention the
/// vendored configure script expects, preserved as observed rather
/// than re-derived.
pub open spec fn cross_args(o: BuildView) -> Seq<Seq<char>> {
    if o.target_triple != o.host_triple {
        seq!["--target="@ + o.host_triple, "--host="@ + o.target_triple]
    } else {
        Seq::empty()
    }
}

/// The configure-stage arguments of the plan: the caller's own
/// arguments first, then the cross-compilation pair when one is due.
pub open spec fn plan_configure_args(o: BuildView) -> Seq<Seq<char>> {
    o.configure_args + cross_args(o)
}

/// The link-search directories of the plan: only an external crypto
/// library contributes one.
pub open spec fn plan_link_search(o: BuildView) -> Seq<Seq<char>> {
    match o.libsodium {
        Some(l) => seq![l.lib_dir],
        None => Seq::empty(),
    }
}

/// What the external `libsodium` is called on each family: the MSVC
/// toolchain keeps the `lib` prefix in the import name.
pub open spec fn sodium_lib_name(f: Family) -> Seq<char> {
    if f is Msvc {
        "libsodium"@
    } else {
        "sodium"@
    }
}

/// The link-type-to-library-name table of the plan: the primary
/// library first — so the table is never empty — then the external
/// crypto library, then the platform's runtime libraries.
pub open spec fn plan_libraries(o: BuildView, p: PlatformInfo) -> Seq<(Seq<char>, LinkKind)> {
    seq![
        ("zmq"@, if o.link_static {
            LinkKind::Static
        } else {
            LinkKind::Dynamic
        }),
    ] + (match o.libsodium {
        Some(_) => seq![(sodium_lib_name(p.family), LinkKind::Static)],
        None => Seq::empty(),
    }) + (if p.family is Msvc || p.family is WindowsGnu {
        seq![("iphlpapi"@, LinkKind::Unspecified)]
    } else {
        Seq::empty()
    }) + (match p.family {
        Family::Msvc => Seq::empty(),
        Family::Apple => seq![("c++"@, LinkKind::Dynamic)],
        _ => seq![("stdc++"@, LinkKind::Dynamic)],
    })
}

/// Derives every define of the plan, in derivation order.
fn derive_defines(o: &Build, p: &PlatformInfo) -> (v: Vec<(String, String)>)
    ensures
        v.deep_view() == plan_defines(o@, *p),
{
    let mut v: Vec<(String, String)> = Vec::new();
    push_base_defines(&mut v);
    push_toggle_defines(&mut v, o);
    push_crypto_defines(&mut v, o);
    push_linkage_defines(&mut v, o, p.family);
    push_family_defines(&mut v, o, p);
    push_strlcpy_defines(&mut v, p);
    proof {
        assert(v.deep_view() =~= plan_defines(o@, *p));
    }
    v
}

/// Derives the include directories of the plan, in search order.
fn derive_includes(o: &Build, p: &PlatformInfo) -> (v: Vec<String>)
    ensures
        v.deep_view() == plan_includes(o@, *p),
{
    let mut v: Vec<String> = Vec::new();
    push_string(&mut v, join_path(o.vendor(), "include"));
    push_string(&mut v, join_path(o.vendor(), "src"));
    let external = join_path(o.vendor(), "external");
    push_string(&mut v, join_path(external.as_str(), "sha1"));
    if let Some(sodium) = o.libsodium() {
        push_str(&mut v, sodium.include_dir());
    }
    if p.family == Family::Msvc || p.family == Family::WindowsGnu {
        push_string(&mut v, join_path(external.as_str(), "wepoll"));
    }
    match p.family {
        Family::Msvc => {
            push_string(&mut v, join_path(o.vendor(), "builds/deprecated-msvc"));
        },
        Family::WindowsGnu | Family::Linux | Family::Apple | Family::Bsd => {
            let build_dir = join_path(o.out(), "build");
            push_string(&mut v, join_path(build_dir.as_str(), "scratch"));
        },
        Family::Other => {},
    }
    proof {
        assert(v.deep_view() =~= plan_includes(o@, *p));
    }
    v
}

/// Derives the C++ source group of the plan.
fn derive_cpp_sources(o: &Build) -> (v: Vec<String>)
    ensures
        v.deep_view() == plan_cpp_sources(o@),
{
    let names = vendored_cpp_names();
    let root = join_path(o.vendor(), "src");
    let mut v: Vec<String> = Vec::new();
    let mut i: usize = 0;
    while i < names.len()
        invariant
            names@ == cpp_source_names(),
            root@ == joined(o@.vendor_dir, "src"@),
            i <= names@.len(),
            v.deep_view().len() == i,
            forall|j: int| 0 <= j < i ==> v.deep_view()[j] == cpp_path(o@.vendor_dir, names@[j]),
        decreases names@.len() - i,
    {
        let file = concat2(names[i], ".cpp");
        push_string(&mut v, join_path(root.as_str(), file.as_str()));
        i += 1;
    }
    proof {
        assert(v.deep_view() =~= plan_cpp_sources(o@));
    }
    v
}

/// Derives the C source group of the plan.
fn derive_c_sources(o: &Build, p: &PlatformInfo) -> (v: Vec<String>)
    ensures
        v.deep_view() == plan_c_sources(o@, *p),
{
    let external = join_path(o.vendor(), "external");
    let mut v: Vec<String> = Vec::new();
    let sha1_dir = join_path(external.as_str(), "sha1");
    push_string(&mut v, join_path(sha1_dir.as_str(), "sha1.c"));
    if p.family == Family::Msvc || p.family == Family::WindowsGnu {
        let wepoll_dir = join_path(external.as_str(), "wepoll");
        push_string(&mut v, join_path(wepoll_dir.as_str(), "wepoll.c"));
    }
    proof {
        assert(v.deep_view() =~= plan_c_sources(o@, *p));
    }
    v
}

/// Derives the extra compiler flags of the plan.
fn derive_extra_flags(p: &PlatformInfo) -> (v: Vec<String>)
    ensures
        v.deep_view() == plan_extra_flags(*p),
{
    let mut v: Vec<String> = Vec::new();
    if p.family == Family::Msvc {
        push_str(&mut v, "/GL-");
        push_str(&mut v, "/EHsc");
    }
    proof {
        assert(v.deep_view() =~= plan_extra_flags(*p));
    }
    v
}

/// Derives the configure-stage arguments of the plan.
fn derive_configure_args(o: &Build) -> (v: Vec<String>)
    ensures
        v.deep_view() == plan_configure_args(o@),
{
    let mut v = clone_strings(o.configure_extra_args());
    if !str_eq(o.target(), o.host()) {
        push_string(&mut v, concat2("--target=", o.host()));
        push_string(&mut v, concat2("--host=", o.target()));
    }
    proof {
        assert(v.deep_view() =~= plan_configure_args(o@));
    }
    v
}

/// Derives the link-search directories of the plan.
fn derive_link_search(o: &Build) -> (v: Vec<String>)
    ensures
        v.deep_view() == plan_link_search(o@),
{
    let mut v: Vec<String> = Vec::new();
    if let Some(sodium) = o.libsodium() {
        push_str(&mut v, sodium.lib_dir());
    }
    proof {
        assert(v.deep_view() =~= plan_link_search(o@));
    }
    v
}

/// Appends one library with its link kind.
fn push_lib(v: &mut Vec<(String, LinkKind)>, name: &str, kind: LinkKind)
    ensures
        final(v).deep_view() == old(v).deep_view().push((name@, kind)),
{
    v.push((name.to_owned(), kind));
    proof {
        assert(v.deep_view() =~= old(v).deep_view().push((name@, kind)));
    }
}

/// Derives the library table of the plan.
fn derive_libraries(o: &Build, p: &PlatformInfo) -> (v: Vec<(String, LinkKind)>)
    ensures
        v.deep_view() == plan_libraries(o@, *p),
{
    let mut v: Vec<(String, LinkKind)> = Vec::new();
    if o.is_link_static() {
        push_lib(&mut v, "zmq", LinkKind::Static);
    } else {
        push_lib(&mut v, "zmq", LinkKind::Dynamic);
    }
    if o.libsodium().is_some() {
        if p.family == Family::Msvc {
            push_lib(&mut v, "libsodium", LinkKind::Static);
        } else {
            push_lib(&mut v, "sodium", LinkKind::Static);
        }
    }
    if p.family == Family::Msvc || p.family == Family::WindowsGnu {
        push_lib(&mut v, "iphlpapi", LinkKind::Unspecified);
    }
    match p.family {
        Family::Msvc => {},
        Family::Apple => {
            push_lib(&mut v, "c++", LinkKind::Dynamic);
        },
        Family::WindowsGnu | Family::Linux | Family::Bsd | Family::Other => {
            push_lib(&mut v, "stdc++", LinkKind::Dynamic);
        },
    }
    proof {
        assert(v.deep_view() =~= plan_libraries(o@, *p));
    }
    v
}

/// A derived build plan: everything the toolchain driver consumes.
/// Owned by plan derivation during construction, then read-only; no
/// plan outlives its build invocation.
pub struct BuildPlan {
    /// Compiler defines, in derivation order, keys unique.
    pub defines: Vec<(String, String)>,
    /// Include directories, first match wins.
    pub include_dirs: Vec<String>,
    /// C++ translation units, in compilation order.
    pub cpp_sources: Vec<String>,
    /// C translation units, in compilation order.
    pub c_sources: Vec<String>,
    /// Extra compiler flags.
    pub extra_flags: Vec<String>,
    /// The C++ language standard to ask the compiler for, if any.
    pub cpp_std: Option<String>,
    /// The Debug/Release configuration label.
    pub config_label: String,
    /// Arguments of the configure stage.
    pub configure_args: Vec<String>,
    /// Directories searched for already-built libraries at link time.
    pub link_search: Vec<String>,
    /// The link-type-to-library-name table.
    pub libraries: Vec<(String, LinkKind)>,
}

/// Mathematical model of a [`BuildPlan`].
pub ghost struct BuildPlanView {
    /// Compiler defines, in derivation order.
    pub defines: Seq<Define>,
    /// Include directories, first match wins.
    pub include_dirs: Seq<Seq<char>>,
    /// C++ translation units, in compilation order.
    pub cpp_sources: Seq<Seq<char>>,
    /// C translation units, in compilation order.
    pub c_sources: Seq<Seq<char>>,
    /// Extra compiler flags.
    pub extra_flags: Seq<Seq<char>>,
    /// The C++ language standard to ask the compiler for, if any.
    pub cpp_std: Option<Seq<char>>,
    /// The Debug/Release configuration label.
    pub config_label: Seq<char>,
    /// Arguments of the configure stage.
    pub configure_args: Seq<Seq<char>>,
    /// Directories searched for already-built libraries at link time.
    pub link_search: Seq<Seq<char>>,
    /// The link-type-to-library-name table.
    pub libraries: Seq<(Seq<char>, LinkKind)>,
}

impl View for BuildPlan {
    type V = BuildPlanView;

    open spec fn view(&self) -> BuildPlanView {
        BuildPlanView {
            defines: self.defines.deep_view(),
            include_dirs: self.include_dirs.deep_view(),
            cpp_sources: self.cpp_sources.deep_view(),
            c_sources: self.c_sources.deep_view(),
            extra_flags: self.extra_flags.deep_view(),
            cpp_std: self.cpp_std.deep_view(),
            config_label: self.config_label@,
            configure_args: self.configure_args.deep_view(),
            link_search: self.link_search.deep_view(),
            libraries: self.libraries.deep_view(),
        }
    }
}

/// The plan that a given set of options and platform classification
/// derives: the value [`build_plan`] returns.
pub open spec fn spec_build_plan(o: BuildView, p: PlatformInfo) -> BuildPlanView {
    BuildPlanView {
        defines: plan_defines(o, p),
        include_dirs: plan_includes(o, p),
        cpp_sources: plan_cpp_sources(o),
        c_sources: plan_c_sources(o, p),
        extra_flags: plan_extra_flags(p),
        cpp_std: plan_cpp_std(p),
        config_label: plan_config_label(o),
        configure_args: plan_configure_args(o),
        link_search: plan_link_search(o),
        libraries: plan_libraries(o, p),
    }
}

/// Whether a define selects an IO-multiplexing poller.
pub open spec fn is_poller_define(d: Define) -> bool {
    ||| d.0 == "ZMQ_IOTHREAD_POLLER_USE_SELECT"@
    ||| d.0 == "ZMQ_IOTHREAD_POLLER_USE_POLL"@
    ||| d.0 == "ZMQ_IOTHREAD_POLLER_USE_EPOLL"@
    ||| d.0 == "ZMQ_IOTHREAD_POLLER_USE_KQUEUE"@
}

/// The poller predicate, as one value, so every statement about it
/// speaks of the same function.
pub open spec fn poller_pred() -> spec_fn(Define) -> bool {
    |d: Define| is_poller_define(d)
}

/// The predicate selecting the defines with a given name.
pub open spec fn named_define(name: Seq<char>) -> spec_fn(Define) -> bool {
    |d: Define| d.0 == name
}

/// Reveals every define-name literal a plan can contain, pins its
/// length, and tells equally long names apart, so that any two
/// differently named defines can be distinguished.
proof fn reveal_define_names()
    ensures
        "ZMQ_BUILD_TESTS"@.len() == 15,
        "ZMQ_USE_CV_IMPL_STL11"@.len() == 21,
        "ZMQ_USE_BUILTIN_SHA1"@.len() == 20,
        "ZMQ_HAVE_WS"@.len() == 11,
        "ZMQ_BUILD_DRAFT_API"@.len() == 19,
        "ZMQ_HAVE_CURVE"@.len() == 14,
        "ZMQ_BUILD_PERF_TOOL"@.len() == 19,
        "ZMQ_USE_LIBSODIUM"@.len() == 17,
        "ZMQ_USE_TWEETNACL"@.len() == 17,
        "ZMQ_BUILD_STATIC"@.len() == 16,
        "ZMQ_BUILD_SHARED"@.len() == 16,
        "ZMQ_STATIC"@.len() == 10,
        "ZMQ_HAVE_WINDOWS"@.len() == 16,
        "ZMQ_IOTHREAD_POLLER_USE_SELECT"@.len() == 30,
        "ZMQ_IOTHREAD_POLLER_USE_POLL"@.len() == 28,
        "ZMQ_IOTHREAD_POLLER_USE_EPOLL"@.len() == 29,
        "ZMQ_IOTHREAD_POLLER_USE_KQUEUE"@.len() == 30,
        "ZMQ_POLL_BASED_ON_POLL"@.len() == 22,
        "ZMQ_POLL_BASED_ON_SELECT"@.len() == 24,
        "_WIN32_WINNT"@.len() == 12,
        "ZMQ_HAVE_STRUCT_SOCKADDR_UN"@.len() == 27,
        "HAVE_STRNLEN"@.len() == 12,
        "ZMQ_HAVE_IPC"@.len() == 12,
        "ZMQ_HAVE_LINUX"@.len() == 14,
        "ZMQ_HAVE_UIO"@.len() == 12,
        "ZMQ_HAVE_STRLCPY"@.len() == 16,
        "ZMQ_BUILD_DRAFT_API"@ != "ZMQ_BUILD_PERF_TOOL"@,
        "ZMQ_HAVE_CURVE"@ != "ZMQ_HAVE_LINUX"@,
        "ZMQ_USE_LIBSODIUM"@ != "ZMQ_USE_TWEETNACL"@,
        "ZMQ_BUILD_STATIC"@ != "ZMQ_BUILD_SHARED"@,
        "ZMQ_BUILD_STATIC"@ != "ZMQ_HAVE_WINDOWS"@,
        "ZMQ_BUILD_STATIC"@ != "ZMQ_HAVE_STRLCPY"@,
        "ZMQ_BUILD_SHARED"@ != "ZMQ_HAVE_WINDOWS"@,
        "ZMQ_BUILD_SHARED"@ != "ZMQ_HAVE_STRLCPY"@,
        "ZMQ_HAVE_WINDOWS"@ != "ZMQ_HAVE_STRLCPY"@,
        "ZMQ_IOTHREAD_POLLER_USE_SELECT"@ != "ZMQ_IOTHREAD_POLLER_USE_KQUEUE"@,
        "_WIN32_WINNT"@ != "HAVE_STRNLEN"@,
        "_WIN32_WINNT"@ != "ZMQ_HAVE_IPC"@,
        "_WIN32_WINNT"@ != "ZMQ_HAVE_UIO"@,
        "HAVE_STRNLEN"@ != "ZMQ_HAVE_IPC"@,
        "HAVE_STRNLEN"@ != "ZMQ_HAVE_UIO"@,
        "ZMQ_HAVE_IPC"@ != "ZMQ_HAVE_UIO"@,
{
    reveal_strlit("ZMQ_BUILD_TESTS");
    reveal_strlit("ZMQ_USE_CV_IMPL_STL11");
    reveal_strlit("ZMQ_USE_BUILTIN_SHA1");
    reveal_strlit("ZMQ_HAVE_WS");
    reveal_strlit("ZMQ_BUILD_DRAFT_API");
    reveal_strlit("ZMQ_HAVE_CURVE");
    reveal_strlit("ZMQ_BUILD_PERF_TOOL");
    reveal_strlit("ZMQ_USE_LIBSODIUM");
    reveal_strlit("ZMQ_USE_TWEETNACL");
    reveal_strlit("ZMQ_BUILD_STATIC");
    reveal_strlit("ZMQ_BUILD_SHARED");
    reveal_strlit("ZMQ_STATIC");
    reveal_strlit("ZMQ_HAVE_WINDOWS");
    reveal_strlit("ZMQ_IOTHREAD_POLLER_USE_SELECT");
    reveal_strlit("ZMQ_IOTHREAD_POLLER_USE_POLL");
    reveal_strlit("ZMQ_IOTHREAD_POLLER_USE_EPOLL");
    reveal_strlit("ZMQ_IOTHREAD_POLLER_USE_KQUEUE");
    reveal_strlit("ZMQ_POLL_BASED_ON_POLL");
    reveal_strlit("ZMQ_POLL_BASED_ON_SELECT");
    reveal_strlit("_WIN32_WINNT");
    reveal_strlit("ZMQ_HAVE_STRUCT_SOCKADDR_UN");
    reveal_strlit("HAVE_STRNLEN");
    reveal_strlit("ZMQ_HAVE_IPC");
    reveal_strlit("ZMQ_HAVE_LINUX");
    reveal_strlit("ZMQ_HAVE_UIO");
    reveal_strlit("ZMQ_HAVE_STRLCPY");
    assert("ZMQ_BUILD_DRAFT_API"@[10] == 'D');
    assert("ZMQ_BUILD_PERF_TOOL"@[10] == 'P');
    assert("ZMQ_HAVE_CURVE"@[9] == 'C');
    assert("ZMQ_HAVE_LINUX"@[9] == 'L');
    assert("ZMQ_USE_LIBSODIUM"@[8] == 'L');
    assert("ZMQ_USE_TWEETNACL"@[8] == 'T');
    assert("ZMQ_BUILD_STATIC"@[11] == 'T');
    assert("ZMQ_BUILD_SHARED"@[11] == 'H');
    assert("ZMQ_BUILD_STATIC"@[4] == 'B');
    assert("ZMQ_HAVE_WINDOWS"@[4] == 'H');
    assert("ZMQ_HAVE_STRLCPY"@[4] == 'H');
    assert("ZMQ_BUILD_SHARED"@[4] == 'B');
    assert("ZMQ_HAVE_WINDOWS"@[9] == 'W');
    assert("ZMQ_HAVE_STRLCPY"@[9] == 'S');
    assert("ZMQ_IOTHREAD_POLLER_USE_SELECT"@[24] == 'S');
    assert("ZMQ_IOTHREAD_POLLER_USE_KQUEUE"@[24] == 'K');
    assert("_WIN32_WINNT"@[0] == '_');
    assert("HAVE_STRNLEN"@[0] == 'H');
    assert("ZMQ_HAVE_IPC"@[0] == 'Z');
    assert("ZMQ_HAVE_UIO"@[0] == 'Z');
    assert("ZMQ_HAVE_IPC"@[9] == 'I');
    assert("ZMQ_HAVE_UIO"@[9] == 'U');
}

/// The base component selects no poller.
#[verifier::spinoff_prover]
proof fn lemma_base_no_poller()
    ensures
        base_defines().filter(poller_pred()).len() == 0,
{
    reveal_with_fuel(Seq::filter, 6);
    reveal_define_names();
}

/// The feature toggles select no poller.
#[verifier::spinoff_prover]
proof fn lemma_toggles_no_poller(o: BuildView)
    ensures
        toggle_defines(o).filter(poller_pred()).len() == 0,
{
    broadcast use Seq::filter_distributes_over_add;

    reveal_with_fuel(Seq::filter, 3);
    reveal_define_names();
}

/// The crypto backend selects no poller.
#[verifier::spinoff_prover]
proof fn lemma_crypto_no_poller(o: BuildView)
    ensures
        crypto_defines(o).filter(poller_pred()).len() == 0,
{
    reveal_with_fuel(Seq::filter, 3);
    reveal_define_names();
}

/// The linkage defines select no poller.
#[verifier::spinoff_prover]
proof fn lemma_linkage_no_poller(o: BuildView, f: Family)
    ensures
        linkage_defines(o, f).filter(poller_pred()).len() == 0,
{
    broadcast use Seq::filter_distributes_over_add;

    reveal_with_fuel(Seq::filter, 4);
    reveal_define_names();
}

/// The platform-family component selects exactly one poller.
#[verifier::spinoff_prover]
#[verifier::rlimit(60)]
proof fn lemma_family_one_poller(o: BuildView, p: PlatformInfo)
    ensures
        family_defines(o, p).filter(poller_pred()).len() == 1,
{
    broadcast use Seq::filter_distributes_over_add;

    reveal_with_fuel(Seq::filter, 9);
    reveal_define_names();
}

/// The `strlcpy` define selects no poller.
#[verifier::spinoff_prover]
proof fn lemma_strlcpy_no_poller(p: PlatformInfo)
    ensures
        strlcpy_defines(p).filter(poller_pred()).len() == 0,
{
    reveal_with_fuel(Seq::filter, 3);
    reveal_define_names();
}

/// Exactly one IO-multiplexing poller define is selected, whatever
/// the options and whatever the platform family: choosing none or
/// more than one would break the vendored tree's poller selection.
#[verifier::spinoff_prover]
pub proof fn lemma_exactly_one_poller(o: BuildView, p: PlatformInfo)
    ensures
        plan_defines(o, p).filter(poller_pred()).len() == 1,
{
    broadcast use Seq::filter_distributes_over_add;

    lemma_base_no_poller();
    lemma_toggles_no_poller(o);
    lemma_crypto_no_poller(o);
    lemma_linkage_no_poller(o, p.family);
    lemma_family_one_poller(o, p);
    lemma_strlcpy_no_poller(p);
}

/// No two defines of a sequence share a name.
pub open spec fn unique_names(ds: Seq<Define>) -> bool {
    forall|i: int, j: int| 0 <= i < j < ds.len() ==> ds[i].0 != ds[j].0
}

/// The define keys of an MSVC plan are pairwise distinct.
#[verifier::spinoff_prover]
#[verifier::rlimit(100)]
proof fn lemma_unique_msvc(o: BuildView, p: PlatformInfo)
    requires
        p.family is Msvc,
    ensures
        unique_names(plan_defines(o, p)),
{
    reveal_define_names();
}

/// The define keys of a Windows/GNU plan are pairwise distinct.
#[verifier::spinoff_prover]
#[verifier::rlimit(100)]
proof fn lemma_unique_windows_gnu(o: BuildView, p: PlatformInfo)
    requires
        p.family is WindowsGnu,
    ensures
        unique_names(plan_defines(o, p)),
{
    reveal_define_names();
}

/// The define keys of a Linux plan are pairwise distinct.
#[verifier::spinoff_prover]
#[verifier::rlimit(100)]
proof fn lemma_unique_linux(o: BuildView, p: PlatformInfo)
    requires
        p.family is Linux,
    ensures
        unique_names(plan_defines(o, p)),
{
    reveal_define_names();
}

/// The define keys of an Apple or BSD plan are pairwise distinct.
#[verifier::spinoff_prover]
#[verifier::rlimit(100)]
proof fn lemma_unique_kqueue(o: BuildView, p: PlatformInfo)
    requires
        p.family is Apple || p.family is Bsd,
    ensures
        unique_names(plan_defines(o, p)),
{
    reveal_define_names();
}

/// The define keys of an unrecognized-family plan are pairwise
/// distinct.
#[verifier::spinoff_prover]
#[verifier::rlimit(100)]
proof fn lemma_unique_other(o: BuildView, p: PlatformInfo)
    requires
        p.family is Other,
    ensures
        unique_names(plan_defines(o, p)),
{
    reveal_define_names();
}

/// The defines of a plan are a well-formed mapping: derivation never
/// emits the same name twice, whatever the options and the platform.
pub proof fn lemma_define_names_unique(o: BuildView, p: PlatformInfo)
    ensures
        unique_names(plan_defines(o, p)),
{
    match p.family {
        Family::Msvc => lemma_unique_msvc(o, p),
        Family::WindowsGnu => lemma_unique_windows_gnu(o, p),
        Family::Linux => lemma_unique_linux(o, p),
        Family::Apple | Family::Bsd => lemma_unique_kqueue(o, p),
        Family::Other => lemma_unique_other(o, p),
    }
}

/// Plan derivation is deterministic: identical options and identical
/// platform classifications derive identical plans. Together with
/// [`build_plan`]'s contract, two calls on the same inputs return
/// plans with one and the same model.
pub proof fn lemma_build_plan_deterministic(
    o1: BuildView,
    o2: BuildView,
    p1: PlatformInfo,
    p2: PlatformInfo,
)
    requires
        o1 == o2,
        p1 == p2,
    ensures
        spec_build_plan(o1, p1) == spec_build_plan(o2, p2),
{
}

/// No define of the base component is named like a crypto backend:
/// every crypto backend name has seventeen characters and no base
/// name does.
#[verifier::spinoff_prover]
proof fn lemma_base_no_crypto(name: Seq<char>)
    requires
        name.len() == 17,
    ensures
        base_defines().filter(named_define(name)).len() == 0,
{
    reveal_with_fuel(Seq::filter, 6);
    reveal_define_names();
}

/// No feature-toggle define is named like a crypto backend.
#[verifier::spinoff_prover]
proof fn lemma_toggles_no_crypto(o: BuildView, name: Seq<char>)
    requires
        name.len() == 17,
    ensures
        toggle_defines(o).filter(named_define(name)).len() == 0,
{
    broadcast use Seq::filter_distributes_over_add;

    reveal_with_fuel(Seq::filter, 3);
    reveal_define_names();
}

/// No linkage define is named like a crypto backend.
#[verifier::spinoff_prover]
proof fn lemma_linkage_no_crypto(o: BuildView, f: Family, name: Seq<char>)
    requires
        name.len() == 17,
    ensures
        linkage_defines(o, f).filter(named_define(name)).len() == 0,
{
    broadcast use Seq::filter_distributes_over_add;

    reveal_with_fuel(Seq::filter, 4);
    reveal_define_names();
}

/// No platform-family define is named like a crypto backend.
#[verifier::spinoff_prover]
proof fn lemma_family_no_crypto(o: BuildView, p: PlatformInfo, name: Seq<char>)
    requires
        name.len() == 17,
    ensures
        family_defines(o, p).filter(named_define(name)).len() == 0,
{
    broadcast use Seq::filter_distributes_over_add;

    reveal_with_fuel(Seq::filter, 9);
    reveal_define_names();
}

/// The `strlcpy` define is not named like a crypto backend.
#[verifier::spinoff_prover]
proof fn lemma_strlcpy_no_crypto(p: PlatformInfo, name: Seq<char>)
    requires
        name.len() == 17,
    ensures
        strlcpy_defines(p).filter(named_define(name)).len() == 0,
{
    reveal_with_fuel(Seq::filter, 3);
    reveal_define_names();
}

/// The crypto component itself carries exactly the selected
/// backend's define.
#[verifier::spinoff_prover]
proof fn lemma_crypto_component(o: BuildView)
    ensures
        o.libsodium is Some ==> crypto_defines(o).filter(
            named_define("ZMQ_USE_TWEETNACL"@),
        ).len() == 0,
        o.libsodium is Some ==> crypto_defines(o).filter(
            named_define("ZMQ_USE_LIBSODIUM"@),
        ).len() == 1,
        o.libsodium is None ==> crypto_defines(o).filter(
            named_define("ZMQ_USE_LIBSODIUM"@),
        ).len() == 0,
        o.libsodium is None ==> crypto_defines(o).filter(
            named_define("ZMQ_USE_TWEETNACL"@),
        ).len() == 1,
{
    reveal_with_fuel(Seq::filter, 3);
    reveal_strlit("ZMQ_USE_TWEETNACL");
    reveal_strlit("ZMQ_USE_LIBSODIUM");
    assert("ZMQ_USE_LIBSODIUM"@[8] == 'L');
    assert("ZMQ_USE_TWEETNACL"@[8] == 'T');
}

/// The crypto backends are mutually exclusive: a plan with an
/// external crypto library never also carries the bundled-fallback
/// define, and a plan without one never carries the external-crypto
/// define; the selected backend's define is present exactly once.
#[verifier::spinoff_prover]
pub proof fn lemma_crypto_mutual_exclusion(o: BuildView, p: PlatformInfo)
    ensures
        o.libsodium is Some ==> plan_defines(o, p).filter(
            named_define("ZMQ_USE_TWEETNACL"@),
        ).len() == 0,
        o.libsodium is Some ==> plan_defines(o, p).filter(
            named_define("ZMQ_USE_LIBSODIUM"@),
        ).len() == 1,
        o.libsodium is None ==> plan_defines(o, p).filter(
            named_define("ZMQ_USE_LIBSODIUM"@),
        ).len() == 0,
        o.libsodium is None ==> plan_defines(o, p).filter(
            named_define("ZMQ_USE_TWEETNACL"@),
        ).len() == 1,
{
    broadcast use Seq::filter_distributes_over_add;

    reveal_strlit("ZMQ_USE_TWEETNACL");
    reveal_strlit("ZMQ_USE_LIBSODIUM");
    assert("ZMQ_USE_TWEETNACL"@.len() == 17);
    assert("ZMQ_USE_LIBSODIUM"@.len() == 17);
    let tweetnacl = "ZMQ_USE_TWEETNACL"@;
    let libsodium = "ZMQ_USE_LIBSODIUM"@;
    lemma_base_no_crypto(tweetnacl);
    lemma_toggles_no_crypto(o, tweetnacl);
    lemma_linkage_no_crypto(o, p.family, tweetnacl);
    lemma_family_no_crypto(o, p, tweetnacl);
    lemma_strlcpy_no_crypto(p, tweetnacl);
    lemma_base_no_crypto(libsodium);
    lemma_toggles_no_crypto(o, libsodium);
    lemma_linkage_no_crypto(o, p.family, libsodium);
    lemma_family_no_crypto(o, p, libsodium);
    lemma_strlcpy_no_crypto(p, libsodium);
    lemma_crypto_component(o);
}

/// The library table is never empty: whatever the options and the
/// platform, its first entry is the primary library, with the link
/// kind the static/dynamic option selects.
pub proof fn lemma_primary_library_first(o: BuildView, p: PlatformInfo)
    ensures
        plan_libraries(o, p).len() >= 1,
        plan_libraries(o, p)[0] == ("zmq"@, if o.link_static {
            LinkKind::Static
        } else {
            LinkKind::Dynamic
        }),
{
}

/// No define of the base component is the CURVE define.
#[verifier::spinoff_prover]
proof fn lemma_base_no_curve()
    ensures
        base_defines().filter(named_define("ZMQ_HAVE_CURVE"@)).len() == 0,
{
    reveal_with_fuel(Seq::filter, 6);
    reveal_define_names();
}

/// The feature toggles carry the CURVE define exactly when the CURVE
/// toggle is on.
#[verifier::spinoff_prover]
proof fn lemma_toggle_curve(o: BuildView)
    ensures
        toggle_defines(o).filter(named_define("ZMQ_HAVE_CURVE"@)).len() == (if o.enable_curve {
            1nat
        } else {
            0nat
        }),
{
    broadcast use Seq::filter_distributes_over_add;

    reveal_with_fuel(Seq::filter, 3);
    reveal_define_names();
}

/// The crypto backend define is not the CURVE define.
#[verifier::spinoff_prover]
proof fn lemma_crypto_no_curve(o: BuildView)
    ensures
        crypto_defines(o).filter(named_define("ZMQ_HAVE_CURVE"@)).len() == 0,
{
    reveal_with_fuel(Seq::filter, 3);
    reveal_define_names();
}

/// No linkage define is the CURVE define.
#[verifier::spinoff_prover]
proof fn lemma_linkage_no_curve(o: BuildView, f: Family)
    ensures
        linkage_defines(o, f).filter(named_define("ZMQ_HAVE_CURVE"@)).len() == 0,
{
    broadcast use Seq::filter_distributes_over_add;

    reveal_with_fuel(Seq::filter, 4);
    reveal_define_names();
}

/// No platform-family define is the CURVE define.
#[verifier::spinoff_prover]
proof fn lemma_family_no_curve(o: BuildView, p: PlatformInfo)
    ensures
        family_defines(o, p).filter(named_define("ZMQ_HAVE_CURVE"@)).len() == 0,
{
    broadcast use Seq::filter_distributes_over_add;

    reveal_with_fuel(Seq::filter, 9);
    reveal_define_names();
}

/// The `strlcpy` define is not the CURVE define.
#[verifier::spinoff_prover]
proof fn lemma_strlcpy_no_curve(p: PlatformInfo)
    ensures
        strlcpy_defines(p).filter(named_define("ZMQ_HAVE_CURVE"@)).len() == 0,
{
    reveal_with_fuel(Seq::filter, 3);
    reveal_define_names();
}

/// An external crypto library is selected in full: its define present
/// exactly once and the bundled fallback absent; the CURVE define
/// present exactly when its own toggle is on, the toggle being
/// independent of where the library lives; the library's headers in
/// the include path and its directory in the link-search list; and
/// the library linked statically under the name each toolchain
/// expects.
#[verifier::spinoff_prover]
pub proof fn lemma_external_crypto_plan(o: BuildView, p: PlatformInfo, l: LibLocationView)
    requires
        o.libsodium == Some(l),
    ensures
        plan_defines(o, p).filter(named_define("ZMQ_USE_LIBSODIUM"@)).len() == 1,
        plan_defines(o, p).filter(named_define("ZMQ_USE_TWEETNACL"@)).len() == 0,
        plan_defines(o, p).filter(named_define("ZMQ_HAVE_CURVE"@)).len() == (if o.enable_curve {
            1nat
        } else {
            0nat
        }),
        plan_includes(o, p).len() > 3,
        plan_includes(o, p)[3] == l.include_dir,
        plan_link_search(o) == seq![l.lib_dir],
        plan_libraries(o, p).len() > 1,
        plan_libraries(o, p)[1] == (sodium_lib_name(p.family), LinkKind::Static),
{
    broadcast use Seq::filter_distributes_over_add;

    lemma_crypto_mutual_exclusion(o, p);
    lemma_base_no_curve();
    lemma_toggle_curve(o);
    lemma_crypto_no_curve(o);
    lemma_linkage_no_curve(o, p.family);
    lemma_family_no_curve(o, p);
    lemma_strlcpy_no_curve(p);
}

/// Derives the build plan of one invocation: a pure, deterministic
/// function of the options and the platform classification, with no
/// I/O and no reads of ambient state.
pub fn build_plan(options: &Build, platform: &PlatformInfo) -> (r: BuildPlan)
    ensures
        r@ == spec_build_plan(options@, *platform),
{
    let cpp_std = if platform.family != Family::Msvc && platform.has_cxx11 {
        Some("c++11".to_owned())
    } else {
        None
    };
    let config_label = if options.is_debug() {
        "Debug".to_owned()
    } else {
        "Release".to_owned()
    };
    BuildPlan {
        defines: derive_defines(options, platform),
        include_dirs: derive_includes(options, platform),
        cpp_sources: derive_cpp_sources(options),
        c_sources: derive_c_sources(options, platform),
        extra_flags: derive_extra_flags(platform),
        cpp_std,
        config_label,
        configure_args: derive_configure_args(options),
        link_search: derive_link_search(options),
        libraries: derive_libraries(options, platform),
    }
}

} // verus!

