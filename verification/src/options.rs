//! User-facing build configuration.

use vstd::prelude::*;

verus! {

/// The location of an already-built external library: where its headers
/// and its compiled objects live.
#[derive(Debug, Clone)]
pub struct LibLocation {
    include_dir: String,
    lib_dir: String,
}

/// Mathematical model of a [`LibLocation`].
pub ghost struct LibLocationView {
    /// Character content of the include directory path.
    pub include_dir: Seq<char>,
    /// Character content of the library directory path.
    pub lib_dir: Seq<char>,
}

impl View for LibLocation {
    type V = LibLocationView;

    closed spec fn view(&self) -> LibLocationView {
        LibLocationView { include_dir: self.include_dir@, lib_dir: self.lib_dir@ }
    }
}

impl LibLocation {
    /// Create a new `LibLocation`.
    pub fn new(lib_dir: String, include_dir: String) -> (r: Self)
        ensures
            r@.lib_dir == lib_dir@,
            r@.include_dir == include_dir@,
    {
        Self { include_dir, lib_dir }
    }

    /// Returns the `include_dir`.
    pub fn include_dir(&self) -> (r: &str)
        ensures
            r@ == self@.include_dir,
    {
        self.include_dir.as_str()
    }

    /// Returns the `lib_dir`.
    pub fn lib_dir(&self) -> (r: &str)
        ensures
            r@ == self@.lib_dir,
    {
        self.lib_dir.as_str()
    }
}

/// Settings for building the vendored library.
///
/// A `Build` is assembled once through the builder-style setters and is
/// never mutated after plan derivation starts. The target and host
/// triples must be non-empty before building; validation treats their
/// absence as a fatal configuration error.
#[derive(Debug, Clone)]
pub struct Build {
    enable_draft: bool,
    build_debug: bool,
    libsodium: Option<LibLocation>,
    link_static: bool,
    enable_curve: bool,
    enable_perf_tool: bool,
    configure_path: Option<String>,
    configure_args: Vec<String>,
    vendor_dir: String,
    out_dir: String,
    target_triple: String,
    host_triple: String,
}

/// Mathematical model of a [`Build`].
pub ghost struct BuildView {
    /// The DRAFT API toggle.
    pub enable_draft: bool,
    /// Debug rather than release configuration.
    pub build_debug: bool,
    /// External crypto library location, when one is used.
    pub libsodium: Option<LibLocationView>,
    /// Static rather than dynamic linkage of the produced library.
    pub link_static: bool,
    /// The CURVE feature toggle.
    pub enable_curve: bool,
    /// The performance-tool feature toggle.
    pub enable_perf_tool: bool,
    /// Override of the configure script path, when one is given.
    pub configure_path: Option<Seq<char>>,
    /// Extra arguments for the configure stage.
    pub configure_args: Seq<Seq<char>>,
    /// Root of the vendored source tree.
    pub vendor_dir: Seq<char>,
    /// Root for all build and install side effects.
    pub out_dir: Seq<char>,
    /// Triple of the platform the library is compiled for.
    pub target_triple: Seq<char>,
    /// Triple of the platform the build tools run on.
    pub host_triple: Seq<char>,
}

impl View for Build {
    type V = BuildView;

    closed spec fn view(&self) -> BuildView {
        BuildView {
            enable_draft: self.enable_draft,
            build_debug: self.build_debug,
            libsodium: match self.libsodium {
                Some(loc) => Some(loc@),
                None => None,
            },
            link_static: self.link_static,
            enable_curve: self.enable_curve,
            enable_perf_tool: self.enable_perf_tool,
            configure_path: match self.configure_path {
                Some(p) => Some(p@),
                None => None,
            },
            configure_args: self.configure_args.deep_view(),
            vendor_dir: self.vendor_dir@,
            out_dir: self.out_dir@,
            target_triple: self.target_triple@,
            host_triple: self.host_triple@,
        }
    }
}

/// The model of a fresh [`Build`]: every toggle off but static linkage,
/// no external crypto library, and empty paths and triples. The empty
/// triples make a fresh `Build` invalid until the caller fills them in.
pub open spec fn default_build_view() -> BuildView {
    BuildView {
        enable_draft: false,
        build_debug: false,
        libsodium: None,
        link_static: true,
        enable_curve: false,
        enable_perf_tool: false,
        configure_path: None,
        configure_args: Seq::empty(),
        vendor_dir: Seq::empty(),
        out_dir: Seq::empty(),
        target_triple: Seq::empty(),
        host_triple: Seq::empty(),
    }
}

impl Build {
    /// Create a new build with the default configuration.
    pub fn new() -> (r: Self)
        ensures
            r@ == default_build_view(),
    {
        let r = Self {
            enable_draft: false,
            build_debug: false,
            libsodium: None,
            link_static: true,
            enable_curve: false,
            enable_perf_tool: false,
            configure_path: None,
            configure_args: Vec::new(),
            vendor_dir: String::new(),
            out_dir: String::new(),
            target_triple: String::new(),
            host_triple: String::new(),
        };
        proof {
            assert(r@.configure_args =~= default_build_view().configure_args);
        }
        r
    }

    /// Build the debug version of the lib.
    pub fn build_debug(&mut self, enabled: bool) -> (r: &mut Self)
        ensures
            r@ == (BuildView { build_debug: enabled, ..old(self)@ }),
            final(self)@ == final(r)@,
    {
        self.build_debug = enabled;
        self
    }

    /// Enable the DRAFT API.
    pub fn enable_draft(&mut self, enabled: bool) -> (r: &mut Self)
        ensures
            r@ == (BuildView { enable_draft: enabled, ..old(self)@ }),
            final(self)@ == final(r)@,
    {
        self.enable_draft = enabled;
        self
    }

    /// Link against an external `libsodium` library instead of the
    /// bundled fallback crypto implementation.
    ///
    /// The bundled fallback has never been audited, so production
    /// CURVE deployments are expected to supply a `libsodium`.
    pub fn with_libsodium(&mut self, maybe: Option<LibLocation>) -> (r: &mut Self)
        ensures
            r@.libsodium == match maybe {
                Some(loc) => Some(loc@),
                None => None::<LibLocationView>,
            },
            r@ == (BuildView { libsodium: r@.libsodium, ..old(self)@ }),
            final(self)@ == final(r)@,
    {
        self.libsodium = maybe;
        self
    }

    /// Enable the CURVE feature.
    pub fn enable_curve(&mut self, enabled: bool) -> (r: &mut Self)
        ensures
            r@ == (BuildView { enable_curve: enabled, ..old(self)@ }),
            final(self)@ == final(r)@,
    {
        self.enable_curve = enabled;
        self
    }

    /// Enable building the performance measurement tool.
    pub fn enable_perf_tool(&mut self, enabled: bool) -> (r: &mut Self)
        ensures
            r@ == (BuildView { enable_perf_tool: enabled, ..old(self)@ }),
            final(self)@ == final(r)@,
    {
        self.enable_perf_tool = enabled;
        self
    }

    /// Build a statically linked library (`true`, the default) or a
    /// dynamically linked one.
    pub fn link_static(&mut self, enabled: bool) -> (r: &mut Self)
        ensures
            r@ == (BuildView { link_static: enabled, ..old(self)@ }),
            final(self)@ == final(r)@,
    {
        self.link_static = enabled;
        self
    }

    /// Override the path of the configure script used by the
    /// autotools toolchain.
    pub fn configure_path(&mut self, path: Option<String>) -> (r: &mut Self)
        ensures
            r@.configure_path == match path {
                Some(p) => Some(p@),
                None => None::<Seq<char>>,
            },
            r@ == (BuildView { configure_path: r@.configure_path, ..old(self)@ }),
            final(self)@ == final(r)@,
    {
        self.configure_path = path;
        self
    }

    /// Set the extra arguments handed to the configure stage.
    pub fn configure_args(&mut self, args: Vec<String>) -> (r: &mut Self)
        ensures
            r@ == (BuildView { configure_args: args.deep_view(), ..old(self)@ }),
            final(self)@ == final(r)@,
    {
        self.configure_args = args;
        self
    }

    /// Set the root of the vendored source tree.
    pub fn vendor_dir(&mut self, dir: String) -> (r: &mut Self)
        ensures
            r@ == (BuildView { vendor_dir: dir@, ..old(self)@ }),
            final(self)@ == final(r)@,
    {
        self.vendor_dir = dir;
        self
    }

    /// Set the root directory for all build and install side effects.
    pub fn out_dir(&mut self, dir: String) -> (r: &mut Self)
        ensures
            r@ == (BuildView { out_dir: dir@, ..old(self)@ }),
            final(self)@ == final(r)@,
    {
        self.out_dir = dir;
        self
    }

    /// Set the triple of the platform the library is compiled for.
    pub fn target_triple(&mut self, triple: String) -> (r: &mut Self)
        ensures
            r@ == (BuildView { target_triple: triple@, ..old(self)@ }),
            final(self)@ == final(r)@,
    {
        self.target_triple = triple;
        self
    }

    /// Set the triple of the platform the build tools run on.
    pub fn host_triple(&mut self, triple: String) -> (r: &mut Self)
        ensures
            r@ == (BuildView { host_triple: triple@, ..old(self)@ }),
            final(self)@ == final(r)@,
    {
        self.host_triple = triple;
        self
    }

    /// The DRAFT API toggle.
    pub fn is_draft_enabled(&self) -> (r: bool)
        ensures
            r == self@.enable_draft,
    {
        self.enable_draft
    }

    /// Debug rather than release configuration.
    pub fn is_debug(&self) -> (r: bool)
        ensures
            r == self@.build_debug,
    {
        self.build_debug
    }

    /// The external crypto library location, when one was set.
    pub fn libsodium(&self) -> (r: &Option<LibLocation>)
        ensures
            self@.libsodium == match r {
                Some(loc) => Some(loc@),
                None => None::<LibLocationView>,
            },
    {
        &self.libsodium
    }

    /// The CURVE feature toggle.
    pub fn is_curve_enabled(&self) -> (r: bool)
        ensures
            r == self@.enable_curve,
    {
        self.enable_curve
    }

    /// The performance-tool feature toggle.
    pub fn is_perf_tool_enabled(&self) -> (r: bool)
        ensures
            r == self@.enable_perf_tool,
    {
        self.enable_perf_tool
    }

    /// The root of the vendored source tree.
    pub fn vendor(&self) -> (r: &str)
        ensures
            r@ == self@.vendor_dir,
    {
        self.vendor_dir.as_str()
    }

    /// The root directory for all build and install side effects.
    pub fn out(&self) -> (r: &str)
        ensures
            r@ == self@.out_dir,
    {
        self.out_dir.as_str()
    }

    /// The configured override of the configure script path.
    pub fn configure_script_override(&self) -> (r: &Option<String>)
        ensures
            self@.configure_path == match r {
                Some(p) => Some(p@),
                None => None::<Seq<char>>,
            },
    {
        &self.configure_path
    }

    /// The extra arguments handed to the configure stage.
    pub fn configure_extra_args(&self) -> (r: &Vec<String>)
        ensures
            r.deep_view() == self@.configure_args,
    {
        &self.configure_args
    }

    /// Static rather than dynamic linkage of the produced library.
    pub fn is_link_static(&self) -> (r: bool)
        ensures
            r == self@.link_static,
    {
        self.link_static
    }

    /// The triple of the platform the library is compiled for.
    pub fn target(&self) -> (r: &str)
        ensures
            r@ == self@.target_triple,
    {
        self.target_triple.as_str()
    }

    /// The triple of the platform the build tools run on.
    pub fn host(&self) -> (r: &str)
        ensures
            r@ == self@.host_triple,
    {
        self.host_triple.as_str()
    }
}

impl Default for Build {
    /// A fresh build, as [`Build::new`] returns it.
    fn default() -> (r: Self)
        ensures
            r@ == default_build_view(),
    {
        Self::new()
    }
}

} // verus!
