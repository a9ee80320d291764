//! The toolchain driver: validating the configuration, sequencing the
//! steps of one clean build, and supervising their outcomes.
//!
//! The driver computes what to do; it performs no step itself. The
//! caller executes each step in order and reports every external
//! command's outcome back through [`interpret_exit`]; any failure is
//! fatal for the whole invocation.

use vstd::prelude::*;

use crate::error::BuildError;
use crate::error::SpawnOutcome;
use crate::error::Stage;
use crate::options::Build;
use crate::options::BuildView;
use crate::paths::sanitize_path;
use crate::paths::sanitized_path;
use crate::plan::BuildPlan;
use crate::plan::BuildPlanView;
use crate::plan::Define;
use crate::platform::Family;
use crate::platform::PlatformInfo;
use crate::platform::classified_family;
use crate::platform::classify;
use crate::strutil::concat2;
use crate::strutil::concat3;
use crate::strutil::join_path;
use crate::strutil::joined;

verus! {

/// How the vendored tree is built: through its autotools scripts,
/// through CMake, or by compiling the enumerated sources directly,
/// bypassing the tree's own build system.
#[derive(Clone, Copy, PartialEq, Eq, Structural, Debug)]
pub enum ToolchainMode {
    /// `configure` and `make`, with an optional `autogen.sh` first.
    Autotools,
    /// Configure, build and install through the CMake driver.
    CMake,
    /// One direct compilation of every listed source file.
    DirectCompile,
}

/// One external command: an executable, its arguments, and the stage
/// it belongs to.
#[derive(Debug)]
pub struct Command {
    /// The program to invoke.
    pub program: String,
    /// Its arguments, in order.
    pub args: Vec<String>,
    /// The stage a failure of this command is charged to.
    pub stage: Stage,
}

/// Mathematical model of a [`Command`].
#[verifier::ext_equal]
pub ghost struct CommandView {
    /// The program to invoke.
    pub program: Seq<char>,
    /// Its arguments, in order.
    pub args: Seq<Seq<char>>,
    /// The stage a failure of this command is charged to.
    pub stage: Stage,
}

impl View for Command {
    type V = CommandView;

    open spec fn view(&self) -> CommandView {
        CommandView { program: self.program@, args: self.args.deep_view(), stage: self.stage }
    }
}

/// One step of a build invocation, in execution order.
#[derive(Debug)]
pub enum Step {
    /// Remove a directory tree from a prior run, if one exists.
    RemoveDir { path: String },
    /// Copy a directory tree recursively, overwriting existing files.
    CopyDir { from: String, to: String },
    /// Create an empty file, creating its directory first.
    CreateEmptyFile { path: String },
    /// Run one external command and check its exit status.
    Run { command: Command },
    /// Compile every source of the plan into one static archive with
    /// the given name, placed in the given directory.
    Compile { lib_dir: String, archive_name: String },
}

/// Mathematical model of a [`Step`].
#[verifier::ext_equal]
pub ghost enum StepView {
    /// Remove a directory tree from a prior run, if one exists.
    RemoveDir { path: Seq<char> },
    /// Copy a directory tree recursively, overwriting existing files.
    CopyDir { from: Seq<char>, to: Seq<char> },
    /// Create an empty file, creating its directory first.
    CreateEmptyFile { path: Seq<char> },
    /// Run one external command and check its exit status.
    Run { command: CommandView },
    /// Compile every source of the plan into one static archive.
    Compile { lib_dir: Seq<char>, archive_name: Seq<char> },
}

impl View for Step {
    type V = StepView;

    open spec fn view(&self) -> StepView {
        match self {
            Step::RemoveDir { path } => StepView::RemoveDir { path: path@ },
            Step::CopyDir { from, to } => StepView::CopyDir { from: from@, to: to@ },
            Step::CreateEmptyFile { path } => StepView::CreateEmptyFile { path: path@ },
            Step::Run { command } => StepView::Run { command: command@ },
            Step::Compile { lib_dir, archive_name } => StepView::Compile {
                lib_dir: lib_dir@,
                archive_name: archive_name@,
            },
        }
    }
}

impl DeepView for Step {
    type V = StepView;

    open spec fn deep_view(&self) -> StepView {
        self.view()
    }
}

/// The build directory of an invocation, under its output root.
pub open spec fn build_dir(o: BuildView) -> Seq<char> {
    joined(o.out_dir, "build"@)
}

/// The install directory of an invocation, under its output root.
pub open spec fn install_dir(o: BuildView) -> Seq<char> {
    joined(o.out_dir, "install"@)
}

/// Where the vendored source tree is copied before it is built.
pub open spec fn source_dir(o: BuildView) -> Seq<char> {
    joined(build_dir(o), "src"@)
}

/// Validates the configuration and classifies the target, before any
/// side effect: a missing target or host triple and a dynamic-link
/// request on the MSVC family are fatal configuration errors.
pub fn validate(options: &Build) -> (r: Result<Family, BuildError>)
    ensures
        options@.target_triple.len() == 0 ==> r == Err::<Family, BuildError>(
            BuildError::MissingTargetTriple,
        ),
        options@.target_triple.len() > 0 && options@.host_triple.len() == 0 ==> r == Err::<
            Family,
            BuildError,
        >(BuildError::MissingHostTriple),
        options@.target_triple.len() > 0 && options@.host_triple.len() > 0 && (classified_family(
            options@.target_triple,
        ) is Msvc && !options@.link_static) ==> r == Err::<Family, BuildError>(
            BuildError::UnsupportedDynamicMsvc,
        ),
        options@.target_triple.len() > 0 && options@.host_triple.len() > 0 && !(classified_family(
            options@.target_triple,
        ) is Msvc && !options@.link_static) ==> r == Ok::<Family, BuildError>(
            classified_family(options@.target_triple),
        ),
{
    if options.target().unicode_len() == 0 {
        return Err(BuildError::MissingTargetTriple);
    }
    if options.host().unicode_len() == 0 {
        return Err(BuildError::MissingHostTriple);
    }
    let family = classify(options.target());
    if family == Family::Msvc && !options.is_link_static() {
        return Err(BuildError::UnsupportedDynamicMsvc);
    }
    Ok(family)
}

/// The install prefix handed to a configure script: sanitized for the
/// POSIX-style shell tooling of the Windows families, and passed
/// through unchanged elsewhere.
pub open spec fn configure_prefix(o: BuildView, f: Family) -> Seq<char> {
    if f is Msvc || f is WindowsGnu {
        sanitized_path(install_dir(o))
    } else {
        install_dir(o)
    }
}

/// The steps every mode starts with: remove the build and install
/// trees of any prior run — every invocation is a clean build — and
/// copy the vendored sources into the fresh build tree.
pub open spec fn clean_steps(o: BuildView) -> Seq<StepView> {
    seq![
        StepView::RemoveDir { path: build_dir(o) },
        StepView::RemoveDir { path: install_dir(o) },
        StepView::CopyDir { from: o.vendor_dir, to: source_dir(o) },
    ]
}

/// The configure program of an autotools build: the caller's
/// override when one is set, otherwise the copied tree's own script.
pub open spec fn configure_program(o: BuildView) -> Seq<char> {
    match o.configure_path {
        Some(p) => p,
        None => joined(source_dir(o), "configure"@),
    }
}

/// The steps of an autotools build: `autogen.sh` when the tree has no
/// `configure` script yet, then `configure` with the plan's arguments
/// and the install prefix, then `make`, then the install target. The
/// MSVC family substitutes `nmake.exe` with its `install_sw` target.
pub open spec fn autotools_steps(
    plan: BuildPlanView,
    o: BuildView,
    f: Family,
    configure_present: bool,
) -> Seq<StepView> {
    (if !configure_present && o.configure_path is None {
        seq![
            StepView::Run {
                command: CommandView {
                    program: joined(source_dir(o), "autogen.sh"@),
                    args: Seq::empty(),
                    stage: Stage::Configuring,
                },
            },
        ]
    } else {
        Seq::empty()
    }) + seq![
        StepView::Run {
            command: CommandView {
                program: configure_program(o),
                args: plan.configure_args + seq!["--prefix="@ + configure_prefix(o, f)],
                stage: Stage::Configuring,
            },
        },
        StepView::Run {
            command: CommandView {
                program: if f is Msvc {
                    "nmake.exe"@
                } else {
                    "make"@
                },
                args: Seq::empty(),
                stage: Stage::Building,
            },
        },
        StepView::Run {
            command: CommandView {
                program: if f is Msvc {
                    "nmake.exe"@
                } else {
                    "make"@
                },
                args: if f is Msvc {
                    seq!["install_sw"@]
                } else {
                    seq!["install"@]
                },
                stage: Stage::Installing,
            },
        },
    ]
}

/// One CMake cache assignment per plan define.
pub open spec fn cmake_define_args(defines: Seq<Define>) -> Seq<Seq<char>> {
    Seq::new(defines.len(), |i: int| "-D"@ + defines[i].0 + "="@ + defines[i].1)
}

/// The arguments of the CMake configure-and-generate invocation: the
/// tree, the build directory, the install prefix, the configuration
/// label, every define as a cache variable, and on MSVC an explicit
/// generator, pinned to keep the choice unambiguous among the
/// generators a host offers.
pub open spec fn cmake_configure_args(plan: BuildPlanView, o: BuildView, f: Family) -> Seq<
    Seq<char>,
> {
    seq![
        "-S"@,
        source_dir(o),
        "-B"@,
        build_dir(o),
        "-DCMAKE_INSTALL_PREFIX="@ + install_dir(o),
        "-DCMAKE_BUILD_TYPE="@ + plan.config_label,
    ] + cmake_define_args(plan.defines) + (if f is Msvc {
        seq!["-G"@, "NMake Makefiles"@]
    } else {
        Seq::empty()
    })
}

/// The steps of a CMake build: one configure-and-generate
/// invocation, one build invocation, one install invocation.
pub open spec fn cmake_steps(plan: BuildPlanView, o: BuildView, f: Family) -> Seq<StepView> {
    seq![
        StepView::Run {
            command: CommandView {
                program: "cmake"@,
                args: cmake_configure_args(plan, o, f),
                stage: Stage::Configuring,
            },
        },
        StepView::Run {
            command: CommandView {
                program: "cmake"@,
                args: seq!["--build"@, build_dir(o)],
                stage: Stage::Building,
            },
        },
        StepView::Run {
            command: CommandView {
                program: "cmake"@,
                args: seq!["--install"@, build_dir(o)],
                stage: Stage::Installing,
            },
        },
    ]
}

/// The steps of a direct compilation: the platform-header shim for
/// the families whose build expects one, the headers installed from
/// the copied tree — downstream consumers read them from the install
/// root — then one compilation of every listed source into a static
/// archive under the install tree.
pub open spec fn direct_steps(o: BuildView, f: Family) -> Seq<StepView> {
    (match f {
        Family::WindowsGnu | Family::Linux | Family::Apple | Family::Bsd => seq![
            StepView::CreateEmptyFile {
                path: joined(crate::plan::scratch_include_dir(o), "platform.hpp"@),
            },
        ],
        Family::Msvc | Family::Other => Seq::empty(),
    }) + seq![
        StepView::CopyDir {
            from: joined(source_dir(o), "include"@),
            to: joined(install_dir(o), "include"@),
        },
        StepView::Compile {
            lib_dir: joined(install_dir(o), "lib"@),
            archive_name: "zmq"@,
        },
    ]
}

/// The full step sequence of one invocation, or the fatal error of a
/// source tree that cannot be configured.
pub open spec fn spec_driver_steps(
    plan: BuildPlanView,
    o: BuildView,
    f: Family,
    mode: ToolchainMode,
    configure_present: bool,
    autogen_present: bool,
) -> Result<Seq<StepView>, BuildError> {
    if mode is Autotools && o.configure_path is None && !configure_present && !autogen_present {
        Err(BuildError::MissingConfigureScript)
    } else {
        Ok(
            clean_steps(o) + match mode {
                ToolchainMode::Autotools => autotools_steps(plan, o, f, configure_present),
                ToolchainMode::CMake => cmake_steps(plan, o, f),
                ToolchainMode::DirectCompile => direct_steps(o, f),
            },
        )
    }
}

/// Appends one step.
fn push_step(v: &mut Vec<Step>, s: Step)
    ensures
        final(v).deep_view() == old(v).deep_view().push(s@),
{
    let ghost sv = s@;
    v.push(s);
    proof {
        assert(v.deep_view() =~= old(v).deep_view().push(sv));
    }
}

/// Appends the clean-build prefix: the removals of the prior build
/// and install trees, then the fresh copy of the vendored sources.
fn push_clean_steps(v: &mut Vec<Step>, o: &Build)
    ensures
        final(v).deep_view() == old(v).deep_view() + clean_steps(o@),
{
    let build = join_path(o.out(), "build");
    let install = join_path(o.out(), "install");
    let source = join_path(build.as_str(), "src");
    push_step(v, Step::RemoveDir { path: build });
    push_step(v, Step::RemoveDir { path: install });
    push_step(v, Step::CopyDir { from: o.vendor().to_owned(), to: source });
    proof {
        assert(v.deep_view() =~~= old(v).deep_view() + clean_steps(o@));
    }
}

/// Builds the steps of an autotools build.
fn build_autotools_steps(plan: &BuildPlan, o: &Build, family: Family, configure_present: bool) -> (v:
    Vec<Step>)
    ensures
        v.deep_view() == autotools_steps(plan@, o@, family, configure_present),
{
    let mut v: Vec<Step> = Vec::new();
    let build = join_path(o.out(), "build");
    let install = join_path(o.out(), "install");
    let source = join_path(build.as_str(), "src");
    if !configure_present && o.configure_script_override().is_none() {
        let autogen_args: Vec<String> = Vec::new();
        proof {
            assert(autogen_args.deep_view() =~= Seq::<Seq<char>>::empty());
        }
        push_step(
            &mut v,
            Step::Run {
                command: Command {
                    program: join_path(source.as_str(), "autogen.sh"),
                    args: autogen_args,
                    stage: Stage::Configuring,
                },
            },
        );
    }
    let program = match o.configure_script_override() {
        Some(p) => p.clone(),
        None => join_path(source.as_str(), "configure"),
    };
    let prefix = if family == Family::Msvc || family == Family::WindowsGnu {
        sanitize_path(install.as_str())
    } else {
        install.clone()
    };
    let mut args = crate::strutil::clone_strings(&plan.configure_args);
    crate::strutil::push_string(&mut args, concat2("--prefix=", prefix.as_str()));
    push_step(
        &mut v,
        Step::Run { command: Command { program, args, stage: Stage::Configuring } },
    );
    let make_program = if family == Family::Msvc {
        "nmake.exe"
    } else {
        "make"
    };
    let make_args: Vec<String> = Vec::new();
    proof {
        assert(make_args.deep_view() =~= Seq::<Seq<char>>::empty());
    }
    push_step(
        &mut v,
        Step::Run {
            command: Command {
                program: make_program.to_owned(),
                args: make_args,
                stage: Stage::Building,
            },
        },
    );
    let mut install_args: Vec<String> = Vec::new();
    if family == Family::Msvc {
        crate::strutil::push_str(&mut install_args, "install_sw");
    } else {
        crate::strutil::push_str(&mut install_args, "install");
    }
    push_step(
        &mut v,
        Step::Run {
            command: Command {
                program: make_program.to_owned(),
                args: install_args,
                stage: Stage::Installing,
            },
        },
    );
    proof {
        assert(v.deep_view() =~~= autotools_steps(plan@, o@, family, configure_present));
    }
    v
}

/// Renders the plan's defines as CMake cache assignments.
fn build_cmake_define_args(defines: &Vec<(String, String)>) -> (v: Vec<String>)
    ensures
        v.deep_view() == cmake_define_args(defines.deep_view()),
{
    let mut v: Vec<String> = Vec::new();
    let mut i: usize = 0;
    while i < defines.len()
        invariant
            i <= defines@.len(),
            v.deep_view().len() == i,
            forall|j: int|
                0 <= j < i ==> v.deep_view()[j] == "-D"@ + defines.deep_view()[j].0 + "="@
                    + defines.deep_view()[j].1,
        decreases defines@.len() - i,
    {
        let head = concat3("-D", defines[i].0.as_str(), "=");
        crate::strutil::push_string(&mut v, concat2(head.as_str(), defines[i].1.as_str()));
        i += 1;
    }
    proof {
        assert(v.deep_view() =~= cmake_define_args(defines.deep_view()));
    }
    v
}

/// Builds the steps of a CMake build.
fn build_cmake_steps(plan: &BuildPlan, o: &Build, family: Family) -> (v: Vec<Step>)
    ensures
        v.deep_view() == cmake_steps(plan@, o@, family),
{
    let mut v: Vec<Step> = Vec::new();
    let build = join_path(o.out(), "build");
    let install = join_path(o.out(), "install");
    let source = join_path(build.as_str(), "src");
    let mut args: Vec<String> = Vec::new();
    crate::strutil::push_str(&mut args, "-S");
    crate::strutil::push_string(&mut args, source);
    crate::strutil::push_str(&mut args, "-B");
    crate::strutil::push_string(&mut args, build.clone());
    crate::strutil::push_string(&mut args, concat2("-DCMAKE_INSTALL_PREFIX=", install.as_str()));
    crate::strutil::push_string(
        &mut args,
        concat2("-DCMAKE_BUILD_TYPE=", plan.config_label.as_str()),
    );
    let ghost head = args.deep_view();
    let mut define_args = build_cmake_define_args(&plan.defines);
    args.append(&mut define_args);
    proof {
        assert(args.deep_view() =~~= head + cmake_define_args(plan@.defines));
    }
    if family == Family::Msvc {
        crate::strutil::push_str(&mut args, "-G");
        crate::strutil::push_str(&mut args, "NMake Makefiles");
    }
    proof {
        assert(args.deep_view() =~~= cmake_configure_args(plan@, o@, family));
    }
    push_step(
        &mut v,
        Step::Run { command: Command { program: "cmake".to_owned(), args, stage: Stage::Configuring } },
    );
    let mut build_args: Vec<String> = Vec::new();
    crate::strutil::push_str(&mut build_args, "--build");
    crate::strutil::push_string(&mut build_args, build.clone());
    push_step(
        &mut v,
        Step::Run {
            command: Command { program: "cmake".to_owned(), args: build_args, stage: Stage::Building },
        },
    );
    let mut install_args: Vec<String> = Vec::new();
    crate::strutil::push_str(&mut install_args, "--install");
    crate::strutil::push_string(&mut install_args, build);
    push_step(
        &mut v,
        Step::Run {
            command: Command {
                program: "cmake".to_owned(),
                args: install_args,
                stage: Stage::Installing,
            },
        },
    );
    proof {
        assert(v.deep_view() =~~= cmake_steps(plan@, o@, family));
    }
    v
}

/// Builds the steps of a direct compilation.
fn build_direct_steps(o: &Build, family: Family) -> (v: Vec<Step>)
    ensures
        v.deep_view() == direct_steps(o@, family),
{
    let mut v: Vec<Step> = Vec::new();
    match family {
        Family::WindowsGnu | Family::Linux | Family::Apple | Family::Bsd => {
            let build = join_path(o.out(), "build");
            let scratch = join_path(build.as_str(), "scratch");
            push_step(
                &mut v,
                Step::CreateEmptyFile { path: join_path(scratch.as_str(), "platform.hpp") },
            );
        },
        Family::Msvc | Family::Other => {},
    }
    let build = join_path(o.out(), "build");
    let source = join_path(build.as_str(), "src");
    let install = join_path(o.out(), "install");
    push_step(
        &mut v,
        Step::CopyDir {
            from: join_path(source.as_str(), "include"),
            to: join_path(install.as_str(), "include"),
        },
    );
    push_step(
        &mut v,
        Step::Compile {
            lib_dir: join_path(install.as_str(), "lib"),
            archive_name: "zmq".to_owned(),
        },
    );
    proof {
        assert(v.deep_view() =~~= direct_steps(o@, family));
    }
    v
}

/// Sequences the steps of one clean build: the removals of any prior
/// build and install trees first, then the fresh source copy, then
/// the chosen toolchain's commands. A source tree that cannot be
/// configured is a fatal error, found before any step runs.
///
/// `configure_present` and `autogen_present` report whether the
/// vendored tree ships a `configure` script and an `autogen.sh`.
pub fn driver_steps(
    plan: &BuildPlan,
    options: &Build,
    family: Family,
    mode: ToolchainMode,
    configure_present: bool,
    autogen_present: bool,
) -> (r: Result<Vec<Step>, BuildError>)
    ensures
        spec_driver_steps(plan@, options@, family, mode, configure_present, autogen_present)
            matches Ok(steps) ==> r matches Ok(v) && v.deep_view() == steps,
        spec_driver_steps(plan@, options@, family, mode, configure_present, autogen_present)
            matches Err(e) ==> r matches Err(a) && a == e,
{
    if mode == ToolchainMode::Autotools && options.configure_script_override().is_none()
        && !configure_present && !autogen_present {
        return Err(BuildError::MissingConfigureScript);
    }
    let mut v: Vec<Step> = Vec::new();
    push_clean_steps(&mut v, options);
    let mut tail = match mode {
        ToolchainMode::Autotools => build_autotools_steps(plan, options, family, configure_present),
        ToolchainMode::CMake => build_cmake_steps(plan, options, family),
        ToolchainMode::DirectCompile => build_direct_steps(options, family),
    };
    v.append(&mut tail);
    proof {
        assert(v.deep_view() =~~= spec_driver_steps(
            plan@,
            options@,
            family,
            mode,
            configure_present,
            autogen_present,
        )->Ok_0);
    }
    Ok(v)
}

/// The yes/no answers of the capability probes, as the caller
/// gathered them. A probe that was not run is reported as `false`.
#[derive(Clone, Copy, PartialEq, Eq, Structural, Debug)]
pub struct ProbeResults {
    /// The `strlcpy` probe compiled and linked.
    pub strlcpy: bool,
    /// The C++11 probe compiled.
    pub cxx11: bool,
    /// The IPC-header probe compiled.
    pub ipc_headers: bool,
}

/// The platform classification that a target triple and a set of
/// probe answers produce.
pub open spec fn spec_platform_info(o: BuildView, probes: ProbeResults) -> PlatformInfo {
    PlatformInfo {
        family: classified_family(o.target_triple),
        has_strlcpy: crate::platform::strlcpy_implied(o.target_triple) || (crate::platform::env_gnu(
            o.target_triple,
        ) && probes.strlcpy),
        has_cxx11: probes.cxx11,
        has_ipc_headers: probes.ipc_headers,
    }
}

/// Validates the options, classifies the platform, derives the plan,
/// and sequences the steps of one clean build: everything one build
/// invocation decides before its first side effect.
pub fn prepare_build(
    options: &Build,
    probes: ProbeResults,
    mode: ToolchainMode,
    configure_present: bool,
    autogen_present: bool,
) -> (r: Result<(PlatformInfo, BuildPlan, Vec<Step>), BuildError>)
    ensures
        options@.target_triple.len() == 0 ==> (r matches Err(e) && e is MissingTargetTriple),
        options@.target_triple.len() > 0 && options@.host_triple.len() == 0 ==> (r matches Err(e)
            && e is MissingHostTriple),
        options@.target_triple.len() > 0 && options@.host_triple.len() > 0 && (classified_family(
            options@.target_triple,
        ) is Msvc && !options@.link_static) ==> (r matches Err(e) && e is UnsupportedDynamicMsvc),
        options@.target_triple.len() > 0 && options@.host_triple.len() > 0 && !(classified_family(
            options@.target_triple,
        ) is Msvc && !options@.link_static) ==> match spec_driver_steps(
            crate::plan::spec_build_plan(options@, spec_platform_info(options@, probes)),
            options@,
            classified_family(options@.target_triple),
            mode,
            configure_present,
            autogen_present,
        ) {
            Ok(steps) => (r matches Ok(t) && t.0 == spec_platform_info(options@, probes) && t.1@
                == crate::plan::spec_build_plan(options@, spec_platform_info(options@, probes))
                && t.2.deep_view() == steps),
            Err(e) => (r matches Err(a) && a == e),
        },
{
    let family = match validate(options) {
        Ok(f) => f,
        Err(e) => {
            return Err(e);
        },
    };
    let has_strlcpy = crate::platform::strlcpy_effective(options.target(), probes.strlcpy);
    let platform = PlatformInfo {
        family,
        has_strlcpy,
        has_cxx11: probes.cxx11,
        has_ipc_headers: probes.ipc_headers,
    };
    let plan = crate::plan::build_plan(options, &platform);
    match driver_steps(&plan, options, family, mode, configure_present, autogen_present) {
        Ok(steps) => Ok((platform, plan, steps)),
        Err(e) => Err(e),
    }
}

/// The one file copy that a build with an external `libsodium` needs
/// before compiling on the MSVC family, whose sodium tree keeps
/// `version.h` under `builds/msvc` instead of beside the other
/// headers: the source and destination of that copy, or `None` when
/// no copy is due.
pub fn sodium_version_header_copy(options: &Build, family: Family) -> (r: Option<(String, String)>)
    ensures
        match (options@.libsodium, family) {
            (Some(l), Family::Msvc) => (r matches Some(pair) && pair.0@ == joined(
                l.include_dir,
                "../../../builds/msvc/version.h"@,
            ) && pair.1@ == joined(l.include_dir, "sodium/version.h"@)),
            _ => r is None,
        },
{
    if family == Family::Msvc {
        if let Some(sodium) = options.libsodium() {
            let from = join_path(sodium.include_dir(), "../../../builds/msvc/version.h");
            let to = join_path(sodium.include_dir(), "sodium/version.h");
            return Some((from, to));
        }
    }
    None
}

/// The rendered argument list of a command: each argument after one
/// space.
pub open spec fn rendered_args(args: Seq<Seq<char>>) -> Seq<char>
    decreases args.len(),
{
    if args.len() == 0 {
        Seq::empty()
    } else {
        rendered_args(args.drop_last()) + " "@ + args.last()
    }
}

/// The full command line of a command: the program, then each
/// argument after one space. Fatal errors echo this line.
pub open spec fn rendered_command(c: CommandView) -> Seq<char> {
    c.program + rendered_args(c.args)
}

/// Renders the full command line of a command.
pub fn command_line(c: &Command) -> (r: String)
    ensures
        r@ == rendered_command(c@),
{
    let mut s = c.program.clone();
    let mut i: usize = 0;
    proof {
        assert(c@.args.subrange(0, 0) =~= Seq::<Seq<char>>::empty());
    }
    while i < c.args.len()
        invariant
            i <= c.args@.len(),
            s@ == c@.program + rendered_args(c@.args.subrange(0, i as int)),
        decreases c.args@.len() - i,
    {
        s.append(" ");
        s.append(c.args[i].as_str());
        proof {
            let pre = c@.args.subrange(0, i as int);
            let now = c@.args.subrange(0, i + 1 as int);
            assert(now.drop_last() =~= pre);
            assert(now.last() == c@.args[i as int]);
        }
        i += 1;
    }
    proof {
        assert(c@.args.subrange(0, c.args@.len() as int) =~= c@.args);
    }
    s
}

/// Whether `r` reports the executable of the attempted command line
/// `cmd` as absent.
pub open spec fn reports_toolchain_not_found<T>(r: Result<T, BuildError>, cmd: Seq<char>) -> bool {
    match r {
        Err(BuildError::ToolchainNotFound { command }) => command@ == cmd,
        _ => false,
    }
}

/// Whether `r` reports the command line `cmd` of stage `stage` as
/// having exited with the non-zero status `code`.
pub open spec fn reports_stage_failure<T>(
    r: Result<T, BuildError>,
    stage: Stage,
    cmd: Seq<char>,
    code: i32,
) -> bool {
    match r {
        Err(BuildError::StageFailed { stage: s, command, exit_code }) => s == stage && command@
            == cmd && exit_code == code,
        _ => false,
    }
}

/// Judges the outcome of one external command: an executable that
/// could not be invoked at all and a non-zero exit are both fatal,
/// and the error names the stage, echoes the command line and keeps
/// the exit status; only a zero exit lets the build go on.
pub fn interpret_exit(stage: Stage, command: &str, outcome: SpawnOutcome) -> (r: Result<
    (),
    BuildError,
>)
    ensures
        outcome is NotFound ==> reports_toolchain_not_found(r, command@),
        outcome matches SpawnOutcome::Exited(code) ==> if code == 0 {
            r is Ok
        } else {
            reports_stage_failure(r, stage, command@, code)
        },
{
    match outcome {
        SpawnOutcome::NotFound => Err(BuildError::ToolchainNotFound { command: command.to_owned() }),
        SpawnOutcome::Exited(code) => {
            if code == 0 {
                Ok(())
            } else {
                Err(
                    BuildError::StageFailed {
                        stage,
                        command: command.to_owned(),
                        exit_code: code,
                    },
                )
            }
        },
    }
}

/// Judges the outcome of one capability probe: a compiler that could
/// not be invoked at all is fatal, while a probe that ran and failed
/// to compile is the normal negative answer, not an error.
pub fn interpret_probe(command: &str, outcome: SpawnOutcome) -> (r: Result<bool, BuildError>)
    ensures
        outcome is NotFound ==> reports_toolchain_not_found(r, command@),
        outcome matches SpawnOutcome::Exited(code) ==> r == Ok::<bool, BuildError>(code == 0),
{
    match outcome {
        SpawnOutcome::NotFound => Err(BuildError::ToolchainNotFound { command: command.to_owned() }),
        SpawnOutcome::Exited(code) => Ok(code == 0),
    }
}

/// Where one build invocation stands.
#[derive(Clone, Copy, PartialEq, Eq, Structural, Debug)]
pub enum BuildState {
    /// The options are set; nothing has been derived or touched.
    Configured,
    /// The plan is derived; no side effect has happened yet.
    Planned,
    /// Steps are executing.
    Building,
    /// Every step succeeded and the artifacts can be resolved.
    Succeeded,
    /// A step failed; the whole invocation is invalid. Terminal.
    Failed,
}

/// What happened since the last state transition.
#[derive(Clone, Copy, PartialEq, Eq, Structural, Debug)]
pub enum BuildEvent {
    /// The plan was derived from the validated options.
    PlanDerived,
    /// The first step is about to run.
    ExecutionStarted,
    /// One step finished successfully, more remain.
    StepSucceeded,
    /// A step failed.
    StepFailed,
    /// The last step finished successfully.
    StepsCompleted,
}

/// The state transition of one build invocation: the plan moves the
/// build from configured to planned to building; completion of every
/// step succeeds it; any failure, and any out-of-order event, aborts
/// it. Both outcomes are terminal.
pub open spec fn next_state(s: BuildState, e: BuildEvent) -> BuildState {
    match (s, e) {
        (BuildState::Configured, BuildEvent::PlanDerived) => BuildState::Planned,
        (BuildState::Planned, BuildEvent::ExecutionStarted) => BuildState::Building,
        (BuildState::Building, BuildEvent::StepSucceeded) => BuildState::Building,
        (BuildState::Building, BuildEvent::StepsCompleted) => BuildState::Succeeded,
        (BuildState::Succeeded, _) => BuildState::Succeeded,
        (BuildState::Failed, _) => BuildState::Failed,
        _ => BuildState::Failed,
    }
}

/// Advances the build through one event.
pub fn advance(s: BuildState, e: BuildEvent) -> (r: BuildState)
    ensures
        r == next_state(s, e),
{
    match (s, e) {
        (BuildState::Configured, BuildEvent::PlanDerived) => BuildState::Planned,
        (BuildState::Planned, BuildEvent::ExecutionStarted) => BuildState::Building,
        (BuildState::Building, BuildEvent::StepSucceeded) => BuildState::Building,
        (BuildState::Building, BuildEvent::StepsCompleted) => BuildState::Succeeded,
        (BuildState::Succeeded, _) => BuildState::Succeeded,
        (BuildState::Failed, _) => BuildState::Failed,
        _ => BuildState::Failed,
    }
}

/// A failed build is terminal: no event leads out of it.
pub proof fn lemma_failed_is_terminal(e: BuildEvent)
    ensures
        next_state(BuildState::Failed, e) is Failed,
{
}

/// A build succeeds only from the building state, by completing its
/// last step; nothing succeeds a build that never ran.
pub proof fn lemma_success_only_by_completion(s: BuildState, e: BuildEvent)
    ensures
        next_state(s, e) is Succeeded ==> (s is Building && e is StepsCompleted) || s is Succeeded,
{
}

/// Every invocation is a clean build: whatever the mode, the driver's
/// first two steps remove the prior build and install trees, and no
/// toolchain command — no external process, no compilation — stands
/// before them.
pub proof fn lemma_clean_build_first(
    plan: BuildPlanView,
    o: BuildView,
    f: Family,
    mode: ToolchainMode,
    configure_present: bool,
    autogen_present: bool,
)
    ensures
        spec_driver_steps(plan, o, f, mode, configure_present, autogen_present) matches Ok(steps)
            ==> steps.len() >= 3 && steps[0] == (StepView::RemoveDir { path: build_dir(o) })
            && steps[1] == (StepView::RemoveDir { path: install_dir(o) }) && (forall|i: int|
            0 <= i < steps.len() && (steps[i] is Run || steps[i] is Compile) ==> i >= 3),
{
    if spec_driver_steps(plan, o, f, mode, configure_present, autogen_present) is Ok {
        let steps = spec_driver_steps(plan, o, f, mode, configure_present, autogen_present)->Ok_0;
        assert(forall|i: int| 0 <= i < 3 ==> steps[i] == clean_steps(o)[i]);
    }
}

} // verus!
