use zeromq_src::driver::{
    advance, command_line, driver_steps, interpret_exit, interpret_probe, prepare_build,
    sodium_version_header_copy, validate, BuildEvent, BuildState, Command, ProbeResults, Step,
    ToolchainMode,
};
use zeromq_src::error::{BuildError, SpawnOutcome, Stage};
use zeromq_src::plan::build_plan;
use zeromq_src::platform::{Family, PlatformInfo};
use zeromq_src::Build;

fn options_for(target: &str) -> Build {
    let mut b = Build::new();
    b.vendor_dir("vendor".to_string());
    b.out_dir("out".to_string());
    b.target_triple(target.to_string());
    b.host_triple("x86_64-unknown-linux-gnu".to_string());
    b
}

fn no_probes() -> ProbeResults {
    ProbeResults { strlcpy: false, cxx11: false, ipc_headers: false }
}

#[test]
fn missing_triples_are_fatal_before_any_side_effect() {
    let mut b = Build::new();
    assert!(matches!(validate(&b), Err(BuildError::MissingTargetTriple)));
    b.target_triple("x86_64-unknown-linux-gnu".to_string());
    assert!(matches!(validate(&b), Err(BuildError::MissingHostTriple)));
    b.host_triple("x86_64-unknown-linux-gnu".to_string());
    assert!(matches!(validate(&b), Ok(Family::Linux)));
}

#[test]
fn dynamic_linking_on_msvc_aborts_before_any_toolchain() {
    let mut b = options_for("x86_64-pc-windows-msvc");
    b.link_static(false);
    assert!(matches!(validate(&b), Err(BuildError::UnsupportedDynamicMsvc)));
    assert!(matches!(
        prepare_build(&b, no_probes(), ToolchainMode::DirectCompile, false, false),
        Err(BuildError::UnsupportedDynamicMsvc)
    ));
    b.link_static(true);
    assert!(matches!(validate(&b), Ok(Family::Msvc)));
}

#[test]
fn every_mode_cleans_before_the_first_toolchain_command() {
    let options = options_for("x86_64-unknown-linux-gnu");
    let platform = PlatformInfo::new(Family::Linux, false, false, false);
    let plan = build_plan(&options, &platform);
    let modes = [
        ToolchainMode::Autotools,
        ToolchainMode::CMake,
        ToolchainMode::DirectCompile,
    ];
    for mode in modes {
        let steps = driver_steps(&plan, &options, Family::Linux, mode, true, false).unwrap();
        assert!(matches!(&steps[0], Step::RemoveDir { path } if path == "out/build"));
        assert!(matches!(&steps[1], Step::RemoveDir { path } if path == "out/install"));
        assert!(
            matches!(&steps[2], Step::CopyDir { from, to } if from == "vendor" && to == "out/build/src")
        );
        for step in &steps[..3] {
            assert!(!matches!(step, Step::Run { .. } | Step::Compile { .. }));
        }
    }
}

#[test]
fn autotools_sequences_configure_make_install() {
    let options = options_for("x86_64-unknown-linux-gnu");
    let platform = PlatformInfo::new(Family::Linux, false, false, false);
    let plan = build_plan(&options, &platform);
    let steps =
        driver_steps(&plan, &options, Family::Linux, ToolchainMode::Autotools, true, false)
            .unwrap();
    assert_eq!(steps.len(), 6);
    let programs: Vec<&str> = steps[3..]
        .iter()
        .map(|s| match s {
            Step::Run { command } => command.program.as_str(),
            _ => panic!("expected only commands after the clean prefix"),
        })
        .collect();
    assert_eq!(programs, vec!["out/build/src/configure", "make", "make"]);
    match &steps[3] {
        Step::Run { command } => {
            assert_eq!(command.args, vec!["--prefix=out/install".to_string()]);
            assert_eq!(command.stage, Stage::Configuring);
        }
        _ => unreachable!(),
    }
    match &steps[5] {
        Step::Run { command } => {
            assert_eq!(command.args, vec!["install".to_string()]);
            assert_eq!(command.stage, Stage::Installing);
        }
        _ => unreachable!(),
    }
}

#[test]
fn autotools_without_configure_runs_autogen_first() {
    let options = options_for("x86_64-unknown-linux-gnu");
    let platform = PlatformInfo::new(Family::Linux, false, false, false);
    let plan = build_plan(&options, &platform);
    let steps =
        driver_steps(&plan, &options, Family::Linux, ToolchainMode::Autotools, false, true)
            .unwrap();
    match &steps[3] {
        Step::Run { command } => {
            assert_eq!(command.program, "out/build/src/autogen.sh");
            assert!(command.args.is_empty());
        }
        _ => panic!("expected autogen.sh before configure"),
    }
}

#[test]
fn autotools_without_any_configure_source_is_fatal() {
    let options = options_for("x86_64-unknown-linux-gnu");
    let platform = PlatformInfo::new(Family::Linux, false, false, false);
    let plan = build_plan(&options, &platform);
    let r = driver_steps(&plan, &options, Family::Linux, ToolchainMode::Autotools, false, false);
    assert!(matches!(r, Err(BuildError::MissingConfigureScript)));
}

#[test]
fn msvc_autotools_uses_nmake_and_a_sanitized_prefix() {
    let mut options = options_for("x86_64-pc-windows-msvc");
    options.host_triple("x86_64-pc-windows-msvc".to_string());
    options.out_dir("C:/work/out".to_string());
    let platform = PlatformInfo::new(Family::Msvc, false, false, false);
    let plan = build_plan(&options, &platform);
    let steps =
        driver_steps(&plan, &options, Family::Msvc, ToolchainMode::Autotools, true, false)
            .unwrap();
    match &steps[3] {
        Step::Run { command } => {
            assert_eq!(command.args, vec!["--prefix=/C/work/out/install".to_string()]);
        }
        _ => unreachable!(),
    }
    match &steps[4] {
        Step::Run { command } => assert_eq!(command.program, "nmake.exe"),
        _ => unreachable!(),
    }
    match &steps[5] {
        Step::Run { command } => {
            assert_eq!(command.program, "nmake.exe");
            assert_eq!(command.args, vec!["install_sw".to_string()]);
        }
        _ => unreachable!(),
    }
}

#[test]
fn cmake_translates_every_define_and_pins_the_msvc_generator() {
    let options = options_for("x86_64-pc-windows-msvc");
    let platform = PlatformInfo::new(Family::Msvc, false, false, false);
    let plan = build_plan(&options, &platform);
    let steps =
        driver_steps(&plan, &options, Family::Msvc, ToolchainMode::CMake, true, false).unwrap();
    let configure_args = match &steps[3] {
        Step::Run { command } => {
            assert_eq!(command.program, "cmake");
            command.args.clone()
        }
        _ => unreachable!(),
    };
    assert!(configure_args.contains(&"-DCMAKE_BUILD_TYPE=Release".to_string()));
    assert!(configure_args.contains(&"-DCMAKE_INSTALL_PREFIX=out/install".to_string()));
    for (name, value) in &plan.defines {
        assert!(configure_args.contains(&format!("-D{name}={value}")));
    }
    let generator_at = configure_args.iter().position(|a| a == "-G").unwrap();
    assert_eq!(configure_args[generator_at + 1], "NMake Makefiles");

    let linux_plan = build_plan(&options, &PlatformInfo::new(Family::Linux, false, false, false));
    let steps =
        driver_steps(&linux_plan, &options, Family::Linux, ToolchainMode::CMake, true, false)
            .unwrap();
    match &steps[3] {
        Step::Run { command } => assert!(!command.args.contains(&"-G".to_string())),
        _ => unreachable!(),
    }
}

#[test]
fn direct_compile_targets_the_install_tree() {
    let options = options_for("x86_64-unknown-linux-gnu");
    let platform = PlatformInfo::new(Family::Linux, false, false, false);
    let plan = build_plan(&options, &platform);
    let steps =
        driver_steps(&plan, &options, Family::Linux, ToolchainMode::DirectCompile, true, false)
            .unwrap();
    assert!(matches!(
        &steps[3],
        Step::CreateEmptyFile { path } if path == "out/build/scratch/platform.hpp"
    ));
    assert!(matches!(
        &steps[4],
        Step::CopyDir { from, to }
            if from == "out/build/src/include" && to == "out/install/include"
    ));
    assert!(matches!(
        &steps[5],
        Step::Compile { lib_dir, archive_name }
            if lib_dir == "out/install/lib" && archive_name == "zmq"
    ));
}

#[test]
fn prepare_build_derives_platform_plan_and_steps() {
    let options = options_for("x86_64-unknown-linux-gnu");
    let probes = ProbeResults { strlcpy: true, cxx11: true, ipc_headers: false };
    let (platform, plan, steps) =
        prepare_build(&options, probes, ToolchainMode::DirectCompile, false, false).unwrap();
    assert_eq!(platform.family, Family::Linux);
    assert!(platform.has_strlcpy);
    assert!(platform.has_cxx11);
    assert!(plan.defines.iter().any(|d| d.0 == "ZMQ_HAVE_STRLCPY"));
    assert_eq!(plan.cpp_std, Some("c++11".to_string()));
    assert_eq!(steps.len(), 6);
}

#[test]
fn exit_statuses_are_judged_exactly() {
    assert!(interpret_exit(Stage::Building, "make", SpawnOutcome::Exited(0)).is_ok());
    match interpret_exit(Stage::Building, "make", SpawnOutcome::Exited(2)) {
        Err(BuildError::StageFailed { stage, command, exit_code }) => {
            assert_eq!(stage, Stage::Building);
            assert_eq!(command, "make");
            assert_eq!(exit_code, 2);
        }
        other => panic!("expected a stage failure, got {other:?}"),
    }
    match interpret_exit(Stage::Configuring, "./configure", SpawnOutcome::NotFound) {
        Err(BuildError::ToolchainNotFound { command }) => assert_eq!(command, "./configure"),
        other => panic!("expected a missing toolchain, got {other:?}"),
    }
}

#[test]
fn probe_failure_to_compile_is_a_normal_negative() {
    assert_eq!(interpret_probe("cc probe.c", SpawnOutcome::Exited(1)).unwrap(), false);
    assert_eq!(interpret_probe("cc probe.c", SpawnOutcome::Exited(0)).unwrap(), true);
    assert!(matches!(
        interpret_probe("cc probe.c", SpawnOutcome::NotFound),
        Err(BuildError::ToolchainNotFound { .. })
    ));
}

#[test]
fn build_states_advance_in_order_and_failure_is_terminal() {
    let s = BuildState::Configured;
    let s = advance(s, BuildEvent::PlanDerived);
    assert_eq!(s, BuildState::Planned);
    let s = advance(s, BuildEvent::ExecutionStarted);
    assert_eq!(s, BuildState::Building);
    let s = advance(s, BuildEvent::StepSucceeded);
    assert_eq!(s, BuildState::Building);
    let done = advance(s, BuildEvent::StepsCompleted);
    assert_eq!(done, BuildState::Succeeded);

    let failed = advance(s, BuildEvent::StepFailed);
    assert_eq!(failed, BuildState::Failed);
    assert_eq!(advance(failed, BuildEvent::StepsCompleted), BuildState::Failed);
    assert_eq!(advance(failed, BuildEvent::PlanDerived), BuildState::Failed);

    let out_of_order = advance(BuildState::Configured, BuildEvent::StepsCompleted);
    assert_eq!(out_of_order, BuildState::Failed);
}

#[test]
fn command_lines_render_program_and_arguments() {
    let cmd = Command {
        program: "make".to_string(),
        args: vec!["install".to_string()],
        stage: Stage::Installing,
    };
    assert_eq!(command_line(&cmd), "make install");
    let bare = Command {
        program: "make".to_string(),
        args: vec![],
        stage: Stage::Building,
    };
    assert_eq!(command_line(&bare), "make");
}

#[test]
fn msvc_sodium_needs_its_version_header_copied() {
    let mut options = options_for("x86_64-pc-windows-msvc");
    options.with_libsodium(Some(zeromq_src::LibLocation::new(
        "deps/sodium/lib".to_string(),
        "deps/sodium/include".to_string(),
    )));
    let (from, to) = sodium_version_header_copy(&options, Family::Msvc).unwrap();
    assert_eq!(from, "deps/sodium/include/../../../builds/msvc/version.h");
    assert_eq!(to, "deps/sodium/include/sodium/version.h");

    assert!(sodium_version_header_copy(&options, Family::Linux).is_none());
    let without = options_for("x86_64-pc-windows-msvc");
    assert!(sodium_version_header_copy(&without, Family::Msvc).is_none());
}
