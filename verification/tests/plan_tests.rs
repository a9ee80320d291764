use zeromq_src::plan::build_plan;
use zeromq_src::platform::{Family, PlatformInfo};
use zeromq_src::{Build, LibLocation, LinkKind};

fn linux_options() -> Build {
    let mut b = Build::new();
    b.vendor_dir("vendor".to_string());
    b.out_dir("out".to_string());
    b.target_triple("x86_64-unknown-linux-gnu".to_string());
    b.host_triple("x86_64-unknown-linux-gnu".to_string());
    b
}

fn platform(family: Family) -> PlatformInfo {
    PlatformInfo::new(family, false, false, false)
}

fn has_define(defines: &[(String, String)], name: &str) -> bool {
    defines.iter().any(|d| d.0 == name)
}

fn poller_count(defines: &[(String, String)]) -> usize {
    let pollers = [
        "ZMQ_IOTHREAD_POLLER_USE_SELECT",
        "ZMQ_IOTHREAD_POLLER_USE_POLL",
        "ZMQ_IOTHREAD_POLLER_USE_EPOLL",
        "ZMQ_IOTHREAD_POLLER_USE_KQUEUE",
    ];
    defines.iter().filter(|d| pollers.contains(&d.0.as_str())).count()
}

#[test]
fn exactly_one_poller_per_family() {
    let families = [
        Family::Msvc,
        Family::WindowsGnu,
        Family::Linux,
        Family::Apple,
        Family::Bsd,
        Family::Other,
    ];
    for family in families {
        let plan = build_plan(&linux_options(), &platform(family));
        assert_eq!(poller_count(&plan.defines), 1, "family {family:?}");
    }
}

#[test]
fn plan_is_deterministic() {
    let options = linux_options();
    let p = platform(Family::Linux);
    let a = build_plan(&options, &p);
    let b = build_plan(&options, &p);
    assert_eq!(a.defines, b.defines);
    assert_eq!(a.include_dirs, b.include_dirs);
    assert_eq!(a.cpp_sources, b.cpp_sources);
    assert_eq!(a.c_sources, b.c_sources);
    assert_eq!(a.extra_flags, b.extra_flags);
    assert_eq!(a.cpp_std, b.cpp_std);
    assert_eq!(a.config_label, b.config_label);
    assert_eq!(a.configure_args, b.configure_args);
    assert_eq!(a.link_search, b.link_search);
    assert_eq!(a.libraries, b.libraries);
}

#[test]
fn crypto_backends_are_mutually_exclusive() {
    let mut with_sodium = linux_options();
    with_sodium.with_libsodium(Some(LibLocation::new(
        "/deps/sodium/lib".to_string(),
        "/deps/sodium/include".to_string(),
    )));
    let plan = build_plan(&with_sodium, &platform(Family::Linux));
    assert!(has_define(&plan.defines, "ZMQ_USE_LIBSODIUM"));
    assert!(!has_define(&plan.defines, "ZMQ_USE_TWEETNACL"));
    assert_eq!(plan.include_dirs[3], "/deps/sodium/include");
    assert_eq!(plan.link_search, vec!["/deps/sodium/lib".to_string()]);
    assert!(plan
        .libraries
        .contains(&("sodium".to_string(), LinkKind::Static)));

    let without = linux_options();
    let plan = build_plan(&without, &platform(Family::Linux));
    assert!(!has_define(&plan.defines, "ZMQ_USE_LIBSODIUM"));
    assert!(has_define(&plan.defines, "ZMQ_USE_TWEETNACL"));
    assert!(plan.link_search.is_empty());
}

#[test]
fn linux_static_plan_end_to_end() {
    let mut options = linux_options();
    options.build_debug(false);
    options.link_static(true);
    let plan = build_plan(&options, &platform(Family::Linux));
    assert!(plan
        .defines
        .contains(&("ZMQ_IOTHREAD_POLLER_USE_EPOLL".to_string(), "1".to_string())));
    assert!(plan.extra_flags.is_empty());
    assert!(!has_define(&plan.defines, "ZMQ_STATIC"));
    assert!(!has_define(&plan.defines, "ZMQ_HAVE_WINDOWS"));
    assert_eq!(plan.config_label, "Release");
    assert_eq!(
        plan.libraries,
        vec![
            ("zmq".to_string(), LinkKind::Static),
            ("stdc++".to_string(), LinkKind::Dynamic),
        ]
    );
}

#[test]
fn feature_toggles_map_to_defines() {
    let mut options = linux_options();
    options.enable_draft(true);
    options.enable_curve(true);
    options.enable_perf_tool(true);
    let plan = build_plan(&options, &platform(Family::Linux));
    assert!(has_define(&plan.defines, "ZMQ_BUILD_DRAFT_API"));
    assert!(has_define(&plan.defines, "ZMQ_HAVE_CURVE"));
    assert!(has_define(&plan.defines, "ZMQ_BUILD_PERF_TOOL"));

    let plain = build_plan(&linux_options(), &platform(Family::Linux));
    assert!(!has_define(&plain.defines, "ZMQ_BUILD_DRAFT_API"));
    assert!(!has_define(&plain.defines, "ZMQ_HAVE_CURVE"));
    assert!(!has_define(&plain.defines, "ZMQ_BUILD_PERF_TOOL"));
}

#[test]
fn static_linkage_defines() {
    let mut options = linux_options();
    options.link_static(true);
    let plan = build_plan(&options, &platform(Family::Linux));
    assert!(has_define(&plan.defines, "ZMQ_BUILD_STATIC"));
    assert!(has_define(&plan.defines, "ZMQ_BUILD_SHARED"));
    assert!(!has_define(&plan.defines, "ZMQ_STATIC"));

    let plan = build_plan(&options, &platform(Family::Msvc));
    assert!(has_define(&plan.defines, "ZMQ_STATIC"));

    options.link_static(false);
    let plan = build_plan(&options, &platform(Family::Linux));
    assert!(!has_define(&plan.defines, "ZMQ_BUILD_STATIC"));
    assert!(!has_define(&plan.defines, "ZMQ_BUILD_SHARED"));
    assert_eq!(plan.libraries[0], ("zmq".to_string(), LinkKind::Dynamic));
}

#[test]
fn msvc_plan_carries_its_flags() {
    let mut options = linux_options();
    options.target_triple("x86_64-pc-windows-msvc".to_string());
    let plan = build_plan(&options, &platform(Family::Msvc));
    assert_eq!(
        plan.extra_flags,
        vec!["/GL-".to_string(), "/EHsc".to_string()]
    );
    assert!(has_define(&plan.defines, "ZMQ_HAVE_WINDOWS"));
    assert!(plan.c_sources.contains(&"vendor/external/wepoll/wepoll.c".to_string()));
    assert!(plan
        .include_dirs
        .contains(&"vendor/external/wepoll".to_string()));
    assert!(plan
        .include_dirs
        .contains(&"vendor/builds/deprecated-msvc".to_string()));
    assert!(plan
        .libraries
        .contains(&("iphlpapi".to_string(), LinkKind::Unspecified)));
    assert_eq!(plan.cpp_std, None);
}

#[test]
fn ipc_define_needs_headers_and_no_uwp() {
    let mut options = linux_options();
    options.target_triple("x86_64-pc-windows-msvc".to_string());
    let with_headers = PlatformInfo::new(Family::Msvc, false, false, true);
    let plan = build_plan(&options, &with_headers);
    assert!(has_define(&plan.defines, "ZMQ_HAVE_IPC"));

    let plan = build_plan(&options, &platform(Family::Msvc));
    assert!(!has_define(&plan.defines, "ZMQ_HAVE_IPC"));

    options.target_triple("x86_64-uwp-windows-msvc".to_string());
    let plan = build_plan(&options, &with_headers);
    assert!(!has_define(&plan.defines, "ZMQ_HAVE_IPC"));
}

#[test]
fn cross_compilation_appends_swapped_triples() {
    let mut options = linux_options();
    options.host_triple("aarch64-unknown-linux-gnu".to_string());
    options.configure_args(vec!["--without-docs".to_string()]);
    let plan = build_plan(&options, &platform(Family::Linux));
    assert_eq!(
        plan.configure_args,
        vec![
            "--without-docs".to_string(),
            "--target=aarch64-unknown-linux-gnu".to_string(),
            "--host=x86_64-unknown-linux-gnu".to_string(),
        ]
    );

    let plan = build_plan(&linux_options(), &platform(Family::Linux));
    assert!(plan.configure_args.is_empty());
}

#[test]
fn debug_selects_the_configuration_label() {
    let mut options = linux_options();
    options.build_debug(true);
    let plan = build_plan(&options, &platform(Family::Linux));
    assert_eq!(plan.config_label, "Debug");
}

#[test]
fn cpp_std_follows_the_probe_except_on_msvc() {
    let capable = PlatformInfo::new(Family::Linux, false, true, false);
    let plan = build_plan(&linux_options(), &capable);
    assert_eq!(plan.cpp_std, Some("c++11".to_string()));

    let msvc_capable = PlatformInfo::new(Family::Msvc, false, true, false);
    let plan = build_plan(&linux_options(), &msvc_capable);
    assert_eq!(plan.cpp_std, None);
}

#[test]
fn strlcpy_capability_becomes_a_define() {
    let with = PlatformInfo::new(Family::Linux, true, false, false);
    let plan = build_plan(&linux_options(), &with);
    assert!(has_define(&plan.defines, "ZMQ_HAVE_STRLCPY"));

    let without = platform(Family::Linux);
    let plan = build_plan(&linux_options(), &without);
    assert!(!has_define(&plan.defines, "ZMQ_HAVE_STRLCPY"));
}

#[test]
fn vendored_sources_are_enumerated() {
    let plan = build_plan(&linux_options(), &platform(Family::Linux));
    assert_eq!(plan.cpp_sources.len(), 117);
    assert_eq!(plan.cpp_sources[0], "vendor/src/address.cpp");
    assert_eq!(plan.cpp_sources[116], "vendor/src/zmtp_engine.cpp");
    assert!(!plan.cpp_sources.iter().any(|s| s.contains("wss_")));
    assert_eq!(plan.c_sources, vec!["vendor/external/sha1/sha1.c".to_string()]);
    assert_eq!(plan.include_dirs[0], "vendor/include");
    assert_eq!(plan.include_dirs[1], "vendor/src");
    assert_eq!(plan.include_dirs[2], "vendor/external/sha1");
}

#[test]
fn base_defines_are_always_present() {
    let plan = build_plan(&linux_options(), &platform(Family::Other));
    assert!(plan
        .defines
        .contains(&("ZMQ_BUILD_TESTS".to_string(), "OFF".to_string())));
    assert!(has_define(&plan.defines, "ZMQ_USE_CV_IMPL_STL11"));
    assert!(has_define(&plan.defines, "ZMQ_USE_BUILTIN_SHA1"));
    assert!(has_define(&plan.defines, "ZMQ_HAVE_WS"));
}
