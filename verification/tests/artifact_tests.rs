use zeromq_src::artifacts::{choose_lib_dir, find_by_prefix, msvc_rename_plan, resolve_artifacts};
use zeromq_src::error::BuildError;
use zeromq_src::plan::build_plan;
use zeromq_src::platform::{Family, PlatformInfo};
use zeromq_src::report::report_lines;
use zeromq_src::{Build, LinkKind};

fn entries(names: &[&str]) -> Vec<String> {
    names.iter().map(|n| n.to_string()).collect()
}

fn linux_options() -> Build {
    let mut b = Build::new();
    b.vendor_dir("vendor".to_string());
    b.out_dir("out".to_string());
    b.target_triple("x86_64-unknown-linux-gnu".to_string());
    b.host_triple("x86_64-unknown-linux-gnu".to_string());
    b
}

#[test]
fn msvc_artifact_is_renamed_to_its_canonical_name() {
    let listing = entries(&["history.txt", "libfoo_internal.lib"]);
    let (from, to) = msvc_rename_plan(&listing, "foo").unwrap();
    assert_eq!(from, "libfoo_internal.lib");
    assert_eq!(to, "foo.lib");
}

#[test]
fn a_missing_artifact_fails_loudly() {
    let listing = entries(&["readme.md"]);
    match msvc_rename_plan(&listing, "foo") {
        Err(BuildError::ArtifactNotFound { prefix }) => assert_eq!(prefix, "libfoo"),
        other => panic!("expected a missing artifact, got {other:?}"),
    }
}

#[test]
fn an_ambiguous_artifact_is_an_error() {
    let listing = entries(&["libzmq-a.lib", "libzmq-b.lib"]);
    match msvc_rename_plan(&listing, "zmq") {
        Err(BuildError::AmbiguousArtifact { prefix }) => assert_eq!(prefix, "libzmq"),
        other => panic!("expected an ambiguous artifact, got {other:?}"),
    }
}

#[test]
fn find_by_prefix_returns_the_one_match() {
    let listing = entries(&["alpha.txt", "libzmq-v143-mt-4_3_5.lib", "notes"]);
    assert_eq!(find_by_prefix(&listing, "libzmq").unwrap(), "libzmq-v143-mt-4_3_5.lib");
    assert!(matches!(
        find_by_prefix(&listing, "libsodium"),
        Err(BuildError::ArtifactNotFound { .. })
    ));
}

#[test]
fn lib_is_preferred_over_lib64() {
    assert_eq!(choose_lib_dir("out/install", true, true).unwrap(), "out/install/lib");
    assert_eq!(choose_lib_dir("out/install", false, true).unwrap(), "out/install/lib64");
    assert!(matches!(
        choose_lib_dir("out/install", false, false),
        Err(BuildError::LibDirNotFound)
    ));
}

#[test]
fn resolved_artifacts_carry_the_plan_libraries() {
    let options = linux_options();
    let platform = PlatformInfo::new(Family::Linux, false, false, false);
    let plan = build_plan(&options, &platform);
    let artifacts = resolve_artifacts("out/install", true, false, &plan).unwrap();
    assert_eq!(artifacts.include_dir, "out/install/include");
    assert_eq!(artifacts.lib_dir, "out/install/lib");
    assert!(!artifacts.libraries.is_empty());
    assert_eq!(artifacts.libraries[0], ("zmq".to_string(), LinkKind::Static));

    assert!(matches!(
        resolve_artifacts("out/install", false, false, &plan),
        Err(BuildError::LibDirNotFound)
    ));
}

#[test]
fn report_lines_follow_the_protocol() {
    let options = linux_options();
    let platform = PlatformInfo::new(Family::Linux, false, false, false);
    let plan = build_plan(&options, &platform);
    let artifacts = resolve_artifacts("out/install", true, false, &plan).unwrap();
    let lines = report_lines(&artifacts, &plan.link_search, Some("out"));
    assert_eq!(
        lines,
        vec![
            "link-search-path=out/install/lib".to_string(),
            "link-library=static=zmq".to_string(),
            "link-library=dylib=stdc++".to_string(),
            "include-path=out/install/include".to_string(),
            "lib-path=out/install/lib".to_string(),
            "out-path=out".to_string(),
        ]
    );

    let without_out = report_lines(&artifacts, &plan.link_search, None);
    assert_eq!(without_out.len(), 5);
    assert!(!without_out.iter().any(|l| l.starts_with("out-path=")));
}

#[test]
fn builder_setters_accumulate() {
    let mut b = Build::new();
    b.build_debug(true)
        .enable_draft(true)
        .link_static(false)
        .target_triple("aarch64-apple-darwin".to_string())
        .host_triple("aarch64-apple-darwin".to_string());
    assert!(b.is_debug());
    assert!(b.is_draft_enabled());
    assert!(!b.is_link_static());
    assert_eq!(b.target(), "aarch64-apple-darwin");
    assert_eq!(b.host(), "aarch64-apple-darwin");
    assert!(b.libsodium().is_none());

    let fresh = Build::default();
    assert!(!fresh.is_debug());
    assert!(fresh.is_link_static());
    assert_eq!(fresh.target(), "");
}

#[test]
fn lib_location_keeps_its_directories() {
    let loc = zeromq_src::LibLocation::new("/lib".to_string(), "/include".to_string());
    assert_eq!(loc.lib_dir(), "/lib");
    assert_eq!(loc.include_dir(), "/include");
}

#[test]
fn extra_search_directories_are_reported() {
    let mut options = linux_options();
    options.with_libsodium(Some(zeromq_src::LibLocation::new(
        "/deps/sodium/lib".to_string(),
        "/deps/sodium/include".to_string(),
    )));
    let platform = PlatformInfo::new(Family::Linux, false, false, false);
    let plan = build_plan(&options, &platform);
    let artifacts = resolve_artifacts("out/install", true, false, &plan).unwrap();
    let lines = report_lines(&artifacts, &plan.link_search, None);
    assert_eq!(lines[0], "link-search-path=out/install/lib");
    assert_eq!(lines[1], "link-search-path=/deps/sodium/lib");
    assert!(lines.contains(&"link-library=static=sodium".to_string()));
}
