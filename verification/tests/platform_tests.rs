use zeromq_src::paths::sanitize_path;
use zeromq_src::platform::{
    classify, needs_strlcpy_probe, probes_needed, strlcpy_effective, strlcpy_implied_exec, Family,
};

#[test]
fn classify_recognizes_each_family() {
    assert_eq!(classify("x86_64-pc-windows-msvc"), Family::Msvc);
    assert_eq!(classify("x86_64-pc-windows-gnu"), Family::WindowsGnu);
    assert_eq!(classify("x86_64-unknown-linux-gnu"), Family::Linux);
    assert_eq!(classify("aarch64-apple-darwin"), Family::Apple);
    assert_eq!(classify("x86_64-unknown-freebsd"), Family::Bsd);
    assert_eq!(classify("x86_64-unknown-openbsd"), Family::Bsd);
    assert_eq!(classify("wasm32-unknown-unknown"), Family::Other);
    assert_eq!(classify(""), Family::Other);
}

#[test]
fn classify_is_stable() {
    assert_eq!(
        classify("armv7-unknown-linux-musleabihf"),
        classify("armv7-unknown-linux-musleabihf")
    );
}

#[test]
fn strlcpy_follows_the_triple() {
    assert!(strlcpy_implied_exec("aarch64-apple-darwin"));
    assert!(strlcpy_implied_exec("x86_64-unknown-freebsd"));
    assert!(strlcpy_implied_exec("aarch64-linux-android"));
    assert!(strlcpy_implied_exec("x86_64-unknown-linux-musl"));
    assert!(!strlcpy_implied_exec("x86_64-unknown-linux-gnu"));
}

#[test]
fn strlcpy_probe_only_on_plain_gnu() {
    assert!(needs_strlcpy_probe("x86_64-unknown-linux-gnu"));
    assert!(!needs_strlcpy_probe("x86_64-unknown-linux-musl"));
    assert!(!needs_strlcpy_probe("aarch64-apple-darwin"));
}

#[test]
fn strlcpy_effective_combines_triple_and_probe() {
    assert!(strlcpy_effective("x86_64-unknown-linux-musl", false));
    assert!(strlcpy_effective("x86_64-unknown-linux-gnu", true));
    assert!(!strlcpy_effective("x86_64-unknown-linux-gnu", false));
    assert!(!strlcpy_effective("wasm32-unknown-unknown", true));
}

#[test]
fn windows_drive_paths_are_sanitized() {
    assert_eq!(sanitize_path("C:/Users/me/out"), "/C/Users/me/out");
    assert_eq!(sanitize_path("d:/work"), "/d/work");
    assert_eq!(sanitize_path("C:\\Users\\me"), "/C\\Users\\me");
}

#[test]
fn paths_without_a_drive_pass_through() {
    assert_eq!(sanitize_path("/home/me/out"), "/home/me/out");
    assert_eq!(sanitize_path("relative/path"), "relative/path");
    assert_eq!(sanitize_path("C:"), "C:");
    assert_eq!(sanitize_path("7:/nope"), "7:/nope");
    assert_eq!(sanitize_path(""), "");
}

#[test]
fn probes_needed_follow_family_and_environment() {
    let linux = probes_needed("x86_64-unknown-linux-gnu");
    assert!(linux.strlcpy && linux.cxx11 && !linux.ipc_headers);
    let msvc = probes_needed("x86_64-pc-windows-msvc");
    assert!(!msvc.strlcpy && !msvc.cxx11 && msvc.ipc_headers);
    let wgnu = probes_needed("x86_64-pc-windows-gnu");
    assert!(wgnu.strlcpy && wgnu.cxx11 && wgnu.ipc_headers);
    let musl = probes_needed("x86_64-unknown-linux-musl");
    assert!(!musl.strlcpy && musl.cxx11);
}
