use glslang_safe::command::Command;
use glslang_safe::fetch::{clone_dir_name, fetch_commands, fetch_outcome, FetchError};
use glslang_safe::generator::{
    allowlist, generator_args, link_directives, link_libraries, ndk_sysroot_include,
    rerun_directives, wrapper_header,
};
use glslang_safe::manifest::{KnownGood, Repo};
use glslang_safe::prebuilt::{compare_folded, prebuilt_install_dir, verify_stamp, PrebuiltError};
use glslang_safe::target::HostOs;
use glslang_safe::text::same_text;

fn strings(items: &[&str]) -> Vec<String> {
    items.iter().map(|s| s.to_string()).collect()
}

fn repo(name: &str, url: &str, commit: &str) -> Repo {
    Repo { name: name.to_string(), url: url.to_string(), commit: commit.to_string() }
}

fn git(args: &[&str]) -> Command {
    Command { program: "git".to_string(), args: strings(args) }
}

#[test]
fn manifest_finds_a_project_by_its_exact_name() {
    let manifest = KnownGood::new(vec![
        repo("spirv-tools", "https://example.org/tools.git", "aaa"),
        repo("glslang", "https://example.org/glslang.git", "0123abcd"),
        repo("glslang-extra", "https://example.org/extra.git", "bbb"),
    ])
    .unwrap();
    assert_eq!(manifest.len(), 3);
    assert_eq!(
        manifest.get_repo("glslang"),
        Some(&repo("glslang", "https://example.org/glslang.git", "0123abcd"))
    );
    assert_eq!(manifest.get_repo("glslang-extra").unwrap().commit, "bbb");
    assert_eq!(manifest.get_repo("Glslang"), None);
    assert_eq!(manifest.get_repo("glsl"), None);
    assert_eq!(manifest.get_repo(""), None);
}

#[test]
fn manifest_refuses_a_name_twice() {
    assert!(KnownGood::new(vec![repo("a", "u", "1"), repo("b", "u", "2"), repo("a", "v", "3")])
        .is_none());
    assert!(KnownGood::new(vec![repo("a", "u", "1"), repo("a", "u", "1")]).is_none());
    assert!(KnownGood::new(vec![repo("a", "u", "1"), repo("A", "u", "1")]).is_some());
    let empty = KnownGood::new(Vec::new()).unwrap();
    assert_eq!(empty.len(), 0);
    assert_eq!(empty.get_repo("glslang"), None);
}

#[test]
fn stamp_is_compared_without_regard_to_case() {
    assert_eq!(verify_stamp("0123ABCDEF", Some("0123abcdef")), Ok(()));
    assert_eq!(verify_stamp("0123abcdef", Some("0123ABCDEF")), Ok(()));
    assert_eq!(verify_stamp("DeadBeef", Some("dEADbEEF")), Ok(()));
    assert_eq!(verify_stamp("abc", Some("abc")), Ok(()));
    assert_eq!(verify_stamp("", Some("")), Ok(()));
}

#[test]
fn stamp_of_another_revision_is_refused() {
    assert_eq!(verify_stamp("abc", Some("abd")), Err(PrebuiltError::InvalidCommit));
    assert_eq!(verify_stamp("abc", Some("abc\n")), Err(PrebuiltError::InvalidCommit));
    assert_eq!(verify_stamp("abc", Some("")), Err(PrebuiltError::InvalidCommit));
    assert_eq!(verify_stamp("abc", Some("ab")), Err(PrebuiltError::InvalidCommit));
}

#[test]
fn missing_stamp_is_refused_whatever_is_pinned() {
    assert_eq!(verify_stamp("abc", None), Err(PrebuiltError::VersionRegistryNotFound));
    assert_eq!(verify_stamp("", None), Err(PrebuiltError::VersionRegistryNotFound));
}

#[test]
fn folded_texts_are_compared_as_they_are() {
    assert_eq!(compare_folded("abc", "abc"), Ok(()));
    assert_eq!(compare_folded("abc", "ABC"), Err(PrebuiltError::InvalidCommit));
    assert!(same_text("x", "x"));
    assert!(!same_text("x", "X"));
    assert!(!same_text("x", "xx"));
}

#[test]
fn prebuilt_directory_of_a_verified_target() {
    let glslang = repo("glslang", "url", "ABCDEF");
    assert_eq!(
        prebuilt_install_dir(&glslang, "linux", "x86_64", Some("abcdef")),
        Ok("x86_64-unknown-linux-gnu")
    );
    assert_eq!(
        prebuilt_install_dir(&glslang, "android", "aarch64", Some("AbCdEf")),
        Ok("aarch64-linux-android")
    );
    assert_eq!(
        prebuilt_install_dir(&glslang, "windows", "x86_64", Some("abcdeg")),
        Err(PrebuiltError::InvalidCommit)
    );
    assert_eq!(
        prebuilt_install_dir(&glslang, "windows", "x86_64", None),
        Err(PrebuiltError::VersionRegistryNotFound)
    );
}

#[test]
fn fetch_commands_bring_the_pinned_revision() {
    let glslang = repo("glslang", "https://example.org/glslang.git", "0123abcd");
    let commands = fetch_commands(&glslang, HostOs::Linux);
    assert_eq!(
        commands,
        vec![
            git(&["init"]),
            git(&["remote", "add", "origin", "https://example.org/glslang.git"]),
            git(&["fetch", "--depth", "1", "origin", "0123abcd"]),
            git(&["reset", "--hard", "FETCH_HEAD"]),
            git(&["clone", "https://github.com/google/googletest.git", "External/googletest"]),
            Command { program: "./update_glslang_sources.py".to_string(), args: Vec::new() },
        ]
    );
    let on_windows = fetch_commands(&glslang, HostOs::Windows);
    assert_eq!(on_windows[..5], commands[..5]);
    assert_eq!(
        on_windows[5],
        Command { program: "python".to_string(), args: strings(&["update_glslang_sources.py"]) }
    );
}

#[test]
fn fetch_fails_where_any_command_failed() {
    assert_eq!(fetch_outcome(&vec![true; 6]), Ok(()));
    assert_eq!(fetch_outcome(&Vec::new()), Ok(()));
    assert_eq!(
        fetch_outcome(&vec![true, true, false, true, false, true]),
        Err(FetchError::StepFailed { step: 2 })
    );
    assert_eq!(fetch_outcome(&vec![false]), Err(FetchError::StepFailed { step: 0 }));
    assert_eq!(
        fetch_outcome(&vec![true, true, true, true, true, false]),
        Err(FetchError::StepFailed { step: 5 })
    );
}

#[test]
fn clone_directory_is_named_by_the_version() {
    assert_eq!(clone_dir_name(0, 0), "glslang-0.0");
    assert_eq!(clone_dir_name(1, 22), "glslang-1.22");
    assert_eq!(clone_dir_name(10, 9), "glslang-10.9");
    assert_eq!(clone_dir_name(100, 101), "glslang-100.101");
    assert_eq!(clone_dir_name(255, 200), "glslang-255.200");
    assert_eq!(clone_dir_name(99, 110), "glslang-99.110");
}

#[test]
fn generator_request() {
    assert_eq!(wrapper_header(), "src/wrapper.h");
    assert_eq!(ndk_sysroot_include(), "sysroot/usr/include");
    assert_eq!(allowlist(), strings(&[".*glslang_c_shader_types.h", ".*glslang_c_interface.h"]));
    assert_eq!(generator_args("/out/install/include", &Vec::new()), strings(&["-I/out/install/include"]));
    assert_eq!(
        generator_args(
            "inc",
            &strings(&["/ndk/sysroot/usr/include/aarch64-linux-android", "/ndk/sysroot/usr/include"])
        ),
        strings(&[
            "-Iinc",
            "-isystem/ndk/sysroot/usr/include/aarch64-linux-android",
            "-isystem/ndk/sysroot/usr/include",
        ])
    );
}

#[test]
fn link_directives_name_eight_libraries() {
    assert_eq!(
        link_libraries(),
        strings(&[
            "GenericCodeGen",
            "glslang",
            "glslang-default-resource-limits",
            "HLSL",
            "MachineIndependent",
            "OGLCompiler",
            "OSDependent",
            "SPIRV",
        ])
    );
    let desktop = link_directives("/out/lib", "linux");
    assert_eq!(desktop.len(), 9);
    assert_eq!(desktop[0], "cargo:rustc-link-search=native=/out/lib");
    assert_eq!(desktop[1], "cargo:rustc-link-lib=static=GenericCodeGen");
    assert_eq!(desktop[3], "cargo:rustc-link-lib=static=glslang-default-resource-limits");
    assert_eq!(desktop[8], "cargo:rustc-link-lib=static=SPIRV");
    assert_eq!(link_directives("/out/lib", "windows"), desktop);
    let mobile = link_directives("/out/lib", "android");
    assert_eq!(mobile.len(), 10);
    assert_eq!(mobile[..9], desktop[..]);
    assert_eq!(mobile[9], "cargo:rustc-link-lib=c++_shared");
}

#[test]
fn rerun_directives_name_the_watched_files() {
    assert_eq!(rerun_directives(true), strings(&["cargo:rerun-if-changed=src/wrapper.h"]));
    assert_eq!(
        rerun_directives(false),
        strings(&[
            "cargo:rerun-if-changed=src/wrapper.h",
            "cargo:rerun-if-changed=prebuilt/version.txt",
        ])
    );
}
