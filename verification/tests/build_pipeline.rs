use glslang_safe::builder::{
    allocate_drive_letter, BuildAction, BuildReply, BuildRun, BuilderError, ProcessOutput,
};
use glslang_safe::command::{
    build_command, build_dir_name, configure_command, drive_name, install_dir_name,
    map_drive_command, mapped_root, unmap_drive_command, Command,
};
use glslang_safe::drive::{
    drive_in_use, drive_letter, first_unused_drive_letter, unused_drive_letters,
};
use glslang_safe::target::{
    android_abi_name, android_arch_triple, ndk_home_variable, parse_target_os,
    prebuilt_target_dir, ConfigError, HostOs, TargetOs,
};

fn strings(items: &[&str]) -> Vec<String> {
    items.iter().map(|s| s.to_string()).collect()
}

fn output(success: bool, stdout: &str, stderr: &str) -> ProcessOutput {
    ProcessOutput {
        success,
        stdout: stdout.as_bytes().to_vec(),
        stderr: stderr.as_bytes().to_vec(),
    }
}

const BASE: [&str; 4] = [
    "-DENABLE_OPT=OFF",
    "-DENABLE_SPVREMAPPER=OFF",
    "-DSPIRV_SKIP_TESTS=ON",
    "-DSPIRV_SKIP_EXECUTABLES=ON",
];

#[test]
fn abi_table_holds_two_architectures() {
    assert_eq!(android_abi_name("aarch64"), Some("arm64-v8a"));
    assert_eq!(android_abi_name("arm"), Some("armeabi-v7a"));
    assert_eq!(android_abi_name("x86_64"), None);
    assert_eq!(android_abi_name(""), None);
    assert_eq!(android_abi_name("AARCH64"), None);
    assert_eq!(android_abi_name("arm64"), None);
}

#[test]
fn arch_triples() {
    assert_eq!(android_arch_triple("aarch64"), Some("aarch64-linux-android"));
    assert_eq!(android_arch_triple("arm"), Some("arm-linux-androideabi"));
    assert_eq!(android_arch_triple("x86"), None);
}

#[test]
fn target_os_names() {
    assert_eq!(parse_target_os("windows"), Some(TargetOs::Windows));
    assert_eq!(parse_target_os("android"), Some(TargetOs::Android));
    assert_eq!(parse_target_os("linux"), Some(TargetOs::Linux));
    assert_eq!(parse_target_os("macos"), None);
    assert_eq!(parse_target_os("Linux"), None);
    assert_eq!(parse_target_os(""), None);
    assert_eq!(TargetOs::Windows.name(), "windows");
    assert_eq!(TargetOs::Android.name(), "android");
    assert_eq!(TargetOs::Linux.name(), "linux");
    assert_eq!(ndk_home_variable(), "ANDROID_NDK_HOME");
}

#[test]
fn prebuilt_directories() {
    assert_eq!(prebuilt_target_dir("windows", "x86_64"), Some("x86_64-pc-windows-msvc"));
    assert_eq!(prebuilt_target_dir("android", "aarch64"), Some("aarch64-linux-android"));
    assert_eq!(prebuilt_target_dir("linux", "x86_64"), Some("x86_64-unknown-linux-gnu"));
    assert_eq!(prebuilt_target_dir("windows", "aarch64"), None);
    assert_eq!(prebuilt_target_dir("android", "arm"), None);
    assert_eq!(prebuilt_target_dir("linux", "arm"), None);
    assert_eq!(prebuilt_target_dir("freebsd", "x86_64"), None);
}

#[test]
fn configure_for_windows_has_base_flags_only() {
    let command = configure_command(HostOs::Windows, "windows", "x86_64", None).unwrap();
    assert_eq!(command.program, "cmake");
    let mut want = strings(&["..", "-DCMAKE_INSTALL_PREFIX=install"]);
    want.extend(strings(&BASE));
    assert_eq!(command.args, want);
}

#[test]
fn configure_for_linux_adds_the_build_type() {
    let command = configure_command(HostOs::Linux, "linux", "x86_64", None).unwrap();
    assert_eq!(command.program, "cmake");
    let mut want = strings(&["..", "-DCMAKE_BUILD_TYPE=Release", "-DCMAKE_INSTALL_PREFIX=install"]);
    want.extend(strings(&BASE));
    assert_eq!(command.args, want);
    let ignored = configure_command(HostOs::Windows, "linux", "riscv", Some("/ndk")).unwrap();
    assert_eq!(ignored.args, want);
}

#[test]
fn configure_for_android_adds_the_cross_toolchain() {
    let command =
        configure_command(HostOs::Windows, "android", "aarch64", Some("C:/ndk")).unwrap();
    assert_eq!(command.program, "cmake");
    let mut want = strings(&["..", "-G", "Unix Makefiles", "-DCMAKE_INSTALL_PREFIX=install"]);
    want.extend(strings(&BASE));
    want.extend(strings(&[
        "-DANDROID_ABI=arm64-v8a",
        "-DCMAKE_BUILD_TYPE=Release",
        "-DANDROID_STL=c++_shared",
        "-DANDROID_PLATFORM=android-24",
        "-DCMAKE_SYSTEM_NAME=Android",
        "-DANDROID_TOOLCHAIN=clang",
        "-DANDROID_ARM_MODE=arm",
        "-DCMAKE_MAKE_PROGRAM=C:/ndk/prebuilt/windows-x86_64/bin/make.exe",
        "-DCMAKE_TOOLCHAIN_FILE=C:/ndk/build/cmake/android.toolchain.cmake",
    ]));
    assert_eq!(command.args, want);
    let arm = configure_command(HostOs::Windows, "android", "arm", Some("")).unwrap();
    assert_eq!(arm.args[8], "-DANDROID_ABI=armeabi-v7a");
    assert_eq!(arm.args[15], "-DCMAKE_MAKE_PROGRAM=/prebuilt/windows-x86_64/bin/make.exe");
    assert_eq!(arm.args.len(), 17);
}

#[test]
fn every_configure_step_holds_the_base_flags() {
    let targets = [("windows", None), ("linux", None), ("android", Some("ndk"))];
    for (os, ndk) in targets {
        let command = configure_command(HostOs::Windows, os, "aarch64", ndk).unwrap();
        for flag in BASE {
            assert_eq!(command.args.iter().filter(|a| a.as_str() == flag).count(), 1);
        }
    }
}

#[test]
fn configure_refuses_what_it_cannot_serve() {
    assert_eq!(
        configure_command(HostOs::Linux, "macos", "x86_64", None),
        Err(ConfigError::UnexpectedTargetOs)
    );
    assert_eq!(
        configure_command(HostOs::Linux, "android", "aarch64", Some("/ndk")),
        Err(ConfigError::UnsupportedHost)
    );
    assert_eq!(
        configure_command(HostOs::Linux, "android", "mips", None),
        Err(ConfigError::UnsupportedHost)
    );
    assert_eq!(
        configure_command(HostOs::Windows, "android", "mips", None),
        Err(ConfigError::MissingNdkHome)
    );
    assert_eq!(
        configure_command(HostOs::Windows, "android", "x86_64", Some("/ndk")),
        Err(ConfigError::UnexpectedTargetArch)
    );
}

#[test]
fn build_commands() {
    assert_eq!(
        build_command(HostOs::Windows),
        Command {
            program: "cmake".to_string(),
            args: strings(&[
                "--build",
                ".",
                "--config",
                "Release",
                "--target",
                "install",
                "--parallel",
                "8"
            ]),
        }
    );
    assert_eq!(
        build_command(HostOs::Linux),
        Command { program: "make".to_string(), args: strings(&["-j4", "install"]) }
    );
}

#[test]
fn directory_names() {
    assert_eq!(build_dir_name("linux", "x86_64"), "build-linux-x86_64");
    assert_eq!(build_dir_name("android", "aarch64"), "build-android-aarch64");
    assert_eq!(build_dir_name("", ""), "build--");
    assert_eq!(install_dir_name(), "install");
}

#[test]
fn drive_commands() {
    assert_eq!(drive_name('A'), "A:");
    assert_eq!(drive_name('Q'), "Q:");
    assert_eq!(drive_name('Z'), "Z:");
    assert_eq!(mapped_root('D'), "D:/");
    assert_eq!(
        map_drive_command('X', "C:\\out"),
        Command { program: "subst".to_string(), args: strings(&["X:", "C:\\out"]) }
    );
    assert_eq!(
        unmap_drive_command('X'),
        Command { program: "subst".to_string(), args: strings(&["X:", "/d"]) }
    );
}

#[test]
fn allocation_fails_when_all_letters_are_taken() {
    assert_eq!(allocate_drive_letter(0x03FF_FFFF), Err(BuilderError::NoAvailableDriveLetter));
    assert_eq!(allocate_drive_letter(u32::MAX), Err(BuilderError::NoAvailableDriveLetter));
    assert_eq!(allocate_drive_letter(0x03FF_FFFE), Ok('A'));
    assert_eq!(allocate_drive_letter(0x03FF_FFF7), Ok('D'));
    assert_eq!(allocate_drive_letter(0x0000_FFFF), Ok('Q'));
}

#[test]
fn no_drive_letter_when_all_are_taken() {
    assert_eq!(first_unused_drive_letter(0x03FF_FFFF), None);
    assert_eq!(first_unused_drive_letter(u32::MAX), None);
    assert_eq!(unused_drive_letters(0x03FF_FFFF), Vec::<char>::new());
    assert_eq!(unused_drive_letters(u32::MAX), Vec::<char>::new());
}

#[test]
fn the_earliest_free_drive_letter_is_picked() {
    assert_eq!(first_unused_drive_letter(0), Some('A'));
    assert_eq!(first_unused_drive_letter(0b1), Some('B'));
    assert_eq!(first_unused_drive_letter(0b0100), Some('A'));
    assert_eq!(first_unused_drive_letter(0b0111), Some('D'));
    assert_eq!(first_unused_drive_letter(0b1011), Some('C'));
    assert_eq!(first_unused_drive_letter(0x01FF_FFFF), Some('Z'));
    assert_eq!(first_unused_drive_letter(0x03FF_FFFF & !(1 << 12)), Some('M'));
    assert_eq!(first_unused_drive_letter(0xFC00_0000), Some('A'));
    for mask in [0u32, 5, 0xFFFF, 0x0155_5555] {
        assert_eq!(first_unused_drive_letter(mask), first_unused_drive_letter(mask));
        assert_eq!(first_unused_drive_letter(mask), unused_drive_letters(mask).first().copied());
    }
}

#[test]
fn free_drive_letters_come_in_alphabetical_order() {
    assert_eq!(unused_drive_letters(0x03FF_FFFF & !0b1010), vec!['B', 'D']);
    assert_eq!(unused_drive_letters(0x01FF_FFFE), vec!['A', 'Z']);
    assert_eq!(unused_drive_letters(0).len(), 26);
    assert_eq!(unused_drive_letters(0)[25], 'Z');
    assert!(drive_in_use(0b100, 2));
    assert!(!drive_in_use(0b100, 1));
    assert!(drive_in_use(0x8000_0000, 31));
    assert_eq!(drive_letter(0), 'A');
    assert_eq!(drive_letter(25), 'Z');
}

#[test]
fn a_build_on_linux_runs_configure_then_build() {
    let mut run = BuildRun::plan(HostOs::Linux, "linux", "x86_64", None, u32::MAX).unwrap();
    assert_eq!(run.drive(), None);
    assert_eq!(run.build_dir(), "build-linux-x86_64");
    assert_eq!(run.build_command().program, "make");
    assert_eq!(run.configure_command().args[1], "-DCMAKE_BUILD_TYPE=Release");
    assert_eq!(run.pending(), Some(BuildAction::EnterSourceDir));
    run = run.step(BuildReply::Done);
    assert_eq!(run.pending(), Some(BuildAction::PrepareBuildDir));
    run = run.step(BuildReply::Done);
    assert_eq!(run.pending(), Some(BuildAction::Configure));
    assert!(!run.accepts(&BuildReply::Done));
    run = run.step(BuildReply::Done);
    assert_eq!(run.pending(), Some(BuildAction::Configure));
    run = run.step(BuildReply::Output(output(true, "configured", "")));
    assert_eq!(run.pending(), Some(BuildAction::Build));
    run = run.step(BuildReply::Output(output(true, "built", "")));
    assert_eq!(run.pending(), Some(BuildAction::RestoreDir));
    assert!(!run.is_finished());
    run = run.step(BuildReply::Done);
    assert!(run.is_finished());
    assert_eq!(run.pending(), None);
    assert_eq!(run.into_result(), Ok("build-linux-x86_64".to_string()));
}

#[test]
fn a_failed_configure_step_skips_the_build() {
    let mut run = BuildRun::plan(HostOs::Windows, "windows", "x86_64", None, 0b0111).unwrap();
    assert_eq!(run.drive(), Some('D'));
    run = run.step(BuildReply::Done);
    assert_eq!(run.pending(), Some(BuildAction::MapDrive { drive: 'D' }));
    run = run.step(BuildReply::Done);
    assert_eq!(run.pending(), Some(BuildAction::PrepareBuildDir));
    run = run.step(BuildReply::Done);
    let failed = output(false, "out", "no compiler");
    run = run.step(BuildReply::Output(failed.clone()));
    assert_eq!(run.pending(), Some(BuildAction::UnmapDrive { drive: 'D' }));
    run = run.step(BuildReply::Done);
    assert_eq!(run.pending(), Some(BuildAction::RestoreDir));
    run = run.step(BuildReply::Done);
    assert!(run.is_finished());
    assert_eq!(run.into_result(), Err(BuilderError::ConfigureFailed { output: failed }));
}

#[test]
fn a_failed_build_step_is_reported_with_its_output() {
    let mut run =
        BuildRun::plan(HostOs::Windows, "android", "arm", Some("C:/ndk"), 0).unwrap();
    assert_eq!(run.drive(), Some('A'));
    assert_eq!(run.build_dir(), "build-android-arm");
    assert_eq!(run.build_command().program, "cmake");
    run = run.step(BuildReply::Done);
    run = run.step(BuildReply::Done);
    run = run.step(BuildReply::Done);
    run = run.step(BuildReply::Output(output(true, "", "")));
    assert_eq!(run.pending(), Some(BuildAction::Build));
    let failed = output(false, "", "link error");
    run = run.step(BuildReply::Output(failed.clone()));
    assert_eq!(run.pending(), Some(BuildAction::UnmapDrive { drive: 'A' }));
    run = run.step(BuildReply::Done);
    run = run.step(BuildReply::Done);
    assert!(run.is_finished());
    assert_eq!(run.into_result(), Err(BuilderError::BuildFailed { output: failed }));
}

#[test]
fn a_build_cannot_be_planned_without_a_drive_or_a_target() {
    assert_eq!(
        BuildRun::plan(HostOs::Windows, "windows", "x86_64", None, 0x03FF_FFFF).err(),
        Some(BuilderError::NoAvailableDriveLetter)
    );
    assert_eq!(
        BuildRun::plan(HostOs::Windows, "beos", "x86_64", None, 0x03FF_FFFF).err(),
        Some(BuilderError::NoAvailableDriveLetter)
    );
    assert_eq!(
        BuildRun::plan(HostOs::Windows, "beos", "x86_64", None, 0).err(),
        Some(BuilderError::Configuration(ConfigError::UnexpectedTargetOs))
    );
    assert_eq!(
        BuildRun::plan(HostOs::Linux, "android", "aarch64", Some("/ndk"), 0).err(),
        Some(BuilderError::Configuration(ConfigError::UnsupportedHost))
    );
    assert_eq!(
        BuildRun::plan(HostOs::Windows, "android", "aarch64", None, 0).err(),
        Some(BuilderError::Configuration(ConfigError::MissingNdkHome))
    );
    assert_eq!(
        BuildRun::plan(HostOs::Windows, "android", "x86", Some("/ndk"), 0).err(),
        Some(BuilderError::Configuration(ConfigError::UnexpectedTargetArch))
    );
}
