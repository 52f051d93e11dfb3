//! The command lines of the native build: configure, build, and the mapping
//! of the working directory onto a drive letter.

use vstd::prelude::*;
use vstd::string::*;
use crate::drive::letter;
use crate::target::{
    android_abi_name, parse_target_os, spec_android_abi, spec_target_os, ConfigError, HostOs,
    TargetOs,
};
use crate::text::{push_joined, push_text, texts};

verus! {

/// A program and its arguments.
#[derive(Clone, Debug, PartialEq, Eq)]
pub struct Command {
    pub program: String,
    pub args: Vec<String>,
}

/// A [`Command`] as plain texts.
pub struct CommandView {
    pub program: Seq<char>,
    pub args: Seq<Seq<char>>,
}

impl View for Command {
    type V = CommandView;

    open spec fn view(&self) -> CommandView {
        CommandView { program: self.program@, args: texts(self.args@) }
    }
}

/// The directory, inside the build directory, that the library is installed
/// into.
pub fn install_dir_name() -> (r: &'static str)
    ensures
        r@ == "install"@,
{
    "install"
}

/// The name of the build directory of a target.
pub open spec fn spec_build_dir_name(os: Seq<char>, arch: Seq<char>) -> Seq<char> {
    "build-"@ + os + "-"@ + arch
}

/// The name of the build directory of a target.
pub fn build_dir_name(target_os: &str, target_arch: &str) -> (r: String)
    ensures
        r@ == spec_build_dir_name(target_os@, target_arch@),
{
    let mut name = String::from_str("build-");
    name.append(target_os);
    name.append("-");
    name.append(target_arch);
    name
}

/// The flags that every configure step carries: the optimizer and the
/// remapper of the front end are off, and the back end's toolkit builds
/// neither its tests nor its executables.
pub open spec fn base_flags() -> Seq<Seq<char>> {
    seq![
        "-DENABLE_OPT=OFF"@,
        "-DENABLE_SPVREMAPPER=OFF"@,
        "-DSPIRV_SKIP_TESTS=ON"@,
        "-DSPIRV_SKIP_EXECUTABLES=ON"@,
    ]
}

/// The flag that names the install directory.
pub open spec fn install_prefix_flag() -> Seq<char> {
    "-DCMAKE_INSTALL_PREFIX="@ + "install"@
}

/// What stands before the base flags: the source directory, what the target
/// needs in front, and the install directory.
pub open spec fn leading_args(os: TargetOs) -> Seq<Seq<char>> {
    match os {
        TargetOs::Windows => seq![".."@, install_prefix_flag()],
        TargetOs::Android => seq![".."@, "-G"@, "Unix Makefiles"@, install_prefix_flag()],
        TargetOs::Linux => seq![".."@, "-DCMAKE_BUILD_TYPE=Release"@, install_prefix_flag()],
    }
}

/// What stands behind the base flags: nothing for the two desktop targets,
/// the flags of the cross toolchain for the mobile target.
pub open spec fn trailing_args(os: TargetOs, abi: Seq<char>, ndk_home: Seq<char>) -> Seq<
    Seq<char>,
> {
    match os {
        TargetOs::Android => seq![
            "-DANDROID_ABI="@ + abi,
            "-DCMAKE_BUILD_TYPE=Release"@,
            "-DANDROID_STL=c++_shared"@,
            "-DANDROID_PLATFORM=android-24"@,
            "-DCMAKE_SYSTEM_NAME=Android"@,
            "-DANDROID_TOOLCHAIN=clang"@,
            "-DANDROID_ARM_MODE=arm"@,
            "-DCMAKE_MAKE_PROGRAM="@ + (ndk_home + "/prebuilt/windows-x86_64/bin/make.exe"@),
            "-DCMAKE_TOOLCHAIN_FILE="@ + (ndk_home + "/build/cmake/android.toolchain.cmake"@),
        ],
        _ => Seq::empty(),
    }
}

/// The arguments of the configure step of a target.
pub open spec fn configure_args(os: TargetOs, abi: Seq<char>, ndk_home: Seq<char>) -> Seq<
    Seq<char>,
> {
    leading_args(os) + base_flags() + trailing_args(os, abi, ndk_home)
}

/// The configure step of a build: the command, or why the environment
/// cannot be served. The mobile target is built on the Windows host only,
/// needs the root of its development kit, and an architecture of the table.
pub open spec fn spec_configure(
    host: HostOs,
    target_os: Seq<char>,
    target_arch: Seq<char>,
    ndk_home: Option<Seq<char>>,
) -> Result<CommandView, ConfigError> {
    match spec_target_os(target_os) {
        None => Err(ConfigError::UnexpectedTargetOs),
        Some(TargetOs::Android) => if host != HostOs::Windows {
            Err(ConfigError::UnsupportedHost)
        } else if ndk_home is None {
            Err(ConfigError::MissingNdkHome)
        } else if spec_android_abi(target_arch) is None {
            Err(ConfigError::UnexpectedTargetArch)
        } else {
            Ok(
                CommandView {
                    program: "cmake"@,
                    args: configure_args(
                        TargetOs::Android,
                        spec_android_abi(target_arch)->Some_0,
                        ndk_home->Some_0,
                    ),
                },
            )
        },
        Some(os) => Ok(
            CommandView { program: "cmake"@, args: configure_args(os, Seq::empty(), Seq::empty()) },
        ),
    }
}

/// The text of an optional string.
pub open spec fn optional_text(text: Option<&str>) -> Option<Seq<char>> {
    match text {
        Some(text) => Some(text@),
        None => None,
    }
}

/// Appends the base flags to the arguments.
fn push_base_flags(args: &mut Vec<String>)
    ensures
        texts(final(args)@) == texts(old(args)@) + base_flags(),
{
    push_text(args, "-DENABLE_OPT=OFF");
    push_text(args, "-DENABLE_SPVREMAPPER=OFF");
    push_text(args, "-DSPIRV_SKIP_TESTS=ON");
    push_text(args, "-DSPIRV_SKIP_EXECUTABLES=ON");
    assert(texts(args@) =~= texts(old(args)@) + base_flags());
}

/// Appends the flags of the cross toolchain to the arguments.
fn push_android_flags(args: &mut Vec<String>, abi: &str, ndk_home: &str)
    ensures
        texts(final(args)@) == texts(old(args)@) + trailing_args(
            TargetOs::Android,
            abi@,
            ndk_home@,
        ),
{
    push_joined(args, "-DANDROID_ABI=", abi);
    push_text(args, "-DCMAKE_BUILD_TYPE=Release");
    push_text(args, "-DANDROID_STL=c++_shared");
    push_text(args, "-DANDROID_PLATFORM=android-24");
    push_text(args, "-DCMAKE_SYSTEM_NAME=Android");
    push_text(args, "-DANDROID_TOOLCHAIN=clang");
    push_text(args, "-DANDROID_ARM_MODE=arm");
    let mut make_program = ndk_home.to_owned();
    make_program.append("/prebuilt/windows-x86_64/bin/make.exe");
    push_joined(args, "-DCMAKE_MAKE_PROGRAM=", make_program.as_str());
    let mut toolchain_file = ndk_home.to_owned();
    toolchain_file.append("/build/cmake/android.toolchain.cmake");
    push_joined(args, "-DCMAKE_TOOLCHAIN_FILE=", toolchain_file.as_str());
    assert(texts(args@) =~= texts(old(args)@) + trailing_args(
        TargetOs::Android,
        abi@,
        ndk_home@,
    ));
}

/// The configure step of a build: the command that configures the native
/// build for the target, or why the environment cannot be served.
pub fn configure_command(
    host: HostOs,
    target_os: &str,
    target_arch: &str,
    ndk_home: Option<&str>,
) -> (r: Result<Command, ConfigError>)
    ensures
        match r {
            Ok(command) => spec_configure(host, target_os@, target_arch@, optional_text(ndk_home))
                == Ok::<CommandView, ConfigError>(command@),
            Err(error) => spec_configure(host, target_os@, target_arch@, optional_text(ndk_home))
                == Err::<CommandView, ConfigError>(error),
        },
{
    let os = match parse_target_os(target_os) {
        Some(os) => os,
        None => {
            return Err(ConfigError::UnexpectedTargetOs);
        },
    };
    let mut args: Vec<String> = Vec::new();
    assert(texts(args@) =~= Seq::<Seq<char>>::empty());
    push_text(&mut args, "..");
    match os {
        TargetOs::Windows => {
            push_joined(&mut args, "-DCMAKE_INSTALL_PREFIX=", install_dir_name());
            assert(texts(args@) =~= leading_args(os));
            push_base_flags(&mut args);
            assert(texts(args@) =~= configure_args(os, Seq::empty(), Seq::empty()));
        },
        TargetOs::Linux => {
            push_text(&mut args, "-DCMAKE_BUILD_TYPE=Release");
            push_joined(&mut args, "-DCMAKE_INSTALL_PREFIX=", install_dir_name());
            assert(texts(args@) =~= leading_args(os));
            push_base_flags(&mut args);
            assert(texts(args@) =~= configure_args(os, Seq::empty(), Seq::empty()));
        },
        TargetOs::Android => {
            match host {
                HostOs::Windows => {},
                HostOs::Linux => {
                    return Err(ConfigError::UnsupportedHost);
                },
            }
            let ndk = match ndk_home {
                Some(ndk) => ndk,
                None => {
                    return Err(ConfigError::MissingNdkHome);
                },
            };
            let abi = match android_abi_name(target_arch) {
                Some(abi) => abi,
                None => {
                    return Err(ConfigError::UnexpectedTargetArch);
                },
            };
            push_text(&mut args, "-G");
            push_text(&mut args, "Unix Makefiles");
            push_joined(&mut args, "-DCMAKE_INSTALL_PREFIX=", install_dir_name());
            assert(texts(args@) =~= leading_args(os));
            push_base_flags(&mut args);
            push_android_flags(&mut args, abi, ndk);
        },
    }
    Ok(Command { program: String::from_str("cmake"), args })
}

/// The build step on a host: the native build tool, asked to build and
/// install in release configuration, with the host's number of workers.
pub open spec fn spec_build_command(host: HostOs) -> CommandView {
    match host {
        HostOs::Windows => CommandView {
            program: "cmake"@,
            args: seq![
                "--build"@,
                "."@,
                "--config"@,
                "Release"@,
                "--target"@,
                "install"@,
                "--parallel"@,
                "8"@,
            ],
        },
        HostOs::Linux => CommandView { program: "make"@, args: seq!["-j4"@, "install"@] },
    }
}

/// The build step on a host.
pub fn build_command(host: HostOs) -> (r: Command)
    ensures
        r@ == spec_build_command(host),
{
    let mut args: Vec<String> = Vec::new();
    assert(texts(args@) =~= Seq::<Seq<char>>::empty());
    match host {
        HostOs::Windows => {
            push_text(&mut args, "--build");
            push_text(&mut args, ".");
            push_text(&mut args, "--config");
            push_text(&mut args, "Release");
            push_text(&mut args, "--target");
            push_text(&mut args, install_dir_name());
            push_text(&mut args, "--parallel");
            push_text(&mut args, "8");
            assert(texts(args@) =~= spec_build_command(host).args);
            Command { program: String::from_str("cmake"), args }
        },
        HostOs::Linux => {
            push_text(&mut args, "-j4");
            push_text(&mut args, install_dir_name());
            assert(texts(args@) =~= spec_build_command(host).args);
            Command { program: String::from_str("make"), args }
        },
    }
}

/// The name of a drive: its letter and a colon.
pub open spec fn spec_drive_name(index: int) -> Seq<char> {
    seq![letter(index), ':']
}

/// The name of the drive with the given letter.
pub fn drive_name(drive: char) -> (r: String)
    requires
        'A' <= drive <= 'Z',
    ensures
        r@ == spec_drive_name(drive as u8 - 65),
{
    let letters = "ABCDEFGHIJKLMNOPQRSTUVWXYZ";
    proof {
        reveal_strlit("ABCDEFGHIJKLMNOPQRSTUVWXYZ");
        reveal_strlit(":");
        assert(letters@ =~= Seq::new(26, |i: int| letter(i)));
        assert(letters.is_ascii()) by {
            assert forall|i: int| 0 <= i < letters@.len() implies (letters@[i] as u32) < 128 by {}
        }
    }
    let index: usize = (drive as u8 - 65) as usize;
    let mut name = letters.substring_ascii(index, index + 1).to_owned();
    name.append(":");
    assert(name@ =~= spec_drive_name(index as int));
    name
}

/// The command that maps a directory onto a drive.
pub fn map_drive_command(drive: char, directory: &str) -> (r: Command)
    requires
        'A' <= drive <= 'Z',
    ensures
        r@.program == "subst"@,
        r@.args == seq![spec_drive_name(drive as u8 - 65), directory@],
{
    let mut args: Vec<String> = Vec::new();
    assert(texts(args@) =~= Seq::<Seq<char>>::empty());
    let name = drive_name(drive);
    push_text(&mut args, name.as_str());
    push_text(&mut args, directory);
    assert(texts(args@) =~= seq![spec_drive_name(drive as u8 - 65), directory@]);
    Command { program: String::from_str("subst"), args }
}

/// The command that takes the mapping of a drive away.
pub fn unmap_drive_command(drive: char) -> (r: Command)
    requires
        'A' <= drive <= 'Z',
    ensures
        r@.program == "subst"@,
        r@.args == seq![spec_drive_name(drive as u8 - 65), "/d"@],
{
    let mut args: Vec<String> = Vec::new();
    assert(texts(args@) =~= Seq::<Seq<char>>::empty());
    let name = drive_name(drive);
    push_text(&mut args, name.as_str());
    push_text(&mut args, "/d");
    assert(texts(args@) =~= seq![spec_drive_name(drive as u8 - 65), "/d"@]);
    Command { program: String::from_str("subst"), args }
}

/// The root of a mapped drive: its name and a slash.
pub fn mapped_root(drive: char) -> (r: String)
    requires
        'A' <= drive <= 'Z',
    ensures
        r@ == spec_drive_name(drive as u8 - 65) + "/"@,
{
    let mut root = drive_name(drive);
    root.append("/");
    root
}

/// Every configure step carries the whole set of base flags, in front of them
/// only what leads for its target and behind them only what its target adds:
/// nothing for the desktop targets, the nine flags of the cross toolchain for
/// the mobile target.
pub proof fn lemma_configure_flags(os: TargetOs, abi: Seq<char>, ndk_home: Seq<char>)
    ensures
        ({
            let args = configure_args(os, abi, ndk_home);
            let lead = leading_args(os).len() as int;
            &&& args.len() == lead + 4 + trailing_args(os, abi, ndk_home).len()
            &&& args.subrange(0, lead) == leading_args(os)
            &&& args.subrange(lead, lead + 4) == base_flags()
            &&& args.subrange(lead + 4, args.len() as int) == trailing_args(os, abi, ndk_home)
            &&& os != TargetOs::Android ==> trailing_args(os, abi, ndk_home).len() == 0
            &&& os == TargetOs::Android ==> trailing_args(os, abi, ndk_home).len() == 9
            &&& forall|i: int| 0 <= i < 4 ==> args.contains(#[trigger] base_flags()[i])
        }),
{
    let args = configure_args(os, abi, ndk_home);
    let lead = leading_args(os).len() as int;
    assert(args.subrange(0, lead) =~= leading_args(os));
    assert(args.subrange(lead, lead + 4) =~= base_flags());
    assert(args.subrange(lead + 4, args.len() as int) =~= trailing_args(os, abi, ndk_home));
    assert forall|i: int| 0 <= i < 4 implies args.contains(#[trigger] base_flags()[i]) by {
        assert(args[lead + i] == base_flags()[i]);
    }
}

} // verus!
