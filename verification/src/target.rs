//! The closed set of build targets, and the fixed names that go with them.

use vstd::prelude::*;
use crate::text::same_text;

verus! {

/// The platform that runs the build.
#[derive(Clone, Copy, Debug, PartialEq, Eq, Structural)]
pub enum HostOs {
    Windows,
    Linux,
}

/// The operating system that the library is built for.
#[derive(Clone, Copy, Debug, PartialEq, Eq, Structural)]
pub enum TargetOs {
    /// The desktop system that needs no extra configure flag.
    Windows,
    /// The mobile system, reached by cross-compilation.
    Android,
    /// The desktop system that is built with an explicit release build type.
    Linux,
}

/// A build environment that the build cannot serve.
#[derive(Clone, Copy, Debug, PartialEq, Eq, Structural)]
pub enum ConfigError {
    /// The target operating system is none of the three that are known.
    UnexpectedTargetOs,
    /// The target architecture has no place in the table that was asked.
    UnexpectedTargetArch,
    /// The mobile target can only be built on the Windows host.
    UnsupportedHost,
    /// The mobile target needs the root of its development kit, and the
    /// variable that names it is not set.
    MissingNdkHome,
}

/// The variable that holds the root of the mobile development kit.
pub fn ndk_home_variable() -> (r: &'static str)
    ensures
        r@ == "ANDROID_NDK_HOME"@,
{
    "ANDROID_NDK_HOME"
}

/// The target operating system that an identifier names.
pub open spec fn spec_target_os(name: Seq<char>) -> Option<TargetOs> {
    if name == "windows"@ {
        Some(TargetOs::Windows)
    } else if name == "android"@ {
        Some(TargetOs::Android)
    } else if name == "linux"@ {
        Some(TargetOs::Linux)
    } else {
        None
    }
}

/// The target operating system that an identifier names; `None` for every
/// identifier but the three that are known.
pub fn parse_target_os(name: &str) -> (r: Option<TargetOs>)
    ensures
        r == spec_target_os(name@),
{
    if same_text(name, "windows") {
        Some(TargetOs::Windows)
    } else if same_text(name, "android") {
        Some(TargetOs::Android)
    } else if same_text(name, "linux") {
        Some(TargetOs::Linux)
    } else {
        None
    }
}

impl TargetOs {
    /// The identifier of the operating system.
    pub open spec fn spec_name(self) -> Seq<char> {
        match self {
            TargetOs::Windows => "windows"@,
            TargetOs::Android => "android"@,
            TargetOs::Linux => "linux"@,
        }
    }

    /// The identifier of the operating system.
    pub fn name(self) -> (r: &'static str)
        ensures
            r@ == self.spec_name(),
    {
        match self {
            TargetOs::Windows => "windows",
            TargetOs::Android => "android",
            TargetOs::Linux => "linux",
        }
    }
}

/// The table from architecture to the binary interface of the mobile target.
pub open spec fn spec_android_abi(arch: Seq<char>) -> Option<Seq<char>> {
    if arch == "aarch64"@ {
        Some("arm64-v8a"@)
    } else if arch == "arm"@ {
        Some("armeabi-v7a"@)
    } else {
        None
    }
}

/// The name of the binary interface that the mobile target has on an
/// architecture; `None` for an architecture that the table does not hold.
pub fn android_abi_name(arch: &str) -> (r: Option<&'static str>)
    ensures
        r is Some <==> spec_android_abi(arch@) is Some,
        r is Some ==> r->Some_0@ == spec_android_abi(arch@)->Some_0,
{
    if same_text(arch, "aarch64") {
        Some("arm64-v8a")
    } else if same_text(arch, "arm") {
        Some("armeabi-v7a")
    } else {
        None
    }
}

/// The table from architecture to the directory of the mobile target's
/// system headers.
pub open spec fn spec_android_triple(arch: Seq<char>) -> Option<Seq<char>> {
    if arch == "aarch64"@ {
        Some("aarch64-linux-android"@)
    } else if arch == "arm"@ {
        Some("arm-linux-androideabi"@)
    } else {
        None
    }
}

/// The directory of the system headers that the mobile target has for an
/// architecture; `None` for an architecture that the table does not hold.
pub fn android_arch_triple(arch: &str) -> (r: Option<&'static str>)
    ensures
        r is Some <==> spec_android_triple(arch@) is Some,
        r is Some ==> r->Some_0@ == spec_android_triple(arch@)->Some_0,
{
    if same_text(arch, "aarch64") {
        Some("aarch64-linux-android")
    } else if same_text(arch, "arm") {
        Some("arm-linux-androideabi")
    } else {
        None
    }
}

/// The directory that holds the prebuilt artifacts of a target: each target
/// operating system is served on one architecture only.
pub open spec fn spec_prebuilt_dir(os: Seq<char>, arch: Seq<char>) -> Option<Seq<char>> {
    match spec_target_os(os) {
        Some(TargetOs::Windows) => if arch == "x86_64"@ {
            Some("x86_64-pc-windows-msvc"@)
        } else {
            None
        },
        Some(TargetOs::Android) => if arch == "aarch64"@ {
            Some("aarch64-linux-android"@)
        } else {
            None
        },
        Some(TargetOs::Linux) => if arch == "x86_64"@ {
            Some("x86_64-unknown-linux-gnu"@)
        } else {
            None
        },
        None => None,
    }
}

/// The directory that holds the prebuilt artifacts of a target; `None` for a
/// target that has none.
pub fn prebuilt_target_dir(os: &str, arch: &str) -> (r: Option<&'static str>)
    ensures
        r is Some <==> spec_prebuilt_dir(os@, arch@) is Some,
        r is Some ==> r->Some_0@ == spec_prebuilt_dir(os@, arch@)->Some_0,
{
    match parse_target_os(os) {
        Some(TargetOs::Windows) => if same_text(arch, "x86_64") {
            Some("x86_64-pc-windows-msvc")
        } else {
            None
        },
        Some(TargetOs::Android) => if same_text(arch, "aarch64") {
            Some("aarch64-linux-android")
        } else {
            None
        },
        Some(TargetOs::Linux) => if same_text(arch, "x86_64") {
            Some("x86_64-unknown-linux-gnu")
        } else {
            None
        },
        None => None,
    }
}

/// The table of binary interfaces holds two architectures, each with its own
/// name, and nothing else: no other architecture gets a name by default.
pub proof fn lemma_android_abi_table(arch: Seq<char>)
    ensures
        arch == "aarch64"@ ==> spec_android_abi(arch) == Some("arm64-v8a"@),
        arch == "arm"@ ==> spec_android_abi(arch) == Some("armeabi-v7a"@),
        arch != "aarch64"@ && arch != "arm"@ ==> spec_android_abi(arch) is None,
        "arm64-v8a"@ != "armeabi-v7a"@,
{
    reveal_strlit("aarch64");
    reveal_strlit("arm");
    reveal_strlit("arm64-v8a");
    reveal_strlit("armeabi-v7a");
    assert("aarch64"@.len() != "arm"@.len());
    assert("arm64-v8a"@.len() != "armeabi-v7a"@.len());
}

} // verus!
