//! What the build hands on: the request to the generator of declarations,
//! and the directives for linking the installed libraries.

use vstd::prelude::*;
use vstd::string::*;
use crate::target::{parse_target_os, spec_target_os, TargetOs};
use crate::text::{push_joined, push_text, texts};

verus! {

/// The header that the generator starts from.
pub fn wrapper_header() -> (r: &'static str)
    ensures
        r@ == "src/wrapper.h"@,
{
    "src/wrapper.h"
}

/// The place of the system headers below the root of the mobile development
/// kit.
pub fn ndk_sysroot_include() -> (r: &'static str)
    ensures
        r@ == "sysroot/usr/include"@,
{
    "sysroot/usr/include"
}

/// The two headers whose declarations are generated: the types of the shader
/// stages, and the plain entry points.
pub open spec fn spec_allowlist() -> Seq<Seq<char>> {
    seq![".*glslang_c_shader_types.h"@, ".*glslang_c_interface.h"@]
}

/// The patterns of the headers whose declarations are generated.
pub fn allowlist() -> (r: Vec<String>)
    ensures
        texts(r@) == spec_allowlist(),
{
    let mut patterns: Vec<String> = Vec::new();
    assert(texts(patterns@) =~= Seq::<Seq<char>>::empty());
    push_text(&mut patterns, ".*glslang_c_shader_types.h");
    push_text(&mut patterns, ".*glslang_c_interface.h");
    patterns
}

/// The arguments for the front end of the generator: the include directory
/// of the installed library, then each directory of system headers.
pub open spec fn spec_generator_args(include_dir: Seq<char>, system_dirs: Seq<Seq<char>>) -> Seq<
    Seq<char>,
> {
    seq!["-I"@ + include_dir] + Seq::new(system_dirs.len(), |i: int| "-isystem"@ + system_dirs[i])
}

/// The arguments for the front end of the generator. The mobile target
/// hands in its two directories of system headers, the one of the
/// architecture first; the desktop targets hand in none.
pub fn generator_args(include_dir: &str, system_dirs: &Vec<String>) -> (r: Vec<String>)
    ensures
        texts(r@) == spec_generator_args(include_dir@, texts(system_dirs@)),
{
    let mut args: Vec<String> = Vec::new();
    assert(texts(args@) =~= Seq::<Seq<char>>::empty());
    push_joined(&mut args, "-I", include_dir);
    let mut at: usize = 0;
    while at < system_dirs.len()
        invariant
            at <= system_dirs.len(),
            texts(args@) == spec_generator_args(include_dir@, texts(system_dirs@.take(at as int))),
        decreases system_dirs.len() - at,
    {
        push_joined(&mut args, "-isystem", system_dirs[at].as_str());
        proof {
            let before = texts(system_dirs@.take(at as int));
            let after = texts(system_dirs@.take(at + 1));
            assert(after =~= before.push(system_dirs@[at as int]@));
            assert(texts(args@) =~= spec_generator_args(include_dir@, after));
        }
        at = at + 1;
    }
    proof {
        assert(system_dirs@.take(at as int) =~= system_dirs@);
        assert(texts(args@) =~= spec_generator_args(include_dir@, texts(system_dirs@)));
    }
    args
}

/// The static libraries of the installed artifact, in the order in which
/// they are linked.
pub open spec fn spec_link_libraries() -> Seq<Seq<char>> {
    seq![
        "GenericCodeGen"@,
        "glslang"@,
        "glslang-default-resource-limits"@,
        "HLSL"@,
        "MachineIndependent"@,
        "OGLCompiler"@,
        "OSDependent"@,
        "SPIRV"@,
    ]
}

/// The static libraries of the installed artifact.
pub fn link_libraries() -> (r: Vec<String>)
    ensures
        texts(r@) == spec_link_libraries(),
{
    let mut names: Vec<String> = Vec::new();
    assert(texts(names@) =~= Seq::<Seq<char>>::empty());
    push_text(&mut names, "GenericCodeGen");
    push_text(&mut names, "glslang");
    push_text(&mut names, "glslang-default-resource-limits");
    push_text(&mut names, "HLSL");
    push_text(&mut names, "MachineIndependent");
    push_text(&mut names, "OGLCompiler");
    push_text(&mut names, "OSDependent");
    push_text(&mut names, "SPIRV");
    names
}

/// The directives for linking: where to search, each static library, and
/// for the mobile target the shared runtime of the language.
pub open spec fn spec_link_directives(lib_dir: Seq<char>, target_os: Seq<char>) -> Seq<Seq<char>> {
    seq!["cargo:rustc-link-search=native="@ + lib_dir] + Seq::new(
        spec_link_libraries().len(),
        |i: int| "cargo:rustc-link-lib=static="@ + spec_link_libraries()[i],
    ) + if spec_target_os(target_os) == Some(TargetOs::Android) {
        seq!["cargo:rustc-link-lib=c++_shared"@]
    } else {
        Seq::empty()
    }
}

/// The directives for linking against the libraries in `lib_dir`.
pub fn link_directives(lib_dir: &str, target_os: &str) -> (r: Vec<String>)
    ensures
        texts(r@) == spec_link_directives(lib_dir@, target_os@),
{
    let mut lines: Vec<String> = Vec::new();
    assert(texts(lines@) =~= Seq::<Seq<char>>::empty());
    push_joined(&mut lines, "cargo:rustc-link-search=native=", lib_dir);
    let names = link_libraries();
    let ghost head = texts(lines@);
    let mut at: usize = 0;
    while at < names.len()
        invariant
            at <= names.len(),
            texts(names@) == spec_link_libraries(),
            head == seq!["cargo:rustc-link-search=native="@ + lib_dir@],
            texts(lines@) == head + Seq::new(
                at as nat,
                |i: int| "cargo:rustc-link-lib=static="@ + spec_link_libraries()[i],
            ),
        decreases names.len() - at,
    {
        push_joined(&mut lines, "cargo:rustc-link-lib=static=", names[at].as_str());
        proof {
            assert(names@[at as int]@ == texts(names@)[at as int]);
            assert(texts(lines@) =~= head + Seq::new(
                (at + 1) as nat,
                |i: int| "cargo:rustc-link-lib=static="@ + spec_link_libraries()[i],
            ));
        }
        at = at + 1;
    }
    let android = match parse_target_os(target_os) {
        Some(TargetOs::Android) => true,
        _ => false,
    };
    if android {
        push_text(&mut lines, "cargo:rustc-link-lib=c++_shared");
    }
    proof {
        assert(names@.len() == texts(names@).len());
        assert(texts(lines@) =~= spec_link_directives(lib_dir@, target_os@));
    }
    lines
}

/// The files whose change makes the build run again: the header of the
/// generator, and the record of the prebuilt artifacts where those are used.
pub open spec fn spec_rerun_directives(build_from_source: bool) -> Seq<Seq<char>> {
    if build_from_source {
        seq!["cargo:rerun-if-changed="@ + "src/wrapper.h"@]
    } else {
        seq![
            "cargo:rerun-if-changed="@ + "src/wrapper.h"@,
            "cargo:rerun-if-changed=prebuilt/version.txt"@,
        ]
    }
}

/// The directives that name the files whose change makes the build run
/// again.
pub fn rerun_directives(build_from_source: bool) -> (r: Vec<String>)
    ensures
        texts(r@) == spec_rerun_directives(build_from_source),
{
    let mut lines: Vec<String> = Vec::new();
    assert(texts(lines@) =~= Seq::<Seq<char>>::empty());
    push_joined(&mut lines, "cargo:rerun-if-changed=", wrapper_header());
    if !build_from_source {
        push_text(&mut lines, "cargo:rerun-if-changed=prebuilt/version.txt");
    }
    lines
}

} // verus!
