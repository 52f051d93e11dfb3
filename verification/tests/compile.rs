use std::cell::RefCell;

use glslang_safe::compile::{
    Compilation, CompileStep, NativeCall, NativeReply, Phase, SpvOptions,
};
use glslang_safe::flags::CompileOptionFlags;
use glslang_safe::{compile, GlslangErrorLog};

const MAGIC: u32 = 0x0723_0203;

/// A stand-in for the native library: it answers each call in one way and
/// records the calls it gets.
struct Library {
    preprocess: i32,
    parse: i32,
    link: i32,
    shader_log: (Vec<u8>, Vec<u8>),
    program_log: (Vec<u8>, Vec<u8>),
    words: Vec<u32>,
    calls: RefCell<Vec<NativeCall>>,
}

impl Library {
    fn working(words: Vec<u32>) -> Library {
        Library {
            preprocess: 1,
            parse: 1,
            link: 1,
            shader_log: (Vec::new(), Vec::new()),
            program_log: (Vec::new(), Vec::new()),
            words,
            calls: RefCell::new(Vec::new()),
        }
    }

    fn answer(&self, call: NativeCall) -> NativeReply {
        self.calls.borrow_mut().push(call);
        match call {
            NativeCall::Preprocess => NativeReply::Status(self.preprocess),
            NativeCall::Parse => NativeReply::Status(self.parse),
            NativeCall::Link => NativeReply::Status(self.link),
            NativeCall::ReadShaderLog => NativeReply::Log {
                info_log: self.shader_log.0.clone(),
                debug_log: self.shader_log.1.clone(),
            },
            NativeCall::ReadProgramLog => NativeReply::Log {
                info_log: self.program_log.0.clone(),
                debug_log: self.program_log.1.clone(),
            },
            NativeCall::ReadWords => NativeReply::Words(self.words.clone()),
            _ => NativeReply::Done,
        }
    }

    fn calls(&self) -> Vec<NativeCall> {
        self.calls.borrow().clone()
    }
}

fn debug_options() -> SpvOptions {
    SpvOptions {
        generate_debug_info: true,
        strip_debug_info: false,
        disable_optimizer: true,
        optimize_size: false,
        disassemble: false,
        validate: true,
        emit_nonsemantic_shader_debug_info: false,
        emit_nonsemantic_shader_debug_source: false,
        compile_only: false,
    }
}

#[test]
fn compile_vertex_shader() {
    let library = Library::working(vec![MAGIC, 0x0001_0000, 0x0008_000b, 43, 0]);
    let spirv = compile(true, CompileOptionFlags::add_op_source(), true, |call| {
        library.answer(call)
    })
    .unwrap();
    println!("SPIR-V word count: {}", spirv.len());
    assert!(!spirv.is_empty());
    assert_eq!(spirv[0], MAGIC);
    assert_eq!(spirv, vec![MAGIC, 0x0001_0000, 0x0008_000b, 43, 0]);
    assert_eq!(
        library.calls(),
        vec![
            NativeCall::CreateShader,
            NativeCall::SetPreamble,
            NativeCall::Preprocess,
            NativeCall::Parse,
            NativeCall::CreateProgram,
            NativeCall::AttachShader,
            NativeCall::Link,
            NativeCall::AddSourceText,
            NativeCall::SetSourceFile,
            NativeCall::GenerateSpirv { options: debug_options() },
            NativeCall::ReadMessages,
            NativeCall::ReadWords,
            NativeCall::DeleteProgram,
            NativeCall::DeleteShader,
        ]
    );
}

#[test]
fn compile_without_options_hands_no_source_over() {
    let library = Library::working(vec![MAGIC]);
    let spirv = compile(false, CompileOptionFlags::empty(), true, |call| library.answer(call));
    assert_eq!(spirv, Ok(vec![MAGIC]));
    let mut plain = debug_options();
    plain.generate_debug_info = false;
    assert_eq!(
        library.calls(),
        vec![
            NativeCall::CreateShader,
            NativeCall::Preprocess,
            NativeCall::Parse,
            NativeCall::CreateProgram,
            NativeCall::AttachShader,
            NativeCall::Link,
            NativeCall::GenerateSpirv { options: plain },
            NativeCall::ReadMessages,
            NativeCall::ReadWords,
            NativeCall::DeleteProgram,
            NativeCall::DeleteShader,
        ]
    );
}

#[test]
fn compile_with_source_but_no_file_name() {
    let library = Library::working(vec![MAGIC, 7]);
    let spirv = compile(false, CompileOptionFlags::all(), false, |call| library.answer(call));
    assert_eq!(spirv, Ok(vec![MAGIC, 7]));
    let calls = library.calls();
    assert!(calls.contains(&NativeCall::AddSourceText));
    assert!(!calls.contains(&NativeCall::SetSourceFile));
    assert!(!calls.contains(&NativeCall::SetPreamble));
    assert_eq!(calls.len(), 12);
}

#[test]
fn compile_reports_a_refused_parse() {
    let mut library = Library::working(vec![MAGIC]);
    library.parse = 0;
    library.shader_log = (b"ERROR: 0:4: '' :  syntax error".to_vec(), b"".to_vec());
    let result = compile(false, CompileOptionFlags::empty(), false, |call| library.answer(call));
    let log = result.unwrap_err();
    assert_eq!(log.context, "glslang_shader_parse");
    assert_eq!(log.info_log, "ERROR: 0:4: '' :  syntax error");
    assert_eq!(log.debug_log, "");
    assert!(!log.info_log.is_empty());
    assert_eq!(
        library.calls(),
        vec![
            NativeCall::CreateShader,
            NativeCall::Preprocess,
            NativeCall::Parse,
            NativeCall::ReadShaderLog,
            NativeCall::DeleteShader,
        ]
    );
}

#[test]
fn compile_reports_a_refused_preprocess() {
    let mut library = Library::working(vec![MAGIC]);
    library.preprocess = 0;
    library.parse = 0;
    library.shader_log = (b"info".to_vec(), b"debug".to_vec());
    let result = compile(true, CompileOptionFlags::all(), true, |call| library.answer(call));
    assert_eq!(
        result,
        Err(GlslangErrorLog {
            context: "glslang_shader_preprocess".to_string(),
            info_log: "info".to_string(),
            debug_log: "debug".to_string(),
        })
    );
    assert_eq!(
        library.calls(),
        vec![
            NativeCall::CreateShader,
            NativeCall::SetPreamble,
            NativeCall::Preprocess,
            NativeCall::ReadShaderLog,
            NativeCall::DeleteShader,
        ]
    );
}

#[test]
fn compile_reports_a_refused_link() {
    let mut library = Library::working(vec![MAGIC]);
    library.link = 0;
    library.shader_log = (b"shader".to_vec(), b"shader".to_vec());
    library.program_log = (b"link failed".to_vec(), b"details".to_vec());
    let result = compile(false, CompileOptionFlags::add_op_source(), true, |call| {
        library.answer(call)
    });
    assert_eq!(
        result,
        Err(GlslangErrorLog {
            context: "glslang_program_link".to_string(),
            info_log: "link failed".to_string(),
            debug_log: "details".to_string(),
        })
    );
    assert_eq!(
        library.calls(),
        vec![
            NativeCall::CreateShader,
            NativeCall::Preprocess,
            NativeCall::Parse,
            NativeCall::CreateProgram,
            NativeCall::AttachShader,
            NativeCall::Link,
            NativeCall::ReadProgramLog,
            NativeCall::DeleteProgram,
            NativeCall::DeleteShader,
        ]
    );
}

#[test]
fn compile_is_the_same_twice() {
    let mut library = Library::working(vec![MAGIC, 1, 2, 3]);
    let first = compile(true, CompileOptionFlags::all(), true, |call| library.answer(call));
    let first_calls = library.calls();
    library.calls = RefCell::new(Vec::new());
    let second = compile(true, CompileOptionFlags::all(), true, |call| library.answer(call));
    assert_eq!(first, second);
    assert_eq!(first_calls, library.calls());
}

#[test]
fn every_created_object_is_destroyed() {
    for preprocess in [0, 1] {
        for parse in [0, 1] {
            for link in [0, -5] {
                let mut library = Library::working(vec![MAGIC]);
                library.preprocess = preprocess;
                library.parse = parse;
                library.link = link;
                let _ = compile(false, CompileOptionFlags::all(), true, |call| {
                    library.answer(call)
                });
                let calls = library.calls();
                let count = |wanted: NativeCall| calls.iter().filter(|c| **c == wanted).count();
                assert_eq!(count(NativeCall::CreateShader), 1);
                assert_eq!(count(NativeCall::DeleteShader), 1);
                assert_eq!(count(NativeCall::CreateProgram), count(NativeCall::DeleteProgram));
                assert_eq!(calls.last(), Some(&NativeCall::DeleteShader));
            }
        }
    }
}

#[test]
fn a_status_other_than_zero_is_success() {
    let mut library = Library::working(vec![MAGIC]);
    library.preprocess = -1;
    library.parse = 2;
    library.link = i32::MIN;
    let result = compile(false, CompileOptionFlags::empty(), false, |call| library.answer(call));
    assert_eq!(result, Ok(vec![MAGIC]));
}

#[test]
fn the_machine_walks_through_its_phases() {
    let mut state = Compilation::start(false, CompileOptionFlags::generate_debug_info(), false);
    assert_eq!(state.phase(), Phase::Created);
    assert_eq!(state.pending(), Some(NativeCall::CreateShader));
    assert!(!state.shader_live());
    state = state.step(NativeReply::Done);
    assert!(state.shader_live());
    assert_eq!(state.pending(), Some(NativeCall::Preprocess));
    state = state.step(NativeReply::Status(1));
    assert_eq!(state.phase(), Phase::Preprocessed);
    state = state.step(NativeReply::Status(1));
    assert_eq!(state.phase(), Phase::Parsed);
    assert_eq!(state.pending(), Some(NativeCall::CreateProgram));
    assert!(!state.program_live());
    state = state.step(NativeReply::Done);
    assert!(state.program_live());
    state = state.step(NativeReply::Done);
    assert_eq!(state.pending(), Some(NativeCall::Link));
    state = state.step(NativeReply::Status(1));
    assert_eq!(state.phase(), Phase::Linked);
    assert_eq!(state.pending(), Some(NativeCall::GenerateSpirv { options: debug_options() }));
    state = state.step(NativeReply::Done);
    assert_eq!(state.phase(), Phase::Generated);
    state = state.step(NativeReply::Done);
    assert_eq!(state.pending(), Some(NativeCall::ReadWords));
    state = state.step(NativeReply::Words(vec![MAGIC, 9]));
    assert_eq!(state.phase(), Phase::Generated);
    assert_eq!(state.pending(), Some(NativeCall::DeleteProgram));
    state = state.step(NativeReply::Done);
    assert!(!state.program_live());
    assert!(state.shader_live());
    assert!(!state.is_finished());
    state = state.step(NativeReply::Done);
    assert!(state.is_finished());
    assert!(!state.shader_live());
    assert_eq!(state.pending(), None);
    assert_eq!(state.phase(), Phase::Generated);
    assert_eq!(state.into_result(), Ok(vec![MAGIC, 9]));
}

#[test]
fn a_reply_of_another_kind_changes_nothing() {
    let mut state = Compilation::start(true, CompileOptionFlags::empty(), false);
    assert!(!state.accepts(&NativeReply::Status(1)));
    state = state.step(NativeReply::Status(1));
    assert_eq!(state.pending(), Some(NativeCall::CreateShader));
    state = state.step(NativeReply::Words(vec![1]));
    assert_eq!(state.pending(), Some(NativeCall::CreateShader));
    assert!(state.accepts(&NativeReply::Done));
    state = state.step(NativeReply::Done);
    assert_eq!(state.pending(), Some(NativeCall::SetPreamble));
    state = state.step(NativeReply::Done);
    assert_eq!(state.pending(), Some(NativeCall::Preprocess));
    state = state.step(NativeReply::Done);
    assert_eq!(state.pending(), Some(NativeCall::Preprocess));
    assert_eq!(state.phase(), Phase::Created);
}

#[test]
fn a_refusal_ends_in_the_error_phase() {
    let mut state = Compilation::start(false, CompileOptionFlags::empty(), false);
    state = state.step(NativeReply::Done);
    state = state.step(NativeReply::Status(0));
    assert_eq!(state.phase(), Phase::Error);
    assert_eq!(state.pending(), Some(NativeCall::ReadShaderLog));
    state = state.step(NativeReply::Log { info_log: b"bad".to_vec(), debug_log: b"".to_vec() });
    assert_eq!(state.pending(), Some(NativeCall::DeleteShader));
    assert_eq!(state.phase(), Phase::Error);
    state = state.step(NativeReply::Done);
    assert!(state.is_finished());
    assert!(!state.accepts(&NativeReply::Done));
    assert_eq!(state.phase(), Phase::Error);
    let log = state.into_result().unwrap_err();
    assert_eq!(log.context, "glslang_shader_preprocess");
    assert_eq!(log.info_log, "bad");
}

#[test]
fn step_contexts() {
    assert_eq!(CompileStep::Preprocess.context(), "glslang_shader_preprocess");
    assert_eq!(CompileStep::Parse.context(), "glslang_shader_parse");
    assert_eq!(CompileStep::Link.context(), "glslang_program_link");
}

#[test]
fn options_for_the_generator() {
    let default = SpvOptions::default();
    assert!(default.disable_optimizer);
    assert!(!default.validate);
    assert!(!default.generate_debug_info);
    assert!(!default.strip_debug_info);
    assert!(!default.optimize_size);
    assert!(!default.disassemble);
    assert!(!default.emit_nonsemantic_shader_debug_info);
    assert!(!default.emit_nonsemantic_shader_debug_source);
    assert!(!default.compile_only);
    let plain = SpvOptions::for_flags(CompileOptionFlags::empty());
    assert!(plain.validate);
    assert!(plain.disable_optimizer);
    assert!(!plain.generate_debug_info);
    assert_eq!(SpvOptions::for_flags(CompileOptionFlags::generate_debug_info()), debug_options());
    assert_eq!(SpvOptions::for_flags(CompileOptionFlags::add_op_source()), debug_options());
    assert_eq!(SpvOptions::for_flags(CompileOptionFlags::all()), debug_options());
}
