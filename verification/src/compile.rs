//! One compilation, as a state machine.
//!
//! The native library does the work; this module decides which native call
//! comes next, what a reply means, and which native objects are alive. The
//! caller performs each call that [`Compilation::pending`] names and hands the
//! reply to [`Compilation::step`], until the compilation is finished.

use vstd::prelude::*;
use vstd::string::*;
use vstd::utf8::*;
use crate::error_log::{decoded_log, ErrorLogView, GlslangErrorLog};
use crate::flags::{CompileOption, CompileOptionFlags};

verus! {

/// A step of a compilation that the native library can refuse.
#[derive(Clone, Copy, Debug, PartialEq, Eq, Structural)]
pub enum CompileStep {
    Preprocess,
    Parse,
    Link,
}

/// The context under which a refused step is reported.
pub open spec fn spec_context(step: CompileStep) -> Seq<char> {
    match step {
        CompileStep::Preprocess => "glslang_shader_preprocess"@,
        CompileStep::Parse => "glslang_shader_parse"@,
        CompileStep::Link => "glslang_program_link"@,
    }
}

impl CompileStep {
    /// The context under which a refusal of this step is reported.
    pub fn context(self) -> (r: String)
        ensures
            r@ == spec_context(self),
    {
        match self {
            CompileStep::Preprocess => String::from_str("glslang_shader_preprocess"),
            CompileStep::Parse => String::from_str("glslang_shader_parse"),
            CompileStep::Link => String::from_str("glslang_program_link"),
        }
    }
}

/// The options record handed to the native code generator.
#[derive(Clone, Copy, Debug, PartialEq, Eq, Structural)]
pub struct SpvOptions {
    pub generate_debug_info: bool,
    pub strip_debug_info: bool,
    pub disable_optimizer: bool,
    pub optimize_size: bool,
    pub disassemble: bool,
    pub validate: bool,
    pub emit_nonsemantic_shader_debug_info: bool,
    pub emit_nonsemantic_shader_debug_source: bool,
    pub compile_only: bool,
}

impl SpvOptions {
    /// The record that switches the optimizer off and everything else off too.
    pub open spec fn spec_default() -> SpvOptions {
        SpvOptions {
            generate_debug_info: false,
            strip_debug_info: false,
            disable_optimizer: true,
            optimize_size: false,
            disassemble: false,
            validate: false,
            emit_nonsemantic_shader_debug_info: false,
            emit_nonsemantic_shader_debug_source: false,
            compile_only: false,
        }
    }

    /// The record for a compilation with the given options: validation is
    /// always on, the optimizer always off, and debug information is asked
    /// for when either option is set.
    pub open spec fn spec_for_options(options: Set<CompileOption>) -> SpvOptions {
        SpvOptions {
            generate_debug_info: options.contains(CompileOption::GenerateDebugInfo)
                || options.contains(CompileOption::AddOpSource),
            validate: true,
            ..Self::spec_default()
        }
    }

    /// The record for a compilation with the given options.
    pub fn for_flags(flags: CompileOptionFlags) -> (r: Self)
        ensures
            r == Self::spec_for_options(flags@),
    {
        let debug = flags.has(CompileOption::GenerateDebugInfo) || flags.has(
            CompileOption::AddOpSource,
        );
        SpvOptions {
            generate_debug_info: debug,
            strip_debug_info: false,
            disable_optimizer: true,
            optimize_size: false,
            disassemble: false,
            validate: true,
            emit_nonsemantic_shader_debug_info: false,
            emit_nonsemantic_shader_debug_source: false,
            compile_only: false,
        }
    }
}

impl Default for SpvOptions {
    fn default() -> (r: Self)
        ensures
            r == SpvOptions::spec_default(),
    {
        SpvOptions {
            generate_debug_info: false,
            strip_debug_info: false,
            disable_optimizer: true,
            optimize_size: false,
            disassemble: false,
            validate: false,
            emit_nonsemantic_shader_debug_info: false,
            emit_nonsemantic_shader_debug_source: false,
            compile_only: false,
        }
    }
}

/// A call into the native library that a compilation asks its caller to make.
#[derive(Clone, Copy, Debug, PartialEq, Eq, Structural)]
pub enum NativeCall {
    /// Create the shader object from the input.
    CreateShader,
    /// Install the preamble on the shader.
    SetPreamble,
    /// Preprocess the shader; the reply is the status.
    Preprocess,
    /// Parse the shader; the reply is the status.
    Parse,
    /// Create the program object.
    CreateProgram,
    /// Attach the shader to the program.
    AttachShader,
    /// Link the program with the message flags of the input; the reply is the
    /// status.
    Link,
    /// Hand the source text of the input to the program.
    AddSourceText,
    /// Hand the name of the source file to the program.
    SetSourceFile,
    /// Generate the module with these options.
    GenerateSpirv { options: SpvOptions },
    /// Read, and show, what the generator had to say.
    ReadMessages,
    /// Copy the generated words out of the program; the reply holds them.
    ReadWords,
    /// Read the two logs of the shader; the reply holds their bytes.
    ReadShaderLog,
    /// Read the two logs of the program; the reply holds their bytes.
    ReadProgramLog,
    /// Destroy the program object.
    DeleteProgram,
    /// Destroy the shader object.
    DeleteShader,
}

/// What came back from a native call.
#[derive(Clone, Debug, PartialEq, Eq)]
pub enum NativeReply {
    /// The call returned nothing.
    Done,
    /// The call returned a status; zero means that the library refused.
    Status(i32),
    /// The bytes of the info log and of the debug log.
    Log { info_log: Vec<u8>, debug_log: Vec<u8> },
    /// The generated words.
    Words(Vec<u32>),
}

/// A [`NativeReply`] as plain values.
pub enum ReplyView {
    Done,
    Status(i32),
    Log { info_log: Seq<u8>, debug_log: Seq<u8> },
    Words(Seq<u32>),
}

impl View for NativeReply {
    type V = ReplyView;

    open spec fn view(&self) -> ReplyView {
        match self {
            NativeReply::Done => ReplyView::Done,
            NativeReply::Status(status) => ReplyView::Status(*status),
            NativeReply::Log { info_log, debug_log } => ReplyView::Log {
                info_log: info_log@,
                debug_log: debug_log@,
            },
            NativeReply::Words(words) => ReplyView::Words(words@),
        }
    }
}

/// Where a compilation stands: the call that is due, or that nothing is.
#[derive(Clone, Copy, Debug, PartialEq, Eq, Structural)]
pub enum Cursor {
    CreateShader,
    SetPreamble,
    Preprocess,
    Parse,
    CreateProgram,
    AttachShader,
    Link,
    AddSourceText,
    SetSourceFile,
    Generate,
    ReadMessages,
    ReadWords,
    /// The shader refused the step; its logs are due.
    ReadShaderLog(CompileStep),
    /// The program refused to link; its logs are due.
    ReadProgramLog,
    DeleteProgram,
    DeleteShader,
    Finished,
}

/// The coarse state of a compilation.
#[derive(Clone, Copy, Debug, PartialEq, Eq, Structural)]
pub enum Phase {
    /// Nothing has succeeded yet.
    Created,
    Preprocessed,
    Parsed,
    Linked,
    /// The module was generated: the one state of success.
    Generated,
    /// A step was refused.
    Error,
}

impl Phase {
    /// The place of a phase on the way to success; `Error` lies behind all.
    pub open spec fn order(self) -> nat {
        match self {
            Phase::Created => 0,
            Phase::Preprocessed => 1,
            Phase::Parsed => 2,
            Phase::Linked => 3,
            Phase::Generated => 4,
            Phase::Error => 5,
        }
    }

    /// Nothing leads out of the phase.
    pub open spec fn is_terminal(self) -> bool {
        self == Phase::Generated || self == Phase::Error
    }
}

/// What a [`Compilation`] is, as plain values.
pub struct CompilationView {
    /// The request comes with a preamble.
    pub has_preamble: bool,
    /// The options of the request.
    pub options: Set<CompileOption>,
    /// The request names its source file.
    pub has_source_file_name: bool,
    /// Where the compilation stands.
    pub cursor: Cursor,
    /// The native shader object exists.
    pub shader_live: bool,
    /// The native program object exists.
    pub program_live: bool,
    /// The log of the step that was refused, once it was read.
    pub failure: Option<ErrorLogView>,
    /// The generated words, once they were read.
    pub words: Option<Seq<u32>>,
}

impl CompilationView {
    /// The state in which every compilation of such a request starts.
    pub open spec fn initial(
        has_preamble: bool,
        options: Set<CompileOption>,
        has_source_file_name: bool,
    ) -> CompilationView {
        CompilationView {
            has_preamble,
            options,
            has_source_file_name,
            cursor: Cursor::CreateShader,
            shader_live: false,
            program_live: false,
            failure: None,
            words: None,
        }
    }

    /// The call that is due; none once the compilation is finished.
    pub open spec fn pending(self) -> Option<NativeCall> {
        match self.cursor {
            Cursor::CreateShader => Some(NativeCall::CreateShader),
            Cursor::SetPreamble => Some(NativeCall::SetPreamble),
            Cursor::Preprocess => Some(NativeCall::Preprocess),
            Cursor::Parse => Some(NativeCall::Parse),
            Cursor::CreateProgram => Some(NativeCall::CreateProgram),
            Cursor::AttachShader => Some(NativeCall::AttachShader),
            Cursor::Link => Some(NativeCall::Link),
            Cursor::AddSourceText => Some(NativeCall::AddSourceText),
            Cursor::SetSourceFile => Some(NativeCall::SetSourceFile),
            Cursor::Generate => Some(
                NativeCall::GenerateSpirv { options: SpvOptions::spec_for_options(self.options) },
            ),
            Cursor::ReadMessages => Some(NativeCall::ReadMessages),
            Cursor::ReadWords => Some(NativeCall::ReadWords),
            Cursor::ReadShaderLog(_) => Some(NativeCall::ReadShaderLog),
            Cursor::ReadProgramLog => Some(NativeCall::ReadProgramLog),
            Cursor::DeleteProgram => Some(NativeCall::DeleteProgram),
            Cursor::DeleteShader => Some(NativeCall::DeleteShader),
            Cursor::Finished => None,
        }
    }

    /// The reply is of the kind that the call that is due gives.
    pub open spec fn accepts(self, reply: ReplyView) -> bool {
        match self.cursor {
            Cursor::Preprocess | Cursor::Parse | Cursor::Link => reply is Status,
            Cursor::ReadShaderLog(_) | Cursor::ReadProgramLog => reply is Log,
            Cursor::ReadWords => reply is Words,
            Cursor::Finished => false,
            _ => reply is Done,
        }
    }

    /// The cursor after a reply that the state accepts.
    pub open spec fn next_cursor(self, reply: ReplyView) -> Cursor {
        match self.cursor {
            Cursor::CreateShader => if self.has_preamble {
                Cursor::SetPreamble
            } else {
                Cursor::Preprocess
            },
            Cursor::SetPreamble => Cursor::Preprocess,
            Cursor::Preprocess => if reply->Status_0 == 0 {
                Cursor::ReadShaderLog(CompileStep::Preprocess)
            } else {
                Cursor::Parse
            },
            Cursor::Parse => if reply->Status_0 == 0 {
                Cursor::ReadShaderLog(CompileStep::Parse)
            } else {
                Cursor::CreateProgram
            },
            Cursor::CreateProgram => Cursor::AttachShader,
            Cursor::AttachShader => Cursor::Link,
            Cursor::Link => if reply->Status_0 == 0 {
                Cursor::ReadProgramLog
            } else if self.options.contains(CompileOption::AddOpSource) {
                Cursor::AddSourceText
            } else {
                Cursor::Generate
            },
            Cursor::AddSourceText => if self.has_source_file_name {
                Cursor::SetSourceFile
            } else {
                Cursor::Generate
            },
            Cursor::SetSourceFile => Cursor::Generate,
            Cursor::Generate => Cursor::ReadMessages,
            Cursor::ReadMessages => Cursor::ReadWords,
            Cursor::ReadWords => Cursor::DeleteProgram,
            Cursor::ReadShaderLog(_) => Cursor::DeleteShader,
            Cursor::ReadProgramLog => Cursor::DeleteProgram,
            Cursor::DeleteProgram => Cursor::DeleteShader,
            Cursor::DeleteShader => Cursor::Finished,
            Cursor::Finished => Cursor::Finished,
        }
    }

    /// The state after a reply. A reply of another kind than the call that is
    /// due gives, and any reply to a finished compilation, changes nothing.
    pub open spec fn step(self, reply: ReplyView) -> CompilationView {
        if !self.accepts(reply) {
            self
        } else {
            CompilationView {
                cursor: self.next_cursor(reply),
                shader_live: match self.cursor {
                    Cursor::CreateShader => true,
                    Cursor::DeleteShader => false,
                    _ => self.shader_live,
                },
                program_live: match self.cursor {
                    Cursor::CreateProgram => true,
                    Cursor::DeleteProgram => false,
                    _ => self.program_live,
                },
                failure: match self.cursor {
                    Cursor::ReadShaderLog(step) => Some(
                        decoded_log(
                            spec_context(step),
                            reply->Log_info_log,
                            reply->Log_debug_log,
                        ),
                    ),
                    Cursor::ReadProgramLog => Some(
                        decoded_log(
                            spec_context(CompileStep::Link),
                            reply->Log_info_log,
                            reply->Log_debug_log,
                        ),
                    ),
                    _ => self.failure,
                },
                words: match self.cursor {
                    Cursor::ReadWords => Some(reply->Words_0),
                    _ => self.words,
                },
                ..self
            }
        }
    }

    /// The state after a sequence of replies, taken in order.
    pub open spec fn run(self, replies: Seq<ReplyView>) -> CompilationView
        decreases replies.len(),
    {
        if replies.len() == 0 {
            self
        } else {
            self.run(replies.drop_last()).step(replies.last())
        }
    }

    /// Every reply of the sequence is of the kind that the call due at its
    /// turn gives.
    pub open spec fn accepts_all(self, replies: Seq<ReplyView>) -> bool
        decreases replies.len(),
    {
        replies.len() > 0 ==> self.accepts_all(replies.drop_last()) && self.run(
            replies.drop_last(),
        ).accepts(replies.last())
    }

    /// The coarse state.
    pub open spec fn phase(self) -> Phase {
        match self.cursor {
            Cursor::CreateShader | Cursor::SetPreamble | Cursor::Preprocess => Phase::Created,
            Cursor::Parse => Phase::Preprocessed,
            Cursor::CreateProgram | Cursor::AttachShader | Cursor::Link => Phase::Parsed,
            Cursor::AddSourceText | Cursor::SetSourceFile | Cursor::Generate => Phase::Linked,
            Cursor::ReadMessages | Cursor::ReadWords => Phase::Generated,
            Cursor::ReadShaderLog(_) | Cursor::ReadProgramLog => Phase::Error,
            Cursor::DeleteProgram | Cursor::DeleteShader | Cursor::Finished => if self.words
                is Some {
                Phase::Generated
            } else {
                Phase::Error
            },
        }
    }

    /// The compilation is finished.
    pub open spec fn finished(self) -> bool {
        self.cursor is Finished
    }

    /// What the compilation gave; none before it is finished.
    pub open spec fn result(self) -> Option<Result<Seq<u32>, ErrorLogView>> {
        if !self.finished() {
            None
        } else if self.words is Some {
            Some(Ok(self.words->Some_0))
        } else if self.failure is Some {
            Some(Err(self.failure->Some_0))
        } else {
            None
        }
    }

    /// The native objects that the cursor says exist.
    pub open spec fn shader_expected(self) -> bool {
        !(self.cursor is CreateShader) && !(self.cursor is Finished)
    }

    /// The program exists from its creation to its deletion, and is never
    /// created where the shader refused a step.
    pub open spec fn program_expected(self) -> bool {
        match self.cursor {
            Cursor::AttachShader
            | Cursor::Link
            | Cursor::AddSourceText
            | Cursor::SetSourceFile
            | Cursor::Generate
            | Cursor::ReadMessages
            | Cursor::ReadWords
            | Cursor::ReadProgramLog
            | Cursor::DeleteProgram => true,
            Cursor::DeleteShader => false,
            _ => false,
        }
    }

    /// The states that a compilation can be in.
    pub open spec fn wf(self) -> bool {
        &&& self.shader_live == self.shader_expected()
        &&& self.program_live == self.program_expected()
        &&& !(self.words is Some && self.failure is Some)
        &&& self.words is Some ==> self.cursor is DeleteProgram || self.cursor is DeleteShader
            || self.cursor is Finished
        &&& self.failure is Some ==> self.cursor is DeleteProgram || self.cursor is DeleteShader
            || self.cursor is Finished
        &&& (self.cursor is DeleteProgram || self.cursor is DeleteShader || self.cursor
            is Finished) ==> self.words is Some || self.failure is Some
        &&& self.failure is Some ==> exists|step: CompileStep|
            self.failure->Some_0.context == #[trigger] spec_context(step)
    }

    /// The number of replies that the compilation still takes at most.
    pub open spec fn calls_left(self) -> nat {
        match self.cursor {
            Cursor::CreateShader => 14,
            Cursor::SetPreamble => 13,
            Cursor::Preprocess => 12,
            Cursor::Parse => 11,
            Cursor::CreateProgram => 10,
            Cursor::AttachShader => 9,
            Cursor::Link => 8,
            Cursor::AddSourceText => 7,
            Cursor::SetSourceFile => 6,
            Cursor::Generate => 5,
            Cursor::ReadMessages => 4,
            Cursor::ReadWords => 3,
            Cursor::ReadShaderLog(_) => 2,
            Cursor::ReadProgramLog => 3,
            Cursor::DeleteProgram => 2,
            Cursor::DeleteShader => 1,
            Cursor::Finished => 0,
        }
    }
}

/// One compilation in progress.
pub struct Compilation {
    has_preamble: bool,
    flags: CompileOptionFlags,
    has_source_file_name: bool,
    cursor: Cursor,
    shader_live: bool,
    program_live: bool,
    failure: Option<GlslangErrorLog>,
    words: Option<Vec<u32>>,
}

impl View for Compilation {
    type V = CompilationView;

    closed spec fn view(&self) -> CompilationView {
        CompilationView {
            has_preamble: self.has_preamble,
            options: self.flags@,
            has_source_file_name: self.has_source_file_name,
            cursor: self.cursor,
            shader_live: self.shader_live,
            program_live: self.program_live,
            failure: match self.failure {
                Some(log) => Some(log@),
                None => None,
            },
            words: match self.words {
                Some(words) => Some(words@),
                None => None,
            },
        }
    }
}

impl Compilation {
    #[verifier::type_invariant]
    spec fn well_formed(self) -> bool {
        self@.wf()
    }

    /// Starts the compilation of a request: one with or without a preamble,
    /// with the given options, with or without the name of its source file.
    pub fn start(has_preamble: bool, flags: CompileOptionFlags, has_source_file_name: bool) -> (r:
        Self)
        ensures
            r@ == CompilationView::initial(has_preamble, flags@, has_source_file_name),
            r@.wf(),
    {
        Compilation {
            has_preamble,
            flags,
            has_source_file_name,
            cursor: Cursor::CreateShader,
            shader_live: false,
            program_live: false,
            failure: None,
            words: None,
        }
    }

    /// The native call that is due; none once the compilation is finished.
    pub fn pending(&self) -> (r: Option<NativeCall>)
        ensures
            r == self@.pending(),
            self@.wf(),
    {
        proof {
            use_type_invariant(self);
        }
        match self.cursor {
            Cursor::CreateShader => Some(NativeCall::CreateShader),
            Cursor::SetPreamble => Some(NativeCall::SetPreamble),
            Cursor::Preprocess => Some(NativeCall::Preprocess),
            Cursor::Parse => Some(NativeCall::Parse),
            Cursor::CreateProgram => Some(NativeCall::CreateProgram),
            Cursor::AttachShader => Some(NativeCall::AttachShader),
            Cursor::Link => Some(NativeCall::Link),
            Cursor::AddSourceText => Some(NativeCall::AddSourceText),
            Cursor::SetSourceFile => Some(NativeCall::SetSourceFile),
            Cursor::Generate => Some(
                NativeCall::GenerateSpirv { options: SpvOptions::for_flags(self.flags) },
            ),
            Cursor::ReadMessages => Some(NativeCall::ReadMessages),
            Cursor::ReadWords => Some(NativeCall::ReadWords),
            Cursor::ReadShaderLog(_) => Some(NativeCall::ReadShaderLog),
            Cursor::ReadProgramLog => Some(NativeCall::ReadProgramLog),
            Cursor::DeleteProgram => Some(NativeCall::DeleteProgram),
            Cursor::DeleteShader => Some(NativeCall::DeleteShader),
            Cursor::Finished => None,
        }
    }

    /// The native call that is due in a compilation that is not finished.
    pub fn next_call(&self) -> (r: NativeCall)
        requires
            !self@.finished(),
        ensures
            self@.pending() == Some(r),
            self@.wf(),
    {
        proof {
            use_type_invariant(self);
        }
        match self.cursor {
            Cursor::CreateShader => NativeCall::CreateShader,
            Cursor::SetPreamble => NativeCall::SetPreamble,
            Cursor::Preprocess => NativeCall::Preprocess,
            Cursor::Parse => NativeCall::Parse,
            Cursor::CreateProgram => NativeCall::CreateProgram,
            Cursor::AttachShader => NativeCall::AttachShader,
            Cursor::Link => NativeCall::Link,
            Cursor::AddSourceText => NativeCall::AddSourceText,
            Cursor::SetSourceFile => NativeCall::SetSourceFile,
            Cursor::Generate => NativeCall::GenerateSpirv {
                options: SpvOptions::for_flags(self.flags),
            },
            Cursor::ReadMessages => NativeCall::ReadMessages,
            Cursor::ReadWords => NativeCall::ReadWords,
            Cursor::ReadShaderLog(_) => NativeCall::ReadShaderLog,
            Cursor::ReadProgramLog => NativeCall::ReadProgramLog,
            Cursor::DeleteProgram => NativeCall::DeleteProgram,
            Cursor::DeleteShader => NativeCall::DeleteShader,
            Cursor::Finished => vstd::pervasive::unreached(),
        }
    }

    /// Whether the compilation is finished. A finished compilation has left
    /// no native object behind.
    pub fn is_finished(&self) -> (r: bool)
        ensures
            r == self@.finished(),
            r ==> !self@.shader_live && !self@.program_live && self@.result() is Some,
            self@.wf(),
    {
        proof {
            use_type_invariant(self);
        }
        match self.cursor {
            Cursor::Finished => true,
            _ => false,
        }
    }

    /// Whether the native shader object exists.
    pub fn shader_live(&self) -> (r: bool)
        ensures
            r == self@.shader_live,
    {
        self.shader_live
    }

    /// Whether the native program object exists.
    pub fn program_live(&self) -> (r: bool)
        ensures
            r == self@.program_live,
    {
        self.program_live
    }

    /// The coarse state.
    pub fn phase(&self) -> (r: Phase)
        ensures
            r == self@.phase(),
    {
        match self.cursor {
            Cursor::CreateShader | Cursor::SetPreamble | Cursor::Preprocess => Phase::Created,
            Cursor::Parse => Phase::Preprocessed,
            Cursor::CreateProgram | Cursor::AttachShader | Cursor::Link => Phase::Parsed,
            Cursor::AddSourceText | Cursor::SetSourceFile | Cursor::Generate => Phase::Linked,
            Cursor::ReadMessages | Cursor::ReadWords => Phase::Generated,
            Cursor::ReadShaderLog(_) | Cursor::ReadProgramLog => Phase::Error,
            Cursor::DeleteProgram | Cursor::DeleteShader | Cursor::Finished => {
                if self.words.is_some() {
                    Phase::Generated
                } else {
                    Phase::Error
                }
            },
        }
    }

    /// Whether a reply is of the kind that the call that is due gives.
    pub fn accepts(&self, reply: &NativeReply) -> (r: bool)
        ensures
            r == self@.accepts(reply@),
    {
        match self.cursor {
            Cursor::Preprocess | Cursor::Parse | Cursor::Link => match reply {
                NativeReply::Status(_) => true,
                _ => false,
            },
            Cursor::ReadShaderLog(_) | Cursor::ReadProgramLog => match reply {
                NativeReply::Log { .. } => true,
                _ => false,
            },
            Cursor::ReadWords => match reply {
                NativeReply::Words(_) => true,
                _ => false,
            },
            Cursor::Finished => false,
            _ => match reply {
                NativeReply::Done => true,
                _ => false,
            },
        }
    }

    /// Takes the reply to the call that was due and gives the state that
    /// follows. The bytes of a log must be well-formed UTF-8.
    pub fn step(self, reply: NativeReply) -> (next: Self)
        requires
            reply@ matches ReplyView::Log { info_log, debug_log } ==> valid_utf8(info_log)
                && valid_utf8(debug_log),
        ensures
            next@ == self@.step(reply@),
            next@.wf(),
    {
        proof {
            use_type_invariant(&self);
            lemma_step_keeps_wf(self@, reply@);
        }
        if !self.accepts(&reply) {
            return self;
        }
        let ghost before = self@;
        let Compilation {
            has_preamble,
            flags,
            has_source_file_name,
            cursor,
            shader_live,
            program_live,
            failure,
            words,
        } = self;
        let mut cursor = cursor;
        let mut shader_live = shader_live;
        let mut program_live = program_live;
        let mut failure = failure;
        let mut words = words;
        match cursor {
            Cursor::CreateShader => {
                shader_live = true;
                cursor = if has_preamble {
                    Cursor::SetPreamble
                } else {
                    Cursor::Preprocess
                };
            },
            Cursor::SetPreamble => {
                cursor = Cursor::Preprocess;
            },
            Cursor::Preprocess => {
                if let NativeReply::Status(status) = reply {
                    cursor = if status == 0 {
                        Cursor::ReadShaderLog(CompileStep::Preprocess)
                    } else {
                        Cursor::Parse
                    };
                }
            },
            Cursor::Parse => {
                if let NativeReply::Status(status) = reply {
                    cursor = if status == 0 {
                        Cursor::ReadShaderLog(CompileStep::Parse)
                    } else {
                        Cursor::CreateProgram
                    };
                }
            },
            Cursor::CreateProgram => {
                program_live = true;
                cursor = Cursor::AttachShader;
            },
            Cursor::AttachShader => {
                cursor = Cursor::Link;
            },
            Cursor::Link => {
                if let NativeReply::Status(status) = reply {
                    cursor = if status == 0 {
                        Cursor::ReadProgramLog
                    } else if flags.has(CompileOption::AddOpSource) {
                        Cursor::AddSourceText
                    } else {
                        Cursor::Generate
                    };
                }
            },
            Cursor::AddSourceText => {
                cursor = if has_source_file_name {
                    Cursor::SetSourceFile
                } else {
                    Cursor::Generate
                };
            },
            Cursor::SetSourceFile => {
                cursor = Cursor::Generate;
            },
            Cursor::Generate => {
                cursor = Cursor::ReadMessages;
            },
            Cursor::ReadMessages => {
                cursor = Cursor::ReadWords;
            },
            Cursor::ReadWords => {
                if let NativeReply::Words(generated) = reply {
                    words = Some(generated);
                    cursor = Cursor::DeleteProgram;
                }
            },
            Cursor::ReadShaderLog(step) => {
                if let NativeReply::Log { info_log, debug_log } = reply {
                    failure = Some(GlslangErrorLog::new(step.context(), info_log, debug_log));
                    cursor = Cursor::DeleteShader;
                }
            },
            Cursor::ReadProgramLog => {
                if let NativeReply::Log { info_log, debug_log } = reply {
                    failure = Some(
                        GlslangErrorLog::new(CompileStep::Link.context(), info_log, debug_log),
                    );
                    cursor = Cursor::DeleteProgram;
                }
            },
            Cursor::DeleteProgram => {
                program_live = false;
                cursor = Cursor::DeleteShader;
            },
            Cursor::DeleteShader => {
                shader_live = false;
                cursor = Cursor::Finished;
            },
            Cursor::Finished => {},
        }
        let next = Compilation {
            has_preamble,
            flags,
            has_source_file_name,
            cursor,
            shader_live,
            program_live,
            failure,
            words,
        };
        assert(next@ == before.step(reply@));
        next
    }

    /// What the finished compilation gave: the generated words, or the log of
    /// the step that was refused.
    pub fn into_result(self) -> (r: Result<Vec<u32>, GlslangErrorLog>)
        requires
            self@.finished(),
        ensures
            self@.result() is Some,
            match r {
                Ok(words) => self@.result() == Some(Ok::<Seq<u32>, ErrorLogView>(words@)),
                Err(log) => self@.result() == Some(Err::<Seq<u32>, ErrorLogView>(log@)),
            },
    {
        proof {
            use_type_invariant(&self);
        }
        match self.words {
            Some(words) => Ok(words),
            None => match self.failure {
                Some(log) => Err(log),
                None => vstd::pervasive::unreached(),
            },
        }
    }
}

/// A reply leads from a state that a compilation can be in to another such
/// state.
pub proof fn lemma_step_keeps_wf(state: CompilationView, reply: ReplyView)
    requires
        state.wf(),
    ensures
        state.step(reply).wf(),
{
    let next = state.step(reply);
    if state.accepts(reply) {
        match state.cursor {
            Cursor::ReadShaderLog(step) => {
                assert(next.failure->Some_0.context == spec_context(step));
            },
            Cursor::ReadProgramLog => {
                assert(next.failure->Some_0.context == spec_context(CompileStep::Link));
            },
            _ => {},
        }
    }
}

/// Every compilation starts in a state that a compilation can be in, with
/// no native object alive.
pub proof fn lemma_initial_wf(
    has_preamble: bool,
    options: Set<CompileOption>,
    has_source_file_name: bool,
)
    ensures
        CompilationView::initial(has_preamble, options, has_source_file_name).wf(),
        !CompilationView::initial(has_preamble, options, has_source_file_name).shader_live,
        !CompilationView::initial(has_preamble, options, has_source_file_name).program_live,
{
}

/// Whatever the replies are, they lead from a state that a compilation can be
/// in to another such state.
pub proof fn lemma_run_keeps_wf(state: CompilationView, replies: Seq<ReplyView>)
    requires
        state.wf(),
    ensures
        state.run(replies).wf(),
    decreases replies.len(),
{
    if replies.len() > 0 {
        lemma_run_keeps_wf(state, replies.drop_last());
        lemma_step_keeps_wf(state.run(replies.drop_last()), replies.last());
    }
}

/// No native object outlives a compilation: whatever the native library
/// replied, and whichever step it refused, once the compilation is finished
/// neither the shader nor the program exists, and the compilation has a
/// result. Before that, the shader exists from the reply to its creation on.
pub proof fn lemma_no_object_outlives(
    has_preamble: bool,
    options: Set<CompileOption>,
    has_source_file_name: bool,
    replies: Seq<ReplyView>,
)
    ensures
        ({
            let end = CompilationView::initial(has_preamble, options, has_source_file_name).run(
                replies,
            );
            &&& end.finished() ==> !end.shader_live && !end.program_live && end.result() is Some
            &&& !end.finished() ==> end.pending() is Some && end.result() is None
            &&& end.program_live ==> end.shader_live
        }),
{
    let start = CompilationView::initial(has_preamble, options, has_source_file_name);
    lemma_run_keeps_wf(start, replies);
}

/// Each reply that is taken brings the end nearer; a reply that is not taken
/// changes nothing.
pub proof fn lemma_step_progress(state: CompilationView, reply: ReplyView)
    ensures
        state.accepts(reply) ==> state.step(reply).calls_left() < state.calls_left(),
        !state.accepts(reply) ==> state.step(reply) == state,
        state.finished() <==> state.calls_left() == 0,
{
}

/// A compilation takes at most as many replies as `calls_left` says: fourteen
/// from the start.
pub proof fn lemma_run_is_bounded(state: CompilationView, replies: Seq<ReplyView>)
    requires
        state.accepts_all(replies),
    ensures
        state.run(replies).calls_left() + replies.len() <= state.calls_left(),
    decreases replies.len(),
{
    if replies.len() > 0 {
        lemma_run_is_bounded(state, replies.drop_last());
        lemma_step_progress(state.run(replies.drop_last()), replies.last());
    }
}

/// A reply never moves a compilation back: the phase stays, or moves on to
/// the next one, or a step that can be refused ends in `Error`. Nothing leads
/// out of `Generated` or `Error`.
pub proof fn lemma_phase_moves_forward(state: CompilationView, reply: ReplyView)
    requires
        state.wf(),
    ensures
        ({
            let before = state.phase();
            let after = state.step(reply).phase();
            &&& before.is_terminal() ==> after == before
            &&& after == before || after.order() == before.order() + 1 || (after == Phase::Error
                && before.order() <= Phase::Parsed.order())
        }),
{
}

/// The outcome of a compilation depends on the request and on the replies of
/// the native library alone: equal requests that get equal replies end in
/// equal states, with equal results.
pub proof fn lemma_same_replies_same_result(
    first: CompilationView,
    second: CompilationView,
    first_replies: Seq<ReplyView>,
    second_replies: Seq<ReplyView>,
)
    requires
        first == second,
        first_replies =~= second_replies,
    ensures
        first.run(first_replies) == second.run(second_replies),
        first.run(first_replies).result() == second.run(second_replies).result(),
{
}

} // verus!
