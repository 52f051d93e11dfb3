//! The compilation entry point: it drives one compilation from its start to
//! its result, with the native calls made by the caller's function.

use vstd::prelude::*;
use vstd::utf8::*;
use crate::compile::{
    spec_context, Compilation, CompilationView, CompileStep, NativeCall, NativeReply, ReplyView,
    SpvOptions,
};
use crate::error_log::{decoded_log, ErrorLogView, GlslangErrorLog};
use crate::flags::{CompileOption, CompileOptionFlags};

verus! {

/// The reply is of the kind that the call gives, and the bytes of a log are
/// well-formed UTF-8.
pub open spec fn fits(call: NativeCall, reply: ReplyView) -> bool {
    match call {
        NativeCall::Preprocess | NativeCall::Parse | NativeCall::Link => reply is Status,
        NativeCall::ReadShaderLog | NativeCall::ReadProgramLog => reply is Log && valid_utf8(
            reply->Log_info_log,
        ) && valid_utf8(reply->Log_debug_log),
        NativeCall::ReadWords => reply is Words,
        _ => reply is Done,
    }
}

/// The replies of a list, as plain values.
pub open spec fn reply_views(replies: Seq<NativeReply>) -> Seq<ReplyView> {
    Seq::new(replies.len(), |i: int| replies[i]@)
}

/// What a compilation gave, as plain values.
pub open spec fn result_view(result: Result<Vec<u32>, GlslangErrorLog>) -> Result<
    Seq<u32>,
    ErrorLogView,
> {
    match result {
        Ok(words) => Ok(words@),
        Err(log) => Err(log@),
    }
}

/// What a native library answers, for a library that answers each call in one
/// way: the three statuses, the logs of the shader and of the program, and
/// the generated words.
pub struct NativeAnswers {
    pub preprocess: i32,
    pub parse: i32,
    pub link: i32,
    pub shader_info_log: Seq<u8>,
    pub shader_debug_log: Seq<u8>,
    pub program_info_log: Seq<u8>,
    pub program_debug_log: Seq<u8>,
    pub words: Seq<u32>,
}

/// The reply of such a library to a call.
pub open spec fn answer(answers: NativeAnswers, call: NativeCall) -> ReplyView {
    match call {
        NativeCall::Preprocess => ReplyView::Status(answers.preprocess),
        NativeCall::Parse => ReplyView::Status(answers.parse),
        NativeCall::Link => ReplyView::Status(answers.link),
        NativeCall::ReadShaderLog => ReplyView::Log {
            info_log: answers.shader_info_log,
            debug_log: answers.shader_debug_log,
        },
        NativeCall::ReadProgramLog => ReplyView::Log {
            info_log: answers.program_info_log,
            debug_log: answers.program_debug_log,
        },
        NativeCall::ReadWords => ReplyView::Words(answers.words),
        _ => ReplyView::Done,
    }
}

/// The replies of such a library to a sequence of calls.
pub open spec fn replies_to(answers: NativeAnswers, calls: Seq<NativeCall>) -> Seq<ReplyView> {
    Seq::new(calls.len(), |i: int| answer(answers, calls[i]))
}

/// The calls are those that a compilation makes, one after the other, when
/// each is answered by such a library.
pub open spec fn follows(start: CompilationView, answers: NativeAnswers, calls: Seq<NativeCall>)
    -> bool
    decreases calls.len(),
{
    calls.len() > 0 ==> follows(start, answers, calls.drop_last()) && start.run(
        replies_to(answers, calls.drop_last()),
    ).pending() == Some(calls.last())
}

/// The calls up to the first step that can be refused.
pub open spec fn setup_calls(has_preamble: bool) -> Seq<NativeCall> {
    if has_preamble {
        seq![NativeCall::CreateShader, NativeCall::SetPreamble, NativeCall::Preprocess]
    } else {
        seq![NativeCall::CreateShader, NativeCall::Preprocess]
    }
}

/// The calls that hand the source to a linked program: none without the
/// option, and the name of the file only where there is one.
pub open spec fn source_calls(options: Set<CompileOption>, has_source_file_name: bool) -> Seq<
    NativeCall,
> {
    if !options.contains(CompileOption::AddOpSource) {
        Seq::empty()
    } else if has_source_file_name {
        seq![NativeCall::AddSourceText, NativeCall::SetSourceFile]
    } else {
        seq![NativeCall::AddSourceText]
    }
}

/// The native calls of a compilation, in order. A refused step is followed by
/// the reading of the logs of the object that refused, and whatever happens
/// the objects that were created are destroyed at the end, the program
/// before the shader.
pub open spec fn expected_calls(
    has_preamble: bool,
    options: Set<CompileOption>,
    has_source_file_name: bool,
    answers: NativeAnswers,
) -> Seq<NativeCall> {
    let setup = setup_calls(has_preamble);
    if answers.preprocess == 0 {
        setup + seq![NativeCall::ReadShaderLog, NativeCall::DeleteShader]
    } else if answers.parse == 0 {
        setup + seq![NativeCall::Parse, NativeCall::ReadShaderLog, NativeCall::DeleteShader]
    } else if answers.link == 0 {
        setup + seq![
            NativeCall::Parse,
            NativeCall::CreateProgram,
            NativeCall::AttachShader,
            NativeCall::Link,
            NativeCall::ReadProgramLog,
            NativeCall::DeleteProgram,
            NativeCall::DeleteShader,
        ]
    } else {
        setup + seq![
            NativeCall::Parse,
            NativeCall::CreateProgram,
            NativeCall::AttachShader,
            NativeCall::Link,
        ] + source_calls(options, has_source_file_name) + seq![
            NativeCall::GenerateSpirv { options: SpvOptions::spec_for_options(options) },
            NativeCall::ReadMessages,
            NativeCall::ReadWords,
            NativeCall::DeleteProgram,
            NativeCall::DeleteShader,
        ]
    }
}

/// What a compilation gives: the log of the first step that is refused,
/// under the name of that step, or the generated words where none is.
pub open spec fn expected_result(answers: NativeAnswers) -> Result<Seq<u32>, ErrorLogView> {
    if answers.preprocess == 0 {
        Err(
            decoded_log(
                spec_context(CompileStep::Preprocess),
                answers.shader_info_log,
                answers.shader_debug_log,
            ),
        )
    } else if answers.parse == 0 {
        Err(
            decoded_log(
                spec_context(CompileStep::Parse),
                answers.shader_info_log,
                answers.shader_debug_log,
            ),
        )
    } else if answers.link == 0 {
        Err(
            decoded_log(
                spec_context(CompileStep::Link),
                answers.program_info_log,
                answers.program_debug_log,
            ),
        )
    } else {
        Ok(answers.words)
    }
}

/// One more call: where the calls so far are those of the compilation and
/// `call` is due after them, the longer sequence is that of the compilation
/// too, and the state after it is one step further.
proof fn lemma_advance(
    start: CompilationView,
    answers: NativeAnswers,
    calls: Seq<NativeCall>,
    call: NativeCall,
) -> (longer: Seq<NativeCall>)
    requires
        follows(start, answers, calls),
        start.run(replies_to(answers, calls)).pending() == Some(call),
    ensures
        longer == calls.push(call),
        follows(start, answers, longer),
        start.run(replies_to(answers, calls)).accepts(answer(answers, call)),
        start.run(replies_to(answers, longer)) == start.run(replies_to(answers, calls)).step(
            answer(answers, call),
        ),
{
    let longer = calls.push(call);
    assert(longer.drop_last() =~= calls);
    assert(replies_to(answers, longer).drop_last() =~= replies_to(answers, calls));
    longer
}

/// The state of a compilation of which no call was made yet.
proof fn lemma_no_calls(start: CompilationView, answers: NativeAnswers)
    ensures
        follows(start, answers, Seq::<NativeCall>::empty()),
        start.run(replies_to(answers, Seq::<NativeCall>::empty())) == start,
{
    assert(replies_to(answers, Seq::<NativeCall>::empty()) =~= Seq::<ReplyView>::empty());
}

/// The state of a compilation after calls that were answered by the library.
pub open spec fn state_after(
    start: CompilationView,
    answers: NativeAnswers,
    calls: Seq<NativeCall>,
) -> CompilationView {
    start.run(replies_to(answers, calls))
}

/// The calls up to the first step that can be refused are made as expected,
/// and leave the shader alive.
proof fn lemma_setup(start: CompilationView, answers: NativeAnswers)
    requires
        start == CompilationView::initial(
            start.has_preamble,
            start.options,
            start.has_source_file_name,
        ),
    ensures
        follows(start, answers, setup_calls(start.has_preamble)),
        state_after(start, answers, setup_calls(start.has_preamble)) == (CompilationView {
            cursor: if answers.preprocess == 0 {
                crate::compile::Cursor::ReadShaderLog(CompileStep::Preprocess)
            } else {
                crate::compile::Cursor::Parse
            },
            shader_live: true,
            ..start
        }),
{
    lemma_no_calls(start, answers);
    let c0 = Seq::<NativeCall>::empty();
    let c1 = lemma_advance(start, answers, c0, NativeCall::CreateShader);
    let c2 = if start.has_preamble {
        lemma_advance(start, answers, c1, NativeCall::SetPreamble)
    } else {
        c1
    };
    let c3 = lemma_advance(start, answers, c2, NativeCall::Preprocess);
    assert(c3 =~= setup_calls(start.has_preamble));
}

/// Where the shader refused a step, its logs are read, it is destroyed, and
/// the compilation ends with the log under the name of the step.
proof fn lemma_refused_by_shader(
    start: CompilationView,
    answers: NativeAnswers,
    calls: Seq<NativeCall>,
    step: CompileStep,
)
    requires
        follows(start, answers, calls),
        state_after(start, answers, calls) == (CompilationView {
            cursor: crate::compile::Cursor::ReadShaderLog(step),
            shader_live: true,
            program_live: false,
            failure: None,
            words: None,
            ..start
        }),
    ensures
        ({
            let all = calls + seq![NativeCall::ReadShaderLog, NativeCall::DeleteShader];
            &&& follows(start, answers, all)
            &&& state_after(start, answers, all).finished()
            &&& state_after(start, answers, all).result() == Some(
                Err::<Seq<u32>, ErrorLogView>(
                    decoded_log(
                        spec_context(step),
                        answers.shader_info_log,
                        answers.shader_debug_log,
                    ),
                ),
            )
        }),
{
    let c1 = lemma_advance(start, answers, calls, NativeCall::ReadShaderLog);
    let c2 = lemma_advance(start, answers, c1, NativeCall::DeleteShader);
    assert(c2 =~= calls + seq![NativeCall::ReadShaderLog, NativeCall::DeleteShader]);
}

/// After a shader that parsed, the program is created, the shader attached,
/// and the program linked.
proof fn lemma_up_to_link(start: CompilationView, answers: NativeAnswers, calls: Seq<NativeCall>)
    requires
        follows(start, answers, calls),
        answers.parse != 0,
        state_after(start, answers, calls) == (CompilationView {
            cursor: crate::compile::Cursor::Parse,
            shader_live: true,
            program_live: false,
            failure: None,
            words: None,
            ..start
        }),
    ensures
        ({
            let all = calls + seq![
                NativeCall::Parse,
                NativeCall::CreateProgram,
                NativeCall::AttachShader,
                NativeCall::Link,
            ];
            &&& follows(start, answers, all)
            &&& state_after(start, answers, all) == (CompilationView {
                cursor: if answers.link == 0 {
                    crate::compile::Cursor::ReadProgramLog
                } else if start.options.contains(CompileOption::AddOpSource) {
                    crate::compile::Cursor::AddSourceText
                } else {
                    crate::compile::Cursor::Generate
                },
                shader_live: true,
                program_live: true,
                failure: None,
                words: None,
                ..start
            })
        }),
{
    let c1 = lemma_advance(start, answers, calls, NativeCall::Parse);
    let c2 = lemma_advance(start, answers, c1, NativeCall::CreateProgram);
    let c3 = lemma_advance(start, answers, c2, NativeCall::AttachShader);
    let c4 = lemma_advance(start, answers, c3, NativeCall::Link);
    assert(c4 =~= calls + seq![
        NativeCall::Parse,
        NativeCall::CreateProgram,
        NativeCall::AttachShader,
        NativeCall::Link,
    ]);
}

/// Where the program refused to link, its logs are read, both objects are
/// destroyed, and the compilation ends with the log under the name of the
/// step.
proof fn lemma_refused_by_program(
    start: CompilationView,
    answers: NativeAnswers,
    calls: Seq<NativeCall>,
)
    requires
        follows(start, answers, calls),
        state_after(start, answers, calls) == (CompilationView {
            cursor: crate::compile::Cursor::ReadProgramLog,
            shader_live: true,
            program_live: true,
            failure: None,
            words: None,
            ..start
        }),
    ensures
        ({
            let all = calls + seq![
                NativeCall::ReadProgramLog,
                NativeCall::DeleteProgram,
                NativeCall::DeleteShader,
            ];
            &&& follows(start, answers, all)
            &&& state_after(start, answers, all).finished()
            &&& state_after(start, answers, all).result() == Some(
                Err::<Seq<u32>, ErrorLogView>(
                    decoded_log(
                        spec_context(CompileStep::Link),
                        answers.program_info_log,
                        answers.program_debug_log,
                    ),
                ),
            )
        }),
{
    let c1 = lemma_advance(start, answers, calls, NativeCall::ReadProgramLog);
    let c2 = lemma_advance(start, answers, c1, NativeCall::DeleteProgram);
    let c3 = lemma_advance(start, answers, c2, NativeCall::DeleteShader);
    assert(c3 =~= calls + seq![
        NativeCall::ReadProgramLog,
        NativeCall::DeleteProgram,
        NativeCall::DeleteShader,
    ]);
}

/// After a program that linked, the source is handed over where the option
/// asks for it.
proof fn lemma_source(start: CompilationView, answers: NativeAnswers, calls: Seq<NativeCall>)
    requires
        follows(start, answers, calls),
        state_after(start, answers, calls) == (CompilationView {
            cursor: if start.options.contains(CompileOption::AddOpSource) {
                crate::compile::Cursor::AddSourceText
            } else {
                crate::compile::Cursor::Generate
            },
            shader_live: true,
            program_live: true,
            failure: None,
            words: None,
            ..start
        }),
    ensures
        ({
            let all = calls + source_calls(start.options, start.has_source_file_name);
            &&& follows(start, answers, all)
            &&& state_after(start, answers, all) == (CompilationView {
                cursor: crate::compile::Cursor::Generate,
                shader_live: true,
                program_live: true,
                failure: None,
                words: None,
                ..start
            })
        }),
{
    let all = calls + source_calls(start.options, start.has_source_file_name);
    if start.options.contains(CompileOption::AddOpSource) {
        let c1 = lemma_advance(start, answers, calls, NativeCall::AddSourceText);
        if start.has_source_file_name {
            let c2 = lemma_advance(start, answers, c1, NativeCall::SetSourceFile);
            assert(c2 =~= all);
        } else {
            assert(c1 =~= all);
        }
    } else {
        assert(calls =~= all);
    }
}

/// From a program that is ready, the module is generated with the options of
/// the request, its words are read, both objects are destroyed, and the
/// compilation ends with the words.
proof fn lemma_generate(start: CompilationView, answers: NativeAnswers, calls: Seq<NativeCall>)
    requires
        follows(start, answers, calls),
        state_after(start, answers, calls) == (CompilationView {
            cursor: crate::compile::Cursor::Generate,
            shader_live: true,
            program_live: true,
            failure: None,
            words: None,
            ..start
        }),
    ensures
        ({
            let all = calls + seq![
                NativeCall::GenerateSpirv { options: SpvOptions::spec_for_options(start.options) },
                NativeCall::ReadMessages,
                NativeCall::ReadWords,
                NativeCall::DeleteProgram,
                NativeCall::DeleteShader,
            ];
            &&& follows(start, answers, all)
            &&& state_after(start, answers, all).finished()
            &&& state_after(start, answers, all).result() == Some(
                Ok::<Seq<u32>, ErrorLogView>(answers.words),
            )
        }),
{
    let c1 = lemma_advance(
        start,
        answers,
        calls,
        NativeCall::GenerateSpirv { options: SpvOptions::spec_for_options(start.options) },
    );
    let c2 = lemma_advance(start, answers, c1, NativeCall::ReadMessages);
    let c3 = lemma_advance(start, answers, c2, NativeCall::ReadWords);
    let c4 = lemma_advance(start, answers, c3, NativeCall::DeleteProgram);
    let c5 = lemma_advance(start, answers, c4, NativeCall::DeleteShader);
    assert(c5 =~= calls + seq![
        NativeCall::GenerateSpirv { options: SpvOptions::spec_for_options(start.options) },
        NativeCall::ReadMessages,
        NativeCall::ReadWords,
        NativeCall::DeleteProgram,
        NativeCall::DeleteShader,
    ]);
}

/// Against a native library that answers each call in one way, a compilation
/// makes exactly the expected calls, in that order, is finished after them,
/// and gives exactly the expected result.
pub proof fn lemma_compile_outcome(
    has_preamble: bool,
    options: Set<CompileOption>,
    has_source_file_name: bool,
    answers: NativeAnswers,
)
    ensures
        ({
            let start = CompilationView::initial(has_preamble, options, has_source_file_name);
            let calls = expected_calls(has_preamble, options, has_source_file_name, answers);
            &&& follows(start, answers, calls)
            &&& start.run(replies_to(answers, calls)).finished()
            &&& start.run(replies_to(answers, calls)).result() == Some(expected_result(answers))
        }),
{
    let start = CompilationView::initial(has_preamble, options, has_source_file_name);
    let setup = setup_calls(has_preamble);
    lemma_setup(start, answers);
    if answers.preprocess == 0 {
        lemma_refused_by_shader(start, answers, setup, CompileStep::Preprocess);
    } else if answers.parse == 0 {
        let parsed = lemma_advance(start, answers, setup, NativeCall::Parse);
        lemma_refused_by_shader(start, answers, parsed, CompileStep::Parse);
        assert(parsed + seq![NativeCall::ReadShaderLog, NativeCall::DeleteShader] =~= setup
            + seq![NativeCall::Parse, NativeCall::ReadShaderLog, NativeCall::DeleteShader]);
    } else {
        lemma_up_to_link(start, answers, setup);
        let linked = setup + seq![
            NativeCall::Parse,
            NativeCall::CreateProgram,
            NativeCall::AttachShader,
            NativeCall::Link,
        ];
        if answers.link == 0 {
            lemma_refused_by_program(start, answers, linked);
            assert(linked + seq![
                NativeCall::ReadProgramLog,
                NativeCall::DeleteProgram,
                NativeCall::DeleteShader,
            ] =~= setup + seq![
                NativeCall::Parse,
                NativeCall::CreateProgram,
                NativeCall::AttachShader,
                NativeCall::Link,
                NativeCall::ReadProgramLog,
                NativeCall::DeleteProgram,
                NativeCall::DeleteShader,
            ]);
        } else {
            lemma_source(start, answers, linked);
            lemma_generate(start, answers, linked + source_calls(options, has_source_file_name));
        }
    }
}

/// Two sequences of calls that a compilation makes against the same library
/// agree as far as the shorter one goes.
proof fn lemma_calls_agree(
    start: CompilationView,
    answers: NativeAnswers,
    first: Seq<NativeCall>,
    second: Seq<NativeCall>,
)
    requires
        follows(start, answers, first),
        follows(start, answers, second),
        first.len() <= second.len(),
    ensures
        first == second.take(first.len() as int),
    decreases second.len(),
{
    if first.len() == second.len() {
        if first.len() > 0 {
            lemma_calls_agree(start, answers, first.drop_last(), second.drop_last());
            assert(second.drop_last().take(first.len() - 1) =~= second.drop_last());
            assert(first.drop_last() == second.drop_last());
            assert(first.last() == second.last());
            assert(first =~= first.drop_last().push(first.last()));
            assert(second =~= second.drop_last().push(second.last()));
        }
        assert(second.take(first.len() as int) =~= second);
    } else {
        lemma_calls_agree(start, answers, first, second.drop_last());
        assert(second.drop_last().take(first.len() as int) =~= second.take(first.len() as int));
    }
}

/// A compilation that is finished after a sequence of its calls has made
/// exactly the expected calls.
proof fn lemma_finished_calls_are_expected(
    has_preamble: bool,
    options: Set<CompileOption>,
    has_source_file_name: bool,
    answers: NativeAnswers,
    calls: Seq<NativeCall>,
)
    requires
        follows(
            CompilationView::initial(has_preamble, options, has_source_file_name),
            answers,
            calls,
        ),
        CompilationView::initial(has_preamble, options, has_source_file_name).run(
            replies_to(answers, calls),
        ).finished(),
    ensures
        calls == expected_calls(has_preamble, options, has_source_file_name, answers),
{
    let start = CompilationView::initial(has_preamble, options, has_source_file_name);
    let want = expected_calls(has_preamble, options, has_source_file_name, answers);
    lemma_compile_outcome(has_preamble, options, has_source_file_name, answers);
    if calls.len() < want.len() {
        lemma_calls_agree(start, answers, calls, want);
        lemma_prefix_follows(start, answers, want, calls.len() as int + 1);
        let next = want.take(calls.len() as int + 1);
        assert(next.drop_last() =~= want.take(calls.len() as int));
        assert(false);
    } else if want.len() < calls.len() {
        lemma_calls_agree(start, answers, want, calls);
        lemma_prefix_follows(start, answers, calls, want.len() as int + 1);
        let next = calls.take(want.len() as int + 1);
        assert(next.drop_last() =~= calls.take(want.len() as int));
        assert(false);
    } else {
        lemma_calls_agree(start, answers, calls, want);
        assert(want.take(calls.len() as int) =~= want);
    }
}

/// The first calls of a sequence that a compilation makes are a sequence
/// that it makes.
proof fn lemma_prefix_follows(
    start: CompilationView,
    answers: NativeAnswers,
    calls: Seq<NativeCall>,
    length: int,
)
    requires
        follows(start, answers, calls),
        0 <= length <= calls.len(),
    ensures
        follows(start, answers, calls.take(length)),
    decreases calls.len(),
{
    if length < calls.len() {
        lemma_prefix_follows(start, answers, calls.drop_last(), length);
        assert(calls.drop_last().take(length) =~= calls.take(length));
    } else {
        assert(calls.take(length) =~= calls);
    }
}

/// Each reply of the list is what `perform` gave for the call that was due
/// at its turn.
pub open spec fn performed<F: Fn(NativeCall) -> NativeReply>(
    perform: F,
    start: CompilationView,
    replies: Seq<NativeReply>,
) -> bool {
    forall|i: int|
        0 <= i < replies.len() ==> {
            let due = start.run(reply_views(#[trigger] replies.take(i))).pending();
            due is Some && call_ensures(perform, (due->Some_0,), replies[i])
        }
}

/// Whatever `perform` gives for a call is what the library of these answers
/// gives for it.
pub open spec fn answers_as<F: Fn(NativeCall) -> NativeReply>(
    perform: F,
    answers: NativeAnswers,
) -> bool {
    forall|call: NativeCall, reply: NativeReply| #[trigger]
        call_ensures(perform, (call,), reply) ==> reply@ == answer(answers, call)
}

/// The replies are what `perform` gave for the calls of one compilation from
/// its start to its end, and the result is what the compilation gave.
pub open spec fn compiled<F: Fn(NativeCall) -> NativeReply>(
    perform: F,
    start: CompilationView,
    replies: Seq<NativeReply>,
    result: Result<Seq<u32>, ErrorLogView>,
) -> bool {
    &&& performed(perform, start, replies)
    &&& start.accepts_all(reply_views(replies))
    &&& start.run(reply_views(replies)).finished()
    &&& start.run(reply_views(replies)).result() == Some(result)
}

/// Compiles one request: makes the native calls of the compilation through
/// `perform`, one after the other, until the compilation is finished, and
/// gives the generated words, or the log of the step that the native
/// library refused.
///
/// `perform` makes a native call and hands back what came of it: the status
/// for a step that can be refused, the bytes of the two logs, the generated
/// words, or nothing. It must answer each call with a reply of the call's
/// kind, and the bytes of a log must be well-formed UTF-8.
pub fn compile<F: Fn(NativeCall) -> NativeReply>(
    has_preamble: bool,
    option_flags: CompileOptionFlags,
    has_source_file_name: bool,
    perform: F,
) -> (r: Result<Vec<u32>, GlslangErrorLog>)
    requires
        forall|call: NativeCall| call_requires(perform, (call,)),
        forall|call: NativeCall, reply: NativeReply|
            call_ensures(perform, (call,), reply) ==> fits(call, reply@),
    ensures
        exists|replies: Seq<NativeReply>|
            #[trigger] compiled(
                perform,
                CompilationView::initial(has_preamble, option_flags@, has_source_file_name),
                replies,
                result_view(r),
            ),
        forall|answers: NativeAnswers| #[trigger]
            answers_as(perform, answers) ==> result_view(r) == expected_result(answers),
{
    let ghost start = CompilationView::initial(has_preamble, option_flags@, has_source_file_name);
    let mut state = Compilation::start(has_preamble, option_flags, has_source_file_name);
    let ghost mut replies: Seq<NativeReply> = Seq::empty();
    let ghost mut calls: Seq<NativeCall> = Seq::empty();
    proof {
        assert(reply_views(replies) =~= Seq::<ReplyView>::empty());
    }
    while !state.is_finished()
        invariant
            start == CompilationView::initial(has_preamble, option_flags@, has_source_file_name),
            forall|call: NativeCall| call_requires(perform, (call,)),
            forall|call: NativeCall, reply: NativeReply|
                call_ensures(perform, (call,), reply) ==> fits(call, reply@),
            state@ == start.run(reply_views(replies)),
            state@.wf(),
            performed(perform, start, replies),
            start.accepts_all(reply_views(replies)),
            calls.len() == replies.len(),
            forall|i: int|
                0 <= i < calls.len() ==> start.run(reply_views(#[trigger] replies.take(i))).pending()
                    == Some(calls[i]),
        decreases state@.calls_left(),
    {
        let call = state.next_call();
        let reply = perform(call);
        let ghost taken = reply;
        let ghost before = state@;
        let ghost earlier = replies;
        proof {
            assert(fits(call, reply@));
            assert(before.accepts(reply@));
        }
        state = state.step(reply);
        proof {
            replies = earlier.push(taken);
            calls = calls.push(call);
            assert(reply_views(replies).drop_last() =~= reply_views(earlier));
            assert(reply_views(replies).last() == taken@);
            assert(replies.take(earlier.len() as int) =~= earlier);
            assert forall|i: int| 0 <= i < replies.len() implies {
                let due = start.run(reply_views(#[trigger] replies.take(i))).pending();
                due is Some && call_ensures(perform, (due->Some_0,), replies[i])
            } by {
                if i < earlier.len() {
                    assert(replies.take(i) =~= earlier.take(i));
                }
            }
            assert forall|i: int| 0 <= i < calls.len() implies start.run(
                reply_views(#[trigger] replies.take(i)),
            ).pending() == Some(calls[i]) by {
                if i < earlier.len() {
                    assert(replies.take(i) =~= earlier.take(i));
                }
            }
        }
    }
    let result = state.into_result();
    proof {
        assert(compiled(perform, start, replies, result_view(result)));
        assert forall|answers: NativeAnswers| #[trigger]
            answers_as(perform, answers) implies result_view(result) == expected_result(
            answers,
        ) by {
            assert forall|i: int| 0 <= i < calls.len() implies reply_views(replies)[i] == answer(
                answers,
                calls[i],
            ) by {
                assert(start.run(reply_views(replies.take(i))).pending() == Some(calls[i]));
            }
            assert(reply_views(replies) =~= replies_to(answers, calls));
            lemma_performed_follows(start, answers, calls, replies, calls.len() as int);
            assert(calls.take(calls.len() as int) =~= calls);
            lemma_finished_calls_are_expected(
                has_preamble,
                option_flags@,
                has_source_file_name,
                answers,
                calls,
            );
            lemma_compile_outcome(has_preamble, option_flags@, has_source_file_name, answers);
        }
    }
    result
}

/// The calls that were made through a function that answers as the library
/// does are calls of the compilation against that library.
proof fn lemma_performed_follows(
    start: CompilationView,
    answers: NativeAnswers,
    calls: Seq<NativeCall>,
    replies: Seq<NativeReply>,
    length: int,
)
    requires
        calls.len() == replies.len(),
        0 <= length <= calls.len(),
        reply_views(replies) == replies_to(answers, calls),
        forall|i: int|
            0 <= i < calls.len() ==> start.run(reply_views(#[trigger] replies.take(i))).pending()
                == Some(calls[i]),
    ensures
        follows(start, answers, calls.take(length)),
    decreases length,
{
    if length > 0 {
        lemma_performed_follows(start, answers, calls, replies, length - 1);
        let shorter = calls.take(length - 1);
        assert(calls.take(length).drop_last() =~= shorter);
        assert(reply_views(replies.take(length - 1)) =~= replies_to(answers, shorter)) by {
            assert forall|i: int| 0 <= i < length - 1 implies reply_views(
                replies.take(length - 1),
            )[i] == replies_to(answers, shorter)[i] by {
                assert(reply_views(replies)[i] == replies_to(answers, calls)[i]);
                assert(replies.take(length - 1)[i] == replies[i]);
                assert(shorter[i] == calls[i]);
                assert(reply_views(replies)[i] == replies[i]@);
                assert(replies_to(answers, calls)[i] == answer(answers, calls[i]));
            }
        }
        assert(calls.take(length).last() == calls[length - 1]);
    }
}

} // verus!
