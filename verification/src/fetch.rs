//! Acquisition of the sources: the commands that bring the pinned revision
//! into the working directory, and the verdict on how they ended.

use vstd::prelude::*;
use vstd::string::*;
use crate::command::{Command, CommandView};
use crate::manifest::Repo;
use crate::target::HostOs;
use crate::text::{append_decimal, decimal, push_text, texts};

verus! {

/// The commands of a list, as plain texts.
pub open spec fn command_views(commands: Seq<Command>) -> Seq<CommandView> {
    Seq::new(commands.len(), |i: int| commands[i]@)
}

/// The name of the directory that the sources are brought into: the name of
/// the project and the two leading numbers of the package version.
pub open spec fn spec_clone_dir_name(major: nat, minor: nat) -> Seq<char> {
    "glslang-"@ + decimal(major) + "."@ + decimal(minor)
}

/// The name of the directory that the sources are brought into.
pub fn clone_dir_name(major: u8, minor: u8) -> (r: String)
    ensures
        r@ == spec_clone_dir_name(major as nat, minor as nat),
{
    let mut name = String::from_str("glslang-");
    append_decimal(&mut name, major);
    name.append(".");
    append_decimal(&mut name, minor);
    name
}

/// The script that brings the sources of the project's own dependencies, as
/// the host runs it.
pub open spec fn spec_sync_command(host: HostOs) -> CommandView {
    match host {
        HostOs::Windows => CommandView {
            program: "python"@,
            args: seq!["update_glslang_sources.py"@],
        },
        HostOs::Linux => CommandView {
            program: "./update_glslang_sources.py"@,
            args: Seq::empty(),
        },
    }
}

/// The commands that bring the sources, in the order in which they run, all
/// of them inside the fresh working directory: make an empty repository,
/// name the project's repository as its origin, fetch the pinned revision
/// alone, without its history, put the working tree on it, bring the test
/// framework into its place, and run the project's own script.
pub open spec fn spec_fetch_commands(url: Seq<char>, commit: Seq<char>, host: HostOs) -> Seq<
    CommandView,
> {
    seq![
        CommandView { program: "git"@, args: seq!["init"@] },
        CommandView { program: "git"@, args: seq!["remote"@, "add"@, "origin"@, url] },
        CommandView {
            program: "git"@,
            args: seq!["fetch"@, "--depth"@, "1"@, "origin"@, commit],
        },
        CommandView { program: "git"@, args: seq!["reset"@, "--hard"@, "FETCH_HEAD"@] },
        CommandView {
            program: "git"@,
            args: seq![
                "clone"@,
                "https://github.com/google/googletest.git"@,
                "External/googletest"@,
            ],
        },
        spec_sync_command(host),
    ]
}

/// A command of the version control tool with the given arguments.
fn git(args: Vec<String>) -> (r: Command)
    ensures
        r@ == (CommandView { program: "git"@, args: texts(args@) }),
{
    Command { program: String::from_str("git"), args }
}

/// An empty list of arguments.
fn no_args() -> (r: Vec<String>)
    ensures
        texts(r@) == Seq::<Seq<char>>::empty(),
{
    let args: Vec<String> = Vec::new();
    assert(texts(args@) =~= Seq::<Seq<char>>::empty());
    args
}

/// The commands that bring the sources of a project, in the order in which
/// they run.
pub fn fetch_commands(repo: &Repo, host: HostOs) -> (r: Vec<Command>)
    ensures
        command_views(r@) == spec_fetch_commands(repo.url@, repo.commit@, host),
{
    let mut commands: Vec<Command> = Vec::new();

    let mut args = no_args();
    push_text(&mut args, "init");
    commands.push(git(args));

    let mut args = no_args();
    push_text(&mut args, "remote");
    push_text(&mut args, "add");
    push_text(&mut args, "origin");
    push_text(&mut args, repo.url.as_str());
    commands.push(git(args));

    let mut args = no_args();
    push_text(&mut args, "fetch");
    push_text(&mut args, "--depth");
    push_text(&mut args, "1");
    push_text(&mut args, "origin");
    push_text(&mut args, repo.commit.as_str());
    commands.push(git(args));

    let mut args = no_args();
    push_text(&mut args, "reset");
    push_text(&mut args, "--hard");
    push_text(&mut args, "FETCH_HEAD");
    commands.push(git(args));

    let mut args = no_args();
    push_text(&mut args, "clone");
    push_text(&mut args, "https://github.com/google/googletest.git");
    push_text(&mut args, "External/googletest");
    commands.push(git(args));

    let mut args = no_args();
    match host {
        HostOs::Windows => {
            push_text(&mut args, "update_glslang_sources.py");
            commands.push(Command { program: String::from_str("python"), args });
        },
        HostOs::Linux => {
            commands.push(
                Command { program: String::from_str("./update_glslang_sources.py"), args },
            );
        },
    }
    proof {
        let views = command_views(commands@);
        let want = spec_fetch_commands(repo.url@, repo.commit@, host);
        assert(views.len() == want.len());
        assert(views[0].args =~= want[0].args);
        assert(views[1].args =~= want[1].args);
        assert(views[2].args =~= want[2].args);
        assert(views[3].args =~= want[3].args);
        assert(views[4].args =~= want[4].args);
        assert(views[5].args =~= want[5].args);
        assert(views =~= want);
    }
    commands
}

/// Why the sources could not be brought.
#[derive(Clone, Copy, Debug, PartialEq, Eq, Structural)]
pub enum FetchError {
    /// The command at this place of the list did not succeed; every command
    /// before it did.
    StepFailed { step: usize },
}

/// The place of the first command that did not succeed, if there is one.
pub open spec fn first_failure(succeeded: Seq<bool>) -> Option<int>
    decreases succeeded.len(),
{
    if succeeded.len() == 0 {
        None
    } else {
        match first_failure(succeeded.drop_last()) {
            Some(step) => Some(step),
            None => if succeeded.last() {
                None
            } else {
                Some(succeeded.len() - 1)
            },
        }
    }
}

/// What `first_failure` finds is the least place of a command that did not
/// succeed, and it finds none only where every command succeeded.
pub proof fn lemma_first_failure(succeeded: Seq<bool>)
    ensures
        match first_failure(succeeded) {
            Some(step) => 0 <= step < succeeded.len() && !succeeded[step] && forall|i: int|
                0 <= i < step ==> succeeded[i],
            None => forall|i: int| 0 <= i < succeeded.len() ==> succeeded[i],
        },
    decreases succeeded.len(),
{
    if succeeded.len() > 0 {
        let front = succeeded.drop_last();
        lemma_first_failure(front);
        assert forall|i: int| 0 <= i < front.len() implies front[i] == succeeded[i] by {}
        match first_failure(front) {
            Some(step) => {
                assert(!front[step]);
                assert forall|i: int| 0 <= i < step implies succeeded[i] by {
                    assert(front[i]);
                }
            },
            None => {
                assert forall|i: int| 0 <= i < front.len() implies succeeded[i] by {
                    assert(front[i]);
                }
            },
        }
    }
}

/// The verdict on the acquisition, from how each command ended: it fails
/// where any command did not succeed, and names the first such command.
pub fn fetch_outcome(succeeded: &Vec<bool>) -> (r: Result<(), FetchError>)
    ensures
        match r {
            Ok(()) => first_failure(succeeded@) is None && forall|i: int|
                0 <= i < succeeded.len() ==> succeeded@[i],
            Err(FetchError::StepFailed { step }) => first_failure(succeeded@) == Some(step as int)
                && step < succeeded.len() && !succeeded@[step as int],
        },
{
    let mut at: usize = 0;
    while at < succeeded.len()
        invariant
            at <= succeeded.len(),
            first_failure(succeeded@.take(at as int)) is None,
        decreases succeeded.len() - at,
    {
        proof {
            assert(succeeded@.take(at + 1).drop_last() =~= succeeded@.take(at as int));
        }
        if !succeeded[at] {
            proof {
                lemma_failure_stays(succeeded@, at + 1);
                lemma_first_failure(succeeded@);
            }
            return Err(FetchError::StepFailed { step: at });
        }
        at = at + 1;
    }
    proof {
        assert(succeeded@.take(at as int) =~= succeeded@);
        lemma_first_failure(succeeded@);
    }
    Ok(())
}

/// A failure that is found in the first commands of a list is the one found
/// in the whole list.
proof fn lemma_failure_stays(succeeded: Seq<bool>, until: int)
    requires
        0 <= until <= succeeded.len(),
        first_failure(succeeded.take(until)) is Some,
    ensures
        first_failure(succeeded) == first_failure(succeeded.take(until)),
    decreases succeeded.len() - until,
{
    if until < succeeded.len() {
        assert(succeeded.take(until + 1).drop_last() =~= succeeded.take(until));
        lemma_failure_stays(succeeded, until + 1);
    } else {
        assert(succeeded.take(until) =~= succeeded);
    }
}

} // verus!
