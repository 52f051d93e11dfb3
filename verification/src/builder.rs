//! One native build, as a state machine.
//!
//! The build tools are run by the caller. This module decides which step
//! comes next and what the output of a step means, and it keeps track of
//! what has to be undone: the mapping of the working directory onto a drive
//! letter, and the change of the current directory.

use vstd::prelude::*;
use crate::command::{
    build_command, build_dir_name, configure_command, optional_text, spec_build_command,
    spec_build_dir_name, spec_configure, Command,
};
use crate::drive::{first_unused_drive_letter, lemma_first_free, letter, spec_allocate};
use crate::target::{ConfigError, HostOs};

verus! {

/// What a build tool left behind: whether it succeeded, and what it wrote.
#[derive(Clone, Debug, PartialEq, Eq)]
pub struct ProcessOutput {
    pub success: bool,
    pub stdout: Vec<u8>,
    pub stderr: Vec<u8>,
}

/// Why a build did not give an install directory.
#[derive(Clone, Debug, PartialEq, Eq)]
pub enum BuilderError {
    /// Every drive letter is taken, so the working directory cannot be
    /// mapped onto one.
    NoAvailableDriveLetter,
    /// The environment cannot be served.
    Configuration(ConfigError),
    /// The configure step failed; this is what it wrote.
    ConfigureFailed { output: ProcessOutput },
    /// The build step failed; this is what it wrote.
    BuildFailed { output: ProcessOutput },
}

/// A step that a build asks its caller to take.
#[derive(Clone, Copy, Debug, PartialEq, Eq, Structural)]
pub enum BuildAction {
    /// Remember the current directory and change into the source directory.
    EnterSourceDir,
    /// Map the working directory onto the drive.
    MapDrive { drive: char },
    /// Create the build directory and the install directory inside it, and
    /// change into the build directory.
    PrepareBuildDir,
    /// Run the configure command; the reply is its output.
    Configure,
    /// Run the build command; the reply is its output.
    Build,
    /// Take the mapping of the drive away.
    UnmapDrive { drive: char },
    /// Change back into the directory that was remembered.
    RestoreDir,
}

/// What came back from a step.
#[derive(Clone, Debug, PartialEq, Eq)]
pub enum BuildReply {
    /// The step is done.
    Done,
    /// The command has run; this is its output.
    Output(ProcessOutput),
}

/// Where a build stands: the step that is due, or that none is.
#[derive(Clone, Copy, Debug, PartialEq, Eq, Structural)]
pub enum BuildCursor {
    EnterSourceDir,
    MapDrive,
    PrepareBuildDir,
    Configure,
    Build,
    UnmapDrive,
    RestoreDir,
    Finished,
}

/// What a [`BuildRun`] is, as plain values.
pub struct BuildRunView {
    /// The drive that the working directory is mapped onto, where the host
    /// needs that.
    pub drive: Option<char>,
    /// Where the build stands.
    pub cursor: BuildCursor,
    /// The current directory is not the one that the caller started in.
    pub dir_changed: bool,
    /// The working directory is mapped onto the drive.
    pub drive_mapped: bool,
    /// Why the build failed, once it has.
    pub failure: Option<BuilderError>,
    /// Both steps have succeeded.
    pub built: bool,
}

impl BuildRunView {
    /// The state in which a build starts.
    pub open spec fn initial(drive: Option<char>) -> BuildRunView {
        BuildRunView {
            drive,
            cursor: BuildCursor::EnterSourceDir,
            dir_changed: false,
            drive_mapped: false,
            failure: None,
            built: false,
        }
    }

    /// The step that is due; none once the build is finished.
    pub open spec fn pending(self) -> Option<BuildAction> {
        match self.cursor {
            BuildCursor::EnterSourceDir => Some(BuildAction::EnterSourceDir),
            BuildCursor::MapDrive => Some(BuildAction::MapDrive { drive: self.drive->Some_0 }),
            BuildCursor::PrepareBuildDir => Some(BuildAction::PrepareBuildDir),
            BuildCursor::Configure => Some(BuildAction::Configure),
            BuildCursor::Build => Some(BuildAction::Build),
            BuildCursor::UnmapDrive => Some(BuildAction::UnmapDrive { drive: self.drive->Some_0 }),
            BuildCursor::RestoreDir => Some(BuildAction::RestoreDir),
            BuildCursor::Finished => None,
        }
    }

    /// The reply is of the kind that the step that is due gives.
    pub open spec fn accepts(self, reply: BuildReply) -> bool {
        match self.cursor {
            BuildCursor::Configure | BuildCursor::Build => reply is Output,
            BuildCursor::Finished => false,
            _ => reply is Done,
        }
    }

    /// Where the undoing starts: with the drive if it is mapped, else with
    /// the directory.
    pub open spec fn cleanup(self) -> BuildCursor {
        if self.drive_mapped {
            BuildCursor::UnmapDrive
        } else {
            BuildCursor::RestoreDir
        }
    }

    /// The state after a reply. A failed configure step goes straight to
    /// the undoing: the build step is never tried. A reply of another kind
    /// than the step that is due gives changes nothing.
    pub open spec fn step(self, reply: BuildReply) -> BuildRunView {
        if !self.accepts(reply) {
            self
        } else {
            match self.cursor {
                BuildCursor::EnterSourceDir => BuildRunView {
                    dir_changed: true,
                    cursor: if self.drive is Some {
                        BuildCursor::MapDrive
                    } else {
                        BuildCursor::PrepareBuildDir
                    },
                    ..self
                },
                BuildCursor::MapDrive => BuildRunView {
                    drive_mapped: true,
                    cursor: BuildCursor::PrepareBuildDir,
                    ..self
                },
                BuildCursor::PrepareBuildDir => BuildRunView {
                    cursor: BuildCursor::Configure,
                    ..self
                },
                BuildCursor::Configure => if reply->Output_0.success {
                    BuildRunView { cursor: BuildCursor::Build, ..self }
                } else {
                    BuildRunView {
                        cursor: self.cleanup(),
                        failure: Some(BuilderError::ConfigureFailed { output: reply->Output_0 }),
                        ..self
                    }
                },
                BuildCursor::Build => if reply->Output_0.success {
                    BuildRunView { cursor: self.cleanup(), built: true, ..self }
                } else {
                    BuildRunView {
                        cursor: self.cleanup(),
                        failure: Some(BuilderError::BuildFailed { output: reply->Output_0 }),
                        ..self
                    }
                },
                BuildCursor::UnmapDrive => BuildRunView {
                    drive_mapped: false,
                    cursor: BuildCursor::RestoreDir,
                    ..self
                },
                BuildCursor::RestoreDir => BuildRunView {
                    dir_changed: false,
                    cursor: BuildCursor::Finished,
                    ..self
                },
                BuildCursor::Finished => self,
            }
        }
    }

    /// The state after a sequence of replies, taken in order.
    pub open spec fn run(self, replies: Seq<BuildReply>) -> BuildRunView
        decreases replies.len(),
    {
        if replies.len() == 0 {
            self
        } else {
            self.run(replies.drop_last()).step(replies.last())
        }
    }

    /// The build is finished.
    pub open spec fn finished(self) -> bool {
        self.cursor is Finished
    }

    /// The states that a build can be in.
    pub open spec fn wf(self) -> bool {
        &&& self.dir_changed == (!(self.cursor is EnterSourceDir) && !(self.cursor is Finished))
        &&& self.drive_mapped == (self.drive is Some && (self.cursor is PrepareBuildDir
            || self.cursor is Configure || self.cursor is Build || self.cursor is UnmapDrive))
        &&& (self.cursor is MapDrive || self.cursor is UnmapDrive) ==> self.drive is Some
        &&& self.failure is Some ==> self.cursor is UnmapDrive || self.cursor is RestoreDir
            || self.cursor is Finished
        &&& self.failure is Some ==> self.failure->Some_0 is ConfigureFailed
            || self.failure->Some_0 is BuildFailed
        &&& self.drive is Some ==> 'A' <= self.drive->Some_0 <= 'Z'
        &&& !(self.built && self.failure is Some)
        &&& (self.cursor is UnmapDrive || self.cursor is RestoreDir || self.cursor is Finished)
            == (self.built || self.failure is Some)
    }

    /// What the build gave; none before it is finished.
    pub open spec fn result(self) -> Option<Result<(), BuilderError>> {
        if !self.finished() {
            None
        } else if self.failure is Some {
            Some(Err(self.failure->Some_0))
        } else {
            Some(Ok(()))
        }
    }

    /// The number of replies that the build still takes at most.
    pub open spec fn steps_left(self) -> nat {
        match self.cursor {
            BuildCursor::EnterSourceDir => 7,
            BuildCursor::MapDrive => 6,
            BuildCursor::PrepareBuildDir => 5,
            BuildCursor::Configure => 4,
            BuildCursor::Build => 3,
            BuildCursor::UnmapDrive => 2,
            BuildCursor::RestoreDir => 1,
            BuildCursor::Finished => 0,
        }
    }
}

/// The drive of a build: the host whose paths must stay short gets the first
/// free one, and fails where none is free; the other host needs none.
pub open spec fn spec_drive(host: HostOs, drives_in_use: u32) -> Result<Option<char>, BuilderError> {
    match host {
        HostOs::Linux => Ok(None),
        HostOs::Windows => match spec_allocate(drives_in_use) {
            Some(drive) => Ok(Some(drive)),
            None => Err(BuilderError::NoAvailableDriveLetter),
        },
    }
}

/// The drive letter for a build on the host whose paths must stay short: the
/// first free one in the alphabet. With every letter taken there is none,
/// and the build cannot go on.
pub fn allocate_drive_letter(drives_in_use: u32) -> (r: Result<char, BuilderError>)
    ensures
        match r {
            Ok(drive) => spec_allocate(drives_in_use) == Some(drive) && 'A' <= drive <= 'Z',
            Err(error) => spec_allocate(drives_in_use) is None && error
                == BuilderError::NoAvailableDriveLetter,
        },
{
    match first_unused_drive_letter(drives_in_use) {
        Some(drive) => {
            proof {
                lemma_first_free(drives_in_use, 0);
                lemma_letters(crate::drive::first_free_from(drives_in_use, 0)->Some_0);
            }
            Ok(drive)
        },
        None => Err(BuilderError::NoAvailableDriveLetter),
    }
}

/// One native build in progress.
pub struct BuildRun {
    drive: Option<char>,
    build_dir: String,
    configure: Command,
    build: Command,
    cursor: BuildCursor,
    dir_changed: bool,
    drive_mapped: bool,
    failure: Option<BuilderError>,
    built: bool,
}

impl View for BuildRun {
    type V = BuildRunView;

    closed spec fn view(&self) -> BuildRunView {
        BuildRunView {
            drive: self.drive,
            cursor: self.cursor,
            dir_changed: self.dir_changed,
            drive_mapped: self.drive_mapped,
            failure: self.failure,
            built: self.built,
        }
    }
}

impl BuildRun {
    #[verifier::type_invariant]
    spec fn well_formed(self) -> bool {
        self@.wf()
    }

    /// The name of the build directory.
    pub closed spec fn spec_build_dir(self) -> Seq<char> {
        self.build_dir@
    }

    /// The configure command.
    pub closed spec fn spec_configure_command(self) -> Command {
        self.configure
    }

    /// The build command.
    pub closed spec fn spec_build_command(self) -> Command {
        self.build
    }

    /// Plans the build of a target on a host: picks the drive where the host
    /// needs one, then the configure command, then the build command. It
    /// fails where no drive letter is free, and where the environment
    /// cannot be served.
    pub fn plan(
        host: HostOs,
        target_os: &str,
        target_arch: &str,
        ndk_home: Option<&str>,
        drives_in_use: u32,
    ) -> (r: Result<BuildRun, BuilderError>)
        ensures
            match r {
                Ok(run) => {
                    &&& spec_drive(host, drives_in_use) == Ok::<Option<char>, BuilderError>(
                        run@.drive,
                    )
                    &&& run@ == BuildRunView::initial(run@.drive)
                    &&& run@.wf()
                    &&& spec_configure(host, target_os@, target_arch@, optional_text(ndk_home))
                        == Ok::<crate::command::CommandView, ConfigError>(
                        run.spec_configure_command()@,
                    )
                    &&& run.spec_build_command()@ == spec_build_command(host)
                    &&& run.spec_build_dir() == spec_build_dir_name(target_os@, target_arch@)
                },
                Err(error) => match spec_drive(host, drives_in_use) {
                    Err(no_drive) => error == no_drive,
                    Ok(_) => spec_configure(
                        host,
                        target_os@,
                        target_arch@,
                        optional_text(ndk_home),
                    ) is Err && error == BuilderError::Configuration(
                        spec_configure(
                            host,
                            target_os@,
                            target_arch@,
                            optional_text(ndk_home),
                        )->Err_0,
                    ),
                },
            },
    {
        let drive = match host {
            HostOs::Linux => None,
            HostOs::Windows => match allocate_drive_letter(drives_in_use) {
                Ok(drive) => Some(drive),
                Err(error) => {
                    return Err(error);
                },
            },
        };
        let configure = match configure_command(host, target_os, target_arch, ndk_home) {
            Ok(command) => command,
            Err(error) => {
                return Err(BuilderError::Configuration(error));
            },
        };
        Ok(
            BuildRun {
                drive,
                build_dir: build_dir_name(target_os, target_arch),
                configure,
                build: build_command(host),
                cursor: BuildCursor::EnterSourceDir,
                dir_changed: false,
                drive_mapped: false,
                failure: None,
                built: false,
            },
        )
    }

    /// The step that is due; none once the build is finished.
    pub fn pending(&self) -> (r: Option<BuildAction>)
        ensures
            r == self@.pending(),
            self@.wf(),
    {
        proof {
            use_type_invariant(self);
        }
        match self.cursor {
            BuildCursor::EnterSourceDir => Some(BuildAction::EnterSourceDir),
            BuildCursor::MapDrive => match self.drive {
                Some(drive) => Some(BuildAction::MapDrive { drive }),
                None => vstd::pervasive::unreached(),
            },
            BuildCursor::PrepareBuildDir => Some(BuildAction::PrepareBuildDir),
            BuildCursor::Configure => Some(BuildAction::Configure),
            BuildCursor::Build => Some(BuildAction::Build),
            BuildCursor::UnmapDrive => match self.drive {
                Some(drive) => Some(BuildAction::UnmapDrive { drive }),
                None => vstd::pervasive::unreached(),
            },
            BuildCursor::RestoreDir => Some(BuildAction::RestoreDir),
            BuildCursor::Finished => None,
        }
    }

    /// The drive that the working directory is mapped onto for this build.
    pub fn drive(&self) -> (r: Option<char>)
        ensures
            r == self@.drive,
            r is Some ==> 'A' <= r->Some_0 <= 'Z',
    {
        proof {
            use_type_invariant(self);
        }
        self.drive
    }

    /// The name of the build directory, inside the source directory.
    pub fn build_dir(&self) -> (r: &str)
        ensures
            r@ == self.spec_build_dir(),
    {
        self.build_dir.as_str()
    }

    /// The command of the configure step.
    pub fn configure_command(&self) -> (r: &Command)
        ensures
            *r == self.spec_configure_command(),
    {
        &self.configure
    }

    /// The command of the build step.
    pub fn build_command(&self) -> (r: &Command)
        ensures
            *r == self.spec_build_command(),
    {
        &self.build
    }

    /// Whether the build is finished. A finished build has left nothing
    /// behind: the drive is not mapped and the current directory is the one
    /// that the caller started in.
    pub fn is_finished(&self) -> (r: bool)
        ensures
            r == self@.finished(),
            r ==> !self@.drive_mapped && !self@.dir_changed,
            self@.wf(),
    {
        proof {
            use_type_invariant(self);
        }
        match self.cursor {
            BuildCursor::Finished => true,
            _ => false,
        }
    }

    /// Whether a reply is of the kind that the step that is due gives.
    pub fn accepts(&self, reply: &BuildReply) -> (r: bool)
        ensures
            r == self@.accepts(*reply),
    {
        match self.cursor {
            BuildCursor::Configure | BuildCursor::Build => match reply {
                BuildReply::Output(_) => true,
                BuildReply::Done => false,
            },
            BuildCursor::Finished => false,
            _ => match reply {
                BuildReply::Done => true,
                BuildReply::Output(_) => false,
            },
        }
    }

    /// Takes the reply to the step that was due and gives the state that
    /// follows.
    pub fn step(self, reply: BuildReply) -> (next: Self)
        ensures
            next@ == self@.step(reply),
            next@.wf(),
            next.spec_build_dir() == self.spec_build_dir(),
            next.spec_configure_command() == self.spec_configure_command(),
            next.spec_build_command() == self.spec_build_command(),
    {
        proof {
            use_type_invariant(&self);
            lemma_build_step_keeps_wf(self@, reply);
        }
        if !self.accepts(&reply) {
            return self;
        }
        let ghost before = self@;
        let BuildRun {
            drive,
            build_dir,
            configure,
            build,
            cursor,
            dir_changed,
            drive_mapped,
            failure,
            built,
        } = self;
        let mut built = built;
        let mut cursor = cursor;
        let mut dir_changed = dir_changed;
        let mut drive_mapped = drive_mapped;
        let mut failure = failure;
        let cleanup = if drive_mapped {
            BuildCursor::UnmapDrive
        } else {
            BuildCursor::RestoreDir
        };
        match cursor {
            BuildCursor::EnterSourceDir => {
                dir_changed = true;
                cursor = if drive.is_some() {
                    BuildCursor::MapDrive
                } else {
                    BuildCursor::PrepareBuildDir
                };
            },
            BuildCursor::MapDrive => {
                drive_mapped = true;
                cursor = BuildCursor::PrepareBuildDir;
            },
            BuildCursor::PrepareBuildDir => {
                cursor = BuildCursor::Configure;
            },
            BuildCursor::Configure => {
                if let BuildReply::Output(output) = reply {
                    if output.success {
                        cursor = BuildCursor::Build;
                    } else {
                        failure = Some(BuilderError::ConfigureFailed { output });
                        cursor = cleanup;
                    }
                }
            },
            BuildCursor::Build => {
                if let BuildReply::Output(output) = reply {
                    if output.success {
                        built = true;
                    } else {
                        failure = Some(BuilderError::BuildFailed { output });
                    }
                    cursor = cleanup;
                }
            },
            BuildCursor::UnmapDrive => {
                drive_mapped = false;
                cursor = BuildCursor::RestoreDir;
            },
            BuildCursor::RestoreDir => {
                dir_changed = false;
                cursor = BuildCursor::Finished;
            },
            BuildCursor::Finished => {},
        }
        let next = BuildRun {
            drive,
            build_dir,
            configure,
            build,
            cursor,
            dir_changed,
            drive_mapped,
            failure,
            built,
        };
        assert(next@ == before.step(reply));
        next
    }

    /// What the finished build gave: the name of the build directory, which
    /// holds the install directory, where the configure step and the build
    /// step both succeeded, or why the build failed.
    pub fn into_result(self) -> (r: Result<String, BuilderError>)
        requires
            self@.finished(),
        ensures
            match r {
                Ok(dir) => self@.result() == Some(Ok::<(), BuilderError>(())) && self@.built
                    && dir@ == self.spec_build_dir(),
                Err(error) => self@.result() == Some(Err::<(), BuilderError>(error))
                    && !self@.built && (error is ConfigureFailed || error is BuildFailed),
            },
    {
        proof {
            use_type_invariant(&self);
        }
        match self.failure {
            Some(error) => Err(error),
            None => Ok(self.build_dir),
        }
    }
}

/// The first free drive letter is a capital letter.
proof fn lemma_letters(index: int)
    requires
        0 <= index < 26,
    ensures
        'A' <= letter(index) <= 'Z',
{
}

/// A reply leads from a state that a build can be in to another such state.
pub proof fn lemma_build_step_keeps_wf(state: BuildRunView, reply: BuildReply)
    requires
        state.wf(),
    ensures
        state.step(reply).wf(),
{
}

/// Whatever the replies are, they lead from a state that a build can be in
/// to another such state.
pub proof fn lemma_build_run_keeps_wf(state: BuildRunView, replies: Seq<BuildReply>)
    requires
        state.wf(),
    ensures
        state.run(replies).wf(),
    decreases replies.len(),
{
    if replies.len() > 0 {
        lemma_build_run_keeps_wf(state, replies.drop_last());
        lemma_build_step_keeps_wf(state.run(replies.drop_last()), replies.last());
    }
}

/// Whichever step fails, a finished build has undone what it did: the drive
/// is not mapped any more and the current directory is restored. Each reply
/// that is taken brings the end nearer.
pub proof fn lemma_build_leaves_nothing(drive: Option<char>, replies: Seq<BuildReply>)
    requires
        drive is Some ==> 'A' <= drive->Some_0 <= 'Z',
    ensures
        ({
            let end = BuildRunView::initial(drive).run(replies);
            &&& end.wf()
            &&& end.finished() ==> !end.drive_mapped && !end.dir_changed
            &&& !end.finished() ==> end.pending() is Some
        }),
{
    lemma_build_run_keeps_wf(BuildRunView::initial(drive), replies);
}

/// A failed configure step is never followed by the build step, and each step
/// that is taken brings the end nearer.
pub proof fn lemma_configure_failure_short_circuits(state: BuildRunView, reply: BuildReply)
    requires
        state.wf(),
    ensures
        state.cursor is Configure && reply is Output && !reply->Output_0.success ==> {
            &&& !(state.step(reply).cursor is Build)
            &&& state.step(reply).failure == Some(
                BuilderError::ConfigureFailed { output: reply->Output_0 },
            )
        },
        state.failure is Some ==> state.step(reply).failure == state.failure && !(state.step(
            reply,
        ).cursor is Build) && !(state.step(reply).cursor is Configure),
        state.accepts(reply) ==> state.step(reply).steps_left() < state.steps_left(),
        state.step(reply).built ==> state.built || (state.cursor is Build && reply is Output
            && reply->Output_0.success),
        state.cursor is Build && reply is Output && !reply->Output_0.success ==> state.step(
            reply,
        ).failure == Some(BuilderError::BuildFailed { output: reply->Output_0 }),
{
}

} // verus!
