//! The commands, as a conversation between the crate and its caller.
//!
//! A [`Session`] runs one command. The caller hands it an [`Event`]; the
//! session answers with the [`Action`] that it wants performed next, and the
//! caller comes back with the event that says how the action went. The
//! session never touches a file or a process itself, and the caller never
//! decides anything: which action follows which outcome is settled by
//! [`next`], and [`Session::step`] is proved to follow it.

use crate::config::{
    apply_defaults, settled, unset, ResolvedConfig, ResolvedConfigView, ServeArgs, ServeArgsView,
};
use crate::error::ControlError;
use crate::logtail::{lines_view, tail, tail_of, LogLine, LogLineView};
use crate::paths::{normalize, normalized};
use crate::pid::{read_record, record_of, PidRecord};
use crate::resolve::{resolve, resolved};
use crate::text::content_view;
use vstd::prelude::*;
use vstd::string::*;

verus! {

/// The permission bits that the pid file and the redirect files are created
/// with.
pub const SUPPORT_FILE_MODE: u32 = 0o755;

/// The file-creation mask of the detached process.
pub const DETACH_UMASK: u32 = 0o777;

/// What the caller asked for.
#[derive(Clone, Copy, Debug, PartialEq, Eq, Structural)]
pub enum Command {
    /// Run the service in the foreground. With `normalize_paths` the paths
    /// among the options are first taken from the working directory.
    Serve { normalize_paths: bool },
    /// Run the service as a detached background process.
    Start,
    /// Stop the background process.
    Stop,
    /// Stop the background process, then start a new one.
    Restart,
    /// Say whether a background process was started.
    Status,
    /// Show the log of the background process.
    Log,
}

/// The fixed places of a deployment, and what its platform can do.
#[derive(Debug, PartialEq, Eq)]
pub struct Environment {
    /// The pid file.
    pub pid_path: String,
    /// The file that the standard output of the background process goes to.
    /// It is the log that the `Log` command shows.
    pub stdout_path: String,
    /// The file that the standard error of the background process goes to.
    pub stderr_path: String,
    /// The working directory of the background process.
    pub work_dir: String,
    /// Whether the platform has process fork and POSIX signals.
    pub daemon_control: bool,
}

/// The mathematical content of an [`Environment`].
pub struct EnvironmentView {
    pub pid_path: Seq<char>,
    pub stdout_path: Seq<char>,
    pub stderr_path: Seq<char>,
    pub work_dir: Seq<char>,
    pub daemon_control: bool,
}

impl View for Environment {
    type V = EnvironmentView;

    open spec fn view(&self) -> EnvironmentView {
        EnvironmentView {
            pid_path: self.pid_path@,
            stdout_path: self.stdout_path@,
            stderr_path: self.stderr_path@,
            work_dir: self.work_dir@,
            daemon_control: self.daemon_control,
        }
    }
}

/// The places of a standard deployment.
pub open spec fn standard_places(daemon_control: bool) -> EnvironmentView {
    EnvironmentView {
        pid_path: "/var/run/opengpt.pid"@,
        stdout_path: "/var/run/opengpt.out"@,
        stderr_path: "/var/run/opengpt.err"@,
        work_dir: "/"@,
        daemon_control,
    }
}

impl Environment {
    /// The places of a standard deployment.
    pub fn standard(daemon_control: bool) -> (env: Environment)
        ensures
            env@ == standard_places(daemon_control),
    {
        Environment {
            pid_path: String::from_str("/var/run/opengpt.pid"),
            stdout_path: String::from_str("/var/run/opengpt.out"),
            stderr_path: String::from_str("/var/run/opengpt.err"),
            work_dir: String::from_str("/"),
            daemon_control,
        }
    }
}

/// The unprivileged user and group that the background process runs as.
#[derive(Debug, PartialEq, Eq)]
pub struct Identity {
    pub user: String,
    pub group: u32,
}

/// The mathematical content of an [`Identity`].
pub struct IdentityView {
    pub user: Seq<char>,
    pub group: u32,
}

impl View for Identity {
    type V = IdentityView;

    open spec fn view(&self) -> IdentityView {
        IdentityView { user: self.user@, group: self.group }
    }
}

/// The view of an identity that may be unknown.
pub open spec fn identity_view(identity: Option<Identity>) -> Option<IdentityView> {
    match identity {
        Some(id) => Some(id@),
        None => None,
    }
}

/// What the detach is performed with. It is made for one start and not kept.
///
/// What runs between the detach and the drop of privilege is the caller's to
/// supply; the session has nothing to run there.
#[derive(Debug, PartialEq, Eq)]
pub struct DaemonizationContext {
    /// The directory that the detached process changes to.
    pub work_dir: String,
    /// Where its standard output goes.
    pub stdout: String,
    /// Where its standard error goes.
    pub stderr: String,
    /// Where its process id is recorded.
    pub pid_file: String,
    /// Whether the pid file is handed to the unprivileged identity.
    pub chown_pid_file: bool,
    /// Its file-creation mask.
    pub umask: u32,
    /// The identity that it drops to after the detach. With `None` it keeps
    /// the privilege of the caller.
    pub identity: Option<Identity>,
    /// Whether the user is to be warned that the detached process keeps the
    /// privilege of the caller: so where no identity could be recovered.
    pub warn_privilege_kept: bool,
}

/// The mathematical content of a [`DaemonizationContext`].
pub struct ContextView {
    pub work_dir: Seq<char>,
    pub stdout: Seq<char>,
    pub stderr: Seq<char>,
    pub pid_file: Seq<char>,
    pub chown_pid_file: bool,
    pub umask: u32,
    pub identity: Option<IdentityView>,
    pub warn_privilege_kept: bool,
}

impl View for DaemonizationContext {
    type V = ContextView;

    open spec fn view(&self) -> ContextView {
        ContextView {
            work_dir: self.work_dir@,
            stdout: self.stdout@,
            stderr: self.stderr@,
            pid_file: self.pid_file@,
            chown_pid_file: self.chown_pid_file,
            umask: self.umask,
            identity: identity_view(self.identity),
            warn_privilege_kept: self.warn_privilege_kept,
        }
    }
}

/// How a detach went. It happens once, and exactly one side goes on.
#[derive(Clone, Copy, Debug, PartialEq, Eq, Structural)]
pub enum Detachment {
    /// This process is the detached child and goes on to run the service.
    Child,
    /// This process is the parent and has nothing left to do.
    Parent,
    /// No process was detached.
    Failed,
}

/// How the delivery of a signal went. Nothing is waited for: a delivered
/// signal says nothing of whether or when its target exits.
#[derive(Clone, Copy, Debug, PartialEq, Eq, Structural)]
pub enum Delivery {
    /// The signal was handed to the process.
    Delivered,
    /// The signal reached no process: there is none of that id, or the
    /// signal could not be sent for any other reason.
    NotFound,
}

/// How a command ended, where it did not fail.
#[derive(Debug, PartialEq, Eq)]
pub enum Outcome {
    /// A background process was started before; nothing was changed.
    AlreadyRunning(i32),
    /// The background process was detached; this is the parent's report.
    Detached,
    /// The background process was signalled.
    Stopped(i32),
    /// No background process was found.
    NotRunning,
    /// A background process was started and has this process id.
    Running(i32),
    /// The lines of the log.
    Log(Vec<LogLine>),
}

/// The mathematical content of an [`Outcome`].
pub enum OutcomeView {
    AlreadyRunning(i32),
    Detached,
    Stopped(i32),
    NotRunning,
    Running(i32),
    Log(Seq<LogLineView>),
}

impl View for Outcome {
    type V = OutcomeView;

    open spec fn view(&self) -> OutcomeView {
        match self {
            Outcome::AlreadyRunning(pid) => OutcomeView::AlreadyRunning(*pid),
            Outcome::Detached => OutcomeView::Detached,
            Outcome::Stopped(pid) => OutcomeView::Stopped(*pid),
            Outcome::NotRunning => OutcomeView::NotRunning,
            Outcome::Running(pid) => OutcomeView::Running(*pid),
            Outcome::Log(lines) => OutcomeView::Log(lines_view(lines@)),
        }
    }
}

/// The view of the result of a command.
pub open spec fn result_view(r: Result<Outcome, ControlError>) -> Result<
    OutcomeView,
    ControlError,
> {
    match r {
        Ok(outcome) => Ok(outcome@),
        Err(e) => Err(e),
    }
}

/// What the session wants done next.
#[derive(Debug, PartialEq, Eq)]
pub enum Action {
    /// Find out whether the caller holds the privilege that daemon control
    /// demands. Answered by [`Event::Privilege`].
    ProbePrivilege,
    /// Read the pid file at this path. Answered by [`Event::PidFile`].
    ReadPidFile(String),
    /// Create or truncate the pid file and the two redirect files at these
    /// paths, each with these permission bits. Answered by
    /// [`Event::SupportFiles`].
    CreateSupportFiles { pid_file: String, stdout: String, stderr: String, mode: u32 },
    /// Find the user who invoked the command with raised privilege, and the
    /// group of that user. Answered by [`Event::Identity`].
    RecoverIdentity,
    /// Find the current working directory. Answered by
    /// [`Event::WorkingDirectory`].
    ReadWorkingDirectory,
    /// Read the configuration file at this path. Answered by
    /// [`Event::ConfigFile`].
    ReadConfigFile(String),
    /// Detach. Answered by [`Event::Detached`].
    Detach(DaemonizationContext),
    /// Send the interrupt signal to this process. Answered by
    /// [`Event::Signalled`].
    Signal(i32),
    /// Remove the pid file at this path. Answered by [`Event::PidCleared`].
    ClearPidFile(String),
    /// Read the log file at this path. Answered by [`Event::LogFile`].
    ReadLogFile(String),
    /// Tell the user how the first half of a restart went. Answered by
    /// [`Event::Reported`].
    Report(Outcome),
    /// Build and run the service with this configuration. The session is
    /// over; how the service ends is the result of the command.
    Launch(ResolvedConfig),
    /// The session is over with this result.
    Finish(Result<Outcome, ControlError>),
    /// The event did not answer what was asked. The session has not moved.
    Rejected,
}

/// The mathematical content of an [`Action`].
pub enum ActionView {
    ProbePrivilege,
    ReadPidFile(Seq<char>),
    CreateSupportFiles { pid_file: Seq<char>, stdout: Seq<char>, stderr: Seq<char>, mode: u32 },
    RecoverIdentity,
    ReadWorkingDirectory,
    ReadConfigFile(Seq<char>),
    Detach(ContextView),
    Signal(i32),
    ClearPidFile(Seq<char>),
    ReadLogFile(Seq<char>),
    Report(OutcomeView),
    Launch(ResolvedConfigView),
    Finish(Result<OutcomeView, ControlError>),
    Rejected,
}

impl View for Action {
    type V = ActionView;

    open spec fn view(&self) -> ActionView {
        match self {
            Action::ProbePrivilege => ActionView::ProbePrivilege,
            Action::ReadPidFile(path) => ActionView::ReadPidFile(path@),
            Action::CreateSupportFiles { pid_file, stdout, stderr, mode } => {
                ActionView::CreateSupportFiles {
                    pid_file: pid_file@,
                    stdout: stdout@,
                    stderr: stderr@,
                    mode: *mode,
                }
            },
            Action::RecoverIdentity => ActionView::RecoverIdentity,
            Action::ReadWorkingDirectory => ActionView::ReadWorkingDirectory,
            Action::ReadConfigFile(path) => ActionView::ReadConfigFile(path@),
            Action::Detach(context) => ActionView::Detach(context@),
            Action::Signal(pid) => ActionView::Signal(*pid),
            Action::ClearPidFile(path) => ActionView::ClearPidFile(path@),
            Action::ReadLogFile(path) => ActionView::ReadLogFile(path@),
            Action::Report(outcome) => ActionView::Report(outcome@),
            Action::Launch(config) => ActionView::Launch(config@),
            Action::Finish(result) => ActionView::Finish(result_view(*result)),
            Action::Rejected => ActionView::Rejected,
        }
    }
}

/// What happened when the caller did what was asked.
#[derive(Debug, PartialEq, Eq)]
pub enum Event {
    /// The command begins.
    Begin,
    /// Whether the caller holds the privilege.
    Privilege(bool),
    /// The content of the pid file, or `None` where there is none.
    PidFile(Option<Vec<u8>>),
    /// Whether all three support files were created.
    SupportFiles(bool),
    /// The identity to drop to, or `None` where it could not be recovered.
    Identity(Option<Identity>),
    /// The working directory, or `None` where it could not be found.
    WorkingDirectory(Option<String>),
    /// The content of the configuration file, or `None` where it could not
    /// be read.
    ConfigFile(Option<Vec<u8>>),
    /// How the detach went.
    Detached(Detachment),
    /// How the delivery of the signal went.
    Signalled(Delivery),
    /// Whether the pid file was removed.
    PidCleared(bool),
    /// The content of the log file, or `None` where it could not be opened.
    LogFile(Option<Vec<u8>>),
    /// The user was told.
    Reported,
}

/// The mathematical content of an [`Event`].
pub enum EventView {
    Begin,
    Privilege(bool),
    PidFile(Option<Seq<u8>>),
    SupportFiles(bool),
    Identity(Option<IdentityView>),
    WorkingDirectory(Option<Seq<char>>),
    ConfigFile(Option<Seq<u8>>),
    Detached(Detachment),
    Signalled(Delivery),
    PidCleared(bool),
    LogFile(Option<Seq<u8>>),
    Reported,
}

impl View for Event {
    type V = EventView;

    open spec fn view(&self) -> EventView {
        match self {
            Event::Begin => EventView::Begin,
            Event::Privilege(held) => EventView::Privilege(*held),
            Event::PidFile(content) => EventView::PidFile(content_view(*content)),
            Event::SupportFiles(created) => EventView::SupportFiles(*created),
            Event::Identity(identity) => EventView::Identity(identity_view(*identity)),
            Event::WorkingDirectory(dir) => EventView::WorkingDirectory(dir.deep_view()),
            Event::ConfigFile(content) => EventView::ConfigFile(content_view(*content)),
            Event::Detached(how) => EventView::Detached(*how),
            Event::Signalled(delivery) => EventView::Signalled(*delivery),
            Event::PidCleared(removed) => EventView::PidCleared(*removed),
            Event::LogFile(content) => EventView::LogFile(content_view(*content)),
            Event::Reported => EventView::Reported,
        }
    }
}

/// What a session is waiting for.
#[derive(Clone, Copy, Debug, PartialEq, Eq, Structural)]
pub enum Phase {
    /// Nothing was asked yet.
    Ready,
    /// Whether the caller holds the privilege.
    Privilege,
    /// The pid file, in order to stop.
    StopRecord,
    /// The delivery of the signal to this process.
    Signalling(i32),
    /// The removal of the pid file, after the delivery of the signal to this
    /// process went this way.
    Clearing(i32, Delivery),
    /// The report on the first half of a restart.
    Reporting,
    /// The pid file, in order to start.
    StartRecord,
    /// The creation of the support files.
    SupportFiles,
    /// The identity to drop to.
    Identity,
    /// The working directory.
    WorkingDirectory,
    /// The detach.
    Detaching,
    /// The configuration file.
    ConfigFile,
    /// The pid file, in order to report the status.
    StatusRecord,
    /// The log file.
    LogFile,
    /// Nothing: the session is over.
    Done,
}

/// One run of one command.
#[derive(Debug)]
pub struct Session {
    command: Command,
    phase: Phase,
    env: Environment,
    args: ServeArgs,
    identity: Option<Identity>,
}

/// The mathematical content of a [`Session`].
pub struct SessionView {
    pub command: Command,
    pub phase: Phase,
    pub env: EnvironmentView,
    pub args: ServeArgsView,
    pub identity: Option<IdentityView>,
}

impl View for Session {
    type V = SessionView;

    closed spec fn view(&self) -> SessionView {
        SessionView {
            command: self.command,
            phase: self.phase,
            env: self.env@,
            args: self.args@,
            identity: identity_view(self.identity),
        }
    }
}

/// A session before its first event.
pub open spec fn opened(command: Command, args: ServeArgsView, env: EnvironmentView) -> SessionView {
    SessionView { command, phase: Phase::Ready, env, args, identity: None }
}

/// The session waits in `phase` for the answer to `action`.
pub open spec fn asked(s: SessionView, phase: Phase, action: ActionView) -> (
    SessionView,
    ActionView,
) {
    (SessionView { phase, ..s }, action)
}

/// A session that is over: it waits for nothing and holds no options.
pub open spec fn ended(s: SessionView) -> SessionView {
    SessionView { phase: Phase::Done, args: unset(), identity: None, ..s }
}

/// The session is over with `result`.
pub open spec fn finished(s: SessionView, result: Result<OutcomeView, ControlError>) -> (
    SessionView,
    ActionView,
) {
    (ended(s), ActionView::Finish(result))
}

/// The session is over and the service is launched with `config`.
pub open spec fn launched(s: SessionView, config: ResolvedConfigView) -> (
    SessionView,
    ActionView,
) {
    (ended(s), ActionView::Launch(config))
}

/// What a pid record says of the background process. The process table is
/// not asked: a record is believed whether or not its process still lives.
pub open spec fn status_of(record: PidRecord) -> OutcomeView {
    match record {
        PidRecord::Present(pid) => OutcomeView::Running(pid),
        _ => OutcomeView::NotRunning,
    }
}

/// What the detach of a session is performed with.
pub open spec fn context_of(env: EnvironmentView, identity: Option<IdentityView>) -> ContextView {
    ContextView {
        work_dir: env.work_dir,
        stdout: env.stdout_path,
        stderr: env.stderr_path,
        pid_file: env.pid_path,
        chown_pid_file: true,
        umask: DETACH_UMASK,
        identity,
        warn_privilege_kept: identity is None,
    }
}

/// The action that reads the pid file of a deployment.
pub open spec fn read_pid(env: EnvironmentView) -> ActionView {
    ActionView::ReadPidFile(env.pid_path)
}

/// The action that creates the support files of a deployment.
pub open spec fn create_files(env: EnvironmentView) -> ActionView {
    ActionView::CreateSupportFiles {
        pid_file: env.pid_path,
        stdout: env.stdout_path,
        stderr: env.stderr_path,
        mode: SUPPORT_FILE_MODE,
    }
}

/// The first move of a command. Every command but `Serve` needs a platform
/// with daemon control; starting and stopping need the privilege as well.
pub open spec fn begun(s: SessionView) -> (SessionView, ActionView) {
    match s.command {
        Command::Serve { normalize_paths } => if normalize_paths {
            asked(s, Phase::WorkingDirectory, ActionView::ReadWorkingDirectory)
        } else {
            loading(s)
        },
        _ => if !s.env.daemon_control {
            finished(s, Err(ControlError::UnsupportedPlatform))
        } else {
            match s.command {
                Command::Status => asked(s, Phase::StatusRecord, read_pid(s.env)),
                Command::Log => asked(
                    s,
                    Phase::LogFile,
                    ActionView::ReadLogFile(s.env.stdout_path),
                ),
                _ => asked(s, Phase::Privilege, ActionView::ProbePrivilege),
            }
        },
    }
}

/// The move after the caller's privilege is known.
pub open spec fn privileged(s: SessionView, held: bool) -> (SessionView, ActionView) {
    if !held {
        finished(s, Err(ControlError::PermissionDenied))
    } else {
        match s.command {
            Command::Start => asked(s, Phase::StartRecord, read_pid(s.env)),
            _ => asked(s, Phase::StopRecord, read_pid(s.env)),
        }
    }
}

/// The move after the stop has come to `outcome`: the end of a `Stop`, the
/// middle of a `Restart`.
pub open spec fn stopped(s: SessionView, outcome: OutcomeView) -> (SessionView, ActionView) {
    match s.command {
        Command::Restart => asked(s, Phase::Reporting, ActionView::Report(outcome)),
        _ => finished(s, Ok(outcome)),
    }
}

/// The move after the signal was sent and the removal of the pid file was
/// tried. Whether the file could be removed makes no difference, and a
/// signal that reached no process is no failure: the stop reports "not
/// running". A stop that has come this far does not fail.
pub open spec fn signalled(s: SessionView, pid: i32, delivery: Delivery) -> (
    SessionView,
    ActionView,
) {
    match delivery {
        Delivery::Delivered => stopped(s, OutcomeView::Stopped(pid)),
        Delivery::NotFound => stopped(s, OutcomeView::NotRunning),
    }
}

/// The move after the pid file was read in order to stop. A corrupt record
/// is not guessed at: nothing is signalled and nothing removed.
pub open spec fn stop_admitted(s: SessionView, content: Option<Seq<u8>>) -> (
    SessionView,
    ActionView,
) {
    match record_of(content) {
        PidRecord::Absent => stopped(s, OutcomeView::NotRunning),
        PidRecord::Corrupt => finished(s, Err(ControlError::PidCorrupt)),
        PidRecord::Present(pid) => asked(s, Phase::Signalling(pid), ActionView::Signal(pid)),
    }
}

/// The move after the pid file was read in order to start. A valid record
/// ends the start with nothing changed. A corrupt one records no process and
/// is overwritten.
pub open spec fn start_admitted(s: SessionView, content: Option<Seq<u8>>) -> (
    SessionView,
    ActionView,
) {
    match record_of(content) {
        PidRecord::Present(pid) => finished(s, Ok(OutcomeView::AlreadyRunning(pid))),
        _ => asked(s, Phase::SupportFiles, create_files(s.env)),
    }
}

/// The move that loads the configuration: the file is asked for where the
/// options name one, else the options settle by themselves.
pub open spec fn loading(s: SessionView) -> (SessionView, ActionView) {
    match s.args.config {
        Some(path) => asked(s, Phase::ConfigFile, ActionView::ReadConfigFile(path)),
        None => launched(s, settled(s.args)),
    }
}

/// The move after the configuration file was read.
pub open spec fn loaded(s: SessionView, content: Option<Seq<u8>>) -> (SessionView, ActionView) {
    match resolved(s.args, content) {
        Ok(config) => launched(s, config),
        Err(e) => finished(s, Err(e)),
    }
}

/// The move after the working directory is known: the paths are fixed, and
/// then a `Serve` loads its configuration while a start goes on to detach,
/// with the identity handed over to the detach.
pub open spec fn located(s: SessionView, dir: Option<Seq<char>>) -> (SessionView, ActionView) {
    match dir {
        None => finished(s, Err(ControlError::FileSystemError)),
        Some(d) => {
            let fixed = normalized(s.args, d);
            match s.command {
                Command::Serve { .. } => loading(SessionView { args: fixed, ..s }),
                _ => asked(
                    SessionView { args: fixed, identity: None, ..s },
                    Phase::Detaching,
                    ActionView::Detach(context_of(s.env, s.identity)),
                ),
            }
        },
    }
}

/// The move after the detach. The parent is done; the child loads the
/// configuration, with the paths as they were fixed before the detach; a
/// failed detach ends the start.
pub open spec fn detached(s: SessionView, how: Detachment) -> (SessionView, ActionView) {
    match how {
        Detachment::Parent => finished(s, Ok(OutcomeView::Detached)),
        Detachment::Failed => finished(s, Err(ControlError::DaemonizeFailed)),
        Detachment::Child => loading(s),
    }
}

/// The move that an event brings about: the session afterwards, and the
/// action that it asks for.
///
/// An event that does not answer what the session waits for is rejected and
/// leaves the session where it was.
pub open spec fn next(s: SessionView, e: EventView) -> (SessionView, ActionView) {
    match (s.phase, e) {
        (Phase::Ready, EventView::Begin) => begun(s),
        (Phase::Privilege, EventView::Privilege(held)) => privileged(s, held),
        (Phase::StopRecord, EventView::PidFile(content)) => stop_admitted(s, content),
        (Phase::Signalling(pid), EventView::Signalled(delivery)) => asked(
            s,
            Phase::Clearing(pid, delivery),
            ActionView::ClearPidFile(s.env.pid_path),
        ),
        (Phase::Clearing(pid, delivery), EventView::PidCleared(_)) => signalled(s, pid, delivery),
        (Phase::Reporting, EventView::Reported) => asked(s, Phase::StartRecord, read_pid(s.env)),
        (Phase::StartRecord, EventView::PidFile(content)) => start_admitted(s, content),
        (Phase::SupportFiles, EventView::SupportFiles(created)) => if created {
            asked(s, Phase::Identity, ActionView::RecoverIdentity)
        } else {
            finished(s, Err(ControlError::FileSystemError))
        },
        (Phase::Identity, EventView::Identity(identity)) => asked(
            SessionView { identity, ..s },
            Phase::WorkingDirectory,
            ActionView::ReadWorkingDirectory,
        ),
        (Phase::WorkingDirectory, EventView::WorkingDirectory(dir)) => located(s, dir),
        (Phase::Detaching, EventView::Detached(how)) => detached(s, how),
        (Phase::ConfigFile, EventView::ConfigFile(content)) => loaded(s, content),
        (Phase::StatusRecord, EventView::PidFile(content)) => finished(
            s,
            Ok(status_of(record_of(content))),
        ),
        (Phase::LogFile, EventView::LogFile(content)) => match content {
            Some(bytes) => finished(s, Ok(OutcomeView::Log(tail_of(bytes)))),
            None => finished(s, Err(ControlError::FileSystemError)),
        },
        _ => (s, ActionView::Rejected),
    }
}

/// Whether `e` answers what a session in `phase` waits for.
pub open spec fn awaited(phase: Phase, e: EventView) -> bool {
    match phase {
        Phase::Ready => e is Begin,
        Phase::Privilege => e is Privilege,
        Phase::StopRecord => e is PidFile,
        Phase::Signalling(_) => e is Signalled,
        Phase::Clearing(_, _) => e is PidCleared,
        Phase::Reporting => e is Reported,
        Phase::StartRecord => e is PidFile,
        Phase::SupportFiles => e is SupportFiles,
        Phase::Identity => e is Identity,
        Phase::WorkingDirectory => e is WorkingDirectory,
        Phase::Detaching => e is Detached,
        Phase::ConfigFile => e is ConfigFile,
        Phase::StatusRecord => e is PidFile,
        Phase::LogFile => e is LogFile,
        Phase::Done => false,
    }
}

/// An event is rejected exactly when it does not answer what the session
/// waits for, and a rejected event leaves the session as it was. A final
/// action leaves the session over, and a session that is over rejects every
/// event.
pub proof fn law_rejection(s: SessionView, e: EventView)
    ensures
        next(s, e).1 is Rejected <==> !awaited(s.phase, e),
        next(s, e).1 is Rejected ==> next(s, e).0 == s,
        is_final(next(s, e).1) ==> next(s, e).0.phase == Phase::Done,
        s.phase == Phase::Done ==> next(s, e) == (s, ActionView::Rejected),
{
}

/// Whether an action ends the session.
pub open spec fn is_final(action: ActionView) -> bool {
    action is Finish || action is Launch
}

/// Says whether a background process was started, going by the pid record
/// alone.
pub fn status(record: PidRecord) -> (outcome: Outcome)
    ensures
        outcome@ == status_of(record),
{
    match record {
        PidRecord::Present(pid) => Outcome::Running(pid),
        _ => Outcome::NotRunning,
    }
}

impl Session {
    /// Opens a session for `command`.
    pub fn new(command: Command, args: ServeArgs, env: Environment) -> (session: Session)
        ensures
            session@ == opened(command, args@, env@),
    {
        Session { command, phase: Phase::Ready, env, args, identity: None }
    }

    /// What the session is waiting for.
    pub fn phase(&self) -> (phase: Phase)
        ensures
            phase == self@.phase,
    {
        self.phase
    }

    /// Whether the session is over.
    pub fn is_done(&self) -> (done: bool)
        ensures
            done == (self@.phase == Phase::Done),
    {
        self.phase == Phase::Done
    }

    /// The places that the session works with.
    pub fn environment(&self) -> (env: &Environment)
        ensures
            env@ == self@.env,
    {
        &self.env
    }

    fn ask(self, phase: Phase, action: Action) -> (r: (Session, Action))
        ensures
            (r.0@, r.1@) == asked(self@, phase, action@),
    {
        (Session { phase, ..self }, action)
    }

    fn finish(self, result: Result<Outcome, ControlError>) -> (r: (Session, Action))
        ensures
            (r.0@, r.1@) == finished(self@, result_view(result)),
    {
        let Session { command, phase: _, env, args: _, identity: _ } = self;
        (
            Session { command, phase: Phase::Done, env, args: ServeArgs::new(), identity: None },
            Action::Finish(result),
        )
    }

    fn launch(self, config: ResolvedConfig) -> (r: (Session, Action))
        ensures
            (r.0@, r.1@) == launched(self@, config@),
    {
        let Session { command, phase: _, env, args: _, identity: _ } = self;
        (
            Session { command, phase: Phase::Done, env, args: ServeArgs::new(), identity: None },
            Action::Launch(config),
        )
    }

    fn ask_for_record(self, phase: Phase) -> (r: (Session, Action))
        ensures
            (r.0@, r.1@) == asked(self@, phase, read_pid(self@.env)),
    {
        let path = self.env.pid_path.clone();
        self.ask(phase, Action::ReadPidFile(path))
    }

    fn begin(self) -> (r: (Session, Action))
        ensures
            (r.0@, r.1@) == begun(self@),
    {
        match self.command {
            Command::Serve { normalize_paths } => {
                if normalize_paths {
                    self.ask(Phase::WorkingDirectory, Action::ReadWorkingDirectory)
                } else {
                    self.load()
                }
            },
            Command::Status => {
                if !self.env.daemon_control {
                    self.finish(Err(ControlError::UnsupportedPlatform))
                } else {
                    self.ask_for_record(Phase::StatusRecord)
                }
            },
            Command::Log => {
                if !self.env.daemon_control {
                    self.finish(Err(ControlError::UnsupportedPlatform))
                } else {
                    let path = self.env.stdout_path.clone();
                    self.ask(Phase::LogFile, Action::ReadLogFile(path))
                }
            },
            _ => {
                if !self.env.daemon_control {
                    self.finish(Err(ControlError::UnsupportedPlatform))
                } else {
                    self.ask(Phase::Privilege, Action::ProbePrivilege)
                }
            },
        }
    }

    fn stop_with(self, outcome: Outcome) -> (r: (Session, Action))
        ensures
            (r.0@, r.1@) == stopped(self@, outcome@),
    {
        match self.command {
            Command::Restart => self.ask(Phase::Reporting, Action::Report(outcome)),
            _ => self.finish(Ok(outcome)),
        }
    }

    fn load(self) -> (r: (Session, Action))
        ensures
            (r.0@, r.1@) == loading(self@),
    {
        match &self.args.config {
            Some(path) => {
                let path = path.clone();
                self.ask(Phase::ConfigFile, Action::ReadConfigFile(path))
            },
            None => {
                let Session { command, phase, env, args, identity } = self;
                let config = apply_defaults(args);
                Session { command, phase, env, args: ServeArgs::new(), identity }.launch(config)
            },
        }
    }

    /// Hands the session the event that answers its last action and gets the
    /// next action. The first event is [`Event::Begin`].
    ///
    /// Once the action is [`Action::Finish`] or [`Action::Launch`] the
    /// session is over and rejects every further event.
    pub fn step(self, event: Event) -> (r: (Session, Action))
        ensures
            (r.0@, r.1@) == next(self@, event@),
    {
        match (self.phase, event) {
            (Phase::Ready, Event::Begin) => self.begin(),
            (Phase::Privilege, Event::Privilege(held)) => {
                if !held {
                    self.finish(Err(ControlError::PermissionDenied))
                } else {
                    match self.command {
                        Command::Start => self.ask_for_record(Phase::StartRecord),
                        _ => self.ask_for_record(Phase::StopRecord),
                    }
                }
            },
            (Phase::StopRecord, Event::PidFile(content)) => {
                match read_record(&content) {
                    PidRecord::Absent => self.stop_with(Outcome::NotRunning),
                    PidRecord::Corrupt => self.finish(Err(ControlError::PidCorrupt)),
                    PidRecord::Present(pid) => self.ask(Phase::Signalling(pid), Action::Signal(pid)),
                }
            },
            (Phase::Signalling(pid), Event::Signalled(delivery)) => {
                let path = self.env.pid_path.clone();
                self.ask(Phase::Clearing(pid, delivery), Action::ClearPidFile(path))
            },
            (Phase::Clearing(pid, delivery), Event::PidCleared(_)) => {
                match delivery {
                    Delivery::Delivered => self.stop_with(Outcome::Stopped(pid)),
                    Delivery::NotFound => self.stop_with(Outcome::NotRunning),
                }
            },
            (Phase::Reporting, Event::Reported) => self.ask_for_record(Phase::StartRecord),
            (Phase::StartRecord, Event::PidFile(content)) => {
                match read_record(&content) {
                    PidRecord::Present(pid) => self.finish(Ok(Outcome::AlreadyRunning(pid))),
                    _ => {
                        let files = Action::CreateSupportFiles {
                            pid_file: self.env.pid_path.clone(),
                            stdout: self.env.stdout_path.clone(),
                            stderr: self.env.stderr_path.clone(),
                            mode: SUPPORT_FILE_MODE,
                        };
                        self.ask(Phase::SupportFiles, files)
                    },
                }
            },
            (Phase::SupportFiles, Event::SupportFiles(created)) => {
                if created {
                    self.ask(Phase::Identity, Action::RecoverIdentity)
                } else {
                    self.finish(Err(ControlError::FileSystemError))
                }
            },
            (Phase::Identity, Event::Identity(identity)) => {
                let Session { command, phase: _, env, args, identity: _ } = self;
                (
                    Session { command, phase: Phase::WorkingDirectory, env, args, identity },
                    Action::ReadWorkingDirectory,
                )
            },
            (Phase::WorkingDirectory, Event::WorkingDirectory(dir)) => {
                match dir {
                    None => self.finish(Err(ControlError::FileSystemError)),
                    Some(d) => {
                        let Session { command, phase, env, args, identity } = self;
                        let args = normalize(args, d.as_str());
                        match command {
                            Command::Serve { .. } => {
                                Session { command, phase, env, args, identity }.load()
                            },
                            _ => {
                                let warn_privilege_kept = identity.is_none();
                                let context = DaemonizationContext {
                                    work_dir: env.work_dir.clone(),
                                    stdout: env.stdout_path.clone(),
                                    stderr: env.stderr_path.clone(),
                                    pid_file: env.pid_path.clone(),
                                    chown_pid_file: true,
                                    umask: DETACH_UMASK,
                                    identity,
                                    warn_privilege_kept,
                                };
                                (
                                    Session {
                                        command,
                                        phase: Phase::Detaching,
                                        env,
                                        args,
                                        identity: None,
                                    },
                                    Action::Detach(context),
                                )
                            },
                        }
                    },
                }
            },
            (Phase::Detaching, Event::Detached(how)) => {
                match how {
                    Detachment::Parent => self.finish(Ok(Outcome::Detached)),
                    Detachment::Failed => self.finish(Err(ControlError::DaemonizeFailed)),
                    Detachment::Child => self.load(),
                }
            },
            (Phase::ConfigFile, Event::ConfigFile(content)) => {
                let Session { command, phase, env, args, identity } = self;
                let over = Session { command, phase, env, args: ServeArgs::new(), identity };
                match resolve(args, content) {
                    Ok(config) => over.launch(config),
                    Err(e) => over.finish(Err(e)),
                }
            },
            (Phase::StatusRecord, Event::PidFile(content)) => {
                let outcome = status(read_record(&content));
                self.finish(Ok(outcome))
            },
            (Phase::LogFile, Event::LogFile(content)) => {
                match content {
                    Some(bytes) => {
                        let lines = tail(bytes.as_slice());
                        self.finish(Ok(Outcome::Log(lines)))
                    },
                    None => self.finish(Err(ControlError::FileSystemError)),
                }
            },
            _ => (self, Action::Rejected),
        }
    }
}

} // verus!
