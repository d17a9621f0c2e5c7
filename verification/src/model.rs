//! What the commands do to the machine they run on.
//!
//! A [`crate::control::Session`] only asks; what happens is up to the caller
//! and the operating system. This module writes down what is expected of
//! them, as a [`World`] and the way each action changes it and is answered,
//! and proves what then follows for whole commands: that a second start
//! changes nothing, that a second stop finds nothing, that the status is the
//! pid record and nothing else.
//!
//! Nothing here is executable. The laws hold of every caller that performs
//! the actions as [`effect`] and [`reply`] say.

use crate::config::ServeArgsView;
use crate::control::{
    awaited, is_final, next, opened, status_of, ActionView, Command, Delivery, Detachment,
    EnvironmentView, EventView, IdentityView, OutcomeView, Phase, SessionView,
};
use crate::error::ControlError;
use crate::pid::{lemma_record_round_trip, record_of, recorded, PidRecord};
use vstd::prelude::*;

verus! {

/// The part of the machine that the commands see or change.
pub struct World {
    /// Whether the caller holds the privilege that daemon control demands.
    pub privileged: bool,
    /// The files that exist and can be read, by path, each with its content.
    pub files: Map<Seq<char>, Seq<u8>>,
    /// Whether files can be created.
    pub files_creatable: bool,
    /// Whether files can be removed.
    pub files_removable: bool,
    /// The identity of the user behind the raised privilege, where it can be
    /// recovered.
    pub identity: Option<IdentityView>,
    /// The current working directory, where it can be found.
    pub working_directory: Option<Seq<char>>,
    /// How a detach goes.
    pub detachment: Detachment,
    /// The process id that a detached process gets.
    pub daemon_pid: i32,
    /// How the delivery of a signal to each process goes.
    pub delivery: spec_fn(i32) -> Delivery,
}

/// The content of the file at `path`, or `None` where there is none.
pub open spec fn content(w: World, path: Seq<char>) -> Option<Seq<u8>> {
    if w.files.contains_key(path) {
        Some(w.files[path])
    } else {
        None
    }
}

/// The world after `action` was performed.
///
/// Creating the support files leaves each of them empty. A detach that does
/// not fail records the process id of the detached process in the pid file
/// of its context. Clearing removes the pid file where files can be removed.
/// A signal is sent and forgotten: whether and when its target exits is not
/// waited for. Nothing else changes anything.
pub open spec fn effect(w: World, action: ActionView) -> World {
    match action {
        ActionView::CreateSupportFiles { pid_file, stdout, stderr, mode } => if w.files_creatable {
            World {
                files: w.files.insert(pid_file, Seq::empty()).insert(stdout, Seq::empty()).insert(
                    stderr,
                    Seq::empty(),
                ),
                ..w
            }
        } else {
            w
        },
        ActionView::Detach(context) => if w.detachment != Detachment::Failed {
            World { files: w.files.insert(context.pid_file, recorded(w.daemon_pid as nat)), ..w }
        } else {
            w
        },
        ActionView::ClearPidFile(path) => if w.files_removable {
            World { files: w.files.remove(path), ..w }
        } else {
            w
        },
        _ => w,
    }
}

/// The event that answers `action` in the world `w`.
pub open spec fn reply(w: World, action: ActionView) -> EventView {
    match action {
        ActionView::ProbePrivilege => EventView::Privilege(w.privileged),
        ActionView::ReadPidFile(path) => EventView::PidFile(content(w, path)),
        ActionView::CreateSupportFiles { .. } => EventView::SupportFiles(w.files_creatable),
        ActionView::RecoverIdentity => EventView::Identity(w.identity),
        ActionView::ReadWorkingDirectory => EventView::WorkingDirectory(w.working_directory),
        ActionView::ReadConfigFile(path) => EventView::ConfigFile(content(w, path)),
        ActionView::Detach(_) => EventView::Detached(w.detachment),
        ActionView::Signal(pid) => EventView::Signalled((w.delivery)(pid)),
        ActionView::ClearPidFile(_) => EventView::PidCleared(w.files_removable),
        ActionView::ReadLogFile(path) => EventView::LogFile(content(w, path)),
        ActionView::Report(_) => EventView::Reported,
        _ => EventView::Begin,
    }
}

/// Where a run has come to.
pub struct Run {
    /// The world as the run left it.
    pub world: World,
    /// The last action that the session asked for.
    pub last: ActionView,
}

/// The run of a session from the event `e` in the world `w`, for at most
/// `steps` actions after the first.
pub open spec fn run(s: SessionView, e: EventView, w: World, steps: nat) -> Run
    decreases steps,
{
    let (after, action) = next(s, e);
    if steps == 0 || is_final(action) || action is Rejected {
        Run { world: w, last: action }
    } else {
        run(after, reply(w, action), effect(w, action), (steps - 1) as nat)
    }
}

/// More steps than any command takes.
pub open spec fn enough() -> nat {
    16
}

/// The run of `command` from its beginning.
pub open spec fn command_run(
    command: Command,
    args: ServeArgsView,
    env: EnvironmentView,
    w: World,
) -> Run {
    run(opened(command, args, env), EventView::Begin, w, enough())
}

/// Whether a run of a start left a background process behind or found one.
pub open spec fn has_started(r: Run) -> bool {
    ||| r.last is Launch
    ||| r.last == ActionView::Finish(Ok(OutcomeView::Detached))
    ||| r.last matches ActionView::Finish(Ok(OutcomeView::AlreadyRunning(_)))
}

/// The most moves that a session in `phase` still makes.
pub open spec fn remaining(phase: Phase) -> nat {
    match phase {
        Phase::Ready => 12,
        Phase::Privilege => 11,
        Phase::StopRecord => 10,
        Phase::Signalling(_) => 9,
        Phase::Clearing(_, _) => 8,
        Phase::Reporting => 7,
        Phase::StartRecord => 6,
        Phase::SupportFiles => 5,
        Phase::Identity => 4,
        Phase::WorkingDirectory => 3,
        Phase::Detaching => 2,
        Phase::ConfigFile => 1,
        Phase::StatusRecord => 1,
        Phase::LogFile => 1,
        Phase::Done => 0,
    }
}

/// A move on an awaited event either ends the session or brings it nearer
/// to its end, and what the world replies to its action is awaited in turn.
pub proof fn lemma_move_advances(s: SessionView, e: EventView, w: World)
    requires
        awaited(s.phase, e),
    ensures
        ({
            let (after, action) = next(s, e);
            &&& !(action is Rejected)
            &&& is_final(action) || (remaining(after.phase) < remaining(s.phase) && awaited(
                after.phase,
                reply(w, action),
            ))
        }),
{
}

/// A run that is given as many steps as its session has moves left ends in
/// a final action, and more steps change nothing.
pub proof fn lemma_run_ends(s: SessionView, e: EventView, w: World, steps: nat, more: nat)
    requires
        awaited(s.phase, e),
        steps + 1 >= remaining(s.phase),
        more + 1 >= remaining(s.phase),
    ensures
        is_final(run(s, e, w, steps).last),
        run(s, e, w, steps) == run(s, e, w, more),
    decreases steps,
{
    lemma_move_advances(s, e, w);
    let (after, action) = next(s, e);
    if !is_final(action) {
        lemma_run_ends(
            after,
            reply(w, action),
            effect(w, action),
            (steps - 1) as nat,
            (more - 1) as nat,
        );
    }
}

/// Every command comes to an end within [`enough`] steps: its last action is
/// the launch of the service or a result.
pub proof fn law_commands_end(command: Command, args: ServeArgsView, env: EnvironmentView, w: World)
    ensures
        is_final(command_run(command, args, env, w).last),
{
    lemma_run_ends(opened(command, args, env), EventView::Begin, w, enough(), enough());
}

/// Whether a command controls the background process.
pub open spec fn is_daemon_command(command: Command) -> bool {
    !(command is Serve)
}

/// Whether a command starts or stops the background process.
pub open spec fn needs_privilege(command: Command) -> bool {
    command is Start || command is Stop || command is Restart
}

/// On a platform without process fork and signals every command that
/// controls the background process fails at once, having asked for nothing
/// and changed nothing. Running the service in the foreground is not such a
/// command and never fails for want of the platform.
pub proof fn law_platform_is_checked_first(
    command: Command,
    args: ServeArgsView,
    env: EnvironmentView,
    w: World,
)
    requires
        !env.daemon_control,
    ensures
        is_daemon_command(command) ==> command_run(command, args, env, w) == (Run {
            world: w,
            last: ActionView::Finish(Err(ControlError::UnsupportedPlatform)),
        }),
        !is_daemon_command(command) ==> command_run(command, args, env, w).last
            != ActionView::Finish(Err(ControlError::UnsupportedPlatform)),
{
    reveal_with_fuel(run, 4);
}

/// A caller without the privilege can neither start nor stop: the command
/// fails with `PermissionDenied` before any file is read, and changes
/// nothing.
pub proof fn law_privilege_is_checked_first(
    command: Command,
    args: ServeArgsView,
    env: EnvironmentView,
    w: World,
)
    requires
        env.daemon_control,
        needs_privilege(command),
        !w.privileged,
    ensures
        command_run(command, args, env, w) == (Run {
            world: w,
            last: ActionView::Finish(Err(ControlError::PermissionDenied)),
        }),
{
    reveal_with_fuel(run, 3);
}

/// A start that cannot create its support files ends there: nothing is
/// created, nothing is detached and no service is launched.
pub proof fn law_start_needs_its_files(args: ServeArgsView, env: EnvironmentView, w: World)
    requires
        env.daemon_control,
        w.privileged,
        !w.files_creatable,
        !(record_in(w, env) is Present),
    ensures
        command_run(Command::Start, args, env, w) == (Run {
            world: w,
            last: ActionView::Finish(Err(ControlError::FileSystemError)),
        }),
{
    reveal_with_fuel(run, 5);
}

/// Where the detach fails, a session that starts the background process
/// and has not detached yet never comes to launch the service.
proof fn lemma_no_launch_without_detach(s: SessionView, e: EventView, w: World, steps: nat)
    requires
        s.command is Start || s.command is Restart,
        !(s.phase is ConfigFile),
        s.phase is Detaching ==> e == EventView::Detached(Detachment::Failed),
        w.detachment == Detachment::Failed,
    ensures
        !(run(s, e, w, steps).last is Launch),
    decreases steps,
{
    let (after, action) = next(s, e);
    if steps > 0 && !is_final(action) && !(action is Rejected) {
        lemma_no_launch_without_detach(
            after,
            reply(w, action),
            effect(w, action),
            (steps - 1) as nat,
        );
    }
}

/// A failed detach is fatal: no start and no restart launches the service
/// where the detach fails.
pub proof fn law_failed_detach_is_fatal(args: ServeArgsView, env: EnvironmentView, w: World)
    requires
        w.detachment == Detachment::Failed,
    ensures
        !(command_run(Command::Start, args, env, w).last is Launch),
        !(command_run(Command::Restart, args, env, w).last is Launch),
{
    lemma_no_launch_without_detach(
        opened(Command::Start, args, env),
        EventView::Begin,
        w,
        enough(),
    );
    lemma_no_launch_without_detach(
        opened(Command::Restart, args, env),
        EventView::Begin,
        w,
        enough(),
    );
}

/// The pid record of a deployment in the world `w`.
pub open spec fn record_in(w: World, env: EnvironmentView) -> PidRecord {
    record_of(content(w, env.pid_path))
}

/// The status is read off the pid record and nothing else is looked at or
/// changed: two worlds with the same pid file get the same status, whatever
/// processes live in them.
pub proof fn law_status_is_the_record(
    args: ServeArgsView,
    env: EnvironmentView,
    w: World,
    other: World,
)
    requires
        env.daemon_control,
        content(w, env.pid_path) == content(other, env.pid_path),
    ensures
        command_run(Command::Status, args, env, w).last == ActionView::Finish(
            Ok(status_of(record_in(w, env))),
        ),
        command_run(Command::Status, args, env, w).world == w,
        command_run(Command::Status, args, env, other).last == command_run(
            Command::Status,
            args,
            env,
            w,
        ).last,
        content(w, env.pid_path) is None ==> command_run(Command::Status, args, env, w).last
            == ActionView::Finish(Ok(OutcomeView::NotRunning)),
{
    reveal_with_fuel(run, 3);
}

/// A start that finds a valid pid record reports the process as already
/// running and changes nothing.
pub proof fn law_start_respects_record(
    args: ServeArgsView,
    env: EnvironmentView,
    w: World,
    pid: i32,
)
    requires
        env.daemon_control,
        w.privileged,
        record_in(w, env) == PidRecord::Present(pid),
    ensures
        command_run(Command::Start, args, env, w).last == ActionView::Finish(
            Ok(OutcomeView::AlreadyRunning(pid)),
        ),
        command_run(Command::Start, args, env, w).world == w,
{
    reveal_with_fuel(run, 4);
}

/// What holds at every move of a start: the pid file is read as it is, and
/// once the detach has gone through, the pid file holds a valid record.
pub open spec fn start_is_on_course(s: SessionView, e: EventView, w: World) -> bool {
    &&& s.command is Start
    &&& s.phase is StartRecord ==> e == EventView::PidFile(content(w, s.env.pid_path))
    &&& s.phase is Detaching ==> e == EventView::Detached(w.detachment) && (w.detachment
        != Detachment::Failed ==> record_in(w, s.env) is Present)
    &&& s.phase is ConfigFile ==> record_in(w, s.env) is Present
}

/// A start that is on course and ends with a background process left
/// behind or found has a valid pid record at its end. No move changes the
/// privilege of the caller.
proof fn lemma_start_leaves_record(s: SessionView, e: EventView, w: World, steps: nat)
    requires
        w.daemon_pid >= 0,
        start_is_on_course(s, e, w),
    ensures
        has_started(run(s, e, w, steps)) ==> record_in(run(s, e, w, steps).world, s.env)
            is Present,
        run(s, e, w, steps).world.privileged == w.privileged,
    decreases steps,
{
    let (after, action) = next(s, e);
    if steps > 0 && !is_final(action) && !(action is Rejected) {
        let then = effect(w, action);
        assert(after.env == s.env);
        if action is Detach {
            lemma_record_round_trip(w.daemon_pid);
        }
        lemma_start_leaves_record(after, reply(w, action), then, (steps - 1) as nat);
    }
}

/// A start that left a background process behind, or found one, left a valid
/// pid record.
pub proof fn law_start_leaves_record(args: ServeArgsView, env: EnvironmentView, w: World)
    requires
        w.daemon_pid >= 0,
        has_started(command_run(Command::Start, args, env, w)),
    ensures
        record_in(command_run(Command::Start, args, env, w).world, env) is Present,
        command_run(Command::Start, args, env, w).world.privileged == w.privileged,
{
    lemma_start_leaves_record(opened(Command::Start, args, env), EventView::Begin, w, enough());
}

/// Starting twice with no stop in between: the second start reports the
/// process that the first one recorded as already running, and leaves the
/// world, the pid record with it, as the first start left it.
pub proof fn law_second_start_changes_nothing(
    first_args: ServeArgsView,
    second_args: ServeArgsView,
    env: EnvironmentView,
    w: World,
)
    requires
        w.daemon_pid >= 0,
        has_started(command_run(Command::Start, first_args, env, w)),
    ensures
        ({
            let first = command_run(Command::Start, first_args, env, w);
            let second = command_run(Command::Start, second_args, env, first.world);
            &&& record_in(first.world, env) matches PidRecord::Present(pid)
            &&& second.last == ActionView::Finish(
                Ok(OutcomeView::AlreadyRunning(record_in(first.world, env)->Present_0)),
            )
            &&& second.world == first.world
        }),
{
    let first = command_run(Command::Start, first_args, env, w);
    law_start_leaves_record(first_args, env, w);
    assert(env.daemon_control && w.privileged) by {
        reveal_with_fuel(run, 3);
    }
    law_start_respects_record(
        second_args,
        env,
        first.world,
        record_in(first.world, env)->Present_0,
    );
}

/// A stop by a privileged caller, on a pid record that is not corrupt, never
/// fails: it ends in "stopped" or "not running", however the delivery of
/// the signal and the removal of the pid file went. Where the pid file can
/// be removed none is left.
pub proof fn law_stop_converges(args: ServeArgsView, env: EnvironmentView, w: World)
    requires
        env.daemon_control,
        w.privileged,
        !(record_in(w, env) is Corrupt),
    ensures
        ({
            let stop = command_run(Command::Stop, args, env, w);
            &&& stop.last matches ActionView::Finish(Ok(outcome))
            &&& outcome is Stopped || outcome is NotRunning
            &&& record_in(w, env) matches PidRecord::Present(pid) ==> outcome == (match (
                w.delivery
            )(pid) {
                Delivery::Delivered => OutcomeView::Stopped(pid),
                Delivery::NotFound => OutcomeView::NotRunning,
            })
            &&& w.files_removable ==> content(stop.world, env.pid_path) is None
            &&& stop.world.privileged
            &&& stop.world.files_removable
                == w.files_removable
            &&& content(w, env.pid_path) is None ==> stop.last == ActionView::Finish(
                Ok(OutcomeView::NotRunning),
            )
        }),
{
    reveal_with_fuel(run, 6);
}

/// Stopping twice: neither stop fails, and where the first stop could
/// remove the pid file, the second reports "not running" and leaves no pid
/// file.
pub proof fn law_second_stop_finds_nothing(
    first_args: ServeArgsView,
    second_args: ServeArgsView,
    env: EnvironmentView,
    w: World,
)
    requires
        env.daemon_control,
        w.privileged,
        w.files_removable,
        !(record_in(w, env) is Corrupt),
    ensures
        ({
            let first = command_run(Command::Stop, first_args, env, w);
            let second = command_run(Command::Stop, second_args, env, first.world);
            &&& first.last matches ActionView::Finish(Ok(_))
            &&& second.last == ActionView::Finish(Ok(OutcomeView::NotRunning))
            &&& content(second.world, env.pid_path) is None
        }),
{
    law_stop_converges(first_args, env, w);
    let first = command_run(Command::Stop, first_args, env, w);
    law_stop_converges(second_args, env, first.world);
}

/// A stop that finds a corrupt pid record fails with `PidCorrupt`, signals
/// nothing and removes nothing.
pub proof fn law_stop_refuses_corrupt_record(args: ServeArgsView, env: EnvironmentView, w: World)
    requires
        env.daemon_control,
        w.privileged,
        record_in(w, env) is Corrupt,
    ensures
        command_run(Command::Stop, args, env, w).last == ActionView::Finish(
            Err(ControlError::PidCorrupt),
        ),
        command_run(Command::Stop, args, env, w).world == w,
{
    reveal_with_fuel(run, 4);
}

/// Whether a session in `phase` is past everything that stopping does.
pub open spec fn is_starting(phase: Phase) -> bool {
    ||| phase is StartRecord
    ||| phase is SupportFiles
    ||| phase is Identity
    ||| phase is WorkingDirectory
    ||| phase is Detaching
    ||| phase is ConfigFile
    ||| phase is Done
}

/// Once a restart has come to starting, it runs as a start does.
proof fn lemma_restart_starts_alike(s: SessionView, e: EventView, w: World, steps: nat)
    requires
        s.command == Command::Restart,
        is_starting(s.phase),
    ensures
        run(s, e, w, steps) == run(SessionView { command: Command::Start, ..s }, e, w, steps),
    decreases steps,
{
    let (after, action) = next(s, e);
    let (other, same) = next(SessionView { command: Command::Start, ..s }, e);
    assert(action == same);
    assert(other == SessionView { command: Command::Start, ..after });
    if steps > 0 && !is_final(action) && !(action is Rejected) {
        lemma_restart_starts_alike(
            after,
            reply(w, action),
            effect(w, action),
            (steps - 1) as nat,
        );
    }
}

/// After the report on its first half, a restart runs as a start from its
/// beginning does.
proof fn lemma_restart_resumes(args: ServeArgsView, env: EnvironmentView, w: World, steps: nat)
    requires
        env.daemon_control,
        w.privileged,
        steps >= 7,
    ensures
        run(
            SessionView { phase: Phase::Reporting, ..opened(Command::Restart, args, env) },
            EventView::Reported,
            w,
            steps,
        ) == command_run(Command::Start, args, env, w),
{
    let s = SessionView { phase: Phase::Reporting, ..opened(Command::Restart, args, env) };
    let (s1, a1) = next(s, EventView::Reported);
    let e = EventView::PidFile(content(w, env.pid_path));
    assert(a1 == ActionView::ReadPidFile(env.pid_path));
    assert(run(s, EventView::Reported, w, steps) == run(s1, e, w, (steps - 1) as nat));
    let t0 = opened(Command::Start, args, env);
    let (t1, b1) = next(t0, EventView::Begin);
    assert(b1 == ActionView::ProbePrivilege);
    assert(run(t0, EventView::Begin, w, 16) == run(t1, EventView::Privilege(true), w, 15));
    let (t2, b2) = next(t1, EventView::Privilege(true));
    assert(b2 == ActionView::ReadPidFile(env.pid_path));
    assert(run(t1, EventView::Privilege(true), w, 15) == run(t2, e, w, 14));
    assert(t2 == SessionView { command: Command::Start, ..s1 });
    lemma_restart_starts_alike(s1, e, w, (steps - 1) as nat);
    lemma_run_ends(t2, e, w, (steps - 1) as nat, 14);
}

/// A restart is a stop and then a start, whatever the stop found. Where the
/// stop fails, the restart fails with it and starts nothing.
pub proof fn law_restart_is_stop_then_start(args: ServeArgsView, env: EnvironmentView, w: World)
    ensures
        ({
            let stop = command_run(Command::Stop, args, env, w);
            let restart = command_run(Command::Restart, args, env, w);
            match stop.last {
                ActionView::Finish(Ok(_)) => restart == command_run(
                    Command::Start,
                    args,
                    env,
                    stop.world,
                ),
                _ => restart == stop,
            }
        }),
{
    let s0 = opened(Command::Stop, args, env);
    let r0 = opened(Command::Restart, args, env);
    let stop = run(s0, EventView::Begin, w, 16);
    let restart = run(r0, EventView::Begin, w, 16);
    if env.daemon_control {
        let (s1, _) = next(s0, EventView::Begin);
        let (r1, _) = next(r0, EventView::Begin);
        let e1 = EventView::Privilege(w.privileged);
        assert(stop == run(s1, e1, w, 15));
        assert(restart == run(r1, e1, w, 15));
        if w.privileged {
            let (s2, _) = next(s1, e1);
            let (r2, _) = next(r1, e1);
            let e2 = EventView::PidFile(content(w, env.pid_path));
            assert(stop == run(s2, e2, w, 14));
            assert(restart == run(r2, e2, w, 14));
            match record_in(w, env) {
                PidRecord::Corrupt => {},
                PidRecord::Absent => {
                    let (r3, _) = next(r2, e2);
                    assert(restart == run(r3, EventView::Reported, w, 13));
                    lemma_restart_resumes(args, env, w, 13);
                },
                PidRecord::Present(pid) => {
                    let (s3, _) = next(s2, e2);
                    let (r3, _) = next(r2, e2);
                    let e3 = EventView::Signalled((w.delivery)(pid));
                    assert(stop == run(s3, e3, w, 13));
                    assert(restart == run(r3, e3, w, 13));
                    let (s4, _) = next(s3, e3);
                    let (r4, _) = next(r3, e3);
                    let e4 = EventView::PidCleared(w.files_removable);
                    let w4 = effect(w, ActionView::ClearPidFile(env.pid_path));
                    assert(stop == run(s4, e4, w4, 12));
                    assert(restart == run(r4, e4, w4, 12));
                    assert(stop.world == w4);
                    let (r5, _) = next(r4, e4);
                    assert(restart == run(r5, EventView::Reported, w4, 11));
                    lemma_restart_resumes(args, env, w4, 11);
                },
            }
        }
    }
}

} // verus!
