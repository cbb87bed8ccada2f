//! The life of the server and of its zygote: startup, and restarts after a crash.

use vstd::prelude::*;

use crate::command::CommandSpec;
use crate::config::Config;
use crate::environ;
use crate::environ::Environment;
use crate::runners::python::ZygoteStatus;
use crate::runners::LIB_PATH;
use crate::services;
use crate::services::zygote::worker_command;
use crate::text;

verus! {

/// Lets one restart at a time through, however many requests see the zygote dead.
pub struct RestartLatch {
    /// Whether a restart is in flight.
    pub restarting: bool,
}

/// What happens at the latch.
pub ghost enum LatchEvent {
    /// A caller asks to be let through.
    Asked,
    /// The restart that was let through ends.
    Ended,
}

/// Whether a restart is in flight after an event.
pub open spec fn restarting_after(restarting: bool, event: LatchEvent) -> bool {
    event is Asked
}

/// Whether a restart is in flight after a history.
pub open spec fn restarting_after_all(restarting: bool, events: Seq<LatchEvent>) -> bool
    decreases events.len(),
{
    if events.len() == 0 {
        restarting
    } else {
        restarting_after(restarting_after_all(restarting, events.drop_last()), events.last())
    }
}

/// How many callers a history lets through: those that ask while no restart is in flight.
pub open spec fn admitted(restarting: bool, events: Seq<LatchEvent>) -> nat
    decreases events.len(),
{
    if events.len() == 0 {
        0
    } else {
        admitted(restarting, events.drop_last()) + if events.last() is Asked
            && !restarting_after_all(restarting, events.drop_last()) {
            1nat
        } else {
            0nat
        }
    }
}

/// How many restarts a history ends.
pub open spec fn ended(restarting: bool, events: Seq<LatchEvent>) -> nat
    decreases events.len(),
{
    if events.len() == 0 {
        0
    } else {
        ended(restarting, events.drop_last()) + if events.last() is Ended
            && restarting_after_all(restarting, events.drop_last()) {
            1nat
        } else {
            0nat
        }
    }
}

impl RestartLatch {
    pub fn new() -> (res: Self)
        ensures
            !res.restarting,
    {
        RestartLatch { restarting: false }
    }

    /// Tries to become the one restarter. True for exactly one caller until
    /// [`RestartLatch::end_restart`] is called.
    pub fn try_begin_restart(&mut self) -> (res: bool)
        ensures
            res == !old(self).restarting,
            final(self).restarting == restarting_after(old(self).restarting, LatchEvent::Asked),
    {
        let admitted = !self.restarting;
        self.restarting = true;
        admitted
    }

    /// Ends the restart.
    pub fn end_restart(&mut self)
        ensures
            final(self).restarting == restarting_after(old(self).restarting, LatchEvent::Ended),
    {
        self.restarting = false;
    }
}

/// However many callers ask at an open latch, exactly one is let through.
pub proof fn single_flight(events: Seq<LatchEvent>)
    requires
        events.len() > 0,
        forall|i: int| 0 <= i < events.len() ==> #[trigger] events[i] is Asked,
    ensures
        admitted(false, events) == 1,
    decreases events.len(),
{
    assert(events[events.len() - 1] is Asked);
    if events.len() > 1 {
        let front = events.drop_last();
        single_flight(front);
        assert(events[events.len() - 2] is Asked);
        assert(restarting_after_all(false, front));
    } else {
        assert(admitted(false, events.drop_last()) == 0);
        assert(!restarting_after_all(false, events.drop_last()));
    }
}

/// In any history of an open latch, there is never more than one restart in flight.
pub proof fn restarts_do_not_overlap(events: Seq<LatchEvent>)
    ensures
        ended(false, events) <= admitted(false, events) <= ended(false, events) + 1,
        restarting_after_all(false, events) <==> admitted(false, events) == ended(false, events)
            + 1,
    decreases events.len(),
{
    if events.len() > 0 {
        restarts_do_not_overlap(events.drop_last());
    }
}

/// What a restart takes.
#[derive(Clone, Copy, PartialEq, Eq, Structural, Debug)]
pub enum RestartStep {
    /// Nothing: the zygote is back already.
    Done,
    /// A new worker has to be spawned; [`finish_restart`] says what comes of it.
    Spawn,
}

/// What comes of spawning a new worker.
#[derive(Clone, Copy, PartialEq, Eq, Structural, Debug)]
pub struct RestartEnd {
    /// Whether there is a live zygote now.
    pub restarted: bool,
    /// Whether the new worker takes the place of the dead one; if not, and there is a new
    /// one, it is dropped.
    pub install: bool,
}

/// Begins a restart, given the state of the zygote.
pub fn try_restart_zygote(zygote: ZygoteStatus) -> (res: RestartStep)
    ensures
        res == (if zygote is Running {
            RestartStep::Done
        } else {
            RestartStep::Spawn
        }),
{
    match zygote {
        ZygoteStatus::Running => RestartStep::Done,
        _ => RestartStep::Spawn,
    }
}

/// Ends a restart, given whether a new worker could be spawned and what state the zygote is
/// in by then: another restart may have installed a live one.
pub fn finish_restart(spawned: bool, zygote: ZygoteStatus) -> (res: RestartEnd)
    ensures
        res.restarted == spawned,
        res.install == (spawned && !(zygote is Running)),
{
    if !spawned {
        return RestartEnd { restarted: false, install: false };
    }
    match zygote {
        ZygoteStatus::Running => RestartEnd { restarted: true, install: false },
        _ => RestartEnd { restarted: true, install: true },
    }
}

/// The process that serves as the zygote of the server.
pub fn zygote_command(config: &Config, worker_fd: i32, env: &Environment) -> (res: CommandSpec)
    ensures
        res@ == services::zygote::worker_process(
            config@.python_path,
            worker_fd as int,
            "./libpython.so"@,
            LIB_PATH@,
            config@.python_zygote_preload_modules,
            config@.proxy,
            env@,
        ),
{
    worker_command(
        config.python_path.as_str(),
        worker_fd,
        "./libpython.so",
        LIB_PATH,
        &config.python_zygote_preload_modules,
        &config.proxy,
        env,
    )
}

/// What the server does before it takes requests.
#[derive(Clone, Copy, PartialEq, Eq, Structural, Debug)]
pub enum StartupStep {
    InstallDependencies,
    PrepareEnvironment,
    StartZygote,
}

/// The steps of the startup. Packages and the jail are set up in privileged mode only;
/// else the container image holds them.
pub open spec fn startup_steps(privilege: bool, python_zygote: bool) -> Seq<StartupStep> {
    (if privilege {
        seq![StartupStep::InstallDependencies, StartupStep::PrepareEnvironment]
    } else {
        Seq::empty()
    }) + (if python_zygote {
        seq![StartupStep::StartZygote]
    } else {
        Seq::empty()
    })
}

/// The steps of the startup, in order.
pub fn startup(config: &Config) -> (res: Vec<StartupStep>)
    ensures
        res@ == startup_steps(config@.privilege, config@.python_zygote),
{
    let mut steps: Vec<StartupStep> = Vec::new();
    if config.privilege {
        steps.push(StartupStep::InstallDependencies);
        steps.push(StartupStep::PrepareEnvironment);
    }
    if config.python_zygote {
        steps.push(StartupStep::StartZygote);
    }
    assert(steps@ =~= startup_steps(config@.privilege, config@.python_zygote));
    steps
}

/// The path of the configuration file: that of `CONFIG_PATH` if it is set.
pub fn config_path(env: &Environment) -> (res: String)
    ensures
        res@ == (match environ::lookup(env@, "CONFIG_PATH"@) {
            Some(path) => path,
            None => "runtime/config.toml"@,
        }),
{
    match env.var("CONFIG_PATH") {
        Some(path) => path.as_str().to_owned(),
        None => "runtime/config.toml".to_owned(),
    }
}

/// The zygote is started if and only if it is configured, whatever the privileges; packages
/// are installed and then the jail prepared if and only if there are privileges; and the
/// zygote comes last.
pub proof fn startup_does_what_is_configured(config: &Config, steps: Vec<StartupStep>)
    requires
        call_ensures(startup, (config,), steps),
    ensures
        steps@.contains(StartupStep::StartZygote) <==> config.python_zygote,
        steps@.contains(StartupStep::InstallDependencies) <==> config.privilege,
        steps@.contains(StartupStep::PrepareEnvironment) <==> config.privilege,
        config.privilege ==> steps@.len() >= 2 && steps@[0] is InstallDependencies && steps@[1]
            is PrepareEnvironment,
        config.python_zygote ==> steps@.len() > 0 && steps@.last() is StartZygote,
        steps@.no_duplicates(),
{
    if config.privilege {
        assert(steps@[0] == StartupStep::InstallDependencies);
        assert(steps@[1] == StartupStep::PrepareEnvironment);
        if config.python_zygote {
            assert(steps@[2] == StartupStep::StartZygote);
        }
    } else if config.python_zygote {
        assert(steps@[0] == StartupStep::StartZygote);
    }
}

/// A restart spawns a worker unless one is running, and a worker that was spawned takes the
/// zygote's place unless one is running by then.
pub proof fn restarts_leave_a_live_zygote(
    at_first: ZygoteStatus,
    step: RestartStep,
    spawned: bool,
    by_then: ZygoteStatus,
    end: RestartEnd,
)
    requires
        call_ensures(try_restart_zygote, (at_first,), step),
        call_ensures(finish_restart, (spawned, by_then), end),
    ensures
        at_first is Running <==> step is Done,
        !(at_first is Running) <==> step is Spawn,
        end.install <==> spawned && (by_then is Absent || by_then is Dead),
        end.restarted <==> spawned,
{
}

/// After a caller has asked a restart is in flight, and after it has ended none is.
pub proof fn asking_takes_and_ending_frees(restarting: bool)
    ensures
        restarting_after(restarting, LatchEvent::Asked),
        !restarting_after(restarting, LatchEvent::Ended),
{
}

/// The configuration is read from where the environment says, or from where it is shipped.
pub proof fn configuration_path_can_be_set(env: &Environment, res: String)
    requires
        call_ensures(config_path, (env,), res),
    ensures
        environ::lookup(env@, "CONFIG_PATH"@) matches Some(path) ==> res@ == path,
        environ::lookup(env@, "CONFIG_PATH"@) is None ==> res@ == "runtime/config.toml"@,
{
}

/// The zygote runs the configured interpreter with the Python sandbox library.
pub proof fn the_zygote_is_the_configured_interpreter(
    config: &Config,
    worker_fd: i32,
    env: &Environment,
    res: CommandSpec,
)
    requires
        call_ensures(zygote_command, (config, worker_fd, env), res),
    ensures
        res.program@ == config.python_path@,
        res.args@.len() == 6,
        res.args@[0]@ == "-B"@,
        res.args@[1]@ == "pool/zygote_worker.py"@,
        res.args@[2]@ == text::signed_decimal(worker_fd as int),
        res.args@[3]@ == "./libpython.so"@,
        res.args@[4]@ == "/usr/local/share/sandbox"@,
        res.args@[5]@ == text::joined(text::texts(config.python_zygote_preload_modules@), ","@),
        res.kill_on_drop,
        res.timeout_secs is None,
{
    let args = text::texts(res.args@);
    assert(args.len() == res.args@.len());
    assert forall|i: int| 0 <= i < args.len() implies args[i] == (#[trigger] res.args@[i])@ by {}
}

/// A caller is let through if and only if no restart is in flight, and then one is until it
/// ends.
pub proof fn one_restart_at_a_time(latch: &mut RestartLatch, res: bool)
    requires
        call_ensures(RestartLatch::try_begin_restart, (latch,), res),
    ensures
        res <==> !old(latch).restarting,
        final(latch).restarting,
{
}

/// Once a restart has ended the next caller is let through.
pub proof fn ended_restarts_free_the_latch(latch: &mut RestartLatch)
    requires
        call_ensures(RestartLatch::end_restart, (latch,), ()),
    ensures
        !final(latch).restarting,
{
}

/// The zygote is a worker of the configured interpreter, modules and proxies.
pub proof fn the_zygote_is_a_worker(
    config: &Config,
    python_path: &str,
    lib_so: &str,
    lib_dir: &str,
    worker_fd: i32,
    env: &Environment,
    res: CommandSpec,
    worker: CommandSpec,
)
    requires
        python_path@ == config.python_path@,
        lib_so@ == "./libpython.so"@,
        lib_dir@ == "/usr/local/share/sandbox"@,
        call_ensures(zygote_command, (config, worker_fd, env), res),
        call_ensures(
            worker_command,
            (
                python_path,
                worker_fd,
                lib_so,
                lib_dir,
                &config.python_zygote_preload_modules,
                &config.proxy,
                env,
            ),
            worker,
        ),
    ensures
        res@ == worker@,
{
}

} // verus!
