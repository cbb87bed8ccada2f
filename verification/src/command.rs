//! Child processes: what is to be started, and how it ended.

use vstd::prelude::*;

use crate::config;
use crate::config::ProxyConfig;
use crate::environ;
use crate::environ::Environment;
use crate::runners;
use crate::runners::{exit_code_from_status, ExecutionModel, ExecutionResult};
use crate::text;
use crate::text::from_utf8_lossy;

verus! {

/// The standard input of a child process.
pub enum Input {
    /// That of the server.
    Inherited,
    /// None.
    Closed,
    /// This text, and then the end.
    Text(String),
}

pub ghost enum InputModel {
    Inherited,
    Closed,
    Text(Seq<char>),
}

impl View for Input {
    type V = InputModel;

    open spec fn view(&self) -> InputModel {
        match self {
            Input::Inherited => InputModel::Inherited,
            Input::Closed => InputModel::Closed,
            Input::Text(text) => InputModel::Text(text@),
        }
    }
}

/// A child process to be started.
pub struct CommandSpec {
    pub program: String,
    pub args: Vec<String>,
    /// Whether the child starts from an empty environment instead of the server's.
    pub clear_env: bool,
    /// Variables to be set on top of that.
    pub env: Vec<(String, String)>,
    /// The working directory, if it is not the server's.
    pub cwd: Option<String>,
    pub input: Input,
    /// Whether the child's output goes to the server instead of where the server's goes.
    pub captured: bool,
    /// Whether the child is killed when the server stops waiting for it.
    pub kill_on_drop: bool,
    /// The seconds after which the server stops waiting for it, if it ever does.
    pub timeout_secs: Option<u64>,
}

#[verifier::ext_equal]
pub ghost struct CommandModel {
    pub program: Seq<char>,
    pub args: Seq<Seq<char>>,
    pub clear_env: bool,
    pub env: Seq<(Seq<char>, Seq<char>)>,
    pub cwd: Option<Seq<char>>,
    pub input: InputModel,
    pub captured: bool,
    pub kill_on_drop: bool,
    pub timeout_secs: Option<u64>,
}

impl View for CommandSpec {
    type V = CommandModel;

    open spec fn view(&self) -> CommandModel {
        CommandModel {
            program: self.program@,
            args: text::texts(self.args@),
            clear_env: self.clear_env,
            env: text::text_pairs(self.env@),
            cwd: match self.cwd {
                Some(dir) => Some(dir@),
                None => None,
            },
            input: self.input@,
            captured: self.captured,
            kill_on_drop: self.kill_on_drop,
            timeout_secs: self.timeout_secs,
        }
    }
}

/// Adds one more argument.
pub fn push_arg(args: &mut Vec<String>, arg: &str)
    ensures
        text::texts(final(args)@) == text::texts(old(args)@).push(arg@),
{
    args.push(arg.to_owned());
    assert(text::texts(args@) =~= text::texts(old(args)@).push(arg@));
}

/// The server's `PATH`, for a child that otherwise starts from an empty environment.
pub open spec fn path_vars(env: Seq<(Seq<char>, Seq<char>)>) -> Seq<(Seq<char>, Seq<char>)> {
    match environ::lookup(env, "PATH"@) {
        Some(path) => seq![("PATH"@, path)],
        None => Seq::empty(),
    }
}

/// Starts the variables of a child: `PATH`, if the server has it.
pub fn path_env(env: &Environment) -> (res: Vec<(String, String)>)
    ensures
        text::text_pairs(res@) == path_vars(env@),
{
    let mut res: Vec<(String, String)> = Vec::new();
    if let Some(path) = env.var("PATH") {
        res.push(("PATH".to_owned(), path.clone()));
    }
    assert(text::text_pairs(res@) =~= path_vars(env@));
    res
}

/// Sets one more variable.
pub fn push_var(vars: &mut Vec<(String, String)>, name: &str, value: &str)
    ensures
        text::text_pairs(final(vars)@) == text::text_pairs(old(vars)@).push((name@, value@)),
{
    vars.push((name.to_owned(), value.to_owned()));
    assert(text::text_pairs(vars@) =~= text::text_pairs(old(vars)@).push((name@, value@)));
}

/// Sets the proxy variables.
pub fn push_proxy(vars: &mut Vec<(String, String)>, proxy: &ProxyConfig)
    ensures
        text::text_pairs(final(vars)@) == text::text_pairs(old(vars)@) + config::proxy_vars(
            proxy@,
        ),
{
    let ghost before = text::text_pairs(vars@);
    let more = proxy.proxy_env_vars();
    let ghost wanted = config::proxy_vars(proxy@);
    let mut i: usize = 0;
    assert(before + wanted.take(0) =~= before);
    while i < more.len()
        invariant
            i <= more@.len(),
            wanted == config::borrowed_pairs(more@),
            text::text_pairs(vars@) == before + wanted.take(i as int),
        decreases more@.len() - i,
    {
        let (name, value) = more[i];
        assert(wanted[i as int] == (name@, value@));
        push_var(vars, name, value);
        assert(wanted.take(i + 1) =~= wanted.take(i as int).push((name@, value@)));
        assert((before + wanted.take(i as int)).push((name@, value@)) =~= before + wanted.take(
            i + 1,
        ));
        i = i + 1;
    }
    assert(wanted.take(i as int) =~= wanted);
}

/// How running a child process went.
pub enum ProcessEvent {
    /// It could not be started, with the system's message.
    SpawnFailed(String),
    /// Its input could not be written.
    InputFailed(String),
    /// It did not end in time.
    TimedOut,
    /// Waiting for it failed.
    WaitFailed(String),
    /// It ended, by a signal or with an exit code.
    Exited { stdout: Vec<u8>, stderr: Vec<u8>, signal: Option<i32>, code: Option<i32> },
}

/// What an execution in a child process called `what` comes to.
pub open spec fn process_outcome(what: Seq<char>, event: ProcessEvent) -> Result<
    ExecutionModel,
    Seq<char>,
> {
    match event {
        ProcessEvent::SpawnFailed(e) => Err("spawn "@ + what + ": "@ + e@),
        ProcessEvent::InputFailed(e) => Err("stdin write: "@ + e@),
        ProcessEvent::TimedOut => Err("Execution timeout"@),
        ProcessEvent::WaitFailed(e) => Err("process: "@ + e@),
        ProcessEvent::Exited { stdout, stderr, signal, code } => Ok(
            ExecutionModel {
                stdout: text::lossy_text(stdout@),
                stderr: text::lossy_text(stderr@),
                exit_code: runners::exit_code_of(signal, code),
            },
        ),
    }
}

/// An outcome and its model.
pub open spec fn outcome_is(
    res: Result<ExecutionResult, String>,
    model: Result<ExecutionModel, Seq<char>>,
) -> bool {
    match res {
        Ok(result) => model == Ok::<ExecutionModel, Seq<char>>(result@),
        Err(message) => model == Err::<ExecutionModel, Seq<char>>(message@),
    }
}

/// Two texts, one after the other.
pub fn concat(first: &str, second: &str) -> (res: String)
    ensures
        res@ == first@ + second@,
{
    let mut res = first.to_owned();
    res.append(second);
    res
}

/// Turns the end of an interpreter process into the result of an execution.
pub fn finish_process(what: &str, event: ProcessEvent) -> (res: Result<ExecutionResult, String>)
    requires
        event matches ProcessEvent::Exited { signal, .. } ==> signal != Some(i32::MIN),
    ensures
        outcome_is(res, process_outcome(what@, event)),
{
    match event {
        ProcessEvent::SpawnFailed(e) => {
            let mut message = concat("spawn ", what);
            message.append(": ");
            message.append(e.as_str());
            Err(message)
        },
        ProcessEvent::InputFailed(e) => Err(concat("stdin write: ", e.as_str())),
        ProcessEvent::TimedOut => Err("Execution timeout".to_owned()),
        ProcessEvent::WaitFailed(e) => Err(concat("process: ", e.as_str())),
        ProcessEvent::Exited { stdout, stderr, signal, code } => {
            Ok(
                ExecutionResult {
                    stdout: from_utf8_lossy(stdout.as_slice()),
                    stderr: from_utf8_lossy(stderr.as_slice()),
                    exit_code: exit_code_from_status(signal, code),
                },
            )
        },
    }
}

/// How a process ended is what the execution comes to: its output as text, whatever of it
/// is text, and its exit code, or minus the signal that killed it; and where something went
/// wrong before that, a message that says what.
pub proof fn processes_come_to_results(
    what: &str,
    event: ProcessEvent,
    res: Result<ExecutionResult, String>,
)
    requires
        call_ensures(finish_process, (what, event), res),
    ensures
        event matches ProcessEvent::Exited { stdout, stderr, signal, code } ==> (
        res matches Ok(result) && result.stdout@ == text::lossy_text(stdout@) && result.stderr@
            == text::lossy_text(stderr@) && result.exit_code == (match (signal, code) {
            (Some(n), _) => -(n as int),
            (None, Some(n)) => n as int,
            (None, None) => -1int,
        })),
        event matches ProcessEvent::SpawnFailed(e) ==> (res matches Err(m) && m@ == "spawn "@
            + what@ + ": "@ + e@),
        event matches ProcessEvent::InputFailed(e) ==> (res matches Err(m) && m@
            == "stdin write: "@ + e@),
        event is TimedOut ==> (res matches Err(m) && m@ == "Execution timeout"@),
        event matches ProcessEvent::WaitFailed(e) ==> (res matches Err(m) && m@ == "process: "@
            + e@),
{
}

/// A child's environment starts with the server's `PATH`, and with nothing if the server has
/// none.
pub proof fn children_get_the_path(env: &Environment, res: Vec<(String, String)>)
    requires
        call_ensures(path_env, (env,), res),
    ensures
        environ::lookup(env@, "PATH"@) matches Some(path) ==> res@.len() == 1 && res@[0].0@
            == "PATH"@ && res@[0].1@ == path,
        environ::lookup(env@, "PATH"@) is None ==> res@.len() == 0,
{
    text::lemma_texts(Seq::empty(), res@);
}

/// Two texts are put one after the other.
pub proof fn texts_are_concatenated(first: &str, second: &str, res: String)
    requires
        call_ensures(concat, (first, second), res),
    ensures
        res@.len() == first@.len() + second@.len(),
        res@.take(first@.len() as int) == first@,
        res@.skip(first@.len() as int) == second@,
{
    assert(res@.take(first@.len() as int) =~= first@);
    assert(res@.skip(first@.len() as int) =~= second@);
}

/// The model of a process holds all that is to be started.
pub proof fn processes_are_modelled(spec: CommandSpec)
    ensures
        spec@.program == spec.program@,
        spec@.args.len() == spec.args@.len(),
        forall|i: int| 0 <= i < spec.args@.len() ==> spec@.args[i] == (#[trigger] spec.args@[i])@,
        spec@.clear_env == spec.clear_env,
        spec@.env.len() == spec.env@.len(),
        forall|i: int|
            0 <= i < spec.env@.len() ==> spec@.env[i] == (
                (#[trigger] spec.env@[i]).0@,
                spec.env@[i].1@,
            ),
        spec.cwd is None <==> spec@.cwd is None,
        spec.cwd matches Some(dir) ==> spec@.cwd == Some(dir@),
        spec.input is Inherited <==> spec@.input is Inherited,
        spec.input is Closed <==> spec@.input is Closed,
        spec.input matches Input::Text(t) ==> spec@.input == InputModel::Text(t@),
        spec@.captured == spec.captured,
        spec@.kill_on_drop == spec.kill_on_drop,
        spec@.timeout_secs == spec.timeout_secs,
{
    text::lemma_texts(spec.args@, spec.env@);
}

} // verus!
