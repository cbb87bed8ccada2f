//! Pre-warmed Python zygote pool — avoids per-request interpreter cold start.
//!
//! The manager decides; its driver owns the socket and the worker process. The driver
//! reports what it read, wrote or waited for, and performs what the manager returns.

use vstd::prelude::*;

use crate::command;
use crate::command::{path_env, push_arg, push_proxy, CommandModel, CommandSpec, Input, InputModel};
use crate::config;
use crate::config::{ProxyConfig, ProxyModel};
use crate::environ;
use crate::environ::Environment;
use crate::json;
use crate::json::{insert_member, new_object, object_to_string, Scalar, ScalarModel};
use crate::pending;
use crate::pending::Action;
use crate::protocol;
use crate::runners::LIB_PATH;
use crate::session;
use crate::session::{ReadOutcome, RunEnd, RunEvent, Session, SessionModel, Start};
use crate::text;
use crate::text::{join, parse_unsigned, signed_decimal_text};

verus! {

/// Sandbox limits passed through to the zygote child on each execution.
pub struct SandboxLimits {
    pub uid: u32,
    pub gid: u32,
    pub net: bool,
    pub max_as: u64,
    pub timeout_secs: u64,
}

/// Per-request output cap (stdout + stderr). A child exceeding it is killed and its
/// request fails, so a runaway `print` loop cannot make the manager buffer unbounded
/// output.
pub const DEFAULT_MAX_OUTPUT_BYTES: usize = 10485760;

/// The output cap: that of `ZYGOTE_MAX_OUTPUT_BYTES` if it is a positive number, else the
/// default.
pub open spec fn output_cap(env: Seq<(Seq<char>, Seq<char>)>) -> nat {
    match environ::lookup(env, "ZYGOTE_MAX_OUTPUT_BYTES"@) {
        Some(v) => match text::unsigned_value(v, usize::MAX as nat) {
            Some(n) => if n > 0 {
                n
            } else {
                DEFAULT_MAX_OUTPUT_BYTES as nat
            },
            None => DEFAULT_MAX_OUTPUT_BYTES as nat,
        },
        None => DEFAULT_MAX_OUTPUT_BYTES as nat,
    }
}

/// The per-request output cap.
pub fn max_output_bytes(env: &Environment) -> (res: usize)
    ensures
        res == output_cap(env@),
{
    match env.var("ZYGOTE_MAX_OUTPUT_BYTES") {
        Some(v) => match parse_unsigned(v.as_str(), usize::MAX as u64) {
            Some(n) => if n > 0 {
                n as usize
            } else {
                DEFAULT_MAX_OUTPUT_BYTES
            },
            None => DEFAULT_MAX_OUTPUT_BYTES,
        },
        None => DEFAULT_MAX_OUTPUT_BYTES,
    }
}

/// The message that makes the worker execute code.
pub open spec fn run_members(
    code_b64: Seq<char>,
    key_b64: Seq<char>,
    limits: SandboxLimits,
) -> Map<Seq<char>, ScalarModel> {
    json::no_members()
        .insert("code"@, ScalarModel::Text(code_b64))
        .insert("key"@, ScalarModel::Text(key_b64))
        .insert("uid"@, ScalarModel::Number(limits.uid as u64))
        .insert("gid"@, ScalarModel::Number(limits.gid as u64))
        .insert("net"@, ScalarModel::Flag(limits.net))
        .insert("max_as"@, ScalarModel::Number(limits.max_as))
}

/// The payload of a `MSG_RUN` frame.
pub fn run_payload(code_b64: &str, key_b64: &str, limits: &SandboxLimits) -> (res: String)
    ensures
        res@ == json::object_text(run_members(code_b64@, key_b64@, *limits)),
{
    let mut object = new_object();
    insert_member(&mut object, "code".to_owned(), Scalar::Text(code_b64.to_owned()));
    insert_member(&mut object, "key".to_owned(), Scalar::Text(key_b64.to_owned()));
    insert_member(&mut object, "uid".to_owned(), Scalar::Number(limits.uid as u64));
    insert_member(&mut object, "gid".to_owned(), Scalar::Number(limits.gid as u64));
    insert_member(&mut object, "net".to_owned(), Scalar::Flag(limits.net));
    insert_member(&mut object, "max_as".to_owned(), Scalar::Number(limits.max_as));
    object_to_string(object)
}

/// The worker process: the interpreter runs the worker script with its end of the socket,
/// the sandbox library and the modules to import, in an environment that holds no more
/// than `PATH` and the proxies. It is killed when its manager is dropped.
pub open spec fn worker_process(
    python_path: Seq<char>,
    worker_fd: int,
    lib_so: Seq<char>,
    lib_dir: Seq<char>,
    warm_modules: Seq<Seq<char>>,
    proxy: ProxyModel,
    env: Seq<(Seq<char>, Seq<char>)>,
) -> CommandModel {
    CommandModel {
        program: python_path,
        args: seq![
            "-B"@,
            "pool/zygote_worker.py"@,
            text::signed_decimal(worker_fd),
            lib_so,
            lib_dir,
            text::joined(warm_modules, ","@),
        ],
        clear_env: true,
        env: command::path_vars(env) + config::proxy_vars(proxy),
        cwd: Some(LIB_PATH@),
        input: InputModel::Closed,
        captured: false,
        kill_on_drop: true,
        timeout_secs: None,
    }
}

/// The process that serves as the zygote, given its end of the socket pair.
pub fn worker_command(
    python_path: &str,
    worker_fd: i32,
    lib_so: &str,
    lib_dir: &str,
    warm_modules: &Vec<String>,
    proxy: &ProxyConfig,
    env: &Environment,
) -> (res: CommandSpec)
    ensures
        res@ == worker_process(
            python_path@,
            worker_fd as int,
            lib_so@,
            lib_dir@,
            text::texts(warm_modules@),
            proxy@,
            env@,
        ),
{
    let mut vars = path_env(env);
    push_proxy(&mut vars, proxy);
    let mut args: Vec<String> = Vec::new();
    push_arg(&mut args, "-B");
    push_arg(&mut args, "pool/zygote_worker.py");
    push_arg(&mut args, signed_decimal_text(worker_fd).as_str());
    push_arg(&mut args, lib_so);
    push_arg(&mut args, lib_dir);
    push_arg(&mut args, join(warm_modules, ",").as_str());
    let res = CommandSpec {
        program: python_path.to_owned(),
        args,
        clear_env: true,
        env: vars,
        cwd: Some(LIB_PATH.to_owned()),
        input: Input::Closed,
        captured: false,
        kill_on_drop: true,
        timeout_secs: None,
    };
    assert(res@.args =~= worker_process(
        python_path@,
        worker_fd as int,
        lib_so@,
        lib_dir@,
        text::texts(warm_modules@),
        proxy@,
        env@,
    ).args);
    res
}

/// The manager of one zygote worker.
pub struct ZygoteManager {
    pub session: Session,
}

impl View for ZygoteManager {
    type V = SessionModel;

    open spec fn view(&self) -> SessionModel {
        self.session@
    }
}

impl ZygoteManager {
    /// A manager for a worker that was just started.
    pub fn new(env: &Environment) -> (res: Self)
        ensures
            res@ == (SessionModel {
                running: true,
                next_id: 1,
                pending: Map::empty(),
                buf: Seq::empty(),
                limit: Some(output_cap(env@)),
            }),
            session::well_formed(res@),
    {
        ZygoteManager { session: Session::new(Some(max_output_bytes(env))) }
    }

    pub fn is_running(&self) -> (res: bool)
        ensures
            res == self@.running,
    {
        self.session.is_running()
    }

    /// Starts executing code in the worker.
    pub fn run(&mut self, code_b64: &str, key_b64: &str, limits: &SandboxLimits) -> (res: Start)
        ensures
            session::is_started(
                old(self)@,
                vstd::utf8::encode_utf8(
                    json::object_text(run_members(code_b64@, key_b64@, *limits)),
                ),
                final(self)@,
                res,
            ),
            session::well_formed(old(self)@) ==> session::well_formed(final(self)@),
    {
        let payload = run_payload(code_b64, key_b64, limits);
        self.session.start(payload.as_str().as_bytes())
    }

    /// Ends an execution.
    pub fn finish_run(&mut self, req_id: u32, event: RunEvent) -> (res: RunEnd)
        ensures
            session::is_finished(old(self)@, req_id, event, final(self)@, res),
            session::well_formed(old(self)@) ==> session::well_formed(final(self)@),
    {
        self.session.finish(req_id, event)
    }

    /// Stops the worker, failing all pending requests.
    pub fn stop(&mut self) -> (res: Vec<Action>)
        ensures
            session::is_closed(
                old(self)@,
                final(self)@,
                pending::action_models(res@),
                "zygote stopped"@,
            ),
            session::well_formed(old(self)@) ==> session::well_formed(final(self)@),
    {
        self.session.close("zygote stopped")
    }

    /// One turn of the read loop: takes in what was read from the worker, or, without
    /// data, that reading failed.
    pub fn read_loop(&mut self, data: Option<&[u8]>) -> (res: ReadOutcome)
        ensures
            session::is_read_turn(
                old(self)@,
                session::read_model(data),
                final(self)@,
                pending::action_models(res.actions@),
                res.closed,
            ),
            session::well_formed(old(self)@) ==> session::well_formed(final(self)@),
    {
        self.session.on_read(data)
    }
}

/// The output cap is the number in the variable if it is positive and fits; otherwise it is
/// 10 MiB.
pub proof fn the_output_cap_can_be_set(env: &Environment, res: usize)
    requires
        call_ensures(max_output_bytes, (env,), res),
    ensures
        environ::lookup(env@, "ZYGOTE_MAX_OUTPUT_BYTES"@) matches Some(v)
            ==> text::unsigned_value(v, usize::MAX as nat) matches Some(n) ==> n > 0 ==> res == n,
        environ::lookup(env@, "ZYGOTE_MAX_OUTPUT_BYTES"@) matches Some(v) ==> (
        text::unsigned_value(v, usize::MAX as nat) is None || text::unsigned_value(
            v,
            usize::MAX as nat,
        ) == Some(0nat)) ==> res == 10 * 1024 * 1024,
        environ::lookup(env@, "ZYGOTE_MAX_OUTPUT_BYTES"@) is None ==> res == 10 * 1024 * 1024,
{
}

/// The worker is told the code and the key, who to become, whether to allow network access,
/// and how much address space to allow, each under its name, and nothing else.
pub proof fn the_worker_is_told_the_request(
    code_b64: Seq<char>,
    key_b64: Seq<char>,
    limits: SandboxLimits,
    name: Seq<char>,
)
    ensures
        ({
            let m = run_members(code_b64, key_b64, limits);
            &&& m.contains_key("code"@) && m["code"@] == ScalarModel::Text(code_b64)
            &&& m.contains_key("key"@) && m["key"@] == ScalarModel::Text(key_b64)
            &&& m.contains_key("uid"@) && m["uid"@] == ScalarModel::Number(limits.uid as u64)
            &&& m.contains_key("gid"@) && m["gid"@] == ScalarModel::Number(limits.gid as u64)
            &&& m.contains_key("net"@) && m["net"@] == ScalarModel::Flag(limits.net)
            &&& m.contains_key("max_as"@) && m["max_as"@] == ScalarModel::Number(limits.max_as)
            &&& m.contains_key(name) ==> name == "code"@ || name == "key"@ || name == "uid"@
                || name == "gid"@ || name == "net"@ || name == "max_as"@
        }),
{
    reveal_strlit("code");
    reveal_strlit("key");
    reveal_strlit("uid");
    reveal_strlit("gid");
    reveal_strlit("net");
    reveal_strlit("max_as");
    assert("code"@.len() == 4 && "max_as"@.len() == 6);
    assert("key"@[0] == 'k' && "uid"@[0] == 'u' && "gid"@[0] == 'g' && "net"@[0] == 'n');
    assert("key"@.len() == 3 && "uid"@.len() == 3 && "gid"@.len() == 3 && "net"@.len() == 3);
}

/// A request travels as the JSON object of its members.
pub proof fn requests_travel_as_json(
    code_b64: &str,
    key_b64: &str,
    limits: &SandboxLimits,
    res: String,
)
    requires
        call_ensures(run_payload, (code_b64, key_b64, limits), res),
    ensures
        res@ == json::object_text(run_members(code_b64@, key_b64@, *limits)),
{
}

/// The worker is the interpreter, which writes no bytecode and runs the worker's script in
/// the sandbox's directory with its end of the socket, the sandbox library, its directory
/// and the modules as arguments. It has no input, and no more than `PATH` and the proxies in
/// its environment.
pub proof fn the_worker_is_started(
    python_path: &str,
    worker_fd: i32,
    lib_so: &str,
    lib_dir: &str,
    warm_modules: &Vec<String>,
    proxy: &ProxyConfig,
    env: &Environment,
    res: CommandSpec,
)
    requires
        call_ensures(
            worker_command,
            (python_path, worker_fd, lib_so, lib_dir, warm_modules, proxy, env),
            res,
        ),
    ensures
        res.program@ == python_path@,
        res.args@.len() == 6,
        res.args@[0]@ == "-B"@,
        res.args@[1]@ == "pool/zygote_worker.py"@,
        res.args@[2]@ == text::signed_decimal(worker_fd as int),
        res.args@[3]@ == lib_so@,
        res.args@[4]@ == lib_dir@,
        res.args@[5]@ == text::joined(text::texts(warm_modules@), ","@),
        res.clear_env,
        text::text_pairs(res.env@) == (match environ::lookup(env@, "PATH"@) {
            Some(path) => seq![("PATH"@, path)],
            None => Seq::empty(),
        }) + config::proxy_vars(proxy@),
        res.cwd matches Some(dir) && dir@ == "/usr/local/share/sandbox"@,
        res.input is Closed,
        !res.captured,
        res.kill_on_drop,
        res.timeout_secs is None,
{
    text::lemma_texts(res.args@, res.env@);
}

/// A new manager runs, starts at the first id, and has nothing pending or left over.
pub proof fn managers_start_afresh(env: &Environment, cap: usize, res: ZygoteManager)
    requires
        call_ensures(ZygoteManager::new, (env,), res),
        call_ensures(max_output_bytes, (env,), cap),
    ensures
        res@.running,
        res@.next_id == 1,
        res@.pending.dom().len() == 0,
        res@.buf.len() == 0,
        res@.limit == Some(cap as nat),
{
    assert(res@.pending.dom() =~= Set::empty());
}

/// A running manager sends the request to its worker and waits under the next id; one that
/// is not running refuses it and says so.
pub proof fn requests_are_sent(manager: &mut ZygoteManager, code_b64: &str, key_b64: &str, limits: &SandboxLimits, res: Start)
    requires
        call_ensures(ZygoteManager::run, (manager, code_b64, key_b64, limits), res),
    ensures
        old(manager)@.running ==> (res matches Start::Send { req_id, frame } && req_id
            == old(manager)@.next_id && frame@ == protocol::frame_bytes(
            1,
            req_id,
            vstd::utf8::encode_utf8(json::object_text(run_members(code_b64@, key_b64@, *limits))),
        ) && final(manager)@.pending.contains_key(req_id)
            && final(manager)@.pending[req_id].waiting),
        !old(manager)@.running ==> (res matches Start::Refused(result) && result.stdout@.len()
            == 0 && result.stderr@ == "zygote worker not running"@ && result.exit_code == -1
            && final(manager)@ == old(manager)@),
{
}

/// The caller gets what the worker answered, as it is; or that the request could not be
/// sent, or took too long, in which case the child is killed. The request is forgotten.
pub proof fn callers_get_the_answer(
    manager: &mut ZygoteManager,
    req_id: u32,
    event: RunEvent,
    res: RunEnd,
)
    requires
        call_ensures(ZygoteManager::finish_run, (manager, req_id, event), res),
    ensures
        event matches RunEvent::Completed(answer) ==> res.result.stdout@ == answer.stdout@
            && res.result.stderr@ == answer.stderr@ && res.result.exit_code == answer.exit_code
            && res.kill is None,
        event is WriteFailed ==> res.result.stdout@.len() == 0 && res.result.stderr@
            == "zygote write failed"@ && res.result.exit_code == -1 && res.kill is None,
        event is TimedOut ==> res.result.stdout@.len() == 0 && res.result.stderr@
            == "Execution timeout"@ && res.result.exit_code == -1 && (res.kill matches Some(
            frame,
        ) && frame@ == protocol::frame_bytes(2, req_id, Seq::empty())),
        final(manager)@.pending == old(manager)@.pending.remove(req_id),
        final(manager)@.running == old(manager)@.running,
{
}

/// Stopping fails everyone who waits, and nothing runs or is pending any more.
pub proof fn stopping_fails_those_who_wait(manager: &mut ZygoteManager, res: Vec<Action>)
    requires
        call_ensures(ZygoteManager::stop, (manager,), res),
    ensures
        !final(manager)@.running,
        final(manager)@.pending.dom().len() == 0,
        pending::fails_all(
            pending::action_models(res@),
            old(manager)@.pending,
            "zygote stopped"@,
        ),
{
    session::closing_fails_those_who_wait(
        old(manager)@,
        final(manager)@,
        pending::action_models(res@),
        "zygote stopped"@,
    );
}

/// A turn of the read loop delivers the frames that are complete, and ends the connection
/// where reading failed, at the end of the stream, and at a frame above the limit.
pub proof fn reads_are_delivered(
    manager: &mut ZygoteManager,
    data: Option<&[u8]>,
    res: ReadOutcome,
)
    requires
        call_ensures(ZygoteManager::read_loop, (manager, data), res),
    ensures
        data is None ==> res.closed,
        data matches Some(bytes) ==> (res.closed <==> bytes@.len() == 0 || protocol::decoded(
            old(manager)@.buf + bytes@,
            old(manager)@.limit,
        ).oversized),
        res.closed ==> !final(manager)@.running && final(manager)@.pending.dom().len() == 0,
        data matches Some(bytes) ==> !res.closed ==> {
            let d = protocol::decoded(old(manager)@.buf + bytes@, old(manager)@.limit);
            let done = pending::deliveries(old(manager)@.pending, d.frames, old(manager)@.limit);
            &&& final(manager)@.pending == done.pending
            &&& final(manager)@.buf == d.rest
            &&& final(manager)@.running == old(manager)@.running
            &&& pending::action_models(res.actions@) == done.actions
        },
{
    session::reads_end_or_go_on(
        old(manager)@,
        session::read_model(data),
        final(manager)@,
        pending::action_models(res.actions@),
        res.closed,
    );
}

/// Whether a manager runs is what its state says.
pub proof fn running_managers_say_so(manager: &ZygoteManager, res: bool)
    requires
        call_ensures(ZygoteManager::is_running, (manager,), res),
    ensures
        res == manager.session.running,
{
}

} // verus!
