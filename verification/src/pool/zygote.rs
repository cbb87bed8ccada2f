//! A zygote manager for workers that are given no address space cap and no proxies, and
//! whose output is not limited.

use vstd::prelude::*;

use crate::command::CommandSpec;
use crate::config;
use crate::config::ProxyConfig;
use crate::environ::Environment;
use crate::json;
use crate::json::{insert_member, new_object, object_to_string, Scalar, ScalarModel};
use crate::pending;
use crate::pending::Action;
use crate::protocol;
use crate::services;
use crate::services::zygote::worker_command;
use crate::session;
use crate::session::{ReadOutcome, RunEnd, RunEvent, Session, SessionModel, Start};
use crate::text;

verus! {

/// The message that makes the worker execute code.
pub open spec fn run_members(
    code_b64: Seq<char>,
    key_b64: Seq<char>,
    uid: u32,
    gid: u32,
    net: bool,
) -> Map<Seq<char>, ScalarModel> {
    json::no_members()
        .insert("code"@, ScalarModel::Text(code_b64))
        .insert("key"@, ScalarModel::Text(key_b64))
        .insert("uid"@, ScalarModel::Number(uid as u64))
        .insert("gid"@, ScalarModel::Number(gid as u64))
        .insert("net"@, ScalarModel::Flag(net))
}

/// The process that serves as the zygote, given its end of the socket pair.
pub fn pool_command(
    python_path: &str,
    worker_fd: i32,
    lib_so: &str,
    lib_dir: &str,
    warm_modules: &Vec<String>,
    env: &Environment,
) -> (res: CommandSpec)
    ensures
        res@ == services::zygote::worker_process(
            python_path@,
            worker_fd as int,
            lib_so@,
            lib_dir@,
            text::texts(warm_modules@),
            config::no_proxy(),
            env@,
        ),
{
    let proxy = ProxyConfig::default();
    worker_command(python_path, worker_fd, lib_so, lib_dir, warm_modules, &proxy, env)
}

/// The manager of one worker.
pub struct ZygoteManager {
    pub session: Session,
}

impl View for ZygoteManager {
    type V = SessionModel;

    open spec fn view(&self) -> SessionModel {
        self.session@
    }
}

impl ZygoteManager {
    /// A manager for a worker that was just started.
    pub fn new() -> (res: Self)
        ensures
            res@ == (SessionModel {
                running: true,
                next_id: 1,
                pending: Map::empty(),
                buf: Seq::empty(),
                limit: None,
            }),
            session::well_formed(res@),
    {
        ZygoteManager { session: Session::new(None) }
    }

    /// Whether the worker is alive and connected.
    pub fn is_running(&self) -> (res: bool)
        ensures
            res == self@.running,
    {
        self.session.is_running()
    }

    /// Starts executing code in the worker.
    pub fn run(
        &mut self,
        code_b64: &str,
        key_b64: &str,
        uid: u32,
        gid: u32,
        net: bool,
    ) -> (res: Start)
        ensures
            session::is_started(
                old(self)@,
                vstd::utf8::encode_utf8(
                    json::object_text(run_members(code_b64@, key_b64@, uid, gid, net)),
                ),
                final(self)@,
                res,
            ),
            session::well_formed(old(self)@) ==> session::well_formed(final(self)@),
    {
        let mut object = new_object();
        insert_member(&mut object, "code".to_owned(), Scalar::Text(code_b64.to_owned()));
        insert_member(&mut object, "key".to_owned(), Scalar::Text(key_b64.to_owned()));
        insert_member(&mut object, "uid".to_owned(), Scalar::Number(uid as u64));
        insert_member(&mut object, "gid".to_owned(), Scalar::Number(gid as u64));
        insert_member(&mut object, "net".to_owned(), Scalar::Flag(net));
        let payload = object_to_string(object);
        self.session.start(payload.as_str().as_bytes())
    }

    /// Ends an execution.
    pub fn finish_run(&mut self, req_id: u32, event: RunEvent) -> (res: RunEnd)
        ensures
            session::is_finished(old(self)@, req_id, event, final(self)@, res),
            session::well_formed(old(self)@) ==> session::well_formed(final(self)@),
    {
        self.session.finish(req_id, event)
    }

    /// Stops the worker, failing all pending requests.
    pub fn stop(&mut self) -> (res: Vec<Action>)
        ensures
            session::is_closed(
                old(self)@,
                final(self)@,
                pending::action_models(res@),
                "zygote stopped"@,
            ),
            session::well_formed(old(self)@) ==> session::well_formed(final(self)@),
    {
        self.session.close("zygote stopped")
    }

    /// One turn of the read loop: takes in what was read from the worker, or, without
    /// data, that reading failed.
    pub fn read_loop(&mut self, data: Option<&[u8]>) -> (res: ReadOutcome)
        ensures
            session::is_read_turn(
                old(self)@,
                session::read_model(data),
                final(self)@,
                pending::action_models(res.actions@),
                res.closed,
            ),
            session::well_formed(old(self)@) ==> session::well_formed(final(self)@),
    {
        self.session.on_read(data)
    }
}

/// Without a limit no frame is above it, so the connection outlives every read that brings
/// bytes.
pub proof fn unlimited_reads_go_on(before: SessionModel, data: Seq<u8>)
    requires
        before.limit is None,
    ensures
        !session::read_is_oversized(before, data),
{
    protocol::unlimited_is_never_oversized(before.buf + data);
}

/// The worker is told the code and the key, who to become, and whether to allow network
/// access, each under its name, and nothing else.
pub proof fn the_worker_is_told_the_request(
    code_b64: Seq<char>,
    key_b64: Seq<char>,
    uid: u32,
    gid: u32,
    net: bool,
    name: Seq<char>,
)
    ensures
        ({
            let m = run_members(code_b64, key_b64, uid, gid, net);
            &&& m.contains_key("code"@) && m["code"@] == ScalarModel::Text(code_b64)
            &&& m.contains_key("key"@) && m["key"@] == ScalarModel::Text(key_b64)
            &&& m.contains_key("uid"@) && m["uid"@] == ScalarModel::Number(uid as u64)
            &&& m.contains_key("gid"@) && m["gid"@] == ScalarModel::Number(gid as u64)
            &&& m.contains_key("net"@) && m["net"@] == ScalarModel::Flag(net)
            &&& m.contains_key(name) ==> name == "code"@ || name == "key"@ || name == "uid"@
                || name == "gid"@ || name == "net"@
        }),
{
    reveal_strlit("code");
    reveal_strlit("key");
    reveal_strlit("uid");
    reveal_strlit("gid");
    reveal_strlit("net");
    assert("code"@.len() == 4);
    assert("key"@[0] == 'k' && "uid"@[0] == 'u' && "gid"@[0] == 'g' && "net"@[0] == 'n');
    assert("key"@.len() == 3 && "uid"@.len() == 3 && "gid"@.len() == 3 && "net"@.len() == 3);
}

/// The worker is started like any other, without proxies.
pub proof fn the_worker_has_no_proxies(
    python_path: &str,
    worker_fd: i32,
    lib_so: &str,
    lib_dir: &str,
    warm_modules: &Vec<String>,
    proxy: &ProxyConfig,
    env: &Environment,
    res: CommandSpec,
    other: CommandSpec,
)
    requires
        proxy@.socks5.len() == 0,
        proxy@.http.len() == 0,
        proxy@.https.len() == 0,
        call_ensures(
            pool_command,
            (python_path, worker_fd, lib_so, lib_dir, warm_modules, env),
            res,
        ),
        call_ensures(
            worker_command,
            (python_path, worker_fd, lib_so, lib_dir, warm_modules, proxy, env),
            other,
        ),
    ensures
        res@ == other@,
{
    assert(proxy@ =~= config::no_proxy());
}

/// A new manager runs, starts at the first id, has nothing pending or left over, and no
/// limit.
pub proof fn managers_start_afresh(res: ZygoteManager)
    requires
        call_ensures(ZygoteManager::new, (), res),
    ensures
        res@.running,
        res@.next_id == 1,
        res@.pending.dom().len() == 0,
        res@.buf.len() == 0,
        res@.limit is None,
{
    assert(res@.pending.dom() =~= Set::empty());
}

/// A running manager sends the request to its worker and waits under the next id; one that
/// is not running refuses it and says so.
pub proof fn requests_are_sent(manager: &mut ZygoteManager, code_b64: &str, key_b64: &str, uid: u32, gid: u32, net: bool, res: Start)
    requires
        call_ensures(ZygoteManager::run, (manager, code_b64, key_b64, uid, gid, net), res),
    ensures
        old(manager)@.running ==> (res matches Start::Send { req_id, frame } && req_id
            == old(manager)@.next_id && frame@ == protocol::frame_bytes(
            1,
            req_id,
            vstd::utf8::encode_utf8(json::object_text(run_members(code_b64@, key_b64@, uid, gid, net))),
        ) && final(manager)@.pending.contains_key(req_id)
            && final(manager)@.pending[req_id].waiting),
        !old(manager)@.running ==> (res matches Start::Refused(result) && result.stdout@.len()
            == 0 && result.stderr@ == "zygote worker not running"@ && result.exit_code == -1
            && final(manager)@ == old(manager)@),
{
}

/// The caller gets what the worker answered, as it is; or that the request could not be
/// sent, or took too long, in which case the child is killed. The request is forgotten.
pub proof fn callers_get_the_answer(
    manager: &mut ZygoteManager,
    req_id: u32,
    event: RunEvent,
    res: RunEnd,
)
    requires
        call_ensures(ZygoteManager::finish_run, (manager, req_id, event), res),
    ensures
        event matches RunEvent::Completed(answer) ==> res.result.stdout@ == answer.stdout@
            && res.result.stderr@ == answer.stderr@ && res.result.exit_code == answer.exit_code
            && res.kill is None,
        event is WriteFailed ==> res.result.stdout@.len() == 0 && res.result.stderr@
            == "zygote write failed"@ && res.result.exit_code == -1 && res.kill is None,
        event is TimedOut ==> res.result.stdout@.len() == 0 && res.result.stderr@
            == "Execution timeout"@ && res.result.exit_code == -1 && (res.kill matches Some(
            frame,
        ) && frame@ == protocol::frame_bytes(2, req_id, Seq::empty())),
        final(manager)@.pending == old(manager)@.pending.remove(req_id),
        final(manager)@.running == old(manager)@.running,
{
}

/// Stopping fails everyone who waits, and nothing runs or is pending any more.
pub proof fn stopping_fails_those_who_wait(manager: &mut ZygoteManager, res: Vec<Action>)
    requires
        call_ensures(ZygoteManager::stop, (manager,), res),
    ensures
        !final(manager)@.running,
        final(manager)@.pending.dom().len() == 0,
        pending::fails_all(
            pending::action_models(res@),
            old(manager)@.pending,
            "zygote stopped"@,
        ),
{
    session::closing_fails_those_who_wait(
        old(manager)@,
        final(manager)@,
        pending::action_models(res@),
        "zygote stopped"@,
    );
}

/// A turn of the read loop delivers the frames that are complete, and ends the connection
/// where reading failed, at the end of the stream, and at a frame above the limit.
pub proof fn reads_are_delivered(
    manager: &mut ZygoteManager,
    data: Option<&[u8]>,
    res: ReadOutcome,
)
    requires
        call_ensures(ZygoteManager::read_loop, (manager, data), res),
    ensures
        data is None ==> res.closed,
        data matches Some(bytes) ==> (res.closed <==> bytes@.len() == 0 || protocol::decoded(
            old(manager)@.buf + bytes@,
            old(manager)@.limit,
        ).oversized),
        res.closed ==> !final(manager)@.running && final(manager)@.pending.dom().len() == 0,
        data matches Some(bytes) ==> !res.closed ==> {
            let d = protocol::decoded(old(manager)@.buf + bytes@, old(manager)@.limit);
            let done = pending::deliveries(old(manager)@.pending, d.frames, old(manager)@.limit);
            &&& final(manager)@.pending == done.pending
            &&& final(manager)@.buf == d.rest
            &&& final(manager)@.running == old(manager)@.running
            &&& pending::action_models(res.actions@) == done.actions
        },
{
    session::reads_end_or_go_on(
        old(manager)@,
        session::read_model(data),
        final(manager)@,
        pending::action_models(res.actions@),
        res.closed,
    );
}

/// Whether a manager runs is what its state says.
pub proof fn running_managers_say_so(manager: &ZygoteManager, res: bool)
    requires
        call_ensures(ZygoteManager::is_running, (manager,), res),
    ensures
        res == manager.session.running,
{
}

} // verus!
