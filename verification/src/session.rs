//! The state of a connection to a zygote worker.

use vstd::prelude::*;

use crate::pending;
use crate::pending::{Action, ActionModel, PendingModel, PendingTable};
use crate::protocol;
use crate::protocol::{
    encode_frame,
    next_frame,
    FrameModel,
    NextFrame,
    HEADER_SIZE,
    MSG_DONE,
    MSG_KILL,
    MSG_RUN,
    MSG_STDERR,
    MSG_STDOUT,
};
use crate::runners;
use crate::runners::{failed, ExecutionModel, ExecutionResult};
use crate::text;

verus! {

/// A connection: whether the worker is reachable, the id of the next request, the pending
/// requests, the bytes received beyond the last complete frame, and the output limit.
pub struct Session {
    pub running: bool,
    pub next_id: u32,
    pub pending: PendingTable,
    pub buf: Vec<u8>,
    pub limit: Option<usize>,
}

#[verifier::ext_equal]
pub ghost struct SessionModel {
    pub running: bool,
    pub next_id: u32,
    pub pending: Map<u32, PendingModel>,
    pub buf: Seq<u8>,
    pub limit: Option<nat>,
}

impl View for Session {
    type V = SessionModel;

    open spec fn view(&self) -> SessionModel {
        SessionModel {
            running: self.running,
            next_id: self.next_id,
            pending: self.pending@,
            buf: self.buf@,
            limit: protocol::limit_model(self.limit),
        }
    }
}

/// What holds of every session: request ids start at 1, and what is buffered is bounded by
/// the limit. No request holds more output than that, and as long as the worker is running
/// the bytes received beyond the last complete frame are less than one frame.
pub open spec fn well_formed(s: SessionModel) -> bool {
    &&& s.next_id >= 1
    &&& pending::within_limit(s.pending, s.limit)
    &&& s.running ==> (s.limit matches Some(max) ==> s.buf.len() < HEADER_SIZE + max)
}

/// The id after `id`; ids go from 1 to 2^32 - 1 and then start again.
pub open spec fn next_id_after(id: u32) -> u32 {
    (id % 0xFFFF_FFFF + 1) as u32
}

/// A request without output whose caller waits.
pub open spec fn fresh_request() -> PendingModel {
    PendingModel { out: Seq::empty(), err: Seq::empty(), waiting: true }
}

/// The session after a request was opened.
pub open spec fn with_request(s: SessionModel) -> SessionModel {
    SessionModel {
        next_id: next_id_after(s.next_id),
        pending: s.pending.insert(s.next_id, fresh_request()),
        ..s
    }
}

/// What starting a request comes to.
pub enum Start {
    /// The worker is gone; the caller gets this result.
    Refused(ExecutionResult),
    /// The frame is to be sent, and the result of `req_id` to be awaited.
    Send { req_id: u32, frame: Vec<u8> },
}

/// How waiting for a request ended.
pub enum RunEvent {
    /// The request could not be sent.
    WriteFailed,
    /// The worker answered.
    Completed(ExecutionResult),
    /// No answer came in time.
    TimedOut,
}

/// What the caller gets, and the frame that is to be sent to the worker, if any.
pub struct RunEnd {
    pub result: ExecutionResult,
    pub kill: Option<Vec<u8>>,
}

/// What the caller of a request gets.
pub open spec fn run_result(event: RunEvent) -> ExecutionModel {
    match event {
        RunEvent::WriteFailed => runners::failure("zygote write failed"@),
        RunEvent::Completed(result) => result@,
        RunEvent::TimedOut => runners::failure("Execution timeout"@),
    }
}

/// The state after the bytes of a read were taken in, and what is to be done.
pub open spec fn after_read(s: SessionModel, data: Seq<u8>) -> (SessionModel, Seq<ActionModel>) {
    let d = protocol::decoded(s.buf + data, s.limit);
    let done = pending::deliveries(s.pending, d.frames, s.limit);
    (SessionModel { pending: done.pending, buf: d.rest, ..s }, done.actions)
}

/// Whether the bytes of a read hold a frame above the limit.
pub open spec fn read_is_oversized(s: SessionModel, data: Seq<u8>) -> bool {
    protocol::decoded(s.buf + data, s.limit).oversized
}

/// The connection is lost: nothing is pending any more, and every caller that waited is
/// told `message`.
pub open spec fn is_closed(
    before: SessionModel,
    after: SessionModel,
    actions: Seq<ActionModel>,
    message: Seq<char>,
) -> bool {
    &&& after == SessionModel { running: false, pending: Map::empty(), ..before }
    &&& pending::fails_all(actions, before.pending, message)
}

/// What was read, if reading did not fail.
pub open spec fn read_model(data: Option<&[u8]>) -> Option<Seq<u8>> {
    match data {
        Some(bytes) => Some(bytes@),
        None => None,
    }
}

/// One turn of reading from the worker: complete frames are delivered. The connection is
/// over when reading failed, at the end of the stream (a read without bytes), and after a
/// frame above the limit; then every caller that still waits is told so.
pub open spec fn is_read_turn(
    before: SessionModel,
    data: Option<Seq<u8>>,
    after: SessionModel,
    actions: Seq<ActionModel>,
    closed: bool,
) -> bool {
    let (read, done) = match data {
        Some(bytes) => if bytes.len() > 0 {
            after_read(before, bytes)
        } else {
            (before, Seq::empty())
        },
        None => (before, Seq::empty()),
    };
    &&& closed == (match data {
        Some(bytes) => bytes.len() == 0 || read_is_oversized(before, bytes),
        None => true,
    })
    &&& !closed ==> after == read && actions == done
    &&& closed ==> {
        &&& actions.len() >= done.len()
        &&& actions.take(done.len() as int) == done
        &&& is_closed(
            read,
            after,
            actions.skip(done.len() as int),
            "zygote connection lost"@,
        )
    }
}

/// A request with this payload is opened if the worker is running.
pub open spec fn is_started(
    before: SessionModel,
    payload: Seq<u8>,
    after: SessionModel,
    start: Start,
) -> bool {
    match start {
        Start::Refused(result) => {
            &&& !before.running
            &&& after == before
            &&& result@ == runners::failure("zygote worker not running"@)
        },
        Start::Send { req_id, frame } => {
            &&& before.running
            &&& req_id == before.next_id
            &&& after == with_request(before)
            &&& frame@ == protocol::frame_bytes(MSG_RUN, req_id, payload)
        },
    }
}

/// A request is ended: it is no longer pending, and if no answer came in time the worker is
/// told to kill its child.
pub open spec fn is_finished(
    before: SessionModel,
    req_id: u32,
    event: RunEvent,
    after: SessionModel,
    end: RunEnd,
) -> bool {
    &&& after == SessionModel { pending: before.pending.remove(req_id), ..before }
    &&& end.result@ == run_result(event)
    &&& match end.kill {
        Some(frame) => event is TimedOut && frame@ == protocol::frame_bytes(
            MSG_KILL,
            req_id,
            Seq::empty(),
        ),
        None => !(event is TimedOut),
    }
}

/// What a read leads to.
pub struct ReadOutcome {
    /// What is to be done, in this order.
    pub actions: Vec<Action>,
    /// Whether the connection is over.
    pub closed: bool,
}

impl Session {
    pub fn new(limit: Option<usize>) -> (res: Self)
        ensures
            res@ == (SessionModel {
                running: true,
                next_id: 1,
                pending: Map::empty(),
                buf: Seq::empty(),
                limit: protocol::limit_model(limit),
            }),
            well_formed(res@),
    {
        Session { running: true, next_id: 1, pending: PendingTable::new(), buf: Vec::new(), limit }
    }

    /// Whether the worker is alive and connected.
    pub fn is_running(&self) -> (res: bool)
        ensures
            res == self@.running,
    {
        self.running
    }

    /// Opens a request with this payload, if the worker is running.
    pub fn start(&mut self, payload: &[u8]) -> (res: Start)
        ensures
            is_started(old(self)@, payload@, final(self)@, res),
            well_formed(old(self)@) ==> well_formed(final(self)@),
    {
        if !self.running {
            return Start::Refused(failed("zygote worker not running".to_owned()));
        }
        let req_id = self.next_id;
        self.next_id = self.next_id % 0xFFFF_FFFF + 1;
        self.pending.insert(req_id);
        let frame = encode_frame(MSG_RUN, req_id, payload);
        Start::Send { req_id, frame }
    }

    /// Ends a request.
    pub fn finish(&mut self, req_id: u32, event: RunEvent) -> (res: RunEnd)
        ensures
            is_finished(old(self)@, req_id, event, final(self)@, res),
            event matches RunEvent::Completed(r) ==> res.result.stdout@ == r.stdout@
                && res.result.stderr@ == r.stderr@ && res.result.exit_code == r.exit_code,
            well_formed(old(self)@) ==> well_formed(final(self)@),
    {
        self.pending.remove(req_id);
        match event {
            RunEvent::WriteFailed => RunEnd {
                result: failed("zygote write failed".to_owned()),
                kill: None,
            },
            RunEvent::Completed(result) => RunEnd { result, kill: None },
            RunEvent::TimedOut => RunEnd {
                result: failed("Execution timeout".to_owned()),
                kill: Some(encode_frame(MSG_KILL, req_id, &[])),
            },
        }
    }

    /// Ends the connection and fails every request whose caller waits.
    pub fn close(&mut self, message: &str) -> (res: Vec<Action>)
        ensures
            is_closed(old(self)@, final(self)@, pending::action_models(res@), message@),
            well_formed(old(self)@) ==> well_formed(final(self)@),
    {
        self.running = false;
        self.pending.fail_all(message)
    }

    /// Takes in what was read from the worker, or, without data, that reading failed.
    pub fn on_read(&mut self, data: Option<&[u8]>) -> (res: ReadOutcome)
        ensures
            is_read_turn(
                old(self)@,
                read_model(data),
                final(self)@,
                pending::action_models(res.actions@),
                res.closed,
            ),
            well_formed(old(self)@) ==> well_formed(final(self)@),
    {
        match data {
            Some(bytes) => if bytes.len() > 0 {
                return self.take_in(bytes);
            },
            None => {},
        }
        let actions = self.close("zygote connection lost");
        let ghost all = pending::action_models(actions@);
        assert(all.take(0) =~= Seq::empty());
        assert(all.skip(0) =~= all);
        ReadOutcome { actions, closed: true }
    }

    fn take_in(&mut self, data: &[u8]) -> (res: ReadOutcome)
        requires
            data@.len() > 0,
        ensures
            is_read_turn(
                old(self)@,
                Some(data@),
                final(self)@,
                pending::action_models(res.actions@),
                res.closed,
            ),
            well_formed(old(self)@) ==> well_formed(final(self)@),
    {
        let ghost start = self@;
        self.buf.extend_from_slice(data);
        assert(self.buf@ =~= start.buf + data@);
        let ghost whole = protocol::decoded(start.buf + data@, start.limit);
        let ghost mut frames: Seq<FrameModel> = Seq::empty();
        let mut actions: Vec<Action> = Vec::new();
        let mut oversized = false;
        assert(whole.frames =~= frames + whole.frames);
        assert(pending::action_models(actions@) =~= Seq::<ActionModel>::empty());
        loop
            invariant_except_break
                !oversized,
            invariant
                self@ == (SessionModel { pending: self@.pending, buf: self@.buf, ..start }),
                whole == (protocol::Decoded {
                    frames: frames + protocol::decoded(self@.buf, start.limit).frames,
                    ..protocol::decoded(self@.buf, start.limit)
                }),
                pending::deliveries(start.pending, frames, start.limit) == (pending::Delivery {
                    pending: self@.pending,
                    actions: pending::action_models(actions@),
                }),
            ensures
                whole == (protocol::Decoded { frames, rest: self@.buf, oversized }),
            decreases self.buf@.len(),
        {
            match next_frame(&mut self.buf, self.limit) {
                NextFrame::More => {
                    assert(whole.frames =~= frames);
                    break;
                },
                NextFrame::Oversized => {
                    oversized = true;
                    assert(whole.frames =~= frames);
                    break;
                },
                NextFrame::Complete(frame) => {
                    let ghost next = frames.push(frame@);
                    let ghost so_far = pending::action_models(actions@);
                    assert(next.drop_last() =~= frames);
                    let mut more = self.pending.deliver(frame, self.limit);
                    let ghost added = pending::action_models(more@);
                    actions.append(&mut more);
                    proof {
                        assert(pending::action_models(actions@) =~= so_far + added);
                        assert(next + protocol::decoded(self@.buf, start.limit).frames =~= frames
                            + (seq![frame@] + protocol::decoded(self@.buf, start.limit).frames));
                        frames = next;
                    }
                },
            }
        }
        proof {
            if well_formed(start) {
                pending::deliveries_keep_limit(start.pending, frames, start.limit);
                if let Some(max) = start.limit {
                    protocol::leftover_is_bounded(start.buf + data@, max);
                }
            }
        }
        if oversized {
            let ghost so_far = pending::action_models(actions@);
            let mut more = self.close("zygote connection lost");
            let ghost added = pending::action_models(more@);
            actions.append(&mut more);
            assert(pending::action_models(actions@) =~= so_far + added);
            assert((so_far + added).take(so_far.len() as int) =~= so_far);
            assert((so_far + added).skip(so_far.len() as int) =~= added);
            return ReadOutcome { actions, closed: true };
        }
        ReadOutcome { actions, closed: false }
    }
}

/// How the worker's bytes are cut into reads does not matter: as long as no frame is above
/// the limit, two reads leave the state and ask for the actions of one read of both.
pub proof fn reads_in_parts(s: SessionModel, first: Seq<u8>, second: Seq<u8>)
    requires
        !read_is_oversized(s, first),
    ensures
        ({
            let (part, some) = after_read(s, first);
            let (end, more) = after_read(part, second);
            &&& after_read(s, first + second) == (end, some + more)
            &&& read_is_oversized(s, first + second) == read_is_oversized(part, second)
        }),
{
    assert(s.buf + (first + second) =~= (s.buf + first) + second);
    protocol::decoding_in_parts(s.buf + first, second, s.limit);
    let d = protocol::decoded(s.buf + first, s.limit);
    let next = protocol::decoded(d.rest + second, s.limit);
    pending::deliveries_in_parts(s.pending, d.frames, next.frames, s.limit);
}

/// A frame above the limit ends it wherever the bytes are cut: what follows its header, in
/// the same read or not at all, changes nothing.
pub proof fn oversized_reads_end(s: SessionModel, first: Seq<u8>, second: Seq<u8>)
    requires
        read_is_oversized(s, first),
    ensures
        read_is_oversized(s, first + second),
        after_read(s, first + second).1 == after_read(s, first).1,
        after_read(s, first + second).0.pending == after_read(s, first).0.pending,
{
    assert(s.buf + (first + second) =~= (s.buf + first) + second);
    protocol::decoding_in_parts(s.buf + first, second, s.limit);
}

/// The id that is given out `k` requests after `id`.
pub open spec fn nth_id(id: u32, k: nat) -> u32
    decreases k,
{
    if k == 0 {
        id
    } else {
        next_id_after(nth_id(id, (k - 1) as nat))
    }
}

proof fn lemma_nth_id(id: u32, k: nat)
    requires
        id >= 1,
    ensures
        nth_id(id, k) == (id - 1 + k) % 0xFFFF_FFFF + 1,
    decreases k,
{
    if k > 0 {
        lemma_nth_id(id, (k - 1) as nat);
        let m = (id - 1 + k - 1) % 0xFFFF_FFFF;
        assert((m + 1) % 0xFFFF_FFFF == (id - 1 + k) % 0xFFFF_FFFF);
    }
}

/// Request ids are never 0, and none is given out again before 2^32 - 1 requests have
/// been started.
pub proof fn ids_do_not_repeat(id: u32, j: nat, k: nat)
    requires
        id >= 1,
        j < k < j + 0xFFFF_FFFF,
    ensures
        nth_id(id, j) >= 1,
        nth_id(id, j) != nth_id(id, k),
{
    lemma_nth_id(id, j);
    lemma_nth_id(id, k);
    let d = k - j;
    let a = id - 1 + j;
    assert((a + d) % 0xFFFF_FFFF != a % 0xFFFF_FFFF);
}

/// Closing a connection answers every caller that waits once, and no one else.
pub proof fn closing_answers_everyone(
    actions: Seq<ActionModel>,
    waiting: Map<u32, PendingModel>,
    message: Seq<char>,
    id: u32,
)
    requires
        pending::fails_all(actions, waiting, message),
    ensures
        pending::completions(actions, id) == pending::waits(waiting, id),
{
    let answer = ActionModel::Complete { req_id: id, result: runners::failure(message) };
    assert forall|i: int| 0 <= i < actions.len() implies (match #[trigger] actions[i] {
        ActionModel::Complete { req_id, .. } => req_id == id ==> actions[i] == answer,
        ActionModel::Send { .. } => false,
    }) by {
        assert(actions.contains(actions[i]));
    }
    lemma_count_unique(actions, answer, id);
    if pending::waits(waiting, id) == 1 {
        assert(waiting[id].waiting);
        assert(actions.contains(answer));
    } else if actions.contains(answer) {
        assert(false);
    }
}

/// In a sequence without repetition in which only `answer` completes `id`, the completions
/// of `id` are one if `answer` is there and none if not.
proof fn lemma_count_unique(actions: Seq<ActionModel>, answer: ActionModel, id: u32)
    requires
        actions.no_duplicates(),
        answer matches ActionModel::Complete { req_id, .. } && req_id == id,
        forall|i: int|
            0 <= i < actions.len() ==> (match #[trigger] actions[i] {
                ActionModel::Complete { req_id, .. } => req_id == id ==> actions[i] == answer,
                ActionModel::Send { .. } => false,
            }),
    ensures
        pending::completions(actions, id) == (if actions.contains(answer) {
            1nat
        } else {
            0nat
        }),
    decreases actions.len(),
{
    if actions.len() > 0 {
        let front = actions.drop_last();
        assert forall|i: int| 0 <= i < front.len() implies (match #[trigger] front[i] {
            ActionModel::Complete { req_id, .. } => req_id == id ==> front[i] == answer,
            ActionModel::Send { .. } => false,
        }) by {
            assert(front[i] == actions[i]);
        }
        lemma_count_unique(front, answer, id);
        let last = actions[actions.len() - 1];
        if last == answer {
            if front.contains(answer) {
                let k = choose|k: int| 0 <= k < front.len() && front[k] == answer;
                assert(actions[k] == answer);
            }
            assert(actions.contains(answer));
        } else {
            if actions.contains(answer) {
                let k = choose|k: int| 0 <= k < actions.len() && actions[k] == answer;
                assert(front[k] == answer);
            }
            if front.contains(answer) {
                let k = choose|k: int| 0 <= k < front.len() && front[k] == answer;
                assert(actions[k] == answer);
            }
        }
    }
}

/// From the socket to the caller: a worker that answers a request with frames of output
/// and a `MSG_DONE`, in one read, has its caller told all the output and the exit code,
/// last of all that the read leads to. Frames for other requests may stand between them.
pub proof fn answer_reaches_caller(
    s: SessionModel,
    id: u32,
    frames: Seq<FrameModel>,
    done: FrameModel,
)
    requires
        s.buf.len() == 0,
        s.pending.contains_key(id),
        s.pending[id] == fresh_request(),
        protocol::frames_fit(frames.push(done), s.limit),
        forall|i: int|
            0 <= i < frames.len() ==> !((#[trigger] frames[i]).kind == MSG_DONE
                && frames[i].req_id == id),
        !protocol::exceeds(
            s.limit,
            pending::sent(frames, MSG_STDOUT, id).len() + pending::sent(
                frames,
                MSG_STDERR,
                id,
            ).len(),
        ),
        done.kind == MSG_DONE,
        done.req_id == id,
    ensures
        ({
            let data = protocol::stream_bytes(frames.push(done));
            let (after, actions) = after_read(s, data);
            &&& !read_is_oversized(s, data)
            &&& after.buf.len() == 0
            &&& actions.len() > 0
            &&& actions.last() == ActionModel::Complete {
                req_id: id,
                result: ExecutionModel {
                    stdout: text::lossy_text(pending::sent(frames, MSG_STDOUT, id)),
                    stderr: text::lossy_text(pending::sent(frames, MSG_STDERR, id)),
                    exit_code: pending::done_code(done.payload),
                },
            }
        }),
{
    let all = frames.push(done);
    let data = protocol::stream_bytes(all);
    assert(s.buf + data =~= data);
    protocol::encoded_stream_decodes(all, s.limit);
    let out = pending::sent(frames, MSG_STDOUT, id);
    let err = pending::sent(frames, MSG_STDERR, id);
    assert(Seq::<u8>::empty() + out =~= out);
    assert(Seq::<u8>::empty() + err =~= err);
    pending::worker_output_is_returned(s.pending, frames, s.limit, id, done);
}

/// What the worker answered is passed on as it is: the caller gets the same output, the
/// same errors and the same exit code, and nothing is killed.
pub proof fn answers_are_passed_on(
    before: SessionModel,
    req_id: u32,
    answer: ExecutionResult,
    after: SessionModel,
    end: RunEnd,
)
    requires
        is_finished(before, req_id, RunEvent::Completed(answer), after, end),
    ensures
        end.result.stdout@ == answer.stdout@,
        end.result.stderr@ == answer.stderr@,
        end.result.exit_code == answer.exit_code,
        end.kill is None,
{
}

/// A request that is not answered fails without output: one that could not be sent says so,
/// and one that took too long says so and has its child killed.
pub proof fn unanswered_requests_fail(
    before: SessionModel,
    req_id: u32,
    event: RunEvent,
    after: SessionModel,
    end: RunEnd,
)
    requires
        is_finished(before, req_id, event, after, end),
        !(event is Completed),
    ensures
        end.result.stdout@.len() == 0,
        end.result.exit_code == -1,
        event is WriteFailed ==> end.result.stderr@ == "zygote write failed"@ && end.kill is None,
        event is TimedOut ==> end.result.stderr@ == "Execution timeout"@ && (end.kill matches Some(
            frame,
        ) && frame@ == protocol::frame_bytes(2, req_id, Seq::empty())),
{
}

/// Ending a request forgets that one and changes nothing else.
pub proof fn ending_touches_one_request(
    before: SessionModel,
    req_id: u32,
    event: RunEvent,
    after: SessionModel,
    end: RunEnd,
    other: u32,
)
    requires
        is_finished(before, req_id, event, after, end),
    ensures
        !after.pending.contains_key(req_id),
        other != req_id ==> after.pending.contains_key(other) == before.pending.contains_key(
            other,
        ),
        other != req_id && before.pending.contains_key(other) ==> after.pending[other]
            == before.pending[other],
        after.running == before.running,
        after.next_id == before.next_id,
        after.buf == before.buf,
        after.limit == before.limit,
{
}

/// A running worker is sent the payload, under the next id, in a frame of the first type;
/// from then on a caller waits for a request without output, and nothing else has changed
/// but the next id, which goes up by one and after 2^32 - 1 to 1. A worker that is not
/// running is sent nothing, and the caller told so.
pub proof fn requests_are_opened(
    before: SessionModel,
    payload: Seq<u8>,
    after: SessionModel,
    start: Start,
    other: u32,
)
    requires
        is_started(before, payload, after, start),
    ensures
        start is Send <==> before.running,
        start matches Start::Refused(result) ==> result.stdout@.len() == 0 && result.stderr@
            == "zygote worker not running"@ && result.exit_code == -1 && after == before,
        start matches Start::Send { req_id, frame } ==> {
            &&& req_id == before.next_id
            &&& frame@ == protocol::frame_bytes(1, req_id, payload)
            &&& after.pending.contains_key(req_id)
            &&& after.pending[req_id].out.len() == 0
            &&& after.pending[req_id].err.len() == 0
            &&& after.pending[req_id].waiting
            &&& other != req_id ==> after.pending.contains_key(other)
                == before.pending.contains_key(other)
            &&& other != req_id && before.pending.contains_key(other) ==> after.pending[other]
                == before.pending[other]
            &&& before.next_id == 4294967295 ==> after.next_id == 1
            &&& before.next_id < 4294967295 ==> after.next_id == before.next_id + 1
            &&& after.running
            &&& after.buf == before.buf
            &&& after.limit == before.limit
        },
{
}

/// A read without bytes, or none, ends the connection; so does a frame above the limit, and
/// nothing else. A connection that has ended is not running, nothing is pending any more,
/// and whoever still waited is told that it was lost. One that goes on stays as it was but
/// for what the frames did, and keeps what is left over.
pub proof fn reads_end_or_go_on(
    before: SessionModel,
    data: Option<Seq<u8>>,
    after: SessionModel,
    actions: Seq<ActionModel>,
    closed: bool,
)
    requires
        is_read_turn(before, data, after, actions, closed),
    ensures
        data is None ==> closed,
        data matches Some(bytes) ==> (closed <==> bytes.len() == 0 || protocol::decoded(
            before.buf + bytes,
            before.limit,
        ).oversized),
        closed ==> !after.running && after.pending.dom().len() == 0 && after.next_id
            == before.next_id && after.limit == before.limit,
        data matches Some(bytes) ==> !closed ==> {
            let d = protocol::decoded(before.buf + bytes, before.limit);
            let done = pending::deliveries(before.pending, d.frames, before.limit);
            &&& after.running == before.running
            &&& after.next_id == before.next_id
            &&& after.limit == before.limit
            &&& after.buf == d.rest
            &&& after.pending == done.pending
            &&& actions == done.actions
        },
        (data is None || data->0.len() == 0) ==> pending::fails_all(
            actions,
            before.pending,
            "zygote connection lost"@,
        ),
        data matches Some(bytes) ==> bytes.len() > 0 && closed ==> {
            let d = protocol::decoded(before.buf + bytes, before.limit);
            let done = pending::deliveries(before.pending, d.frames, before.limit);
            &&& actions.len() >= done.actions.len()
            &&& actions.take(done.actions.len() as int) == done.actions
            &&& pending::fails_all(
                actions.skip(done.actions.len() as int),
                done.pending,
                "zygote connection lost"@,
            )
        },
{
    assert(actions.skip(0) =~= actions);
    if closed {
        assert(after.pending.dom() =~= Set::empty());
    }
}

/// Closing a connection forgets every request and fails those that waited with the message;
/// the rest stays.
pub proof fn closing_fails_those_who_wait(
    before: SessionModel,
    after: SessionModel,
    actions: Seq<ActionModel>,
    message: Seq<char>,
)
    requires
        is_closed(before, after, actions, message),
    ensures
        !after.running,
        after.pending.dom().len() == 0,
        after.next_id == before.next_id,
        after.buf == before.buf,
        after.limit == before.limit,
        pending::fails_all(actions, before.pending, message),
{
    assert(after.pending.dom() =~= Set::empty());
}

} // verus!
