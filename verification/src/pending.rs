//! The requests that wait for a zygote worker, and what its frames do to them.

use std::collections::HashMap;

use vstd::prelude::*;

use crate::protocol;
use crate::protocol::{
    encode_frame, read_be, Frame, FrameModel, MSG_DONE, MSG_KILL, MSG_STDERR, MSG_STDOUT,
};
use crate::runners;
use crate::runners::{failed, ExecutionModel, ExecutionResult};
use crate::text;
use crate::text::{decimal_text, from_utf8_lossy};

verus! {

broadcast use vstd::std_specs::hash::group_hash_axioms;

/// A request that was sent to the worker: the output received so far, and whether its
/// caller still waits for a result.
pub struct Pending {
    pub out: Vec<u8>,
    pub err: Vec<u8>,
    pub waiting: bool,
}

#[verifier::ext_equal]
pub ghost struct PendingModel {
    pub out: Seq<u8>,
    pub err: Seq<u8>,
    pub waiting: bool,
}

impl View for Pending {
    type V = PendingModel;

    open spec fn view(&self) -> PendingModel {
        PendingModel { out: self.out@, err: self.err@, waiting: self.waiting }
    }
}

/// What the server has to do after a frame.
pub enum Action {
    /// Hand the result to the caller of the request.
    Complete { req_id: u32, result: ExecutionResult },
    /// Send the frame to the worker.
    Send { frame: Vec<u8> },
}

pub ghost enum ActionModel {
    Complete { req_id: u32, result: ExecutionModel },
    Send { frame: Seq<u8> },
}

impl View for Action {
    type V = ActionModel;

    open spec fn view(&self) -> ActionModel {
        match self {
            Action::Complete { req_id, result } => ActionModel::Complete {
                req_id: *req_id,
                result: result@,
            },
            Action::Send { frame } => ActionModel::Send { frame: frame@ },
        }
    }
}

pub open spec fn action_models(actions: Seq<Action>) -> Seq<ActionModel> {
    actions.map_values(|a: Action| a@)
}

/// The pending requests after a frame, and what is to be done.
#[verifier::ext_equal]
pub ghost struct Delivery {
    pub pending: Map<u32, PendingModel>,
    pub actions: Seq<ActionModel>,
}

/// What a caller is told whose request exceeded the output limit.
pub open spec fn limit_message(max: nat) -> Seq<char> {
    "output limit exceeded (> "@ + text::decimal(max) + " bytes); process killed"@
}

/// The exit code in the payload of a `MSG_DONE` frame: its first four bytes, or -1 if it
/// is shorter.
pub open spec fn done_code(payload: Seq<u8>) -> int {
    if payload.len() >= 4 {
        protocol::be_signed_value(payload)
    } else {
        -1
    }
}

/// `entry` with the output that `frame` carries.
pub open spec fn with_output(entry: PendingModel, frame: FrameModel) -> PendingModel {
    if frame.kind == MSG_STDOUT {
        PendingModel { out: entry.out + frame.payload, ..entry }
    } else {
        PendingModel { err: entry.err + frame.payload, ..entry }
    }
}

/// What a frame does.
///
/// Output is added to the request that it belongs to. A request that then holds more
/// bytes than the limit is forgotten, its caller (if any still waits) is told so, and the
/// worker is told to kill the child. `MSG_DONE` completes a request whose caller waits.
/// Frames for unknown requests and of other types do nothing.
pub open spec fn delivery(
    pending: Map<u32, PendingModel>,
    frame: FrameModel,
    limit: Option<nat>,
) -> Delivery {
    let id = frame.req_id;
    let nothing = Delivery { pending, actions: Seq::<ActionModel>::empty() };
    if !pending.contains_key(id) {
        nothing
    } else if frame.kind == MSG_STDOUT || frame.kind == MSG_STDERR {
        let entry = with_output(pending[id], frame);
        if protocol::exceeds(limit, entry.out.len() + entry.err.len()) {
            let kill = ActionModel::Send {
                frame: protocol::frame_bytes(MSG_KILL, id, Seq::<u8>::empty()),
            };
            let told = ActionModel::Complete {
                req_id: id,
                result: ExecutionModel {
                    stdout: text::lossy_text(entry.out),
                    stderr: limit_message(limit->0),
                    exit_code: -1,
                },
            };
            Delivery {
                pending: pending.remove(id),
                actions: if entry.waiting {
                    seq![told, kill]
                } else {
                    seq![kill]
                },
            }
        } else {
            Delivery { pending: pending.insert(id, entry), ..nothing }
        }
    } else if frame.kind == MSG_DONE && pending[id].waiting {
        Delivery {
            pending: pending.insert(id, PendingModel { waiting: false, ..pending[id] }),
            actions: seq![
                ActionModel::Complete {
                    req_id: id,
                    result: ExecutionModel {
                        stdout: text::lossy_text(pending[id].out),
                        stderr: text::lossy_text(pending[id].err),
                        exit_code: done_code(frame.payload),
                    },
                },
            ],
        }
    } else {
        nothing
    }
}

/// What a sequence of frames does, one after another.
pub open spec fn deliveries(
    pending: Map<u32, PendingModel>,
    frames: Seq<FrameModel>,
    limit: Option<nat>,
) -> Delivery
    decreases frames.len(),
{
    if frames.len() == 0 {
        Delivery { pending, actions: Seq::<ActionModel>::empty() }
    } else {
        let before = deliveries(pending, frames.drop_last(), limit);
        let last = delivery(before.pending, frames.last(), limit);
        Delivery { pending: last.pending, actions: before.actions + last.actions }
    }
}

/// No request holds more output than the limit.
pub open spec fn within_limit(pending: Map<u32, PendingModel>, limit: Option<nat>) -> bool {
    forall|id: u32| #[trigger]
        pending.contains_key(id) ==> !protocol::exceeds(
            limit,
            pending[id].out.len() + pending[id].err.len(),
        )
}

/// The completions that fail every request whose caller waits, each once, in any order.
pub open spec fn fails_all(
    actions: Seq<ActionModel>,
    pending: Map<u32, PendingModel>,
    message: Seq<char>,
) -> bool {
    &&& actions.no_duplicates()
    &&& forall|a: ActionModel| #[trigger]
        actions.contains(a) <==> exists|id: u32|
            #![trigger pending[id]]
            pending.contains_key(id) && pending[id].waiting && a == (ActionModel::Complete {
                req_id: id,
                result: runners::failure(message),
            })
}

fn limit_text(max: usize) -> (res: String)
    ensures
        res@ == limit_message(max as nat),
{
    let mut res = "output limit exceeded (> ".to_owned();
    res.append(decimal_text(max as u64).as_str());
    res.append(" bytes); process killed");
    res
}

fn read_done_code(payload: &Vec<u8>) -> (res: i32)
    ensures
        res == done_code(payload@),
{
    if payload.len() >= 4 {
        let value = read_be(payload, 0);
        assert(payload@.skip(0) =~= payload@);
        if value < 0x8000_0000 {
            value as i32
        } else {
            (value as i64 - 0x1_0000_0000) as i32
        }
    } else {
        -1
    }
}

proof fn lemma_contains_push<A>(s: Seq<A>, a: A)
    ensures
        forall|x: A| #[trigger] s.push(a).contains(x) <==> s.contains(x) || x == a,
{
    assert forall|x: A| #[trigger] s.push(a).contains(x) <==> s.contains(x) || x == a by {
        if s.contains(x) {
            let k = choose|k: int| 0 <= k < s.len() && s[k] == x;
            assert(s.push(a)[k] == x);
        }
        if x == a {
            assert(s.push(a)[s.len() as int] == x);
        }
    }
}

/// The pending requests of one worker, by request id.
pub struct PendingTable {
    pub entries: HashMap<u32, Pending>,
}

impl View for PendingTable {
    type V = Map<u32, PendingModel>;

    open spec fn view(&self) -> Map<u32, PendingModel> {
        self.entries@.map_values(|p: Pending| p@)
    }
}

impl PendingTable {
    pub fn new() -> (res: Self)
        ensures
            res@ == Map::<u32, PendingModel>::empty(),
    {
        let res = PendingTable { entries: HashMap::new() };
        assert(res@ =~= Map::<u32, PendingModel>::empty());
        res
    }

    /// Adds a request that has no output yet and whose caller waits.
    pub fn insert(&mut self, req_id: u32)
        ensures
            final(self)@ == old(self)@.insert(
                req_id,
                PendingModel {
                    out: Seq::<u8>::empty(),
                    err: Seq::<u8>::empty(),
                    waiting: true,
                },
            ),
    {
        let entry = Pending { out: Vec::new(), err: Vec::new(), waiting: true };
        self.entries.insert(req_id, entry);
        assert(self@ =~= old(self)@.insert(req_id, entry@));
    }

    /// Forgets a request.
    pub fn remove(&mut self, req_id: u32)
        ensures
            final(self)@ == old(self)@.remove(req_id),
    {
        self.entries.remove(&req_id);
        assert(self@ =~= old(self)@.remove(req_id));
    }

    /// Applies a frame.
    pub fn deliver(&mut self, frame: Frame, limit: Option<usize>) -> (res: Vec<Action>)
        ensures
            ({
                let d = delivery(old(self)@, frame@, protocol::limit_model(limit));
                final(self)@ == d.pending && action_models(res@) == d.actions
            }),
    {
        let id = frame.req_id;
        let mut actions: Vec<Action> = Vec::new();
        let ghost d = delivery(self@, frame@, protocol::limit_model(limit));
        if let Some(mut entry) = self.entries.remove(&id) {
            let ghost before = entry@;
            if frame.kind == MSG_STDOUT || frame.kind == MSG_STDERR {
                if frame.kind == MSG_STDOUT {
                    entry.out.extend_from_slice(frame.payload.as_slice());
                } else {
                    entry.err.extend_from_slice(frame.payload.as_slice());
                }
                assert(entry@ =~= with_output(before, frame@));
                if let Some(max) = limit {
                    if entry.out.len() > max || entry.err.len() > max - entry.out.len() {
                        if entry.waiting {
                            let result = ExecutionResult {
                                stdout: from_utf8_lossy(entry.out.as_slice()),
                                stderr: limit_text(max),
                                exit_code: -1,
                            };
                            actions.push(Action::Complete { req_id: id, result });
                        }
                        actions.push(Action::Send { frame: encode_frame(MSG_KILL, id, &[]) });
                        assert(self@ =~= d.pending);
                        assert(action_models(actions@) =~= d.actions);
                        return actions;
                    }
                }
            } else if frame.kind == MSG_DONE && entry.waiting {
                let result = ExecutionResult {
                    stdout: from_utf8_lossy(entry.out.as_slice()),
                    stderr: from_utf8_lossy(entry.err.as_slice()),
                    exit_code: read_done_code(&frame.payload),
                };
                entry.waiting = false;
                actions.push(Action::Complete { req_id: id, result });
            }
            self.entries.insert(id, entry);
        }
        assert(self@ =~= d.pending);
        assert(action_models(actions@) =~= d.actions);
        actions
    }

    /// The ids of the pending requests, each once, in any order.
    fn ids(&self) -> (res: Vec<u32>)
        ensures
            res@.no_duplicates(),
            forall|id: u32| #[trigger] res@.contains(id) <==> self@.contains_key(id),
    {
        let mut res: Vec<u32> = Vec::new();
        for id in it: self.entries.keys()
            invariant
                res@ == it.seq().unref().take(it.index() as int),
        {
            res.push(*id);
        }
        proof {
            let all = vstd::std_specs::iter::IteratorSpec::remaining(
                &vstd::std_specs::hash::spec_keys_iter(&self.entries),
            );
            assert(res@ =~= all.unref());
            assert forall|id: u32| #[trigger] res@.contains(id) <==> self@.contains_key(id) by {
                assert(all.unref().to_set().contains(id) <==> self.entries@.dom().contains(id));
            }
        }
        res
    }

    /// Forgets every request, and fails those whose callers wait.
    pub fn fail_all(&mut self, message: &str) -> (res: Vec<Action>)
        ensures
            final(self)@ == Map::<u32, PendingModel>::empty(),
            fails_all(action_models(res@), old(self)@, message@),
    {
        let ghost pending = self@;
        let ids = self.ids();
        let mut actions: Vec<Action> = Vec::new();
        let ghost mut done: Seq<u32> = Seq::empty();
        let mut i: usize = 0;
        while i < ids.len()
            invariant
                i <= ids@.len(),
                pending == self@,
                ids@.no_duplicates(),
                forall|id: u32| #[trigger] ids@.contains(id) <==> pending.contains_key(id),
                done.len() == actions@.len(),
                done.no_duplicates(),
                forall|j: int|
                    0 <= j < done.len() ==> (#[trigger] actions@[j])@ == (ActionModel::Complete {
                        req_id: done[j],
                        result: runners::failure(message@),
                    }),
                forall|id: u32| #[trigger]
                    done.contains(id) <==> ids@.take(i as int).contains(id) && pending[id].waiting,
            decreases ids@.len() - i,
        {
            let id = ids[i];
            proof {
                assert(ids@.contains(id));
                assert(ids@.take(i + 1) =~= ids@.take(i as int).push(id));
                lemma_contains_push(ids@.take(i as int), id);
                lemma_contains_push(done, id);
                assert(!ids@.take(i as int).contains(id));
                assert(!done.contains(id));
            }
            if let Some(entry) = self.entries.get(&id) {
                if entry.waiting {
                    let result = failed(message.to_owned());
                    actions.push(Action::Complete { req_id: id, result });
                    proof {
                        done = done.push(id);
                    }
                }
            }
            i = i + 1;
        }
        self.entries.clear();
        assert(self@ =~= Map::<u32, PendingModel>::empty());
        proof {
            let models = action_models(actions@);
            assert(ids@.take(i as int) =~= ids@);
            assert forall|a: ActionModel| #[trigger] models.contains(a) <==> exists|id: u32|
                #![trigger pending[id]]
                pending.contains_key(id) && pending[id].waiting && a == (ActionModel::Complete {
                    req_id: id,
                    result: runners::failure(message@),
                }) by {
                if models.contains(a) {
                    let k = choose|k: int| 0 <= k < models.len() && models[k] == a;
                    let id = done[k];
                    assert(done.contains(id));
                    assert(pending.contains_key(id) && pending[id].waiting);
                    assert(actions@[k]@ == a);
                }
                if exists|id: u32|
                    #![trigger pending[id]]
                    pending.contains_key(id) && pending[id].waiting && a == (ActionModel::Complete {
                        req_id: id,
                        result: runners::failure(message@),
                    }) {
                    let id = choose|id: u32|
                        #![trigger pending[id]]
                        pending.contains_key(id) && pending[id].waiting && a == (
                        ActionModel::Complete { req_id: id, result: runners::failure(message@) });
                    assert(done.contains(id));
                    let k = choose|k: int| 0 <= k < done.len() && done[k] == id;
                    assert(actions@[k]@ == a);
                    assert(models[k] == a);
                }
            }
            assert forall|x: int, y: int|
                0 <= x < models.len() && 0 <= y < models.len() && x != y implies models[x]
                != models[y] by {
                assert(actions@[x]@ == models[x]);
                assert(actions@[y]@ == models[y]);
                assert(done[x] != done[y]);
            }
        }
        actions
    }

    /// Whether a request is pending.
    pub fn contains(&self, req_id: u32) -> (res: bool)
        ensures
            res == self@.contains_key(req_id),
    {
        self.entries.contains_key(&req_id)
    }
}

/// Whether the caller of a request waits, as a number.
pub open spec fn waits(pending: Map<u32, PendingModel>, id: u32) -> nat {
    if pending.contains_key(id) && pending[id].waiting {
        1
    } else {
        0
    }
}

/// How many of the actions complete a request.
pub open spec fn completions(actions: Seq<ActionModel>, id: u32) -> nat
    decreases actions.len(),
{
    if actions.len() == 0 {
        0
    } else {
        let here: nat = match actions.last() {
            ActionModel::Complete { req_id, .. } => if req_id == id {
                1
            } else {
                0
            },
            ActionModel::Send { .. } => 0,
        };
        completions(actions.drop_last(), id) + here
    }
}

proof fn lemma_completions_add(a: Seq<ActionModel>, b: Seq<ActionModel>, id: u32)
    ensures
        completions(a + b, id) == completions(a, id) + completions(b, id),
    decreases b.len(),
{
    if b.len() == 0 {
        assert(a + b =~= a);
    } else {
        lemma_completions_add(a, b.drop_last(), id);
        assert((a + b).drop_last() =~= a + b.drop_last());
    }
}

/// Frames keep every request within the output limit.
pub proof fn deliveries_keep_limit(
    pending: Map<u32, PendingModel>,
    frames: Seq<FrameModel>,
    limit: Option<nat>,
)
    requires
        within_limit(pending, limit),
    ensures
        within_limit(deliveries(pending, frames, limit).pending, limit),
    decreases frames.len(),
{
    if frames.len() > 0 {
        deliveries_keep_limit(pending, frames.drop_last(), limit);
    }
}

/// A frame touches no other request than its own.
pub proof fn delivery_is_local(
    pending: Map<u32, PendingModel>,
    frame: FrameModel,
    limit: Option<nat>,
    other: u32,
)
    requires
        other != frame.req_id,
    ensures
        delivery(pending, frame, limit).pending.contains_key(other) == pending.contains_key(other),
        pending.contains_key(other) ==> delivery(pending, frame, limit).pending[other]
            == pending[other],
        completions(delivery(pending, frame, limit).actions, other) == 0,
{
    reveal_with_fuel(completions, 3);
}

/// Frames that arrive in two batches do what they do in one.
pub proof fn deliveries_in_parts(
    pending: Map<u32, PendingModel>,
    first: Seq<FrameModel>,
    second: Seq<FrameModel>,
    limit: Option<nat>,
)
    ensures
        ({
            let part = deliveries(pending, first, limit);
            let next = deliveries(part.pending, second, limit);
            deliveries(pending, first + second, limit) == Delivery {
                pending: next.pending,
                actions: part.actions + next.actions,
            }
        }),
    decreases second.len(),
{
    let part = deliveries(pending, first, limit);
    if second.len() == 0 {
        assert(first + second =~= first);
        assert(part.actions + Seq::<ActionModel>::empty() =~= part.actions);
    } else {
        deliveries_in_parts(pending, first, second.drop_last(), limit);
        assert((first + second).drop_last() =~= first + second.drop_last());
        let before = deliveries(part.pending, second.drop_last(), limit);
        let last = delivery(before.pending, second.last(), limit);
        assert((part.actions + before.actions) + last.actions =~= part.actions + (before.actions
            + last.actions));
    }
}

/// A caller that waits is answered at most once, and one that does not wait never:
/// after any frames, the answers given to a request and its waiting caller add up to what
/// was waiting before.
pub proof fn answered_at_most_once(
    pending: Map<u32, PendingModel>,
    frames: Seq<FrameModel>,
    limit: Option<nat>,
    id: u32,
)
    ensures
        ({
            let d = deliveries(pending, frames, limit);
            completions(d.actions, id) + waits(d.pending, id) == waits(pending, id)
        }),
    decreases frames.len(),
{
    if frames.len() > 0 {
        answered_at_most_once(pending, frames.drop_last(), limit, id);
        let before = deliveries(pending, frames.drop_last(), limit);
        let last = delivery(before.pending, frames.last(), limit);
        lemma_completions_add(before.actions, last.actions, id);
        reveal_with_fuel(completions, 3);
        if last.actions.len() == 2 {
            assert(last.actions.drop_last() =~= seq![last.actions[0]]);
        }
    }
}

/// What the frames of one type carry for a request, put together.
pub open spec fn sent(frames: Seq<FrameModel>, kind: u8, id: u32) -> Seq<u8>
    decreases frames.len(),
{
    if frames.len() == 0 {
        Seq::empty()
    } else {
        let front = sent(frames.drop_last(), kind, id);
        if frames.last().kind == kind && frames.last().req_id == id {
            front + frames.last().payload
        } else {
            front
        }
    }
}

/// Output is kept as it comes: until its `MSG_DONE`, and as long as it stays within the
/// limit, a request holds what it held and all that was sent for it, in order, whatever
/// else is sent for other requests.
pub proof fn output_is_kept(
    pending: Map<u32, PendingModel>,
    frames: Seq<FrameModel>,
    limit: Option<nat>,
    id: u32,
)
    requires
        pending.contains_key(id),
        forall|i: int|
            0 <= i < frames.len() ==> !((#[trigger] frames[i]).kind == MSG_DONE
                && frames[i].req_id == id),
        !protocol::exceeds(
            limit,
            pending[id].out.len() + sent(frames, MSG_STDOUT, id).len() + pending[id].err.len()
                + sent(frames, MSG_STDERR, id).len(),
        ),
    ensures
        deliveries(pending, frames, limit).pending.contains_key(id),
        deliveries(pending, frames, limit).pending[id] == (PendingModel {
            out: pending[id].out + sent(frames, MSG_STDOUT, id),
            err: pending[id].err + sent(frames, MSG_STDERR, id),
            waiting: pending[id].waiting,
        }),
    decreases frames.len(),
{
    let entry = pending[id];
    if frames.len() == 0 {
        assert(entry.out + Seq::<u8>::empty() =~= entry.out);
        assert(entry.err + Seq::<u8>::empty() =~= entry.err);
    } else {
        let front = frames.drop_last();
        let last = frames.last();
        assert forall|i: int| 0 <= i < front.len() implies !((#[trigger] front[i]).kind
            == MSG_DONE && front[i].req_id == id) by {
            assert(front[i] == frames[i]);
        }
        assert(!(frames[frames.len() - 1].kind == MSG_DONE && frames[frames.len() - 1].req_id
            == id));
        output_is_kept(pending, front, limit, id);
        let before = deliveries(pending, front, limit).pending;
        if last.req_id == id {
            let out = sent(front, MSG_STDOUT, id);
            let err = sent(front, MSG_STDERR, id);
            assert((entry.out + out) + last.payload =~= entry.out + (out + last.payload));
            assert((entry.err + err) + last.payload =~= entry.err + (err + last.payload));
        } else {
            delivery_is_local(before, last, limit, id);
        }
    }
}

/// What the worker sends for a request is what its caller gets: all its output, in order,
/// and the exit code of its `MSG_DONE`, as long as the output stays within the limit.
pub proof fn worker_output_is_returned(
    pending: Map<u32, PendingModel>,
    frames: Seq<FrameModel>,
    limit: Option<nat>,
    id: u32,
    done: FrameModel,
)
    requires
        pending.contains_key(id),
        pending[id].waiting,
        forall|i: int|
            0 <= i < frames.len() ==> !((#[trigger] frames[i]).kind == MSG_DONE
                && frames[i].req_id == id),
        !protocol::exceeds(
            limit,
            pending[id].out.len() + sent(frames, MSG_STDOUT, id).len() + pending[id].err.len()
                + sent(frames, MSG_STDERR, id).len(),
        ),
        done.kind == MSG_DONE,
        done.req_id == id,
    ensures
        deliveries(pending, frames.push(done), limit).actions == deliveries(
            pending,
            frames,
            limit,
        ).actions + seq![
            ActionModel::Complete {
                req_id: id,
                result: ExecutionModel {
                    stdout: text::lossy_text(pending[id].out + sent(frames, MSG_STDOUT, id)),
                    stderr: text::lossy_text(pending[id].err + sent(frames, MSG_STDERR, id)),
                    exit_code: done_code(done.payload),
                },
            },
        ],
{
    output_is_kept(pending, frames, limit, id);
    assert(frames.push(done).drop_last() =~= frames);
}

/// Once more output has been sent for a request than the limit, the worker was told to kill
/// the request's child, and nothing of the request is held any more.
pub proof fn excess_output_is_killed(
    pending: Map<u32, PendingModel>,
    frames: Seq<FrameModel>,
    limit: Option<nat>,
    id: u32,
)
    requires
        pending.contains_key(id),
        within_limit(pending, limit),
        forall|i: int|
            0 <= i < frames.len() ==> !((#[trigger] frames[i]).kind == MSG_DONE
                && frames[i].req_id == id),
        protocol::exceeds(
            limit,
            pending[id].out.len() + sent(frames, MSG_STDOUT, id).len() + pending[id].err.len()
                + sent(frames, MSG_STDERR, id).len(),
        ),
    ensures
        deliveries(pending, frames, limit).actions.contains(
            ActionModel::Send {
                frame: protocol::frame_bytes(MSG_KILL, id, Seq::<u8>::empty()),
            },
        ),
        !deliveries(pending, frames, limit).pending.contains_key(id),
    decreases frames.len(),
{
    let kill = ActionModel::Send {
        frame: protocol::frame_bytes(MSG_KILL, id, Seq::<u8>::empty()),
    };
    if frames.len() > 0 {
        let front = frames.drop_last();
        let last = frames.last();
        assert forall|i: int| 0 <= i < front.len() implies !((#[trigger] front[i]).kind
            == MSG_DONE && front[i].req_id == id) by {
            assert(front[i] == frames[i]);
        }
        let before = deliveries(pending, front, limit);
        let then = delivery(before.pending, last, limit);
        let all = deliveries(pending, frames, limit).actions;
        if protocol::exceeds(
            limit,
            pending[id].out.len() + sent(front, MSG_STDOUT, id).len() + pending[id].err.len()
                + sent(front, MSG_STDERR, id).len(),
        ) {
            excess_output_is_killed(pending, front, limit, id);
            let k = before.actions.index_of(kill);
            assert(all[k] == kill);
        } else {
            output_is_kept(pending, front, limit, id);
            let k = then.actions.len() - 1;
            assert(then.actions[k] == kill);
            assert(all[before.actions.len() + k] == kill);
        }
    }
}

/// The exit code of a request is in the first four bytes of its last frame, most
/// significant first, in two's complement; without four bytes it is -1.
pub proof fn exit_codes_are_read(payload: Seq<u8>)
    ensures
        payload.len() < 4 ==> done_code(payload) == -1,
        payload.len() >= 4 && payload[0] < 128 ==> done_code(payload) == payload[0] * 16777216
            + payload[1] * 65536 + payload[2] * 256 + payload[3],
        payload.len() >= 4 && payload[0] >= 128 ==> done_code(payload) == payload[0] * 16777216
            + payload[1] * 65536 + payload[2] * 256 + payload[3] - 4294967296,
{
}

/// A frame for a request that is not pending does nothing, nor does one of a type that the
/// worker does not send.
pub proof fn strange_frames_do_nothing(
    pending: Map<u32, PendingModel>,
    frame: FrameModel,
    limit: Option<nat>,
)
    requires
        !pending.contains_key(frame.req_id) || frame.kind < 3 || frame.kind > 5,
    ensures
        delivery(pending, frame, limit).pending == pending,
        delivery(pending, frame, limit).actions.len() == 0,
{
}

/// Output goes behind what the request has of the same kind, and nowhere else, and as long
/// as both kinds together are within the limit nobody is told anything.
pub proof fn output_is_collected(
    pending: Map<u32, PendingModel>,
    frame: FrameModel,
    limit: Option<nat>,
)
    requires
        pending.contains_key(frame.req_id),
        frame.kind == 3 || frame.kind == 4,
        limit matches Some(max) ==> pending[frame.req_id].out.len()
            + pending[frame.req_id].err.len() + frame.payload.len() <= max,
    ensures
        ({
            let d = delivery(pending, frame, limit);
            let old_entry = pending[frame.req_id];
            let entry = d.pending[frame.req_id];
            &&& d.actions.len() == 0
            &&& d.pending.dom() == pending.dom()
            &&& frame.kind == 3 ==> entry.out == old_entry.out + frame.payload && entry.err
                == old_entry.err
            &&& frame.kind == 4 ==> entry.err == old_entry.err + frame.payload && entry.out
                == old_entry.out
            &&& entry.waiting == old_entry.waiting
        }),
{
    let d = delivery(pending, frame, limit);
    assert(d.pending.dom() =~= pending.dom());
}

/// Output that takes a request above the limit ends it: the request is forgotten, its
/// caller, if one waits, gets the output so far and is told of the limit, and the worker is
/// told to kill the child.
pub proof fn excess_is_told(
    pending: Map<u32, PendingModel>,
    frame: FrameModel,
    max: nat,
)
    requires
        pending.contains_key(frame.req_id),
        frame.kind == 3 || frame.kind == 4,
        pending[frame.req_id].out.len() + pending[frame.req_id].err.len() + frame.payload.len()
            > max,
    ensures
        ({
            let d = delivery(pending, frame, Some(max));
            let id = frame.req_id;
            let out = if frame.kind == 3 {
                pending[id].out + frame.payload
            } else {
                pending[id].out
            };
            let told = ActionModel::Complete {
                req_id: id,
                result: ExecutionModel {
                    stdout: text::lossy_text(out),
                    stderr: "output limit exceeded (> "@ + text::decimal(max)
                        + " bytes); process killed"@,
                    exit_code: -1,
                },
            };
            let kill = ActionModel::Send {
                frame: protocol::frame_bytes(2, id, Seq::<u8>::empty()),
            };
            &&& d.pending == pending.remove(id)
            &&& pending[id].waiting ==> d.actions == seq![told, kill]
            &&& !pending[id].waiting ==> d.actions == seq![kill]
        }),
{
}

/// The end of a request whose caller waits is told to it, with the output so far; the
/// output is kept, and the caller waits no more. If none waits, nothing happens.
pub proof fn ends_are_told(
    pending: Map<u32, PendingModel>,
    frame: FrameModel,
    limit: Option<nat>,
)
    requires
        pending.contains_key(frame.req_id),
        frame.kind == 5,
    ensures
        ({
            let d = delivery(pending, frame, limit);
            let id = frame.req_id;
            let entry = pending[id];
            &&& entry.waiting ==> d.actions == seq![
                ActionModel::Complete {
                    req_id: id,
                    result: ExecutionModel {
                        stdout: text::lossy_text(entry.out),
                        stderr: text::lossy_text(entry.err),
                        exit_code: done_code(frame.payload),
                    },
                },
            ]
            &&& entry.waiting ==> d.pending == pending.insert(
                id,
                PendingModel { out: entry.out, err: entry.err, waiting: false },
            )
            &&& !entry.waiting ==> d.actions.len() == 0 && d.pending == pending
        }),
{
}

/// Frames take effect one after the other.
pub proof fn frames_take_effect_in_turn(
    pending: Map<u32, PendingModel>,
    frames: Seq<FrameModel>,
    frame: FrameModel,
    limit: Option<nat>,
)
    ensures
        deliveries(pending, Seq::empty(), limit).pending == pending,
        deliveries(pending, Seq::empty(), limit).actions.len() == 0,
        ({
            let before = deliveries(pending, frames, limit);
            let last = delivery(before.pending, frame, limit);
            let all = deliveries(pending, frames.push(frame), limit);
            all.pending == last.pending && all.actions == before.actions + last.actions
        }),
{
    assert(frames.push(frame).drop_last() =~= frames);
}

/// The models of actions are those of the actions, one by one, and hold all that they do.
pub proof fn actions_are_modelled(actions: Seq<Action>, i: int)
    requires
        0 <= i < actions.len(),
    ensures
        action_models(actions).len() == actions.len(),
        match actions[i] {
            Action::Complete { req_id, result } => action_models(actions)[i]
                matches ActionModel::Complete { req_id: id, result: r } && id == req_id
                && r.stdout == result.stdout@ && r.stderr == result.stderr@ && r.exit_code
                == result.exit_code,
            Action::Send { frame } => action_models(actions)[i] matches ActionModel::Send {
                frame: f,
            } && f == frame@,
        },
{
}

/// Whoever is failed is told the message, without output and with the exit code -1, and
/// they are those that waited.
pub proof fn the_failed_are_told_why(
    actions: Seq<ActionModel>,
    pending: Map<u32, PendingModel>,
    message: Seq<char>,
    id: u32,
    i: int,
)
    requires
        fails_all(actions, pending, message),
    ensures
        0 <= i < actions.len() ==> (actions[i] matches ActionModel::Complete { req_id, result }
            && pending.contains_key(req_id) && pending[req_id].waiting && result.stdout.len()
            == 0 && result.stderr == message && result.exit_code == -1),
        pending.contains_key(id) && pending[id].waiting ==> exists|k: int|
            0 <= k < actions.len() && (#[trigger] actions[k] matches ActionModel::Complete {
                req_id,
                ..
            } && req_id == id),
{
    if 0 <= i < actions.len() {
        assert(actions.contains(actions[i]));
    }
    if pending.contains_key(id) && pending[id].waiting {
        let answer = ActionModel::Complete { req_id: id, result: runners::failure(message) };
        assert(pending[id].waiting);
        assert(actions.contains(answer));
        let k = actions.index_of(answer);
        assert(actions[k] == answer);
    }
}

/// A request that is added waits without output, and the others stay.
pub proof fn tables_keep_requests(
    table: &mut PendingTable,
    req_id: u32,
    other: u32,
)
    requires
        call_ensures(PendingTable::insert, (table, req_id), ()),
    ensures
        final(table)@.contains_key(req_id),
        final(table)@[req_id].out.len() == 0,
        final(table)@[req_id].err.len() == 0,
        final(table)@[req_id].waiting,
        other != req_id ==> final(table)@.contains_key(other) == old(table)@.contains_key(other),
        other != req_id && old(table)@.contains_key(other) ==> final(table)@[other]
            == old(table)@[other],
{
}

/// A request that is removed is gone, and the others stay.
pub proof fn tables_forget_requests(table: &mut PendingTable, req_id: u32, other: u32)
    requires
        call_ensures(PendingTable::remove, (table, req_id), ()),
    ensures
        !final(table)@.contains_key(req_id),
        other != req_id ==> final(table)@.contains_key(other) == old(table)@.contains_key(other),
        other != req_id && old(table)@.contains_key(other) ==> final(table)@[other]
            == old(table)@[other],
{
}

} // verus!
