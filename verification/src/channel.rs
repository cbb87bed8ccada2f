//! The channel that jobs wait in, by number.
//!
//! Both ends have one owner, so what the channel holds changes by its calls alone. The
//! receiving end stands for the channel; the sending end is linked to it.

use vstd::prelude::*;

verus! {

/// `async_channel::Sender`: the end that jobs go in by.
#[verifier::external_type_specification]
#[verifier::external_body]
#[verifier::reject_recursive_types(T)]
pub struct ExSender<T>(async_channel::Sender<T>);

/// `async_channel::Receiver`: the end that jobs come out by.
#[verifier::external_type_specification]
#[verifier::external_body]
#[verifier::reject_recursive_types(T)]
pub struct ExReceiver<T>(async_channel::Receiver<T>);

/// What the channel holds, the first to come out first.
pub uninterp spec fn contents(receiver: async_channel::Receiver<u64>) -> Seq<u64>;

/// Whether the channel was closed: it takes nothing more in.
pub uninterp spec fn closed(receiver: async_channel::Receiver<u64>) -> bool;

/// Whether the two ends are those of one channel, and its only ones.
pub uninterp spec fn linked(
    sender: async_channel::Sender<u64>,
    receiver: async_channel::Receiver<u64>,
) -> bool;

/// `async_channel::unbounded`: the two ends of a new channel, which is empty and open.
#[verifier::external_body]
fn unbounded() -> (res: (async_channel::Sender<u64>, async_channel::Receiver<u64>))
    ensures
        linked(res.0, res.1),
        contents(res.1) == Seq::<u64>::empty(),
        !closed(res.1),
{
    async_channel::unbounded()
}

/// `Sender::try_send` on an unbounded channel, as whether it succeeded: an open channel
/// takes the job in behind all others, a closed one refuses it. The receiving end is there
/// for what it stands for.
#[verifier::external_body]
fn try_send(
    sender: &async_channel::Sender<u64>,
    receiver: &mut async_channel::Receiver<u64>,
    job: u64,
) -> (res: bool)
    requires
        linked(*sender, *old(receiver)),
    ensures
        linked(*sender, *final(receiver)),
        res == !closed(*old(receiver)),
        closed(*final(receiver)) == closed(*old(receiver)),
        res ==> contents(*final(receiver)) == contents(*old(receiver)).push(job),
        !res ==> contents(*final(receiver)) == contents(*old(receiver)),
{
    let _ = receiver;
    sender.try_send(job).is_ok()
}

/// `Receiver::try_recv`, with either error as nothing: takes out the job that has waited
/// longest. There is none if the channel is empty, whether or not it is closed.
#[verifier::external_body]
fn try_recv(
    sender: &async_channel::Sender<u64>,
    receiver: &mut async_channel::Receiver<u64>,
) -> (res: Option<u64>)
    requires
        linked(*sender, *old(receiver)),
    ensures
        linked(*sender, *final(receiver)),
        closed(*final(receiver)) == closed(*old(receiver)),
        match res {
            Some(job) => contents(*old(receiver)) == seq![job] + contents(*final(receiver)),
            None => contents(*old(receiver)).len() == 0 && contents(*final(receiver)).len() == 0,
        },
{
    let _ = sender;
    receiver.try_recv().ok()
}

/// `Receiver::close`: the channel takes nothing more in, and keeps what it holds.
#[verifier::external_body]
fn close(
    sender: &async_channel::Sender<u64>,
    receiver: &mut async_channel::Receiver<u64>,
)
    requires
        linked(*sender, *old(receiver)),
    ensures
        linked(*sender, *final(receiver)),
        closed(*final(receiver)),
        contents(*final(receiver)) == contents(*old(receiver)),
{
    let _ = sender;
    receiver.close();
}

/// A queue of jobs.
pub struct JobQueue {
    sender: async_channel::Sender<u64>,
    receiver: async_channel::Receiver<u64>,
}

/// The state of a [`JobQueue`].
#[verifier::ext_equal]
pub ghost struct JobsModel {
    /// The jobs that wait, in the order in which they were sent.
    pub waiting: Seq<u64>,
    /// Whether no job is taken in any more.
    pub closed: bool,
}

impl View for JobQueue {
    type V = JobsModel;

    closed spec fn view(&self) -> JobsModel {
        JobsModel { waiting: contents(self.receiver), closed: closed(self.receiver) }
    }
}

impl JobQueue {
    /// What holds of every queue: its two ends are those of one channel.
    pub closed spec fn connected(&self) -> bool {
        linked(self.sender, self.receiver)
    }

    pub fn new() -> (res: Self)
        ensures
            res.connected(),
            res@ == (JobsModel { waiting: Seq::empty(), closed: false }),
    {
        let (sender, receiver) = unbounded();
        JobQueue { sender, receiver }
    }

    /// Adds a job behind all others, unless the queue is closed.
    pub fn send(&mut self, job: u64) -> (res: bool)
        requires
            old(self).connected(),
        ensures
            final(self).connected(),
            res == !old(self)@.closed,
            final(self)@ == (if res {
                JobsModel { waiting: old(self)@.waiting.push(job), ..old(self)@ }
            } else {
                old(self)@
            }),
    {
        try_send(&self.sender, &mut self.receiver, job)
    }

    /// Takes out the job that has waited longest.
    pub fn receive(&mut self) -> (res: Option<u64>)
        requires
            old(self).connected(),
        ensures
            final(self).connected(),
            match res {
                Some(job) => {
                    &&& old(self)@.waiting.len() > 0
                    &&& job == old(self)@.waiting[0]
                    &&& final(self)@ == (JobsModel {
                        waiting: old(self)@.waiting.skip(1),
                        ..old(self)@
                    })
                },
                None => old(self)@.waiting.len() == 0 && final(self)@ == old(self)@,
            },
    {
        let ghost before = self@;
        let res = try_recv(&self.sender, &mut self.receiver);
        assert(res is Some ==> self@.waiting =~= before.waiting.skip(1));
        assert(res is None ==> self@.waiting =~= before.waiting);
        res
    }

    /// Lets no more jobs in.
    pub fn close(&mut self)
        requires
            old(self).connected(),
        ensures
            final(self).connected(),
            final(self)@ == (JobsModel { closed: true, ..old(self)@ }),
    {
        close(&self.sender, &mut self.receiver)
    }
}

/// A job that is sent to an open queue comes behind all others, and one that is sent to a
/// closed queue is refused.
pub proof fn jobs_are_sent(queue: &mut JobQueue, job: u64, res: bool)
    requires
        call_ensures(JobQueue::send, (queue, job), res),
    ensures
        res <==> !old(queue)@.closed,
        res ==> final(queue)@.waiting == old(queue)@.waiting + seq![job],
        !res ==> final(queue)@.waiting == old(queue)@.waiting,
        final(queue)@.closed == old(queue)@.closed,
{
    assert(old(queue)@.waiting.push(job) =~= old(queue)@.waiting + seq![job]);
}

/// The job that has waited longest comes out, and none if none waits.
pub proof fn jobs_are_received(queue: &mut JobQueue, res: Option<u64>)
    requires
        call_ensures(JobQueue::receive, (queue,), res),
    ensures
        res is Some <==> old(queue)@.waiting.len() > 0,
        res matches Some(job) ==> old(queue)@.waiting == seq![job] + final(queue)@.waiting,
        res is None ==> final(queue)@ == old(queue)@,
        final(queue)@.closed == old(queue)@.closed,
{
    if let Some(job) = res {
        assert(old(queue)@.waiting =~= seq![job] + old(queue)@.waiting.skip(1));
    }
}

} // verus!
