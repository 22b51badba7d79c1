//! The serialized task mailbox: a strict FIFO queue that carries every
//! control-plane message (open, close, request) of a channel's engine to one
//! worker, so that channel state is never mutated by two control messages at
//! once. The worker drains it one message at a time with
//! [`Mailbox::take_next`] and executes each with [`synth_msg_process`].

use vstd::prelude::*;

use crate::channel::{Channel, DispatchOutcome};
use crate::messages::{Request, TaskMsg};

verus! {

/// The single-consumer control-plane queue of one engine.
pub struct Mailbox {
    queue: Vec<TaskMsg>,
}

impl View for Mailbox {
    type V = Seq<TaskMsg>;

    /// The messages still queued, oldest first.
    closed spec fn view(&self) -> Seq<TaskMsg> {
        self.queue@
    }
}

impl Mailbox {
    pub fn new() -> (m: Mailbox)
        ensures
            m@ == Seq::<TaskMsg>::empty(),
    {
        Mailbox { queue: Vec::new() }
    }

    /// Appends one message behind all earlier ones.
    pub fn signal(&mut self, msg: TaskMsg)
        ensures
            final(self)@ == old(self)@.push(msg),
    {
        self.queue.push(msg);
    }

    /// Removes and returns the oldest queued message, if any: together with
    /// [`Mailbox::signal`] this is the FIFO discipline — messages leave in
    /// exactly the order they were signalled.
    pub fn take_next(&mut self) -> (m: Option<TaskMsg>)
        ensures
            old(self)@.len() == 0 ==> m is None && final(self)@ == old(self)@,
            old(self)@.len() > 0 ==> m == Some(old(self)@[0]) && final(self)@ == old(self)@.drop_first(),
    {
        if self.queue.len() == 0 {
            None
        } else {
            let msg = self.queue.remove(0);
            proof {
                assert(self@ =~= old(self)@.drop_first());
            }
            Some(msg)
        }
    }

    /// How many messages wait.
    pub fn len(&self) -> (n: usize)
        ensures
            n == self@.len(),
    {
        self.queue.len()
    }
}

/// Enqueues the channel-open notification for the worker.
pub fn channel_open(mailbox: &mut Mailbox)
    ensures
        final(mailbox)@ == old(mailbox)@.push(TaskMsg::OpenChannel),
{
    mailbox.signal(TaskMsg::OpenChannel);
}

/// Enqueues the channel-close notification for the worker.
pub fn channel_close(mailbox: &mut Mailbox)
    ensures
        final(mailbox)@ == old(mailbox)@.push(TaskMsg::CloseChannel),
{
    mailbox.signal(TaskMsg::CloseChannel);
}

/// Enqueues one control request for the worker; requests signalled earlier
/// are dispatched earlier.
pub fn channel_process_request(mailbox: &mut Mailbox, request: Request)
    ensures
        final(mailbox)@ == old(mailbox)@.push(TaskMsg::RequestProcess(request)),
{
    mailbox.signal(TaskMsg::RequestProcess(request));
}

/// What the worker produced for one mailbox message: a lifecycle
/// acknowledgment, or the outcome of a dispatched request.
pub enum WorkerOutput {
    Opened,
    Closed,
    Dispatched(DispatchOutcome),
}

/// Executes one mailbox message on the worker: lifecycle messages are
/// acknowledged without touching the channel; a request message runs the
/// dispatcher, whose full transition table is stated on
/// [`Channel::synth_channel_request_dispatch`].
pub fn synth_msg_process(channel: &mut Channel, msg: TaskMsg, codec_ok: bool) -> (out: WorkerOutput)
    requires
        old(channel).wf(),
    ensures
        final(channel).wf(),
        final(channel).locator() == old(channel).locator(),
        msg is OpenChannel ==> out is Opened && *final(channel) == *old(channel),
        msg is CloseChannel ==> out is Closed && *final(channel) == *old(channel),
        msg matches TaskMsg::RequestProcess(request) ==> {
            &&& out is Dispatched
            &&& final(channel).st() == crate::channel::dispatch_state(old(channel).st(), request, codec_ok)
            &&& out matches WorkerOutput::Dispatched(d) ==> {
                &&& d.response == crate::channel::dispatch_response(request, codec_ok)
                &&& d.job is Some <==> crate::channel::dispatch_starts_job(request, codec_ok)
            }
        },
{
    match msg {
        TaskMsg::OpenChannel => WorkerOutput::Opened,
        TaskMsg::CloseChannel => WorkerOutput::Closed,
        TaskMsg::RequestProcess(request) => {
            let out = channel.synth_channel_request_dispatch(request, codec_ok);
            WorkerOutput::Dispatched(out)
        }
    }
}

/// The queue contents after signalling `msgs`, one at a time and in order,
/// onto a mailbox that already held `q`.
pub open spec fn signalled_all(q: Seq<TaskMsg>, msgs: Seq<TaskMsg>) -> Seq<TaskMsg>
    decreases msgs.len(),
{
    if msgs.len() == 0 {
        q
    } else {
        signalled_all(q.push(msgs[0]), msgs.drop_first())
    }
}

/// FIFO law of the mailbox: signalling a batch of messages appends it, in
/// submission order, behind everything already queued. Since
/// [`Mailbox::take_next`] always removes the front, messages are processed in
/// exactly the order they were submitted — no two control requests are ever
/// reordered.
pub proof fn lemma_mailbox_fifo(q: Seq<TaskMsg>, msgs: Seq<TaskMsg>)
    ensures
        signalled_all(q, msgs) == q + msgs,
    decreases msgs.len(),
{
    if msgs.len() == 0 {
        assert(signalled_all(q, msgs) =~= q + msgs);
    } else {
        lemma_mailbox_fifo(q.push(msgs[0]), msgs.drop_first());
        assert(q.push(msgs[0]) + msgs.drop_first() =~= q + msgs);
    }
}

} // verus!
