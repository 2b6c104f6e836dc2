//! The bridge between the interface and the audio core.
//!
//! The interface sends [`Command`]s into a bounded queue that the audio
//! core drains in order; the audio core publishes a [`StateSnapshot`] that
//! the interface reads each frame.

use vstd::prelude::*;

use crate::commands::Command;
use crate::state::{SnapshotModel, StateSnapshot, is_empty_snapshot};

verus! {

/// How many commands may wait in the queue before a send is refused.
pub const COMMAND_QUEUE_CAPACITY: usize = 1024;

/// The largest capacity with which the queue is made here.
const MAX_QUEUE_CAPACITY: usize = 0x10_0000;

/// A bounded crossbeam channel of commands, with both of its ends.
///
/// Both ends live and die together in this value, so the channel is never
/// disconnected while it exists.
#[verifier::external_body]
pub struct CommandQueue {
    tx: crossbeam_channel::Sender<Command>,
    rx: crossbeam_channel::Receiver<Command>,
}

/// The commands waiting in a channel, oldest first.
pub uninterp spec fn queued(q: CommandQueue) -> Seq<Command>;

/// The capacity with which a channel was made.
pub uninterp spec fn queue_capacity(q: CommandQueue) -> nat;

/// `crossbeam_channel::bounded(cap)`: an empty channel of capacity `cap`.
/// Trusted: the source makes an array channel of `cap` slots for `cap > 0`
/// and panics only for capacities far above the bound required here.
#[verifier::external_body]
fn queue_with_capacity(cap: usize) -> (q: CommandQueue)
    requires
        0 < cap <= MAX_QUEUE_CAPACITY,
    ensures
        queued(q) == Seq::<Command>::empty(),
        queue_capacity(q) == cap,
{
    let (tx, rx) = crossbeam_channel::bounded(cap);
    CommandQueue { tx, rx }
}

/// `Sender::try_send`: appends the command when fewer than the capacity
/// wait, and otherwise refuses it with the error's text, "sending on a full
/// channel". Trusted: the array flavour's `start_send` fails exactly when the
/// channel is full; the disconnected error cannot arise since the receiving
/// end is held alongside.
#[verifier::external_body]
fn queue_try_send(q: &mut CommandQueue, cmd: Command) -> (r: Result<(), String>)
    ensures
        queue_capacity(*final(q)) == queue_capacity(*old(q)),
        queued(*old(q)).len() < queue_capacity(*old(q)) ==> r is Ok && queued(*final(q)) == queued(
            *old(q),
        ).push(cmd),
        queued(*old(q)).len() >= queue_capacity(*old(q)) ==> queued(*final(q)) == queued(*old(q))
            && (r matches Err(e) && e@ == "sending on a full channel"@),
{
    match q.tx.try_send(cmd) {
        Ok(()) => Ok(()),
        Err(e) => Err(e.to_string()),
    }
}

/// `Receiver::try_recv`, with its error dropped: the oldest waiting command,
/// or `None` when none waits. Trusted: the array flavour's `start_recv` takes
/// the head slot exactly when the channel is not empty.
#[verifier::external_body]
fn queue_try_recv(q: &mut CommandQueue) -> (r: Option<Command>)
    ensures
        queue_capacity(*final(q)) == queue_capacity(*old(q)),
        queued(*old(q)).len() == 0 ==> r is None && queued(*final(q)) == queued(*old(q)),
        queued(*old(q)).len() > 0 ==> r == Some(queued(*old(q))[0]) && queued(*final(q)) == queued(
            *old(q),
        ).drop_first(),
{
    q.rx.try_recv().ok()
}

/// The queue after an attempt to send `cmd`: the command joins the back
/// unless the queue is full.
pub open spec fn after_send(q: Seq<Command>, cmd: Command) -> Seq<Command> {
    if q.len() < COMMAND_QUEUE_CAPACITY {
        q.push(cmd)
    } else {
        q
    }
}

/// The queue after an attempt to receive, and what was received: the
/// front command, if any.
pub open spec fn after_receive(q: Seq<Command>) -> (Seq<Command>, Option<Command>) {
    if q.len() == 0 {
        (q, None)
    } else {
        (q.drop_first(), Some(q[0]))
    }
}

/// The bridge connecting the interface and the audio core.
pub struct Bridge {
    /// The current state snapshot, read by the interface.
    pub state: StateSnapshot,
    /// Commands on their way from the interface to the audio core.
    pub commands: CommandQueue,
}

/// What a bridge holds: the snapshot it publishes to the interface, and
/// the commands waiting for the audio core, oldest first.
pub struct BridgeModel {
    pub published: SnapshotModel,
    pub pending: Seq<Command>,
}

/// An operation on the bridge.
pub enum BridgeOp {
    /// The audio core publishes a snapshot.
    Publish(SnapshotModel),
    /// The interface sends a command.
    Send(Command),
    /// The audio core takes the oldest pending command.
    Receive,
}

/// The bridge after an operation.
pub open spec fn step(m: BridgeModel, op: BridgeOp) -> BridgeModel {
    match op {
        BridgeOp::Publish(s) => BridgeModel { published: s, pending: m.pending },
        BridgeOp::Send(cmd) => BridgeModel { published: m.published, pending: after_send(m.pending, cmd) },
        BridgeOp::Receive => BridgeModel {
            published: m.published,
            pending: after_receive(m.pending).0,
        },
    }
}

/// The bridge after a sequence of operations, in order.
pub open spec fn run(m: BridgeModel, ops: Seq<BridgeOp>) -> BridgeModel
    decreases ops.len(),
{
    if ops.len() == 0 {
        m
    } else {
        run(step(m, ops[0]), ops.drop_first())
    }
}

/// Read after write: the interface reads the snapshot last published,
/// whatever commands are sent or received after it.
pub proof fn law_read_after_write(m: BridgeModel, s: SnapshotModel, ops: Seq<BridgeOp>)
    requires
        forall|i: int| 0 <= i < ops.len() ==> !(#[trigger] ops[i] is Publish),
    ensures
        run(step(m, BridgeOp::Publish(s)), ops).published == s,
    decreases ops.len(),
{
    if ops.len() > 0 {
        assert(!(ops[0] is Publish));
        let next = step(m, BridgeOp::Publish(s));
        assert(step(next, ops[0]).published == s);
        assert(step(next, ops[0]) == step(step(m, ops[0]), BridgeOp::Publish(s))) by {
            assert(step(m, ops[0]).pending == step(next, ops[0]).pending);
        }
        assert forall|i: int| 0 <= i < ops.drop_first().len() implies !(
        #[trigger] ops.drop_first()[i] is Publish) by {
            assert(ops.drop_first()[i] == ops[i + 1]);
        }
        law_read_after_write(step(m, ops[0]), s, ops.drop_first());
    }
}

/// Publishing a snapshot leaves the pending commands as they were, and
/// commands leave the published snapshot as it was.
pub proof fn law_state_and_commands_independent(m: BridgeModel, s: SnapshotModel, cmd: Command)
    ensures
        step(m, BridgeOp::Publish(s)).pending == m.pending,
        step(m, BridgeOp::Send(cmd)).published == m.published,
        step(m, BridgeOp::Receive).published == m.published,
{
}

impl Bridge {
    /// What the bridge holds: the published snapshot is the view of its
    /// `state` field.
    pub open spec fn model(&self) -> BridgeModel {
        BridgeModel { published: self.state@, pending: queued(self.commands) }
    }

    /// The commands waiting for the audio core, oldest first.
    pub open spec fn pending(&self) -> Seq<Command> {
        self.model().pending
    }

    /// What the bridge publishes to the interface.
    pub open spec fn published(&self) -> SnapshotModel {
        self.model().published
    }

    /// The queue holds at most its capacity of commands.
    pub closed spec fn wf(&self) -> bool {
        &&& queue_capacity(self.commands) == COMMAND_QUEUE_CAPACITY
        &&& queued(self.commands).len() <= COMMAND_QUEUE_CAPACITY
    }

    /// A bridge with no pending command and the empty snapshot.
    pub fn new() -> (b: Self)
        ensures
            b.wf(),
            b.pending() == Seq::<Command>::empty(),
            is_empty_snapshot(b.published()),
    {
        Bridge { state: StateSnapshot::default(), commands: queue_with_capacity(COMMAND_QUEUE_CAPACITY) }
    }

    /// Sends a command from the interface to the audio core. It is queued
    /// behind the pending ones, unless 1024 commands are pending already:
    /// then it is refused with "sending on a full channel".
    pub fn send_command(&mut self, cmd: Command) -> (r: Result<(), String>)
        requires
            old(self).wf(),
        ensures
            final(self).wf(),
            final(self).model() == step(old(self).model(), BridgeOp::Send(cmd)),
            r is Ok <==> old(self).pending().len() < COMMAND_QUEUE_CAPACITY,
            r matches Err(e) ==> e@ == "sending on a full channel"@,
    {
        queue_try_send(&mut self.commands, cmd)
    }

    /// A copy of the current state snapshot, for the interface.
    pub fn get_state(&self) -> (s: StateSnapshot)
        ensures
            s@ == self.published(),
    {
        self.state.clone()
    }

    /// Replaces the state snapshot; called by the audio core.
    pub fn update_state(&mut self, new_state: StateSnapshot)
        requires
            old(self).wf(),
        ensures
            final(self).wf(),
            final(self).model() == step(old(self).model(), BridgeOp::Publish(new_state@)),
    {
        self.state = new_state;
    }

    /// Takes the oldest pending command, if any; called by the audio core.
    pub fn try_recv_command(&mut self) -> (r: Option<Command>)
        requires
            old(self).wf(),
        ensures
            final(self).wf(),
            final(self).model() == step(old(self).model(), BridgeOp::Receive),
            r == after_receive(old(self).pending()).1,
    {
        queue_try_recv(&mut self.commands)
    }
}

impl Default for Bridge {
    fn default() -> (b: Self)
        ensures
            b.wf(),
            b.pending() == Seq::<Command>::empty(),
            is_empty_snapshot(b.published()),
    {
        Self::new()
    }
}

/// The queue after attempts to send each of `cmds`, in order.
pub open spec fn after_sends(q: Seq<Command>, cmds: Seq<Command>) -> Seq<Command>
    decreases cmds.len(),
{
    if cmds.len() == 0 {
        q
    } else {
        after_sends(after_send(q, cmds[0]), cmds.drop_first())
    }
}

/// The commands received, in order, by receiving until the queue is empty.
pub open spec fn drained(q: Seq<Command>) -> Seq<Command>
    decreases q.len(),
{
    if q.len() == 0 {
        Seq::empty()
    } else {
        seq![after_receive(q).1.unwrap()] + drained(after_receive(q).0)
    }
}

/// Sends that fit all join the back of the queue, in order.
pub proof fn law_sends_append(q: Seq<Command>, cmds: Seq<Command>)
    requires
        q.len() + cmds.len() <= COMMAND_QUEUE_CAPACITY,
    ensures
        after_sends(q, cmds) == q + cmds,
    decreases cmds.len(),
{
    if cmds.len() > 0 {
        law_sends_append(q.push(cmds[0]), cmds.drop_first());
        assert(q.push(cmds[0]) + cmds.drop_first() =~= q + cmds);
    } else {
        assert(q + cmds =~= q);
    }
}

/// Receiving until empty gives the pending commands in the order they wait.
pub proof fn law_drain_in_order(q: Seq<Command>)
    ensures
        drained(q) == q,
    decreases q.len(),
{
    if q.len() > 0 {
        law_drain_in_order(q.drop_first());
        assert(seq![q[0]] + q.drop_first() =~= q);
    }
}

/// First in, first out: the audio core receives the commands that were
/// waiting, then those sent after them, each in the order sent, as long as
/// the queue never overflows.
pub proof fn law_commands_fifo(pending: Seq<Command>, sent: Seq<Command>)
    requires
        pending.len() + sent.len() <= COMMAND_QUEUE_CAPACITY,
    ensures
        drained(after_sends(pending, sent)) == pending + sent,
{
    law_sends_append(pending, sent);
    law_drain_in_order(pending + sent);
}

/// The queue never holds more than its capacity, whatever is sent.
pub proof fn law_queue_bounded(q: Seq<Command>, cmd: Command)
    requires
        q.len() <= COMMAND_QUEUE_CAPACITY,
    ensures
        after_send(q, cmd).len() <= COMMAND_QUEUE_CAPACITY,
        after_receive(q).0.len() <= COMMAND_QUEUE_CAPACITY,
{
}

/// A send to a full queue is refused and leaves the queue as it was.
pub proof fn law_full_queue_refuses(q: Seq<Command>, cmd: Command)
    requires
        q.len() == COMMAND_QUEUE_CAPACITY,
    ensures
        after_send(q, cmd) == q,
{
}

/// A command sent to an empty queue is the next one received, and the
/// queue is empty again afterwards.
pub proof fn law_send_then_receive(cmd: Command)
    ensures
        after_receive(after_send(Seq::empty(), cmd)) == (Seq::<Command>::empty(), Some(cmd)),
{
    assert(after_send(Seq::empty(), cmd).drop_first() =~= Seq::<Command>::empty());
}

} // verus!
