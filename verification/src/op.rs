//! Database operations and a bounded first-in first-out queue of them.
use std::collections::VecDeque;
use vstd::prelude::*;

verus! {

/// The stage an operation has reached.
#[derive(Debug, Copy, Clone)]
pub enum OpState {
    /// Waiting to be executed.
    Wait,
    /// Turned away: the queue was full.
    Busy,
    /// Being executed.
    Exec,
    /// Executed successfully.
    Succ,
    /// Execution failed.
    Fail,
}

/// What every operation carries: the hash that picks its connection (such as a
/// user id), a time stamp for time-outs, and its state.
pub struct Op {
    hash_id: u64,
    op_time: u64,
    state: OpState,
}

/// An operation whose state can be set.
pub trait TOp {
    fn set_state(&mut self, state: OpState);
}

/// An operation that can send its request.
pub trait TOpReq: TOp {
    fn request(&mut self);
}

/// An operation that can take its response.
pub trait TOpResp: TOpReq {
    fn respone(&mut self);
}

impl Op {
    pub closed spec fn spec_hash_id(&self) -> u64 {
        self.hash_id
    }

    pub closed spec fn spec_op_time(&self) -> u64 {
        self.op_time
    }

    pub closed spec fn spec_state(&self) -> OpState {
        self.state
    }

    /// A fresh operation: time 0, state `Succ`.
    pub fn new(hash_id: u64) -> (r: Self)
        ensures
            r.spec_hash_id() == hash_id,
            r.spec_op_time() == 0,
            r.spec_state() == OpState::Succ,
    {
        Op { hash_id, op_time: 0, state: OpState::Succ }
    }

    pub fn get_hash_id(&self) -> (r: u64)
        ensures
            r == self.spec_hash_id(),
    {
        self.hash_id
    }

    pub fn get_op_time(&self) -> (r: u64)
        ensures
            r == self.spec_op_time(),
    {
        self.op_time
    }

    pub fn get_state(&self) -> (r: OpState)
        ensures
            r == self.spec_state(),
    {
        self.state
    }
}

/// A queue of operations that holds at most `max_len` of them. The operations
/// are boxed trait objects unless a caller picks another type.
pub struct OpMgmt<T: TOpResp + ?Sized = dyn TOpResp> {
    max_len: usize,
    queue: VecDeque<Box<T>>,
}

impl<T: TOpResp + ?Sized> OpMgmt<T> {
    pub closed spec fn spec_max_len(&self) -> usize {
        self.max_len
    }

    /// The queued operations, the oldest first.
    pub closed spec fn spec_queue(&self) -> Seq<Box<T>> {
        self.queue@
    }

    /// The queue never holds more than `max_len` operations.
    pub open spec fn wf(&self) -> bool {
        self.spec_queue().len() <= self.spec_max_len()
    }

    pub fn new(max_len: usize) -> (r: Self)
        ensures
            r.spec_max_len() == max_len,
            r.spec_queue() == Seq::<Box<T>>::empty(),
            r.wf(),
    {
        OpMgmt { max_len, queue: VecDeque::new() }
    }

    pub fn get_len(&self) -> (r: usize)
        ensures
            r == self.spec_queue().len(),
    {
        self.queue.len()
    }

    /// Takes the oldest operation out of the queue.
    pub fn pop(&mut self) -> (r: Option<Box<T>>)
        ensures
            final(self).spec_max_len() == old(self).spec_max_len(),
            old(self).spec_queue().len() == 0 ==> r is None && final(self).spec_queue()
                == old(self).spec_queue(),
            old(self).spec_queue().len() > 0 ==> r == Some(old(self).spec_queue()[0])
                && final(self).spec_queue() == old(self).spec_queue().drop_first(),
            old(self).wf() ==> final(self).wf(),
    {
        let r = self.queue.pop_front();
        proof {
            if old(self).queue@.len() > 0 {
                assert(self.queue@ =~= old(self).queue@.drop_first());
            }
        }
        r
    }

    /// Queues `op` at the back while fewer than `max_len` operations wait;
    /// otherwise the queue stays as it is and `op` is turned away: its state
    /// becomes `Busy` and it is given its response.
    pub fn push(&mut self, op: Box<T>)
        ensures
            final(self).spec_max_len() == old(self).spec_max_len(),
            final(self).spec_queue() == queue_after_push(
                old(self).spec_queue(),
                old(self).spec_max_len() as nat,
                op,
            ),
            old(self).wf() ==> final(self).wf(),
    {
        if self.queue.len() < self.max_len {
            self.queue.push_back(op);
        } else {
            let mut op_mut = op;
            op_mut.set_state(OpState::Busy);
            op_mut.respone();
        }
    }
}

/// The data of a request.
#[derive(Debug)]
pub struct ReqData {
    pub id: u64,
}

/// The data of a response.
#[derive(Debug)]
pub struct RespData {
    pub name: String,
}

/// An operation that queries a user: the request that the SQL is made from, and
/// the response data once the SQL has run.
pub struct QueryUser {
    pub op: Op,
    pub req_data: ReqData,
    pub resp_data: Option<RespData>,
}

/// The queue after `push(op)` on `q` with room for `max_len` operations.
pub open spec fn queue_after_push<T: ?Sized>(q: Seq<Box<T>>, max_len: nat, op: Box<T>) -> Seq<Box<T>> {
    if q.len() < max_len {
        q.push(op)
    } else {
        q
    }
}

/// The queue after pushing `ops`, in order, onto `q`, with nothing taken out.
pub open spec fn queue_after_pushes<T: ?Sized>(q: Seq<Box<T>>, max_len: nat, ops: Seq<Box<T>>) -> Seq<Box<T>>
    decreases ops.len(),
{
    if ops.len() == 0 {
        q
    } else {
        queue_after_push(queue_after_pushes(q, max_len, ops.drop_last()), max_len, ops.last())
    }
}

/// Pushing operations onto a new queue with room for `max_len` keeps exactly the
/// first `max_len` of them, in their order; all later ones are turned away.
pub proof fn law_fresh_queue_keeps_first<T: ?Sized>(max_len: nat, ops: Seq<Box<T>>)
    ensures
        queue_after_pushes(Seq::<Box<T>>::empty(), max_len, ops) == ops.take(
            if ops.len() < max_len {
                ops.len() as int
            } else {
                max_len as int
            },
        ),
    decreases ops.len(),
{
    if ops.len() > 0 {
        law_fresh_queue_keeps_first(max_len, ops.drop_last());
        if ops.len() - 1 < max_len {
            assert(ops.drop_last().take((ops.len() - 1) as int).push(ops.last()) =~= ops.take(
                ops.len() as int,
            ));
        } else {
            assert(ops.drop_last().take(max_len as int) =~= ops.take(max_len as int));
        }
    } else {
        assert(ops.take(0) =~= Seq::<Box<T>>::empty());
    }
}

/// First in, first out, and never more than `max_len`: pushing an operation does
/// not change which one leaves next, and where it is accepted, pushing before or
/// after the oldest one left gives the same queue; a queue within its bound stays
/// within it.
pub proof fn law_queue_fifo<T: ?Sized>(q: Seq<Box<T>>, max_len: nat, op: Box<T>)
    requires
        q.len() <= max_len,
    ensures
        queue_after_push(q, max_len, op).len() <= max_len,
        q.len() > 0 ==> queue_after_push(q, max_len, op)[0] == q[0],
        0 < q.len() < max_len ==> queue_after_push(q, max_len, op).drop_first() == queue_after_push(
            q.drop_first(),
            max_len,
            op,
        ),
{
    if q.len() > 0 && q.len() < max_len {
        assert(q.push(op).drop_first() =~= q.drop_first().push(op));
    }
}

/// First in, first out on a fresh queue with room for two: after pushing `a`
/// then `b`, popping gives `a`, then `b`, then nothing.
pub proof fn law_push_two_pop_two<T: ?Sized>(max_len: nat, a: Box<T>, b: Box<T>)
    requires
        max_len >= 2,
    ensures
        ({
            let q = queue_after_push(queue_after_push(Seq::<Box<T>>::empty(), max_len, a), max_len, b);
            &&& q.len() == 2
            &&& q[0] == a
            &&& q.drop_first()[0] == b
            &&& q.drop_first().drop_first().len() == 0
        }),
{
    let q = queue_after_push(queue_after_push(Seq::<Box<T>>::empty(), max_len, a), max_len, b);
    assert(q =~= seq![a, b]);
    assert(q.drop_first() =~= seq![b]);
}

} // verus!
