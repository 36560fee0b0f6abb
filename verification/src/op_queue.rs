//! Operations spread over connections by their hash, so that operations with the
//! same hash go to the same connection and keep their order.
use crate::op_base::{IReqResp, State};
use crate::pq_conn::PqConn;
use vstd::prelude::*;

verus! {

/// The connection that an operation with hash `hash` goes to, of `n` connections.
pub open spec fn route(hash: u64, n: nat) -> int {
    (hash as int) % (n as int)
}

/// Connections, each with a queue of at most `max_len` operations.
pub struct OpQueue<T: IReqResp + ?Sized = dyn IReqResp> {
    max_len: usize,
    conn_vec: Vec<PqConn<T>>,
}

/// Whether `q` takes an operation with hash `hash`: there is a connection, and
/// fewer than `max_len` operations wait on the one the hash picks.
pub open spec fn accepts<T: IReqResp + ?Sized>(q: OpQueue<T>, hash: u64) -> bool {
    &&& q.spec_conns().len() > 0
    &&& q.spec_conns()[route(hash, q.spec_conns().len())].spec_queue().len() < q.spec_max_len()
}

/// What `push(hash, op)` does to `before`, making it `after`: where `op` is
/// taken, the connection `hash % n` queues it (`PqConn::push`); the other
/// connections, and every connection where `op` is turned away, stay as they are.
pub open spec fn queue_push_effect<T: IReqResp + ?Sized>(
    before: OpQueue<T>,
    after: OpQueue<T>,
    hash: u64,
    op: Box<T>,
) -> bool {
    let n = before.spec_conns().len();
    let i = route(hash, n);
    &&& after.spec_max_len() == before.spec_max_len()
    &&& after.spec_conns().len() == n
    &&& forall|j: int|
        0 <= j < n && j != i ==> #[trigger] after.spec_conns()[j] == before.spec_conns()[j]
    &&& accepts(before, hash) ==> crate::pq_conn::push_effect(before.spec_conns()[i], after.spec_conns()[i], op)
    &&& !accepts(before, hash) ==> after.spec_conns() == before.spec_conns()
}

impl<T: IReqResp + ?Sized> OpQueue<T> {
    pub closed spec fn spec_max_len(&self) -> usize {
        self.max_len
    }

    /// The connections.
    pub closed spec fn spec_conns(&self) -> Seq<PqConn<T>> {
        self.conn_vec@
    }

    /// No connections yet.
    pub fn new(max_len: usize) -> (r: Self)
        ensures
            r.spec_max_len() == max_len,
            r.spec_conns().len() == 0,
    {
        OpQueue { max_len, conn_vec: Vec::new() }
    }

    pub fn get_max_len(&self) -> (r: usize)
        ensures
            r == self.spec_max_len(),
    {
        self.max_len
    }

    /// Hands `op` to connection `hash % n` of the `n` connections, which queues
    /// it, where fewer than `max_len` operations wait there. Otherwise (no
    /// connection, or that one full) the connections stay as they are and `op`
    /// is turned away: its state becomes `Busy` and it is given an empty response.
    pub fn push(&mut self, hash: u64, op: Box<T>)
        ensures
            queue_push_effect(*old(self), *final(self), hash, op),
    {
        let len = self.conn_vec.len();
        if len == 0 {
            let mut op_mut = op;
            op_mut.set_state(State::Busy);
            op_mut.respone(None);
            return;
        }
        let idx = (hash % len as u64) as usize;
        if self.conn_vec[idx].get_queue_len() < self.max_len {
            self.conn_vec[idx].push(op);
        } else {
            let mut op_mut = op;
            op_mut.set_state(State::Busy);
            op_mut.respone(None);
        }
    }
}

/// Same hash, same connection, same order: of two operations `a` then `b` with
/// the same hash, both taken, `b` is queued right behind `a` on connection
/// `hash % n`, after what waited there before (`a` itself runs at once, in
/// state `Exec` with its request sent, where nothing waited); no other
/// connection changes.
pub proof fn law_same_hash_same_order<T: IReqResp + ?Sized>(
    q0: OpQueue<T>,
    q1: OpQueue<T>,
    q2: OpQueue<T>,
    hash: u64,
    a: Box<T>,
    b: Box<T>,
)
    requires
        queue_push_effect(q0, q1, hash, a),
        queue_push_effect(q1, q2, hash, b),
        accepts(q0, hash),
        accepts(q1, hash),
    ensures
        ({
            let n = q0.spec_conns().len();
            let i = route(hash, n);
            let before = q0.spec_conns()[i].spec_queue();
            let k = before.len();
            let now = q2.spec_conns()[i].spec_queue();
            &&& 0 <= i < n
            &&& q2.spec_conns().len() == n
            &&& now.len() == k + 2
            &&& now.take(k as int) == before
            &&& k > 0 ==> now[k as int] == a
            &&& k == 0 ==> now[0].base_state() == State::Exec && now[0].request_sent()
            &&& now[k as int + 1] == b
            &&& forall|j: int| 0 <= j < n && j != i ==> #[trigger] q2.spec_conns()[j] == q0.spec_conns()[j]
        }),
{
    let n = q0.spec_conns().len();
    let i = route(hash, n);
    let before = q0.spec_conns()[i].spec_queue();
    let mid = q1.spec_conns()[i].spec_queue();
    let now = q2.spec_conns()[i].spec_queue();
    let k = before.len();
    assert(now.drop_last() == mid);
    assert(mid.drop_last() == before);
    assert(now.take(k as int) =~= before);
    assert(now[k as int] == mid[k as int]);
    assert(mid[k as int] == mid.last());
}

} // verus!
