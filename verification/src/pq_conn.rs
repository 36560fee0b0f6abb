//! A PostgreSQL connection: its escape buffer, its queue of operations, and the
//! decisions it takes on what libpq reports.
//!
//! The libpq calls themselves are made by the caller; each method here takes what
//! libpq reported as plain values and says what the connection does with it.
#![allow(non_camel_case_types)]
use crate::op_base::{IReqResp, State};
use std::collections::VecDeque;
use vstd::prelude::*;

verus! {

/// The status of a connection, as libpq names it.
#[derive(Debug, Copy, Clone)]
pub enum ConnStatusType {
    CONNECTION_OK,
    CONNECTION_BAD,
    CONNECTION_STARTED,
    CONNECTION_MADE,
    CONNECTION_AWAITING_RESPONSE,
    CONNECTION_AUTH_OK,
    CONNECTION_SETENV,
    CONNECTION_SSL_STARTUP,
    CONNECTION_NEEDED,
    CONNECTION_CHECK_WRITABLE,
    CONNECTION_CONSUME,
    CONNECTION_GSS_STARTUP,
    CONNECTION_CHECK_TARGET,
    CONNECTION_CHECK_STANDBY,
}

/// What a step of libpq's non-blocking connect reports, as libpq names it.
#[derive(Debug, Copy, Clone)]
pub enum PostgresPollingStatusType {
    PGRES_POLLING_FAILED,
    PGRES_POLLING_READING,
    PGRES_POLLING_WRITING,
    PGRES_POLLING_OK,
    PGRES_POLLING_ACTIVE,
}

/// What the caller does after `send_query`.
pub enum SendStep {
    /// The query is answered: here is what `send_query` returns.
    Done(Result<bool, String>),
    /// The connection was bad and is closed: start connecting again, and hand
    /// what libpq reported to `reconnected`.
    Reconnect,
}

/// The size of the escape buffer for SQL of up to `sql_buffer` bytes: twice that,
/// and no less than 32 KiB.
pub open spec fn buffer_capacity(sql_buffer: nat) -> nat {
    if 2 * sql_buffer < 32768 {
        32768
    } else {
        2 * sql_buffer
    }
}

/// What `PqConn::push(op)` does to a connection `c`, making it `d`: `op` joins the
/// back of the request queue. Where the queue was empty, `op` is the one to run
/// and is started (state `Exec`, then its request sent); otherwise it waits, untouched,
/// behind the earlier ones. Nothing else changes.
pub open spec fn push_effect<T: IReqResp + ?Sized>(c: PqConn<T>, d: PqConn<T>, op: Box<T>) -> bool {
    &&& d.spec_queue().len() == c.spec_queue().len() + 1
    &&& d.spec_queue().drop_last() == c.spec_queue()
    &&& c.spec_queue().len() > 0 ==> d.spec_queue().last() == op
    &&& c.spec_queue().len() == 0 ==> d.spec_queue().last().base_state() == State::Exec
        && d.spec_queue().last().request_sent()
    &&& d.spec_available() == c.spec_available()
    &&& d.spec_started() == c.spec_started()
    &&& d.spec_conn_info() == c.spec_conn_info()
    &&& d.spec_buffer() == c.spec_buffer()
}

/// What `close_conn` does to `c`, making it `d`: not available, no handle,
/// nothing else changed.
pub open spec fn close_effect<T: IReqResp + ?Sized>(c: PqConn<T>, d: PqConn<T>) -> bool {
    &&& !d.spec_available()
    &&& !d.spec_started()
    &&& d.spec_conn_info() == c.spec_conn_info()
    &&& d.spec_buffer() == c.spec_buffer()
    &&& d.spec_queue() == c.spec_queue()
}

/// What a sent query does to `c`, making it `d`: busy (not available), nothing
/// else changed.
pub open spec fn query_sent<T: IReqResp + ?Sized>(c: PqConn<T>, d: PqConn<T>) -> bool {
    &&& !d.spec_available()
    &&& d.spec_started() == c.spec_started()
    &&& d.spec_conn_info() == c.spec_conn_info()
    &&& d.spec_buffer() == c.spec_buffer()
    &&& d.spec_queue() == c.spec_queue()
}

/// What freeing the result read from `c` does to it, making it `d`: available
/// again, nothing else changed.
pub open spec fn release_effect<T: IReqResp + ?Sized>(c: PqConn<T>, d: PqConn<T>) -> bool {
    &&& d.spec_available()
    &&& d.spec_started() == c.spec_started()
    &&& d.spec_conn_info() == c.spec_conn_info()
    &&& d.spec_buffer() == c.spec_buffer()
    &&& d.spec_queue() == c.spec_queue()
}

/// What `pop` does to `c`, making it `d` and giving `r`.
pub open spec fn pop_effect<T: IReqResp + ?Sized>(c: PqConn<T>, d: PqConn<T>, r: Option<Box<T>>) -> bool {
    &&& c.spec_queue().len() == 0 ==> r is None && d.spec_queue() == c.spec_queue()
    &&& c.spec_queue().len() > 0 ==> r == Some(c.spec_queue()[0]) && d.spec_queue()
        == c.spec_queue().drop_first()
    &&& d.spec_available() == c.spec_available()
    &&& d.spec_started() == c.spec_started()
    &&& d.spec_conn_info() == c.spec_conn_info()
    &&& d.spec_buffer() == c.spec_buffer()
}

/// A connection. `started`: libpq has a handle for it (the caller holds the handle).
pub struct PqConn<T: IReqResp + ?Sized = dyn IReqResp> {
    available: bool,
    conn_info: String,
    buffer_vec: Vec<u8>,
    started: bool,
    queue: VecDeque<Box<T>>,
}

impl<T: IReqResp + ?Sized> PqConn<T> {
    /// Whether the connection can take a query.
    pub closed spec fn spec_available(&self) -> bool {
        self.available
    }

    /// The connection string.
    pub closed spec fn spec_conn_info(&self) -> Seq<char> {
        self.conn_info@
    }

    /// The escape buffer.
    pub closed spec fn spec_buffer(&self) -> Seq<u8> {
        self.buffer_vec@
    }

    /// Whether libpq has a handle for the connection.
    pub closed spec fn spec_started(&self) -> bool {
        self.started
    }

    /// The queued operations, the oldest first.
    pub closed spec fn spec_queue(&self) -> Seq<Box<T>> {
        self.queue@
    }

    /// A connection for `conn_info` with an escape buffer for SQL of `sql_buffer`
    /// bytes, given what libpq's connect start reported (`Err`: no handle, with
    /// libpq's error message). It is not available until connecting succeeds.
    pub fn new(conn_info: String, sql_buffer: usize, started: Result<(), String>) -> (r: Result<
        Self,
        String,
    >)
        requires
            2 * sql_buffer <= usize::MAX,
        ensures
            started is Err ==> r == Err::<Self, String>(started->Err_0),
            started is Ok ==> (r matches Ok(c) && {
                &&& !c.spec_available()
                &&& c.spec_started()
                &&& c.spec_conn_info() == conn_info@
                &&& c.spec_buffer().len() == buffer_capacity(sql_buffer as nat)
                &&& forall|i: int| 0 <= i < c.spec_buffer().len() ==> #[trigger] c.spec_buffer()[i] == 0u8
                &&& c.spec_queue().len() == 0
            }),
    {
        let mut capacity = sql_buffer * 2;
        if capacity < 1024 * 32 {
            capacity = 1024 * 32;
        }
        let buffer_vec = vec![0u8; capacity];
        let pq_conn = PqConn {
            conn_info,
            buffer_vec,
            available: false,
            started: true,
            queue: VecDeque::new(),
        };
        match started {
            Ok(()) => Ok(pq_conn),
            Err(err) => Err(err),
        }
    }

    /// The connection string.
    pub fn get_conn_info(&self) -> (r: &String)
        ensures
            r@ == self.spec_conn_info(),
    {
        &self.conn_info
    }

    /// The escape buffer, for libpq to write escaped SQL into.
    pub fn escape_buffer(&mut self) -> (r: &mut Vec<u8>)
        ensures
            r@ == old(self).spec_buffer(),
            final(self).spec_buffer() == final(r)@,
            final(self).spec_available() == old(self).spec_available(),
            final(self).spec_started() == old(self).spec_started(),
            final(self).spec_conn_info() == old(self).spec_conn_info(),
            final(self).spec_queue() == old(self).spec_queue(),
    {
        &mut self.buffer_vec
    }

    /// Marks the connection closed: not available, no handle.
    pub fn close_conn(&mut self)
        ensures
            close_effect(*old(self), *final(self)),
    {
        self.set_available(false);
        self.started = false;
    }

    /// Sets whether the connection can take a query.
    pub fn set_available(&mut self, val: bool)
        ensures
            final(self).spec_available() == val,
            final(self).spec_started() == old(self).spec_started(),
            final(self).spec_conn_info() == old(self).spec_conn_info(),
            final(self).spec_buffer() == old(self).spec_buffer(),
            final(self).spec_queue() == old(self).spec_queue(),
    {
        self.available = val;
    }

    /// A step of connecting, given libpq's poll status, the connection status,
    /// and libpq's error message: an error where the poll failed or the
    /// connection is bad; `Ok(true)`, and the connection available (the caller
    /// then makes it non-blocking), where it is made; `Ok(false)` otherwise.
    pub fn connect_poll(
        &mut self,
        poll_status: PostgresPollingStatusType,
        conn_status: ConnStatusType,
        err_msg: String,
    ) -> (r: Result<bool, String>)
        ensures
            poll_status == PostgresPollingStatusType::PGRES_POLLING_FAILED ==> r == Err::<bool, String>(err_msg),
            poll_status != PostgresPollingStatusType::PGRES_POLLING_FAILED && conn_status
                == ConnStatusType::CONNECTION_OK ==> r == Ok::<bool, String>(true)
                && final(self).spec_available(),
            poll_status != PostgresPollingStatusType::PGRES_POLLING_FAILED && conn_status
                == ConnStatusType::CONNECTION_BAD ==> r == Err::<bool, String>(err_msg),
            poll_status != PostgresPollingStatusType::PGRES_POLLING_FAILED && conn_status
                != ConnStatusType::CONNECTION_OK && conn_status != ConnStatusType::CONNECTION_BAD
                ==> r == Ok::<bool, String>(false),
            !(r == Ok::<bool, String>(true)) ==> final(self).spec_available() == old(self).spec_available(),
            final(self).spec_started() == old(self).spec_started(),
            final(self).spec_conn_info() == old(self).spec_conn_info(),
            final(self).spec_buffer() == old(self).spec_buffer(),
            final(self).spec_queue() == old(self).spec_queue(),
    {
        if let PostgresPollingStatusType::PGRES_POLLING_FAILED = poll_status {
            return Err(err_msg);
        }
        match conn_status {
            ConnStatusType::CONNECTION_OK => {
                self.set_available(true);
                Ok(true)
            },
            ConnStatusType::CONNECTION_BAD => Err(err_msg),
            _ => Ok(false),
        }
    }

    /// Whether a result can be read, given whether libpq could consume input,
    /// whether it is still busy, and its error message.
    pub fn is_result_ready(&self, consumed: bool, busy: bool, err_msg: String) -> (r: Result<
        bool,
        String,
    >)
        ensures
            consumed ==> r == Ok::<bool, String>(!busy),
            !consumed ==> r == Err::<bool, String>(err_msg),
    {
        if consumed {
            Ok(!busy)
        } else {
            Err(err_msg)
        }
    }

    /// Sending a query, given whether libpq took it, the connection status, and
    /// libpq's error message. Taken: the connection is busy (not available) and
    /// the answer is `Ok(true)`. Not taken on a bad connection: the connection
    /// is closed, to be started again (`Reconnect`). Otherwise the error message.
    /// A connection that sent a query stays unavailable until its results are
    /// read and released (`PqResult::release`); no query is to be sent before.
    pub fn send_query(&mut self, sent: bool, conn_status: ConnStatusType, err_msg: String) -> (r:
        SendStep)
        ensures
            sent ==> r == SendStep::Done(Ok::<bool, String>(true)) && query_sent(
                *old(self),
                *final(self),
            ),
            !sent && conn_status == ConnStatusType::CONNECTION_BAD ==> r == SendStep::Reconnect
                && !final(self).spec_available() && !final(self).spec_started(),
            !sent && conn_status != ConnStatusType::CONNECTION_BAD ==> r == SendStep::Done(
                Err::<bool, String>(err_msg),
            ) && final(self).spec_available() == old(self).spec_available()
                && final(self).spec_started() == old(self).spec_started(),
            final(self).spec_conn_info() == old(self).spec_conn_info(),
            final(self).spec_buffer() == old(self).spec_buffer(),
            final(self).spec_queue() == old(self).spec_queue(),
    {
        if sent {
            self.set_available(false);
            return SendStep::Done(Ok(true));
        }
        if let ConnStatusType::CONNECTION_BAD = conn_status {
            self.close_conn();
            return SendStep::Reconnect;
        }
        SendStep::Done(Err(err_msg))
    }

    /// The end of a reconnect that `send_query` asked for, given what libpq's
    /// connect start reported: `Ok(false)` (the query was not sent) with a new
    /// handle, or libpq's error message.
    pub fn reconnected(&mut self, started: Result<(), String>) -> (r: Result<bool, String>)
        ensures
            started is Ok ==> r == Ok::<bool, String>(false) && final(self).spec_started(),
            started is Err ==> r == Err::<bool, String>(started->Err_0) && !final(self).spec_started(),
            final(self).spec_available() == old(self).spec_available(),
            final(self).spec_conn_info() == old(self).spec_conn_info(),
            final(self).spec_buffer() == old(self).spec_buffer(),
            final(self).spec_queue() == old(self).spec_queue(),
    {
        match started {
            Ok(()) => {
                self.started = true;
                Ok(false)
            },
            Err(err) => {
                self.started = false;
                Err(err)
            },
        }
    }

    /// The number of queued operations.
    pub fn get_queue_len(&self) -> (r: usize)
        ensures
            r == self.spec_queue().len(),
    {
        self.queue.len()
    }

    /// The oldest queued operation, if any.
    pub fn get_op(&self) -> (r: Option<&Box<T>>)
        ensures
            self.spec_queue().len() == 0 ==> r is None,
            self.spec_queue().len() > 0 ==> r == Some(&self.spec_queue()[0]),
    {
        if self.queue.len() > 0 {
            Some(&self.queue[0])
        } else {
            None
        }
    }

    /// Takes the oldest operation out of the queue.
    pub fn pop(&mut self) -> (r: Option<Box<T>>)
        ensures
            pop_effect(*old(self), *final(self), r),
    {
        let r = self.queue.pop_front();
        proof {
            if old(self).queue@.len() > 0 {
                assert(self.queue@ =~= old(self).queue@.drop_first());
            }
        }
        r
    }

    /// Queues `op` at the back of the request queue. Where no operation was
    /// waiting, `op` runs at once: its state becomes `Exec` and it sends its
    /// request. Otherwise it waits for the ones before it.
    pub fn push(&mut self, op: Box<T>)
        ensures
            push_effect(*old(self), *final(self), op),
    {
        if self.queue.len() == 0 {
            let mut first = op;
            first.set_state(State::Exec);
            first.request();
            self.queue.push_back(first);
        } else {
            self.queue.push_back(op);
        }
        proof {
            assert(self.queue@.drop_last() =~= old(self).queue@);
        }
    }
}

/// Closing is done once: closing a closed connection changes nothing.
pub proof fn law_close_twice<T: IReqResp + ?Sized>(c: PqConn<T>, d: PqConn<T>, e: PqConn<T>)
    requires
        close_effect(c, d),
        close_effect(d, e),
    ensures
        e.spec_available() == d.spec_available(),
        e.spec_started() == d.spec_started(),
        e.spec_conn_info() == d.spec_conn_info(),
        e.spec_buffer() == d.spec_buffer(),
        e.spec_queue() == d.spec_queue(),
{
}

/// A connection that sent a query is busy, and stays so (reading results does
/// not touch it) until the result is freed; then it takes queries again, with
/// its queue, handle and buffer as before.
pub proof fn law_busy_until_released<T: IReqResp + ?Sized>(
    c0: PqConn<T>,
    c1: PqConn<T>,
    c2: PqConn<T>,
)
    requires
        query_sent(c0, c1),
        release_effect(c1, c2),
    ensures
        !c1.spec_available(),
        c2.spec_available(),
        c2.spec_started() == c0.spec_started(),
        c2.spec_queue() == c0.spec_queue(),
        c2.spec_buffer() == c0.spec_buffer(),
        c2.spec_conn_info() == c0.spec_conn_info(),
{
}

/// The queue length is what `get_queue_len` gives, and `pop` gives nothing
/// exactly when it is 0; each operation that `pop` gives lowers it by one and is
/// handed back as it was queued.
pub proof fn law_pop_empty_iff_len_zero<T: IReqResp + ?Sized>(
    c: PqConn<T>,
    d: PqConn<T>,
    r: Option<Box<T>>,
)
    requires
        pop_effect(c, d, r),
    ensures
        r is None <==> c.spec_queue().len() == 0,
        r is Some ==> d.spec_queue().len() == c.spec_queue().len() - 1 && r == Some(c.spec_queue()[0]),
{
}

/// The escape buffer holds twice the SQL size it is made for, and never less
/// than 32 KiB: it is the larger of the two.
pub proof fn law_buffer_capacity(sql_buffer: nat)
    ensures
        buffer_capacity(sql_buffer) >= 2 * sql_buffer,
        buffer_capacity(sql_buffer) >= 32768,
        buffer_capacity(sql_buffer) == 2 * sql_buffer || buffer_capacity(sql_buffer) == 32768,
{
}

/// Pushing onto an idle connection starts the operation pushed: it is the only
/// one queued, in state `Exec`, with its request sent. Pushing onto a busy one
/// leaves the running operation at the head and puts `op`, as it was, last.
pub proof fn law_push_starts_only_when_idle<T: IReqResp + ?Sized>(
    c: PqConn<T>,
    d: PqConn<T>,
    op: Box<T>,
)
    requires
        push_effect(c, d, op),
    ensures
        c.spec_queue().len() == 0 ==> d.spec_queue().len() == 1 && d.spec_queue()[0].base_state()
            == State::Exec && d.spec_queue()[0].request_sent(),
        c.spec_queue().len() > 0 ==> d.spec_queue()[0] == c.spec_queue()[0] && d.spec_queue().last()
            == op && d.spec_queue().len() == c.spec_queue().len() + 1,
{
    if c.spec_queue().len() > 0 {
        assert(d.spec_queue()[0] == d.spec_queue().drop_last()[0]);
    }
}

} // verus!
