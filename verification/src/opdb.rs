//! Database operations that send their SQL and read their results, with a sample
//! operation that reads a user's data.
#![allow(non_camel_case_types)]
use crate::decimal::{dec_str, push_u64};
use crate::pq_result::PgResult;
use vstd::prelude::*;

verus! {

/// An operation as the database connection sees it.
pub trait Topdb {
    /// Makes the SQL and sends it to the database.
    fn send(&self);

    /// Reads the result that the database gave back.
    fn recv(&self, result: PgResult);
}

/// An operation whose state can be set.
pub trait TOp {
    /// The state that the operation is in.
    spec fn op_state(&self) -> OpState;

    fn set_state(&mut self, state: OpState)
        ensures
            final(self).op_state() == state,
    ;
}

/// An operation that answers once the database responded.
pub trait TReqResp: TOp {
    /// The callback for the database's response; gives the line it reports.
    fn resp_cb(&self) -> String;
}

/// The stage an operation has reached.
#[derive(Debug, Copy, Clone)]
pub enum OpState {
    /// Waiting to be executed.
    Wait,
    /// Turned away: no room in the queue.
    Busy,
    /// Being executed.
    Exec,
    /// Executed successfully.
    Succ,
    /// Execution failed.
    Fail,
}

/// What every operation carries: the hash that picks its connection (such as a
/// user id), a time stamp for time-outs, and its state.
pub struct Op {
    hash: u64,
    time: u64,
    state: OpState,
}

impl Op {
    pub closed spec fn spec_hash(&self) -> u64 {
        self.hash
    }

    pub closed spec fn spec_time(&self) -> u64 {
        self.time
    }

    pub closed spec fn spec_state(&self) -> OpState {
        self.state
    }

    /// A fresh operation: time 0, state `Succ`.
    pub fn new(hash: u64) -> (r: Self)
        ensures
            r.spec_hash() == hash,
            r.spec_time() == 0,
            r.spec_state() == OpState::Succ,
    {
        Op { hash, time: 0, state: OpState::Succ }
    }

    pub fn get_hash(&self) -> (r: u64)
        ensures
            r == self.spec_hash(),
    {
        self.hash
    }

    pub fn get_time(&self) -> (r: u64)
        ensures
            r == self.spec_time(),
    {
        self.time
    }

    pub fn get_state(&self) -> (r: OpState)
        ensures
            r == self.spec_state(),
    {
        self.state
    }
}

/// The data sent to the database to read a user: the user's id, and the data
/// read back.
pub struct GetUseData {
    pub op: Op,
    pub id: u64,
    pub data: Vec<u32>,
}

impl TOp for GetUseData {
    open spec fn op_state(&self) -> OpState {
        self.op.spec_state()
    }

    fn set_state(&mut self, state: OpState)
        ensures
            final(self).id == old(self).id,
            final(self).data@ == old(self).data@,
            final(self).op.spec_hash() == old(self).op.spec_hash(),
            final(self).op.spec_time() == old(self).op.spec_time(),
    {
        self.op.state = state;
    }
}

/// The line that `GetUseData::resp_cb` reports for the user id `id`.
pub open spec fn get_use_data_line(id: u64) -> Seq<char> {
    "GetUseData id:"@ + dec_str(id as nat)
}

impl TReqResp for GetUseData {
    fn resp_cb(&self) -> (r: String)
        ensures
            r@ == get_use_data_line(self.id),
    {
        let mut s = String::new();
        s.append("GetUseData id:");
        push_u64(&mut s, self.id);
        assert(s@ =~= get_use_data_line(self.id));
        s
    }
}

/// The database operation that reads a user's data.
pub struct opdbUserData {
    req_resp: GetUseData,
}

impl Topdb for opdbUserData {
    fn send(&self) {
    }

    fn recv(&self, res: PgResult) {
    }
}

impl opdbUserData {
    /// The request and response data of the operation.
    pub closed spec fn spec_req_resp(&self) -> GetUseData {
        self.req_resp
    }

    pub fn new(req_resp: GetUseData) -> (r: Self)
        ensures
            r.spec_req_resp() == req_resp,
    {
        opdbUserData { req_resp }
    }
}

} // verus!
