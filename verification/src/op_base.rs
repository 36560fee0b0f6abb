//! Operations that are sent to a database connection and answered by it.
use crate::pq_result::PgResult;
use vstd::prelude::*;

verus! {

/// An operation whose state can be set.
pub trait IOpBase {
    /// The state that the operation is in.
    spec fn base_state(&self) -> State;

    fn set_state(&mut self, state: State)
        ensures
            final(self).base_state() == state,
    ;
}

/// An operation that makes its SQL request and takes the database's response.
pub trait IReqResp: IOpBase {
    /// Whether this operation's request has gone to the database: `request`
    /// makes it hold. An implementation may keep its own record of it; by
    /// default it holds of every operation.
    closed spec fn request_sent(&self) -> bool {
        true
    }

    /// Makes the SQL and sends it to the database.
    fn request(&self)
        ensures
            self.request_sent(),
    ;

    /// Takes the result that the database gave back (`None`: no result).
    fn respone(&self, result: Option<PgResult>);
}

/// The stage an operation has reached.
#[derive(Debug, Copy, Clone)]
pub enum State {
    /// Waiting to be executed.
    Wait,
    /// Turned away: no room in the queue.
    Busy,
    /// Being executed.
    Exec,
    /// Executed successfully.
    Succ,
    /// Execution failed.
    Fail,
}

/// What every operation carries: the hash that picks its connection (such as a
/// user id), a time stamp for time-outs, and its state.
pub struct OpBase {
    hash: u64,
    time: u64,
    state: State,
}

impl OpBase {
    pub closed spec fn spec_hash(&self) -> u64 {
        self.hash
    }

    pub closed spec fn spec_time(&self) -> u64 {
        self.time
    }

    pub closed spec fn spec_state(&self) -> State {
        self.state
    }

    /// A fresh operation: time 0, state `Succ`.
    pub fn new(hash: u64) -> (r: Self)
        ensures
            r.spec_hash() == hash,
            r.spec_time() == 0,
            r.spec_state() == State::Succ,
    {
        OpBase { hash, time: 0, state: State::Succ }
    }

    pub fn get_hash(&self) -> (r: u64)
        ensures
            r == self.spec_hash(),
    {
        self.hash
    }

    pub fn get_time(&self) -> (r: u64)
        ensures
            r == self.spec_time(),
    {
        self.time
    }

    pub fn get_state(&self) -> (r: State)
        ensures
            r == self.spec_state(),
    {
        self.state
    }
}

} // verus!
