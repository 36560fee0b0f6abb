use pq_sys::op::{Op, OpMgmt, OpState, QueryUser, ReqData, RespData, TOp, TOpReq, TOpResp};
use pq_sys::op_base::{IOpBase, IReqResp, OpBase, State};
use pq_sys::op_queue::OpQueue;
use pq_sys::pq_result::PgResult;
use std::cell::RefCell;
use std::rc::Rc;

#[test]
fn op_test() {
    let _db_op = QueryUser {
        op: Op::new(1),
        req_data: ReqData { id: 1 },
        resp_data: Some(RespData {
            name: "name".into(),
        }),
    };
}

#[test]
fn op_queue_test() {
    let _queue: OpQueue = OpQueue::new(9);
    //queue.push()
}

struct Job {
    id: u32,
    log: Rc<RefCell<Vec<String>>>,
}

impl TOp for Job {
    fn set_state(&mut self, state: OpState) {
        self.log.borrow_mut().push(format!("{} state {:?}", self.id, state));
    }
}

impl TOpReq for Job {
    fn request(&mut self) {
        self.log.borrow_mut().push(format!("{} request", self.id));
    }
}

impl TOpResp for Job {
    fn respone(&mut self) {
        self.log.borrow_mut().push(format!("{} respone", self.id));
    }
}

#[test]
fn op_defaults() {
    let op = Op::new(77);
    assert_eq!(op.get_hash_id(), 77);
    assert_eq!(op.get_op_time(), 0);
    assert!(matches!(op.get_state(), OpState::Succ));
    let base = OpBase::new(5);
    assert_eq!(base.get_hash(), 5);
    assert_eq!(base.get_time(), 0);
    assert!(matches!(base.get_state(), State::Succ));
}

#[test]
fn op_mgmt_is_bounded_and_fifo() {
    let log = Rc::new(RefCell::new(Vec::new()));
    let mut mgmt: OpMgmt = OpMgmt::new(2);
    for id in 1..=3 {
        mgmt.push(Box::new(Job { id, log: log.clone() }));
    }
    assert_eq!(mgmt.get_len(), 2);
    assert_eq!(*log.borrow(), vec!["3 state Busy".to_string(), "3 respone".to_string()]);
    log.borrow_mut().clear();
    while let Some(mut op) = mgmt.pop() {
        op.respone();
    }
    assert_eq!(*log.borrow(), vec!["1 respone".to_string(), "2 respone".to_string()]);
    assert_eq!(mgmt.get_len(), 0);
}

#[test]
fn op_mgmt_with_no_room_turns_every_op_away() {
    let log = Rc::new(RefCell::new(Vec::new()));
    let mut mgmt: OpMgmt = OpMgmt::new(0);
    mgmt.push(Box::new(Job { id: 9, log: log.clone() }));
    assert_eq!(mgmt.get_len(), 0);
    assert!(mgmt.pop().is_none());
    assert_eq!(*log.borrow(), vec!["9 state Busy".to_string(), "9 respone".to_string()]);
}

struct Req {
    state: State,
    log: Rc<RefCell<Vec<String>>>,
}

impl IOpBase for Req {
    fn base_state(&self) -> State {
        self.state
    }

    fn set_state(&mut self, state: State) {
        self.state = state;
        self.log.borrow_mut().push(format!("state {:?}", state));
    }
}

impl IReqResp for Req {
    fn request(&self) {
        self.log.borrow_mut().push("request".to_string());
    }
    fn respone(&self, result: Option<PgResult>) {
        self.log.borrow_mut().push(format!("respone {}", result.is_some()));
    }
}

#[test]
fn op_queue_without_connections_turns_ops_away() {
    let log = Rc::new(RefCell::new(Vec::new()));
    let mut queue: OpQueue = OpQueue::new(9);
    assert_eq!(queue.get_max_len(), 9);
    queue.push(12345, Box::new(Req { state: State::Wait, log: log.clone() }));
    assert_eq!(*log.borrow(), vec!["state Busy".to_string(), "respone false".to_string()]);
}
