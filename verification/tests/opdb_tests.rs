use pq_sys::opdb::{opdbUserData, GetUseData, Op, OpState, TOp, TReqResp, Topdb};

#[test]
fn opdb_test() {
    let mut opdb_obj_vec: Vec<Box<dyn Topdb>> = vec![];

    let mut req_resp = GetUseData {
        id: 1,
        data: vec![],
        op: Op::new(1),
    };

    req_resp.id = 10;

    let opdb_obj = opdbUserData::new(req_resp);

    opdb_obj_vec.push(Box::new(opdb_obj));
}

#[test]
fn get_use_data_reports_and_changes_state() {
    let mut d = GetUseData { id: 10, data: vec![1, 2], op: Op::new(3) };
    assert_eq!(d.resp_cb(), "GetUseData id:10");
    d.set_state(OpState::Exec);
    assert!(matches!(d.op.get_state(), OpState::Exec));
    assert_eq!(d.op.get_hash(), 3);
    assert_eq!(d.op.get_time(), 0);
}
