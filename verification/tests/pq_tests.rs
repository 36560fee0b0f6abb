use pq_sys::conn::{nul_position, Conn, ConnectOutcome, SendOutcome};
use pq_sys::op_base::{IOpBase, IReqResp, State};
use pq_sys::pq_conn::{ConnStatusType, PostgresPollingStatusType, PqConn, SendStep};
use pq_sys::pq_result::{ExecStatusType, PgField, PgResult, PgValue, PqResult, PqType};
use pq_sys::report::{pq_get_result, status_text};

fn value(text: &str, addr: usize) -> PgValue {
    PgValue { is_null: false, len: text.len() as i32, text: text.as_bytes().to_vec(), addr }
}

fn null_value() -> PgValue {
    PgValue { is_null: true, len: 0, text: vec![], addr: 0x1000 }
}

fn sample() -> PgResult {
    PgResult {
        status: ExecStatusType::PGRES_TUPLES_OK,
        fields: vec![
            PgField { name: "id".to_string(), type_oid: PqType::int4.oid() },
            PgField { name: "name".to_string(), type_oid: PqType::text.oid() },
        ],
        rows: vec![
            vec![value("42", 0x1234), value("bob", 0x1301)],
            vec![null_value(), value("x", 0x1ff)],
            vec![value("-70000", 0x10), value("caf\u{e9}", 0x20)],
        ],
        cmd_tuples: "3".to_string(),
    }
}

#[test]
fn result_counts_and_columns() {
    let r = PqResult::new(Some(sample()));
    assert!(!r.is_null());
    assert_eq!(r.get_rows(), 3);
    assert_eq!(r.get_clos(), 2);
    assert!(matches!(r.get_status(), ExecStatusType::PGRES_TUPLES_OK));
    assert_eq!(r.get_type(0), 23);
    assert_eq!(r.get_type(1), 25);
    assert_eq!(r.get_type(2), 0);
    assert_eq!(r.get_type(-1), 0);
    assert_eq!(r.get_fname(1), Some("name".to_string()));
    assert_eq!(r.get_fname(7), None);
    assert_eq!(r.get_cmd_rows(), "3");
}

#[test]
fn result_cells() {
    let r = PqResult::new(Some(sample()));
    assert_eq!(r.get_val_len(0, 1), 3);
    assert_eq!(r.get_val_len(9, 0), 0);
    assert_eq!(r.get_val(0, 1), Some(&b"bob"[..]));
    assert_eq!(r.get_val(3, 0), None);
    assert!(r.is_null_val(1, 0));
    assert!(!r.is_null_val(1, 1));
    assert!(r.is_null_val(0, 2));
    assert_eq!(r.get_i8_val(0, 1), b'b' as i8);
    assert_eq!(r.get_i8_val(1, 0), 0);
    assert_eq!(r.get_u8_val(0, 0), 0x34);
    assert_eq!(r.get_u8_val(1, 1), 0xff);
    assert_eq!(r.get_u8_val(5, 5), 0);
}

#[test]
fn result_numbers() {
    let r = PqResult::new(Some(sample()));
    assert_eq!(r.get_i32_val(0, 0), 42);
    assert_eq!(r.get_i16_val(0, 0), 42);
    assert_eq!(r.get_u16_val(0, 0), 42);
    assert_eq!(r.get_u32_val(0, 0), 42);
    assert_eq!(r.get_i64_val(0, 0), 42);
    assert_eq!(r.get_u64_val(0, 0), 42);
    assert_eq!(r.get_i32_val(2, 0), -70000);
    assert_eq!(r.get_i16_val(2, 0), 0);
    assert_eq!(r.get_u32_val(2, 0), 0);
    assert_eq!(r.get_i64_val(0, 1), 0);
    assert_eq!(r.get_i32_val(1, 0), 0);
}

#[test]
fn result_strings() {
    let r = PqResult::new(Some(sample()));
    assert_eq!(r.get_string_val(0, 1), "bob");
    assert_eq!(r.get_string_val(2, 1), "caf\u{e9}");
    assert_eq!(r.get_string_val(1, 0), "");
    let bad = PgResult {
        status: ExecStatusType::PGRES_TUPLES_OK,
        fields: vec![PgField { name: "b".to_string(), type_oid: 17 }],
        rows: vec![vec![PgValue { is_null: false, len: 2, text: vec![b'a', 0xff], addr: 0 }]],
        cmd_tuples: String::new(),
    };
    let r = PqResult::new(Some(bad));
    assert_eq!(r.get_string_val(0, 0), "a\u{fffd}");
}

#[test]
fn null_result_and_next() {
    let mut r = PqResult::new(None);
    assert!(r.is_null());
    assert_eq!(r.get_rows(), 0);
    assert_eq!(r.get_clos(), 0);
    assert!(matches!(r.get_status(), ExecStatusType::PGRES_FATAL_ERROR));
    assert_eq!(r.get_cmd_rows(), "");
    assert!(r.is_null_val(0, 0));
    assert!(r.next(Some(sample())));
    assert_eq!(r.get_rows(), 3);
    assert!(!r.next(None));
    assert!(r.is_null());
}

#[test]
fn type_oids() {
    assert_eq!(PqType::bool.oid(), 16);
    assert_eq!(PqType::int4.oid(), 23);
    assert_eq!(PqType::varchar.oid(), 1043);
    assert_eq!(PqType::cstring.oid(), 2275);
}

#[test]
fn report_lines() {
    let mut c: PqConn = PqConn::new("host=x".to_string(), 0, Ok(())).ok().unwrap();
    assert!(matches!(c.send_query(true, ConnStatusType::CONNECTION_OK, String::new()), SendStep::Done(Ok(true))));
    let r = PqResult::new(Some(sample()));
    assert_eq!(
        pq_get_result(r, &mut c, "unused"),
        vec![
            "len:2 ty:23 get_i16_val:42 ".to_string(),
            "len:3 ty:25 get_string_val:bob ".to_string(),
            "len:1 ty:25 get_string_val:x ".to_string(),
            "len:6 ty:23 get_i16_val:-70000 ".to_string(),
            "len:5 ty:25 get_string_val:caf\u{e9} ".to_string(),
        ]
    );
    c.set_available(false);
    let n = PqResult::new(None);
    assert_eq!(
        pq_get_result(n, &mut c, "no connection"),
        vec!["pq conn status:PGRES_FATAL_ERROR  err msg:no connection".to_string()]
    );
    assert_eq!(status_text(ExecStatusType::PGRES_COMMAND_OK), "PGRES_COMMAND_OK");
    assert!(matches!(c.send_query(true, ConnStatusType::CONNECTION_OK, String::new()), SendStep::Done(Ok(true))));
}

struct Noop {
    state: State,
}

impl IOpBase for Noop {
    fn base_state(&self) -> State {
        self.state
    }
    fn set_state(&mut self, state: State) {
        self.state = state;
    }
}

impl IReqResp for Noop {
    fn request(&self) {}
    fn respone(&self, _result: Option<PgResult>) {}
}

#[test]
fn conn_buffer_and_start() {
    let c: PqConn = PqConn::new("host=x".to_string(), 1024, Ok(())).ok().unwrap();
    assert_eq!(c.get_queue_len(), 0);
    assert!(c.get_op().is_none());
    let mut c = c;
    assert_eq!(c.escape_buffer().len(), 32768);
    assert!(c.escape_buffer().iter().all(|b| *b == 0));
    assert_eq!(c.get_conn_info(), "host=x");
    let big: Result<PqConn, String> = PqConn::new("host=x".to_string(), 20000, Ok(()));
    assert_eq!(big.ok().unwrap().escape_buffer().len(), 40000);
    let failed: Result<PqConn, String> = PqConn::new("host=x".to_string(), 10, Err("out of memory".to_string()));
    assert_eq!(failed.err(), Some("out of memory".to_string()));
}

#[test]
fn conn_poll_steps() {
    let mut c: PqConn = PqConn::new("host=x".to_string(), 0, Ok(())).ok().unwrap();
    let e = || "bad".to_string();
    assert_eq!(c.connect_poll(PostgresPollingStatusType::PGRES_POLLING_FAILED, ConnStatusType::CONNECTION_OK, e()), Err("bad".to_string()));
    assert_eq!(c.connect_poll(PostgresPollingStatusType::PGRES_POLLING_WRITING, ConnStatusType::CONNECTION_STARTED, e()), Ok(false));
    assert_eq!(c.connect_poll(PostgresPollingStatusType::PGRES_POLLING_READING, ConnStatusType::CONNECTION_BAD, e()), Err("bad".to_string()));
    assert_eq!(c.connect_poll(PostgresPollingStatusType::PGRES_POLLING_OK, ConnStatusType::CONNECTION_OK, e()), Ok(true));
    assert_eq!(c.is_result_ready(true, false, e()), Ok(true));
    assert_eq!(c.is_result_ready(true, true, e()), Ok(false));
    assert_eq!(c.is_result_ready(false, false, e()), Err("bad".to_string()));
}

#[test]
fn conn_send_query_steps() {
    let mut c: PqConn = PqConn::new("host=x".to_string(), 0, Ok(())).ok().unwrap();
    assert!(matches!(c.send_query(true, ConnStatusType::CONNECTION_OK, String::new()), SendStep::Done(Ok(true))));
    match c.send_query(false, ConnStatusType::CONNECTION_OK, "refused".to_string()) {
        SendStep::Done(Err(m)) => assert_eq!(m, "refused"),
        _ => panic!("expected the error message"),
    }
    assert!(matches!(c.send_query(false, ConnStatusType::CONNECTION_BAD, String::new()), SendStep::Reconnect));
    assert_eq!(c.reconnected(Ok(())), Ok(false));
    assert_eq!(c.reconnected(Err("no route".to_string())), Err("no route".to_string()));
    c.set_available(true);
    c.close_conn();
}

#[test]
fn conn_queue_runs_the_first_and_keeps_order() {
    let mut c: PqConn = PqConn::new("host=x".to_string(), 0, Ok(())).ok().unwrap();
    c.push(Box::new(Noop { state: State::Wait }));
    assert_eq!(c.get_queue_len(), 1);
    assert!(matches!(c.get_op().unwrap().base_state(), State::Exec));
    c.push(Box::new(Noop { state: State::Fail }));
    c.push(Box::new(Noop { state: State::Succ }));
    assert_eq!(c.get_queue_len(), 3);
    assert!(matches!(c.pop().unwrap().base_state(), State::Exec));
    assert!(matches!(c.pop().unwrap().base_state(), State::Fail));
    assert!(matches!(c.pop().unwrap().base_state(), State::Succ));
    assert!(c.pop().is_none());
}

#[test]
fn releasing_a_result_makes_the_connection_available() {
    let mut c: PqConn = PqConn::new("host=x".to_string(), 0, Ok(())).ok().unwrap();
    assert!(matches!(c.send_query(true, ConnStatusType::CONNECTION_OK, String::new()), SendStep::Done(Ok(true))));
    let mut r = PqResult::new(Some(sample()));
    r.release(&mut c);
    assert!(r.is_null());
    assert!(matches!(c.send_query(true, ConnStatusType::CONNECTION_OK, String::new()), SendStep::Done(Ok(true))));
}

#[test]
fn blocking_conn_messages() {
    let ok: Result<Conn, String> = Conn::new(1, "host=a".to_string(), ConnectOutcome::Connected);
    assert!(ok.is_ok());
    let failed: Result<Conn, String> = Conn::new(1, "host=a".to_string(), ConnectOutcome::Failed("timeout".to_string()));
    assert_eq!(failed.err(), Some("host=a error:timeout".to_string()));
    let nul: Result<Conn, String> = Conn::new(2, "h\0x".to_string(), ConnectOutcome::Connected);
    assert_eq!(
        nul.err(),
        Some("conn str:h\0x to CString Error:nul byte found in provided data at position: 1".to_string())
    );
    let c: Conn = Conn::new(1, "host=a".to_string(), ConnectOutcome::Connected).ok().unwrap();
    assert_eq!(c.pq_send_query("select 1".to_string(), SendOutcome::Sent), Ok(true));
    assert_eq!(c.pq_send_query("select 1".to_string(), SendOutcome::Refused("down".to_string())), Err("down".to_string()));
    assert_eq!(
        c.pq_send_query("caf\u{e9}\0".to_string(), SendOutcome::Sent),
        Err("sql error:nul byte found in provided data at position: 5".to_string())
    );
    assert_eq!(nul_position("abc"), None);
    assert_eq!(nul_position("\0"), Some(0));
}
