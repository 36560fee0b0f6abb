use pq_sys::signal::{Ctr, MySig, MySigData, Rec, Sig};

#[test]
fn test_signal() {
    let mut ms2 = MySig::new();
    let r1 = ms2.conn();
    let r2 = ms2.conn();
    for line in ms2.emit(MySigData { num: 3 }) {
        println!("{}", line);
    }

    ms2.disc(r1.id);

    for line in ms2.emit(MySigData { num: 9 }) {
        println!("{}", line);
    }

    ms2.disc(r2.id);
}

#[test]
fn signal_reaches_connected_receivers_in_order() {
    let mut sig = MySig::new();
    let r1 = sig.conn();
    let r2 = sig.conn();
    assert_eq!(r1.get_id(), 1);
    assert_eq!(r2.get_id(), 2);
    assert_eq!(
        sig.emit(MySigData { num: 3 }),
        vec![
            "mySig receive R1 - num:3".to_string(),
            "mySig receive R2 - num:3".to_string()
        ]
    );
    sig.disc(r1.id);
    assert_eq!(sig.emit(MySigData { num: -9 }), vec!["mySig receive R2 - num:-9".to_string()]);
    sig.disc(r2.id);
    assert!(sig.emit(MySigData { num: 1 }).is_empty());
}

#[test]
fn signal_ids_are_fresh_after_disconnect() {
    let mut sig = MySig::new();
    let r1 = sig.conn();
    sig.disc(r1.id);
    let r2 = sig.conn();
    assert_eq!(r2.id, 2);
    sig.disc(42);
    assert_eq!(sig.emit(MySigData { num: 0 }), vec!["mySig receive R2 - num:0".to_string()]);
}

#[test]
fn counter_counts() {
    let c = Ctr::start();
    assert_eq!(c.cur, 0);
    let c = c.next().next();
    let n: usize = c.into();
    assert_eq!(n, 2);
}

#[test]
fn receiver_line() {
    let r = pq_sys::signal::MyRec::new(7);
    assert_eq!(r.on_emit(MySigData { num: i32::MIN }), "mySig receive R7 - num:-2147483648");
}

