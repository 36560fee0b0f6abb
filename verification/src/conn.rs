//! A blocking database connection: what it answers when connecting and when
//! sending a query. A text holding a zero byte cannot be handed to libpq as a C
//! string; that is decided here. What libpq itself reported comes in as a value.
use crate::decimal::{dec_str, push_u64};
use crate::op::TOpResp;
use vstd::prelude::*;

verus! {

/// What libpq reported on connecting. Not used where the connection string
/// holds a zero byte: libpq is not asked then.
pub enum ConnectOutcome {
    /// libpq connected.
    Connected,
    /// libpq did not connect; carries its error message.
    Failed(String),
}

/// What libpq reported on being sent a query. Not used where the SQL holds a
/// zero byte: libpq is not asked then.
pub enum SendOutcome {
    /// libpq took the query.
    Sent,
    /// libpq refused it; carries its error message.
    Refused(String),
}

/// The index of the first zero byte of `s` at or after `from`; -1 where there is none.
pub open spec fn first_zero(s: Seq<u8>, from: int) -> int
    decreases s.len() - from,
{
    if from < 0 || from >= s.len() {
        -1
    } else if s[from] == 0 {
        from
    } else {
        first_zero(s, from + 1)
    }
}

/// The text of the error of turning a text into a C string, where its first zero
/// byte is at `pos`.
pub open spec fn nul_error_text(pos: nat) -> Seq<char> {
    "nul byte found in provided data at position: "@ + dec_str(pos)
}

/// The position of the first zero byte of `s`, if it holds one.
pub fn nul_position(s: &str) -> (r: Option<usize>)
    ensures
        r matches Some(p) ==> first_zero(vstd::utf8::encode_utf8(s@), 0) == p,
        r is None ==> first_zero(vstd::utf8::encode_utf8(s@), 0) == -1,
{
    let b = s.as_bytes();
    let mut i: usize = 0;
    while i < b.len()
        invariant
            i <= b@.len(),
            b@ == vstd::utf8::encode_utf8(s@),
            first_zero(b@, 0) == first_zero(b@, i as int),
        decreases b@.len() - i,
    {
        if b[i] == 0 {
            return Some(i);
        }
        i = i + 1;
    }
    None
}

fn nul_error_string(pos: usize) -> (r: String)
    ensures
        r@ == nul_error_text(pos as nat),
{
    let mut s = String::new();
    s.append("nul byte found in provided data at position: ");
    push_u64(&mut s, pos as u64);
    assert(s@ =~= nul_error_text(pos as nat));
    s
}

/// The error that `Conn::new` gives for `conn_str` and libpq's outcome; `None`
/// where it connects.
pub open spec fn connect_error(conn_str: Seq<char>, outcome: ConnectOutcome) -> Option<Seq<char>> {
    let k = first_zero(vstd::utf8::encode_utf8(conn_str), 0);
    if k >= 0 {
        Some("conn str:"@ + conn_str + " to CString Error:"@ + nul_error_text(k as nat))
    } else {
        match outcome {
            ConnectOutcome::Connected => None,
            ConnectOutcome::Failed(e) => Some(conn_str + " error:"@ + e@),
        }
    }
}

/// The error that `Conn::pq_send_query` gives for `sql` and libpq's outcome;
/// `None` where the query was sent.
pub open spec fn send_error(sql: Seq<char>, outcome: SendOutcome) -> Option<Seq<char>> {
    let k = first_zero(vstd::utf8::encode_utf8(sql), 0);
    if k >= 0 {
        Some("sql error:"@ + nul_error_text(k as nat))
    } else {
        match outcome {
            SendOutcome::Sent => None,
            SendOutcome::Refused(e) => Some(e@),
        }
    }
}

/// A connection: its id, its connection string, and the operation it serves.
pub struct Conn<T: TOpResp + ?Sized = dyn TOpResp> {
    id: u32,
    conn_str: String,
    tarit_op: Option<Box<T>>,
}

impl<T: TOpResp + ?Sized> Conn<T> {
    pub closed spec fn spec_id(&self) -> u32 {
        self.id
    }

    pub closed spec fn spec_conn_str(&self) -> Seq<char> {
        self.conn_str@
    }

    pub closed spec fn spec_has_op(&self) -> bool {
        self.tarit_op is Some
    }

    /// A connection with id `id` for `conn_str`. A zero byte in `conn_str` is an
    /// error, which gives its position; otherwise the connection stands where
    /// libpq connected, and libpq's error message is given where it did not.
    /// The errors name the connection string.
    pub fn new(id: u32, conn_str: String, outcome: ConnectOutcome) -> (r: Result<Self, String>)
        ensures
            connect_error(conn_str@, outcome) is None ==> (r matches Ok(c) && c.spec_id() == id
                && c.spec_conn_str() == conn_str@ && !c.spec_has_op()),
            connect_error(conn_str@, outcome) matches Some(m) ==> (r matches Err(e) && e@ == m),
    {
        if let Some(pos) = nul_position(conn_str.as_str()) {
            let mut s = String::new();
            s.append("conn str:");
            s.append(conn_str.as_str());
            s.append(" to CString Error:");
            let t = nul_error_string(pos);
            s.append(t.as_str());
            return Err(s);
        }
        match outcome {
            ConnectOutcome::Connected => Ok(Conn { id, conn_str, tarit_op: None }),
            ConnectOutcome::Failed(err) => {
                let mut s = conn_str;
                s.append(" error:");
                s.append(err.as_str());
                Err(s)
            },
        }
    }

    /// What sending the query `sql` answers: a `sql error:` with the position of
    /// its first zero byte where it holds one; otherwise `Ok(true)` where libpq
    /// took it and libpq's message where it refused.
    pub fn pq_send_query(&self, sql: String, outcome: SendOutcome) -> (r: Result<bool, String>)
        ensures
            send_error(sql@, outcome) is None ==> r == Ok::<bool, String>(true),
            send_error(sql@, outcome) matches Some(m) ==> (r matches Err(e) && e@ == m),
    {
        if let Some(pos) = nul_position(sql.as_str()) {
            let mut s = String::new();
            s.append("sql error:");
            let t = nul_error_string(pos);
            s.append(t.as_str());
            return Err(s);
        }
        match outcome {
            SendOutcome::Sent => Ok(true),
            SendOutcome::Refused(err) => Err(err),
        }
    }
}

proof fn lemma_first_zero(s: Seq<u8>, from: int)
    requires
        0 <= from,
    ensures
        ({
            let k = first_zero(s, from);
            &&& -1 <= k < s.len()
            &&& k >= 0 ==> from <= k && s[k] == 0
            &&& k >= 0 ==> forall|j: int| from <= j < k ==> #[trigger] s[j] != 0
            &&& k < 0 ==> forall|j: int| from <= j < s.len() ==> #[trigger] s[j] != 0
        }),
    decreases s.len() - from,
{
    if from < s.len() && s[from] != 0 {
        lemma_first_zero(s, from + 1);
    }
}

/// Sending a query: where the SQL holds no zero byte, the answer is `Ok(true)`
/// exactly when libpq took it, and libpq's own message, whatever it says, where
/// libpq refused it. Where the SQL holds a zero byte, it is an error whatever
/// libpq would say, and names the position of the first one.
pub proof fn law_send_answer(sql: Seq<char>, e: String)
    ensures
        !vstd::utf8::encode_utf8(sql).contains(0u8) ==> send_error(sql, SendOutcome::Sent) is None,
        !vstd::utf8::encode_utf8(sql).contains(0u8) ==> send_error(sql, SendOutcome::Refused(e))
            == Some(e@),
        vstd::utf8::encode_utf8(sql).contains(0u8) ==> ({
            let b = vstd::utf8::encode_utf8(sql);
            exists|p: int|
                0 <= p < b.len() && b[p] == 0 && (forall|j: int| 0 <= j < p ==> #[trigger] b[j] != 0)
                    && send_error(sql, SendOutcome::Sent) == Some("sql error:"@ + nul_error_text(p as nat))
                    && send_error(sql, SendOutcome::Refused(e)) == Some("sql error:"@ + nul_error_text(p as nat))
        }),
{
    let b = vstd::utf8::encode_utf8(sql);
    lemma_first_zero(b, 0);
    let k = first_zero(b, 0);
    if b.contains(0u8) {
        let w = choose|j: int| 0 <= j < b.len() && b[j] == 0u8;
        assert(k >= 0);
    } else {
        if k >= 0 {
            assert(b[k] == 0);
            assert(b.contains(0u8));
        }
    }
}

/// Connecting: where the connection string holds no zero byte, the connection
/// stands exactly when libpq connected, and where libpq failed the error is the
/// connection string, ` error:`, and libpq's own message. Where it holds a zero
/// byte, it is an error whatever libpq would say.
pub proof fn law_connect_answer(conn_str: Seq<char>, e: String)
    ensures
        !vstd::utf8::encode_utf8(conn_str).contains(0u8) ==> connect_error(conn_str, ConnectOutcome::Connected) is None,
        !vstd::utf8::encode_utf8(conn_str).contains(0u8) ==> connect_error(conn_str, ConnectOutcome::Failed(e))
            == Some(conn_str + " error:"@ + e@),
        vstd::utf8::encode_utf8(conn_str).contains(0u8) ==> connect_error(conn_str, ConnectOutcome::Connected) is Some
            && connect_error(conn_str, ConnectOutcome::Failed(e)) is Some,
{
    let b = vstd::utf8::encode_utf8(conn_str);
    lemma_first_zero(b, 0);
    let k = first_zero(b, 0);
    if b.contains(0u8) {
        let w = choose|j: int| 0 <= j < b.len() && b[j] == 0u8;
        assert(k >= 0);
    } else {
        if k >= 0 {
            assert(b[k] == 0);
            assert(b.contains(0u8));
        }
    }
}

} // verus!
