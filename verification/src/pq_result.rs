//! The result of a query, as libpq hands it over, and the reading of its values.
//!
//! `PgResult` holds as plain values what libpq reports of one result (its status,
//! its columns, its cells); `PqResult` is the result that a connection is
//! currently reading, or none once libpq has no more results for the query.
#![allow(non_camel_case_types)]
use crate::decimal::parse_int;
use crate::op_base::IReqResp;
use crate::pq_conn::PqConn;
use vstd::prelude::*;

verus! {

/// PostgreSQL column types, each standing for its type oid (see `oid`).
#[derive(Debug, Copy, Clone)]
pub enum PqType {
    bool,
    bytea,
    char,
    name,
    int8,
    int2,
    int2vector,
    int4,
    text,
    oid,
    oidvector,
    json,
    xml,
    float4,
    float8,
    money,
    bpchar,
    varchar,
    date,
    time,
    timestamp,
    timestamptz,
    interval,
    timetz,
    bit,
    varbit,
    numeric,
    uuid,
    jsonb,
    jsonpath,
    int4range,
    numrange,
    daterange,
    int8range,
    cstring,
}

pub open spec fn type_oid(t: PqType) -> u32 {
    match t {
        PqType::bool => 16,
        PqType::bytea => 17,
        PqType::char => 18,
        PqType::name => 19,
        PqType::int8 => 20,
        PqType::int2 => 21,
        PqType::int2vector => 22,
        PqType::int4 => 23,
        PqType::text => 25,
        PqType::oid => 26,
        PqType::oidvector => 30,
        PqType::json => 114,
        PqType::xml => 142,
        PqType::float4 => 700,
        PqType::float8 => 701,
        PqType::money => 790,
        PqType::bpchar => 1042,
        PqType::varchar => 1043,
        PqType::date => 1082,
        PqType::time => 1083,
        PqType::timestamp => 1114,
        PqType::timestamptz => 1184,
        PqType::interval => 1186,
        PqType::timetz => 1266,
        PqType::bit => 1560,
        PqType::varbit => 1562,
        PqType::numeric => 1700,
        PqType::uuid => 2950,
        PqType::jsonb => 3802,
        PqType::jsonpath => 4072,
        PqType::int4range => 3904,
        PqType::numrange => 3906,
        PqType::daterange => 3912,
        PqType::int8range => 3926,
        PqType::cstring => 2275,
    }
}

impl PqType {
    /// The oid by which PostgreSQL names this type.
    pub fn oid(&self) -> (r: u32)
        ensures
            r == type_oid(*self),
    {
        match self {
            PqType::bool => 16,
            PqType::bytea => 17,
            PqType::char => 18,
            PqType::name => 19,
            PqType::int8 => 20,
            PqType::int2 => 21,
            PqType::int2vector => 22,
            PqType::int4 => 23,
            PqType::text => 25,
            PqType::oid => 26,
            PqType::oidvector => 30,
            PqType::json => 114,
            PqType::xml => 142,
            PqType::float4 => 700,
            PqType::float8 => 701,
            PqType::money => 790,
            PqType::bpchar => 1042,
            PqType::varchar => 1043,
            PqType::date => 1082,
            PqType::time => 1083,
            PqType::timestamp => 1114,
            PqType::timestamptz => 1184,
            PqType::interval => 1186,
            PqType::timetz => 1266,
            PqType::bit => 1560,
            PqType::varbit => 1562,
            PqType::numeric => 1700,
            PqType::uuid => 2950,
            PqType::jsonb => 3802,
            PqType::jsonpath => 4072,
            PqType::int4range => 3904,
            PqType::numrange => 3906,
            PqType::daterange => 3912,
            PqType::int8range => 3926,
            PqType::cstring => 2275,
        }
    }
}

/// Each type has an oid of its own.
pub proof fn law_oid_distinct(a: PqType, b: PqType)
    ensures
        type_oid(a) == type_oid(b) ==> a == b,
{
}

/// Each type stands for PostgreSQL's catalog oid of that type (`pg_type`).
pub proof fn law_type_oids()
    ensures
        type_oid(PqType::bool) == 16,
        type_oid(PqType::bytea) == 17,
        type_oid(PqType::char) == 18,
        type_oid(PqType::name) == 19,
        type_oid(PqType::int8) == 20,
        type_oid(PqType::int2) == 21,
        type_oid(PqType::int2vector) == 22,
        type_oid(PqType::int4) == 23,
        type_oid(PqType::text) == 25,
        type_oid(PqType::oid) == 26,
        type_oid(PqType::oidvector) == 30,
        type_oid(PqType::json) == 114,
        type_oid(PqType::xml) == 142,
        type_oid(PqType::float4) == 700,
        type_oid(PqType::float8) == 701,
        type_oid(PqType::money) == 790,
        type_oid(PqType::bpchar) == 1042,
        type_oid(PqType::varchar) == 1043,
        type_oid(PqType::date) == 1082,
        type_oid(PqType::time) == 1083,
        type_oid(PqType::timestamp) == 1114,
        type_oid(PqType::timestamptz) == 1184,
        type_oid(PqType::interval) == 1186,
        type_oid(PqType::timetz) == 1266,
        type_oid(PqType::bit) == 1560,
        type_oid(PqType::varbit) == 1562,
        type_oid(PqType::numeric) == 1700,
        type_oid(PqType::uuid) == 2950,
        type_oid(PqType::jsonb) == 3802,
        type_oid(PqType::jsonpath) == 4072,
        type_oid(PqType::int4range) == 3904,
        type_oid(PqType::numrange) == 3906,
        type_oid(PqType::daterange) == 3912,
        type_oid(PqType::int8range) == 3926,
        type_oid(PqType::cstring) == 2275,
{
}

/// The status of a result, as libpq names it.
#[derive(Debug, Copy, Clone)]
pub enum ExecStatusType {
    PGRES_EMPTY_QUERY,
    PGRES_COMMAND_OK,
    PGRES_TUPLES_OK,
    PGRES_COPY_OUT,
    PGRES_COPY_IN,
    PGRES_BAD_RESPONSE,
    PGRES_NONFATAL_ERROR,
    PGRES_FATAL_ERROR,
    PGRES_COPY_BOTH,
    PGRES_SINGLE_TUPLE,
    PGRES_PIPELINE_SYNC,
    PGRES_PIPELINE_ABORTED,
}

/// A column of a result: its name and the oid of its type.
pub struct PgField {
    pub name: String,
    pub type_oid: u32,
}

/// A cell of a result: whether it is SQL NULL, its length in bytes, its text up
/// to the first zero byte, and the address at which libpq keeps that text.
pub struct PgValue {
    pub is_null: bool,
    pub len: i32,
    pub text: Vec<u8>,
    pub addr: usize,
}

/// One result of a query: its status, its columns, its rows of cells, and the
/// count of affected rows as libpq reports it.
pub struct PgResult {
    pub status: ExecStatusType,
    pub fields: Vec<PgField>,
    pub rows: Vec<Vec<PgValue>>,
    pub cmd_tuples: String,
}

impl PgResult {
    /// Counts fit in an `i32`, and every row has a cell for each column.
    /// libpq gives an empty text of length 0 for a SQL NULL cell.
    pub open spec fn wf(&self) -> bool {
        &&& self.rows@.len() <= i32::MAX
        &&& self.fields@.len() <= i32::MAX
        &&& forall|r: int| 0 <= r < self.rows@.len() ==> #[trigger] self.rows@[r]@.len()
            == self.fields@.len()
        &&& forall|r: int, c: int|
            0 <= r < self.rows@.len() && 0 <= c < self.rows@[r]@.len()
                && #[trigger] self.rows@[r]@[c].is_null ==> self.rows@[r]@[c].text@.len() == 0
                && self.rows@[r]@[c].len == 0
    }
}

/// The number of rows of a result; none without a result.
pub open spec fn rows_of(res: Option<PgResult>) -> int {
    match res {
        Some(r) => r.rows@.len() as int,
        None => 0,
    }
}

/// The number of columns of a result; none without a result.
pub open spec fn cols_of(res: Option<PgResult>) -> int {
    match res {
        Some(r) => r.fields@.len() as int,
        None => 0,
    }
}

pub open spec fn col_in_range(res: Option<PgResult>, col: int) -> bool {
    0 <= col < cols_of(res)
}

pub open spec fn cell_in_range(res: Option<PgResult>, row: int, col: int) -> bool {
    0 <= row < rows_of(res) && 0 <= col < cols_of(res)
}

/// The cell at `row`, `col` (meaningful where `cell_in_range` holds).
pub open spec fn cell_of(res: Option<PgResult>, row: int, col: int) -> PgValue {
    res.unwrap().rows@[row]@[col]
}

/// What an integer reading of a cell gives: the number its text stands for,
/// where it is one of the type's range `min..=max`, and 0 otherwise.
pub open spec fn int_or_zero(text: Seq<u8>, min: int, max: int) -> int {
    match crate::decimal::parse_int_spec(text, min, max) {
        Some(v) => v,
        None => 0,
    }
}

/// A cell holding the decimal text of a number `v` of an integer type's range
/// reads back as `v` through the integer getter of that type.
pub proof fn law_int_cell_reads_back(v: int, min: int, max: int)
    requires
        min <= v <= max,
    ensures
        int_or_zero(crate::decimal::ascii_bytes(crate::decimal::int_str(v)), min, max) == v,
{
    crate::decimal::law_parse_of_format(v, min, max);
}

/// The text that `String::from_utf8_lossy` makes of the given bytes.
pub uninterp spec fn utf8_lossy(bytes: Seq<u8>) -> Seq<char>;

/// Calls `String::from_utf8_lossy`. Trusted: the result is the name `utf8_lossy`
/// of the bytes, and, as std documents, a valid UTF-8 text is decoded unchanged.
/// What replaces invalid sequences is left unsaid here.
#[verifier::external_body]
fn lossy_string(bytes: &[u8]) -> (r: String)
    ensures
        r@ == utf8_lossy(bytes@),
        vstd::utf8::valid_utf8(bytes@) ==> r@ == vstd::utf8::decode_utf8(bytes@),
{
    String::from_utf8_lossy(bytes).into_owned()
}

/// The result that a connection is reading: `None` once libpq has no result left.
pub struct PqResult {
    res: Option<PgResult>,
}

impl PqResult {
    #[verifier::type_invariant]
    spec fn inv(&self) -> bool {
        match self.res {
            Some(r) => r.wf(),
            None => true,
        }
    }

    /// The result held, if any.
    pub closed spec fn spec_res(&self) -> Option<PgResult> {
        self.res
    }

    /// Holds the result that the connection handed over (`None`: no result).
    pub fn new(res: Option<PgResult>) -> (r: Self)
        requires
            res matches Some(x) ==> x.wf(),
        ensures
            r.spec_res() == res,
    {
        PqResult { res }
    }

    /// Done reading: the result is freed, and the connection, busy since it
    /// sent the query, takes queries again.
    pub fn release<T: IReqResp + ?Sized>(&mut self, conn: &mut PqConn<T>)
        ensures
            final(self).spec_res() is None,
            crate::pq_conn::release_effect(*old(conn), *final(conn)),
    {
        self.res = None;
        conn.set_available(true);
    }

    /// Whether there is no result.
    pub fn is_null(&self) -> (r: bool)
        ensures
            r == self.spec_res() is None,
            self.spec_res() matches Some(x) ==> x.wf(),
    {
        proof {
            use_type_invariant(self);
        }
        self.res.is_none()
    }

    /// Drops the current result for the next one that the connection handed
    /// over, and tells whether there is one.
    pub fn next(&mut self, fetched: Option<PgResult>) -> (r: bool)
        requires
            fetched matches Some(x) ==> x.wf(),
        ensures
            final(self).spec_res() == fetched,
            r == fetched is Some,
    {
        self.res = fetched;
        self.res.is_some()
    }

    /// The number of rows; 0 without a result.
    pub fn get_rows(&self) -> (r: i32)
        ensures
            r == rows_of(self.spec_res()),
    {
        proof {
            use_type_invariant(self);
        }
        match &self.res {
            Some(x) => x.rows.len() as i32,
            None => 0,
        }
    }

    /// The number of columns; 0 without a result.
    pub fn get_clos(&self) -> (r: i32)
        ensures
            r == cols_of(self.spec_res()),
    {
        proof {
            use_type_invariant(self);
        }
        match &self.res {
            Some(x) => x.fields.len() as i32,
            None => 0,
        }
    }

    /// The status of the result; a fatal error without a result.
    pub fn get_status(&self) -> (r: ExecStatusType)
        ensures
            r == match self.spec_res() {
                Some(x) => x.status,
                None => ExecStatusType::PGRES_FATAL_ERROR,
            },
    {
        match &self.res {
            Some(x) => x.status,
            None => ExecStatusType::PGRES_FATAL_ERROR,
        }
    }

    /// The type oid of column `col`; 0 (no type) where there is no such column.
    pub fn get_type(&self, col: i32) -> (r: u32)
        ensures
            col_in_range(self.spec_res(), col as int) ==> r == self.spec_res().unwrap().fields@[col as int].type_oid,
            !col_in_range(self.spec_res(), col as int) ==> r == 0,
    {
        match &self.res {
            Some(x) => {
                if col >= 0 && (col as usize) < x.fields.len() {
                    x.fields[col as usize].type_oid
                } else {
                    0
                }
            },
            None => 0,
        }
    }

    /// The length in bytes of the cell at `row`, `col`; 0 where there is no such cell.
    pub fn get_val_len(&self, row: i32, col: i32) -> (r: i32)
        ensures
            cell_in_range(self.spec_res(), row as int, col as int) ==> r == cell_of(self.spec_res(), row as int, col as int).len,
            !cell_in_range(self.spec_res(), row as int, col as int) ==> r == 0,
    {
        proof {
            use_type_invariant(self);
        }
        match &self.res {
            Some(x) => {
                if row >= 0 && (row as usize) < x.rows.len() && col >= 0 && (col as usize) < x.fields.len() {
                    assert(x.rows@[row as int]@.len() == x.fields@.len());
                    x.rows[row as usize][col as usize].len
                } else {
                    0
                }
            },
            None => 0,
        }
    }

    /// The name of column `col`; `None` where there is no such column.
    pub fn get_fname(&self, col: i32) -> (r: Option<String>)
        ensures
            col_in_range(self.spec_res(), col as int) ==> r == Some(self.spec_res().unwrap().fields@[col as int].name),
            !col_in_range(self.spec_res(), col as int) ==> r is None,
    {
        match &self.res {
            Some(x) => {
                if col >= 0 && (col as usize) < x.fields.len() {
                    Some(x.fields[col as usize].name.clone())
                } else {
                    None
                }
            },
            None => None,
        }
    }

    /// The text of the cell at `row`, `col`; `None` where there is no such cell.
    pub fn get_val(&self, row: i32, col: i32) -> (r: Option<&[u8]>)
        ensures
            cell_in_range(self.spec_res(), row as int, col as int) ==> (r matches Some(t) && t@ == cell_of(self.spec_res(), row as int, col as int).text@),
            !cell_in_range(self.spec_res(), row as int, col as int) ==> r is None,
    {
        proof {
            use_type_invariant(self);
        }
        match &self.res {
            Some(x) => {
                if row >= 0 && (row as usize) < x.rows.len() && col >= 0 && (col as usize) < x.fields.len() {
                    assert(x.rows@[row as int]@.len() == x.fields@.len());
                    Some(x.rows[row as usize][col as usize].text.as_slice())
                } else {
                    None
                }
            },
            None => None,
        }
    }

    /// Whether the cell at `row`, `col` is SQL NULL; true where there is no such cell.
    pub fn is_null_val(&self, row: i32, col: i32) -> (r: bool)
        ensures
            cell_in_range(self.spec_res(), row as int, col as int) ==> r == cell_of(self.spec_res(), row as int, col as int).is_null,
            !cell_in_range(self.spec_res(), row as int, col as int) ==> r,
    {
        proof {
            use_type_invariant(self);
        }
        match &self.res {
            Some(x) => {
                if row >= 0 && (row as usize) < x.rows.len() && col >= 0 && (col as usize) < x.fields.len() {
                    assert(x.rows@[row as int]@.len() == x.fields@.len());
                    x.rows[row as usize][col as usize].is_null
                } else {
                    true
                }
            },
            None => true,
        }
    }

    /// The number of rows that the command affected, as text; empty without a result.
    pub fn get_cmd_rows(&self) -> (r: String)
        ensures
            r@ == match self.spec_res() {
                Some(x) => x.cmd_tuples@,
                None => Seq::<char>::empty(),
            },
    {
        match &self.res {
            Some(x) => x.cmd_tuples.clone(),
            None => String::new(),
        }
    }

    /// The text of a cell that exists.
    fn cell_text(&self, row: i32, col: i32) -> (r: &[u8])
        requires
            cell_in_range(self.spec_res(), row as int, col as int),
        ensures
            r@ == cell_of(self.spec_res(), row as int, col as int).text@,
    {
        match self.get_val(row, col) {
            Some(t) => t,
            None => {
                assert(false);
                &[]
            },
        }
    }

    /// The first byte of the cell's text, as an `i8`; 0 where the text is empty.
    pub fn get_i8_val(&self, row: i32, col: i32) -> (r: i8)
        requires
            cell_in_range(self.spec_res(), row as int, col as int),
        ensures
            ({
                let t = cell_of(self.spec_res(), row as int, col as int).text@;
                r == if t.len() == 0 {
                    0i8
                } else {
                    t[0] as i8
                }
            }),
    {
        let t = self.cell_text(row, col);
        if t.len() == 0 {
            0
        } else {
            t[0] as i8
        }
    }

    /// The low byte of the address of the cell's text (0 where there is no such cell).
    pub fn get_u8_val(&self, row: i32, col: i32) -> (r: u8)
        ensures
            cell_in_range(self.spec_res(), row as int, col as int) ==> r == cell_of(self.spec_res(), row as int, col as int).addr as u8,
            !cell_in_range(self.spec_res(), row as int, col as int) ==> r == 0,
    {
        proof {
            use_type_invariant(self);
        }
        match &self.res {
            Some(x) => {
                if row >= 0 && (row as usize) < x.rows.len() && col >= 0 && (col as usize) < x.fields.len() {
                    assert(x.rows@[row as int]@.len() == x.fields@.len());
                    x.rows[row as usize][col as usize].addr as u8
                } else {
                    0
                }
            },
            None => 0,
        }
    }

    /// The cell's text read as an `i16`; 0 where it is not one.
    pub fn get_i16_val(&self, row: i32, col: i32) -> (r: i16)
        requires
            cell_in_range(self.spec_res(), row as int, col as int),
        ensures
            r == int_or_zero(cell_of(self.spec_res(), row as int, col as int).text@, i16::MIN as int, i16::MAX as int),
    {
        match parse_int(self.cell_text(row, col), i16::MIN as i128, i16::MAX as i128) {
            Some(v) => v as i16,
            None => 0,
        }
    }

    /// The cell's text read as a `u16`; 0 where it is not one.
    pub fn get_u16_val(&self, row: i32, col: i32) -> (r: u16)
        requires
            cell_in_range(self.spec_res(), row as int, col as int),
        ensures
            r == int_or_zero(cell_of(self.spec_res(), row as int, col as int).text@, 0, u16::MAX as int),
    {
        match parse_int(self.cell_text(row, col), 0, u16::MAX as i128) {
            Some(v) => v as u16,
            None => 0,
        }
    }

    /// The cell's text read as an `i32`; 0 where it is not one.
    pub fn get_i32_val(&self, row: i32, col: i32) -> (r: i32)
        requires
            cell_in_range(self.spec_res(), row as int, col as int),
        ensures
            r == int_or_zero(cell_of(self.spec_res(), row as int, col as int).text@, i32::MIN as int, i32::MAX as int),
    {
        match parse_int(self.cell_text(row, col), i32::MIN as i128, i32::MAX as i128) {
            Some(v) => v as i32,
            None => 0,
        }
    }

    /// The cell's text read as a `u32`; 0 where it is not one.
    pub fn get_u32_val(&self, row: i32, col: i32) -> (r: u32)
        requires
            cell_in_range(self.spec_res(), row as int, col as int),
        ensures
            r == int_or_zero(cell_of(self.spec_res(), row as int, col as int).text@, 0, u32::MAX as int),
    {
        match parse_int(self.cell_text(row, col), 0, u32::MAX as i128) {
            Some(v) => v as u32,
            None => 0,
        }
    }

    /// The cell's text read as an `i64`; 0 where it is not one.
    pub fn get_i64_val(&self, row: i32, col: i32) -> (r: i64)
        requires
            cell_in_range(self.spec_res(), row as int, col as int),
        ensures
            r == int_or_zero(cell_of(self.spec_res(), row as int, col as int).text@, i64::MIN as int, i64::MAX as int),
    {
        match parse_int(self.cell_text(row, col), i64::MIN as i128, i64::MAX as i128) {
            Some(v) => v as i64,
            None => 0,
        }
    }

    /// The cell's text read as a `u64`; 0 where it is not one.
    pub fn get_u64_val(&self, row: i32, col: i32) -> (r: u64)
        requires
            cell_in_range(self.spec_res(), row as int, col as int),
        ensures
            r == int_or_zero(cell_of(self.spec_res(), row as int, col as int).text@, 0, u64::MAX as int),
    {
        match parse_int(self.cell_text(row, col), 0, u64::MAX as i128) {
            Some(v) => v as u64,
            None => 0,
        }
    }

    /// The cell's text as a string, invalid UTF-8 replaced as
    /// `String::from_utf8_lossy` replaces it.
    pub fn get_string_val(&self, row: i32, col: i32) -> (r: String)
        requires
            cell_in_range(self.spec_res(), row as int, col as int),
        ensures
            r@ == utf8_lossy(cell_of(self.spec_res(), row as int, col as int).text@),
            vstd::utf8::valid_utf8(cell_of(self.spec_res(), row as int, col as int).text@) ==> r@
                == vstd::utf8::decode_utf8(cell_of(self.spec_res(), row as int, col as int).text@),
            cell_of(self.spec_res(), row as int, col as int).is_null ==> r@.len() == 0,
    {
        proof {
            use_type_invariant(self);
            let x = self.res.unwrap();
            assert(x.rows@[row as int]@.len() == x.fields@.len());
            let t = cell_of(self.spec_res(), row as int, col as int).text@;
            if cell_of(self.spec_res(), row as int, col as int).is_null {
                assert(t.len() == 0);
                assert(vstd::utf8::valid_utf8(t));
                assert(vstd::utf8::decode_utf8(t) =~= Seq::<char>::empty());
            }
        }
        lossy_string(self.cell_text(row, col))
    }
}

} // verus!
