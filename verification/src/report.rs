//! The report of a query's result, one line per cell that is not SQL NULL.
use crate::decimal::{dec_str, int_str, push_i64, push_u64};
use crate::pq_result::{
    cell_in_range, cell_of, int_or_zero, utf8_lossy, ExecStatusType, PgResult, PgValue, PqResult,
};
use crate::op_base::IReqResp;
use crate::pq_conn::PqConn;
use vstd::prelude::*;

verus! {

/// The name of a result status.
pub open spec fn status_name(s: ExecStatusType) -> Seq<char> {
    match s {
        ExecStatusType::PGRES_EMPTY_QUERY => "PGRES_EMPTY_QUERY"@,
        ExecStatusType::PGRES_COMMAND_OK => "PGRES_COMMAND_OK"@,
        ExecStatusType::PGRES_TUPLES_OK => "PGRES_TUPLES_OK"@,
        ExecStatusType::PGRES_COPY_OUT => "PGRES_COPY_OUT"@,
        ExecStatusType::PGRES_COPY_IN => "PGRES_COPY_IN"@,
        ExecStatusType::PGRES_BAD_RESPONSE => "PGRES_BAD_RESPONSE"@,
        ExecStatusType::PGRES_NONFATAL_ERROR => "PGRES_NONFATAL_ERROR"@,
        ExecStatusType::PGRES_FATAL_ERROR => "PGRES_FATAL_ERROR"@,
        ExecStatusType::PGRES_COPY_BOTH => "PGRES_COPY_BOTH"@,
        ExecStatusType::PGRES_SINGLE_TUPLE => "PGRES_SINGLE_TUPLE"@,
        ExecStatusType::PGRES_PIPELINE_SYNC => "PGRES_PIPELINE_SYNC"@,
        ExecStatusType::PGRES_PIPELINE_ABORTED => "PGRES_PIPELINE_ABORTED"@,
    }
}

/// The name of a result status.
pub fn status_text(s: ExecStatusType) -> (r: String)
    ensures
        r@ == status_name(s),
{
    let mut t = String::new();
    match s {
        ExecStatusType::PGRES_EMPTY_QUERY => t.append("PGRES_EMPTY_QUERY"),
        ExecStatusType::PGRES_COMMAND_OK => t.append("PGRES_COMMAND_OK"),
        ExecStatusType::PGRES_TUPLES_OK => t.append("PGRES_TUPLES_OK"),
        ExecStatusType::PGRES_COPY_OUT => t.append("PGRES_COPY_OUT"),
        ExecStatusType::PGRES_COPY_IN => t.append("PGRES_COPY_IN"),
        ExecStatusType::PGRES_BAD_RESPONSE => t.append("PGRES_BAD_RESPONSE"),
        ExecStatusType::PGRES_NONFATAL_ERROR => t.append("PGRES_NONFATAL_ERROR"),
        ExecStatusType::PGRES_FATAL_ERROR => t.append("PGRES_FATAL_ERROR"),
        ExecStatusType::PGRES_COPY_BOTH => t.append("PGRES_COPY_BOTH"),
        ExecStatusType::PGRES_SINGLE_TUPLE => t.append("PGRES_SINGLE_TUPLE"),
        ExecStatusType::PGRES_PIPELINE_SYNC => t.append("PGRES_PIPELINE_SYNC"),
        ExecStatusType::PGRES_PIPELINE_ABORTED => t.append("PGRES_PIPELINE_ABORTED"),
    }
    assert(t@ =~= status_name(s));
    t
}

/// The line for the cell at `row`, `col`: its length, its type oid, and its
/// value, read as an `i32` where the column is of type `int4` and as text
/// otherwise.
pub open spec fn cell_line(r: PgResult, row: int, col: int) -> Seq<char> {
    let v = r.rows@[row]@[col];
    let ty = r.fields@[col].type_oid;
    let head = "len:"@ + int_str(v.len as int) + " ty:"@ + dec_str(ty as nat);
    if ty == 23 {
        head + " get_i16_val:"@ + int_str(int_or_zero(v.text@, i32::MIN as int, i32::MAX as int))
            + " "@
    } else {
        head + " get_string_val:"@ + utf8_lossy(v.text@) + " "@
    }
}

/// The lines for the first `ncols` columns of row `row`, leaving out SQL NULLs.
pub open spec fn row_lines(r: PgResult, row: int, ncols: int) -> Seq<Seq<char>>
    decreases ncols,
{
    if ncols <= 0 {
        Seq::empty()
    } else {
        let before = row_lines(r, row, ncols - 1);
        if r.rows@[row]@[ncols - 1].is_null {
            before
        } else {
            before.push(cell_line(r, row, ncols - 1))
        }
    }
}

/// The lines for the first `nrows` rows.
pub open spec fn table_lines(r: PgResult, nrows: int) -> Seq<Seq<char>>
    decreases nrows,
{
    if nrows <= 0 {
        Seq::empty()
    } else {
        table_lines(r, nrows - 1) + row_lines(r, nrows - 1, r.fields@.len() as int)
    }
}

/// The report of a result: without a result, one line with the status and the
/// connection's error message; otherwise the lines of all cells, row by row.
pub open spec fn result_lines(res: Option<PgResult>, err_msg: Seq<char>) -> Seq<Seq<char>> {
    match res {
        None => seq![
            "pq conn status:"@ + status_name(ExecStatusType::PGRES_FATAL_ERROR) + "  err msg:"@
                + err_msg,
        ],
        Some(r) => table_lines(r, r.rows@.len() as int),
    }
}

/// The number of cells of `row` that are not SQL NULL.
pub open spec fn non_null_in_row(row: Seq<PgValue>) -> nat {
    row.filter(|v: PgValue| !v.is_null).len()
}

/// The number of cells of the first `n` rows that are not SQL NULL.
pub open spec fn non_null_cells(rows: Seq<Vec<PgValue>>, n: int) -> nat
    decreases n,
{
    if n <= 0 {
        0
    } else {
        non_null_cells(rows, n - 1) + non_null_in_row(rows[n - 1]@)
    }
}

proof fn lemma_row_lines_len(r: PgResult, row: int, ncols: int)
    requires
        0 <= ncols <= r.rows@[row]@.len(),
    ensures
        row_lines(r, row, ncols).len() == non_null_in_row(r.rows@[row]@.take(ncols)),
    decreases ncols,
{
    let cells = r.rows@[row]@;
    if ncols > 0 {
        lemma_row_lines_len(r, row, ncols - 1);
        let t = cells.take(ncols);
        assert(t.drop_last() =~= cells.take(ncols - 1));
        reveal_with_fuel(Seq::<PgValue>::filter, 1);
        assert(t.last() == cells[ncols - 1]);
    } else {
        assert(cells.take(0) =~= Seq::<PgValue>::empty());
        reveal_with_fuel(Seq::<PgValue>::filter, 1);
    }
}

proof fn lemma_table_lines_len(r: PgResult, nrows: int)
    requires
        r.wf(),
        0 <= nrows <= r.rows@.len(),
    ensures
        table_lines(r, nrows).len() == non_null_cells(r.rows@, nrows),
    decreases nrows,
{
    if nrows > 0 {
        lemma_table_lines_len(r, nrows - 1);
        let cells = r.rows@[nrows - 1]@;
        assert(cells.len() == r.fields@.len());
        lemma_row_lines_len(r, nrows - 1, r.fields@.len() as int);
        assert(cells.take(r.fields@.len() as int) =~= cells);
    }
}

/// The report of a result has exactly one line for each cell that is not SQL
/// NULL, whatever that cell holds (an empty text too), and a single line where
/// there is no result.
pub proof fn law_one_line_per_cell(res: Option<PgResult>, err_msg: Seq<char>)
    requires
        res matches Some(r) ==> r.wf(),
    ensures
        res matches Some(r) ==> result_lines(res, err_msg).len() == non_null_cells(r.rows@, r.rows@.len() as int),
        res is None ==> result_lines(res, err_msg).len() == 1,
{
    if let Some(r) = res {
        lemma_table_lines_len(r, r.rows@.len() as int);
    }
}

fn cell_text_line(res: &PqResult, row: i32, col: i32) -> (s: String)
    requires
        cell_in_range(res.spec_res(), row as int, col as int),
        res.spec_res().unwrap().wf(),
    ensures
        s@ == cell_line(res.spec_res().unwrap(), row as int, col as int),
{
    let ty = res.get_type(col);
    let len = res.get_val_len(row, col);
    let mut s = String::new();
    s.append("len:");
    push_i64(&mut s, len as i64);
    s.append(" ty:");
    push_u64(&mut s, ty as u64);
    if ty == 23 {
        let val = res.get_i32_val(row, col);
        s.append(" get_i16_val:");
        push_i64(&mut s, val as i64);
    } else {
        let val = res.get_string_val(row, col);
        s.append(" get_string_val:");
        s.append(val.as_str());
    }
    s.append(" ");
    assert(s@ =~= cell_line(res.spec_res().unwrap(), row as int, col as int));
    s
}

/// Reports the result `pq_result` that `pq_conn` handed over, given the
/// connection's error message, then frees the result: the connection takes
/// queries again.
pub fn pq_get_result<T: IReqResp + ?Sized>(
    pq_result: PqResult,
    pq_conn: &mut PqConn<T>,
    err_msg: &str,
) -> (lines: Vec<String>)
    ensures
        lines@.map_values(|s: String| s@) == result_lines(pq_result.spec_res(), err_msg@),
        crate::pq_conn::release_effect(*old(pq_conn), *final(pq_conn)),
{
    let mut res = pq_result;
    let lines = result_report(&res, err_msg);
    res.release(pq_conn);
    lines
}

/// The lines of the report of `pq_result`.
fn result_report(pq_result: &PqResult, err_msg: &str) -> (lines: Vec<String>)
    ensures
        lines@.map_values(|s: String| s@) == result_lines(pq_result.spec_res(), err_msg@),
{
    let mut lines: Vec<String> = Vec::new();
    if pq_result.is_null() {
        let mut s = String::new();
        s.append("pq conn status:");
        let st = status_text(pq_result.get_status());
        s.append(st.as_str());
        s.append("  err msg:");
        s.append(err_msg);
        lines.push(s);
        assert(lines@.map_values(|s: String| s@) =~= result_lines(pq_result.spec_res(), err_msg@));
        return lines;
    }
    let rows = pq_result.get_rows();
    let cols = pq_result.get_clos();
    let ghost r = pq_result.spec_res().unwrap();
    let mut row: i32 = 0;
    while row < rows
        invariant
            pq_result.spec_res() == Some(r),
            r.wf(),
            rows == r.rows@.len(),
            cols == r.fields@.len(),
            0 <= row <= rows,
            lines@.map_values(|s: String| s@) == table_lines(r, row as int),
        decreases rows - row,
    {
        let mut col: i32 = 0;
        while col < cols
            invariant
                pq_result.spec_res() == Some(r),
                r.wf(),
                rows == r.rows@.len(),
                cols == r.fields@.len(),
                0 <= row < rows,
                0 <= col <= cols,
                lines@.map_values(|s: String| s@) == table_lines(r, row as int) + row_lines(
                    r,
                    row as int,
                    col as int,
                ),
            decreases cols - col,
        {
            let ghost before = lines@.map_values(|s: String| s@);
            if !pq_result.is_null_val(row, col) {
                let s = cell_text_line(pq_result, row, col);
                lines.push(s);
                assert(lines@.map_values(|s: String| s@) =~= before.push(s@));
            }
            assert(r.rows@[row as int]@.len() == r.fields@.len());
            col = col + 1;
        }
        row = row + 1;
    }
    lines
}

} // verus!
