use vstd::prelude::*;
use crate::request::{RowView, RequestView, TableDataInsertAllRequestRows};
use crate::wire::{quote_str, json_quoted, json_text};

verus! {

/// A flag as JSON.
pub open spec fn bool_text(b: bool) -> Seq<char> {
    if b {
        "true"@
    } else {
        "false"@
    }
}

/// An optional member: `key` (which carries its leading comma, name and
/// colon) and the quoted value when there is one, nothing otherwise.
pub open spec fn opt_member_text(key: Seq<char>, v: Option<Seq<char>>) -> Seq<char> {
    match v {
        Some(s) => key + json_quoted(s),
        None => Seq::empty(),
    }
}

/// A row as a JSON object: `insertId` only when the row has one, then `json`.
pub open spec fn row_text(r: RowView) -> Seq<char> {
    match r.insert_id {
        Some(id) => "{\"insertId\":"@ + json_quoted(id) + ",\"json\":"@ + r.json + "}"@,
        None => "{\"json\":"@ + r.json + "}"@,
    }
}

/// The rows, each as a JSON object, in order and separated by commas.
pub open spec fn rows_text(rows: Seq<RowView>) -> Seq<char>
    decreases rows.len(),
{
    if rows.len() == 0 {
        Seq::empty()
    } else if rows.len() == 1 {
        row_text(rows[0])
    } else {
        rows_text(rows.drop_last()) + ","@ + row_text(rows.last())
    }
}

/// The wire body of a request: a JSON object whose members come in
/// alphabetical order, `kind` and `templateSuffix` only when set, the two
/// flags and `rows` always.
pub open spec fn wire_text(m: RequestView) -> Seq<char> {
    "{\"ignoreUnknownValues\":"@ + bool_text(m.ignore_unknown_values)
        + opt_member_text(",\"kind\":"@, m.kind) + ",\"rows\":["@ + rows_text(m.rows)
        + "],\"skipInvalidRows\":"@ + bool_text(m.skip_invalid_rows)
        + opt_member_text(",\"templateSuffix\":"@, m.template_suffix) + "}"@
}

/// Appends a flag as JSON.
pub(crate) fn write_bool(out: &mut String, b: bool)
    ensures
        final(out)@ == old(out)@ + bool_text(b),
{
    if b {
        out.append("true");
    } else {
        out.append("false");
    }
}

/// Appends an optional member, `key` first, when `v` holds a value.
pub(crate) fn write_opt_member(out: &mut String, key: &str, v: &Option<String>)
    ensures
        final(out)@ == old(out)@ + opt_member_text(key@, crate::request::opt_view(*v)),
{
    match v {
        Some(s) => {
            out.append(key);
            let q = quote_str(s.as_str());
            out.append(q.as_str());
        },
        None => {
            assert(out@ =~= out@ + Seq::<char>::empty());
        },
    }
}

/// Appends one row as a JSON object.
pub(crate) fn write_row(out: &mut String, row: &TableDataInsertAllRequestRows)
    ensures
        final(out)@ == old(out)@ + row_text(row@),
{
    let ghost start = out@;
    match &row.insert_id {
        Some(id) => {
            out.append("{\"insertId\":");
            let q = quote_str(id.as_str());
            out.append(q.as_str());
            out.append(",\"json\":");
        },
        None => {
            out.append("{\"json\":");
        },
    }
    let payload = json_text(&row.json);
    out.append(payload.as_str());
    out.append("}");
    assert(out@ =~= start + row_text(row@));
}

/// Appends the rows, in order and separated by commas.
pub(crate) fn write_rows(out: &mut String, rows: &Vec<TableDataInsertAllRequestRows>)
    ensures
        final(out)@ == old(out)@ + rows_text(rows@.map_values(|r: TableDataInsertAllRequestRows| r@)),
{
    let ghost start = out@;
    let ghost views = rows@.map_values(|r: TableDataInsertAllRequestRows| r@);
    let mut i: usize = 0;
    while i < rows.len()
        invariant
            i <= rows.len(),
            views == rows@.map_values(|r: TableDataInsertAllRequestRows| r@),
            out@ == start + rows_text(views.subrange(0, i as int)),
        decreases rows.len() - i,
    {
        let ghost before = out@;
        if i > 0 {
            out.append(",");
        }
        write_row(out, &rows[i]);
        proof {
            let pre = views.subrange(0, i as int);
            let next = views.subrange(0, i as int + 1);
            assert(next.drop_last() =~= pre);
            assert(next.last() == rows@[i as int]@);
            if i == 0 {
                assert(pre.len() == 0);
            }
            assert(out@ =~= start + rows_text(next));
        }
        i = i + 1;
    }
    assert(views.subrange(0, rows.len() as int) =~= views);
}

} // verus!
