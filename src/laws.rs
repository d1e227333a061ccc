use vstd::prelude::*;
use crate::request::{RowView, RequestView, empty_request};
use crate::encode::{rows_text, wire_text, bool_text};
use crate::wire::json_quoted;

verus! {

/// Row order is kept on the wire: the rows of `a` followed by those of `b`
/// are written as the text of `a`'s rows, a comma, then the text of `b`'s
/// rows, so every row of `a` comes before every row of `b`.
pub proof fn lemma_rows_in_order(a: Seq<RowView>, b: Seq<RowView>)
    requires
        a.len() > 0,
        b.len() > 0,
    ensures
        rows_text(a + b) == rows_text(a) + ","@ + rows_text(b),
    decreases b.len(),
{
    if b.len() == 1 {
        assert((a + b).drop_last() =~= a);
        assert((a + b).last() == b[0]);
    } else {
        let b0 = b.drop_last();
        lemma_rows_in_order(a, b0);
        assert((a + b).drop_last() =~= a + b0);
        assert((a + b).last() == b.last());
        assert(rows_text(a + b) =~= rows_text(a) + ","@ + rows_text(b));
    }
}

/// Without a kind the wire body has no `kind` member; with kind `x` it is
/// the same body with `,"kind":` and `x` quoted put in one place.
pub proof fn lemma_kind_omitted(m: RequestView, x: Seq<char>)
    ensures
        exists|head: Seq<char>, tail: Seq<char>|
            wire_text(RequestView { kind: None, ..m }) == head + tail && wire_text(
                RequestView { kind: Some(x), ..m },
            ) == head + ",\"kind\":"@ + json_quoted(x) + tail,
{
    let head = "{\"ignoreUnknownValues\":"@ + bool_text(m.ignore_unknown_values);
    let tail = ",\"rows\":["@ + rows_text(m.rows) + "],\"skipInvalidRows\":"@ + bool_text(
        m.skip_invalid_rows,
    ) + crate::encode::opt_member_text(",\"templateSuffix\":"@, m.template_suffix) + "}"@;
    assert(wire_text(RequestView { kind: None, ..m }) =~= head + tail);
    assert(wire_text(RequestView { kind: Some(x), ..m }) =~= head + ",\"kind\":"@ + json_quoted(x)
        + tail);
}

/// Without a template suffix the wire body has no `templateSuffix` member;
/// with suffix `x` it is the same body with `,"templateSuffix":` and `x`
/// quoted put in one place.
pub proof fn lemma_template_suffix_omitted(m: RequestView, x: Seq<char>)
    ensures
        exists|head: Seq<char>, tail: Seq<char>|
            wire_text(RequestView { template_suffix: None, ..m }) == head + tail && wire_text(
                RequestView { template_suffix: Some(x), ..m },
            ) == head + ",\"templateSuffix\":"@ + json_quoted(x) + tail,
{
    let head = "{\"ignoreUnknownValues\":"@ + bool_text(m.ignore_unknown_values)
        + crate::encode::opt_member_text(",\"kind\":"@, m.kind) + ",\"rows\":["@ + rows_text(
        m.rows,
    ) + "],\"skipInvalidRows\":"@ + bool_text(m.skip_invalid_rows);
    let tail = "}"@;
    assert(wire_text(RequestView { template_suffix: None, ..m }) =~= head + tail);
    assert(wire_text(RequestView { template_suffix: Some(x), ..m }) =~= head
        + ",\"templateSuffix\":"@ + json_quoted(x) + tail);
}

/// A fresh request is written with both flags false and no rows.
pub proof fn lemma_default_wire()
    ensures
        wire_text(empty_request())
            == "{\"ignoreUnknownValues\":false,\"rows\":[],\"skipInvalidRows\":false}"@,
{
    reveal_strlit("{\"ignoreUnknownValues\":");
    reveal_strlit("false");
    reveal_strlit(",\"rows\":[");
    reveal_strlit("],\"skipInvalidRows\":");
    reveal_strlit("}");
    reveal_strlit("{\"ignoreUnknownValues\":false,\"rows\":[],\"skipInvalidRows\":false}");
    assert(rows_text(Seq::empty()) == Seq::<char>::empty());
    assert(wire_text(empty_request())
        =~= "{\"ignoreUnknownValues\":false,\"rows\":[],\"skipInvalidRows\":false}"@);
}

} // verus!
