use vstd::prelude::*;
use crate::error::BQError;
use crate::wire::value_text;
use crate::encode::{wire_text, write_bool, write_opt_member, write_rows};

verus! {

/// An optional string as plain values.
pub open spec fn opt_view(o: Option<String>) -> Option<Seq<char>> {
    match o {
        Some(s) => Some(s@),
        None => None,
    }
}

/// One row to insert: an optional deduplication id, forwarded verbatim,
/// and the payload as a JSON value.
#[derive(Debug, Clone)]
pub struct TableDataInsertAllRequestRows {
    pub insert_id: Option<String>,
    pub json: serde_json::Value,
}

/// A row as plain values: the payload as the JSON text it is written as.
pub struct RowView {
    pub insert_id: Option<Seq<char>>,
    pub json: Seq<char>,
}

impl View for TableDataInsertAllRequestRows {
    type V = RowView;

    open spec fn view(&self) -> RowView {
        RowView { insert_id: opt_view(self.insert_id), json: value_text(self.json) }
    }
}

impl TableDataInsertAllRequestRows {
    /// A row with the given id and payload.
    pub fn new(insert_id: Option<String>, json: serde_json::Value) -> (r: Self)
        ensures
            r@ == (RowView { insert_id: opt_view(insert_id), json: value_text(json) }),
    {
        TableDataInsertAllRequestRows { insert_id, json }
    }
}

/// A batch insert request: rows in insertion order and the request flags.
#[derive(Debug, Clone)]
pub struct TableDataInsertAllRequest {
    ignore_unknown_values: bool,
    kind: Option<String>,
    rows: Vec<TableDataInsertAllRequestRows>,
    skip_invalid_rows: bool,
    template_suffix: Option<String>,
}

/// A request as plain values.
pub struct RequestView {
    pub ignore_unknown_values: bool,
    pub kind: Option<Seq<char>>,
    pub rows: Seq<RowView>,
    pub skip_invalid_rows: bool,
    pub template_suffix: Option<Seq<char>>,
}

impl View for TableDataInsertAllRequest {
    type V = RequestView;

    closed spec fn view(&self) -> RequestView {
        RequestView {
            ignore_unknown_values: self.ignore_unknown_values,
            kind: opt_view(self.kind),
            rows: self.rows@.map_values(|r: TableDataInsertAllRequestRows| r@),
            skip_invalid_rows: self.skip_invalid_rows,
            template_suffix: opt_view(self.template_suffix),
        }
    }
}

/// The request that holds no rows and has every flag at its default.
pub open spec fn empty_request() -> RequestView {
    RequestView {
        ignore_unknown_values: false,
        kind: None,
        rows: Seq::empty(),
        skip_invalid_rows: false,
        template_suffix: None,
    }
}

/// `m` with its rows replaced by `rows`.
pub open spec fn with_rows(m: RequestView, rows: Seq<RowView>) -> RequestView {
    RequestView { rows, ..m }
}

impl TableDataInsertAllRequest {
    /// An empty request with every flag at its default.
    pub fn new() -> (r: Self)
        ensures
            r@ == empty_request(),
    {
        let r = TableDataInsertAllRequest {
            ignore_unknown_values: false,
            kind: None,
            rows: Vec::new(),
            skip_invalid_rows: false,
            template_suffix: None,
        };
        assert(r@.rows =~= Seq::<RowView>::empty());
        r
    }

    /// Number of rows held.
    pub fn len(&self) -> (r: usize)
        ensures
            r == self@.rows.len(),
    {
        self.rows.len()
    }

    /// Whether no row is held.
    pub fn is_empty(&self) -> (r: bool)
        ensures
            r == (self@.rows.len() == 0),
    {
        self.rows.is_empty()
    }

    /// Sets `ignore_unknown_values`; there is no way back.
    pub fn ignore_unknown_values(&mut self) -> (r: &mut Self)
        ensures
            (*r)@ == (RequestView { ignore_unknown_values: true, ..old(self)@ }),
            *final(self) == *final(r),
    {
        self.ignore_unknown_values = true;
        self
    }

    /// Sets the resource-type tag.
    pub fn kind(&mut self, kind: String) -> (r: &mut Self)
        ensures
            (*r)@ == (RequestView { kind: Some(kind@), ..old(self)@ }),
            *final(self) == *final(r),
    {
        self.kind = Some(kind);
        self
    }

    /// Appends one row whose payload is the outcome of turning it into a
    /// JSON value with serde_json: the value, or the error that converting it
    /// gave, which is handed back and leaves the request as it was.
    pub fn add_row(
        &mut self,
        insert_id: Option<String>,
        object: Result<serde_json::Value, serde_json::Error>,
    ) -> (r: Result<(), BQError>)
        ensures
            match object {
                Ok(v) => r is Ok && final(self)@ == with_rows(
                    old(self)@,
                    old(self)@.rows.push(
                        RowView { insert_id: opt_view(insert_id), json: value_text(v) },
                    ),
                ),
                Err(_) => r matches Err(BQError::SerializationError(_)) && final(self)@ == old(
                    self,
                )@,
            },
    {
        match object {
            Ok(json) => {
                let row = TableDataInsertAllRequestRows { insert_id, json };
                self.rows.push(row);
                assert(self@.rows =~= old(self)@.rows.push(row@));
                Ok(())
            },
            Err(e) => Err(BQError::SerializationError(e)),
        }
    }

    /// Appends prebuilt rows, in order, after the rows already held.
    pub fn add_rows(&mut self, objects: Vec<TableDataInsertAllRequestRows>) -> (r: Result<
        (),
        BQError,
    >)
        ensures
            r is Ok,
            final(self)@ == with_rows(
                old(self)@,
                old(self)@.rows + objects@.map_values(|o: TableDataInsertAllRequestRows| o@),
            ),
    {
        let ghost added = objects@;
        let mut objects = objects;
        self.rows.append(&mut objects);
        assert(self@.rows =~= old(self)@.rows + added.map_values(
            |o: TableDataInsertAllRequestRows| o@,
        ));
        Ok(())
    }

    /// Sets `skip_invalid_rows`; there is no way back.
    pub fn skip_invalid_rows(&mut self) -> (r: &mut Self)
        ensures
            (*r)@ == (RequestView { skip_invalid_rows: true, ..old(self)@ }),
            *final(self) == *final(r),
    {
        self.skip_invalid_rows = true;
        self
    }

    /// Sets the template suffix.
    pub fn template_suffix(&mut self, suffix: String) -> (r: &mut Self)
        ensures
            (*r)@ == (RequestView { template_suffix: Some(suffix@), ..old(self)@ }),
            *final(self) == *final(r),
    {
        self.template_suffix = Some(suffix);
        self
    }

    /// Removes every row; the flags, the kind and the suffix stay.
    pub fn clear(&mut self)
        ensures
            final(self)@ == with_rows(old(self)@, Seq::empty()),
    {
        self.rows.clear();
        assert(self@.rows =~= Seq::<RowView>::empty());
    }

    /// The wire body: the request as compact JSON text.
    pub fn to_json(&self) -> (r: String)
        ensures
            r@ == wire_text(self@),
    {
        let mut out = String::from_str("{\"ignoreUnknownValues\":");
        write_bool(&mut out, self.ignore_unknown_values);
        write_opt_member(&mut out, ",\"kind\":", &self.kind);
        out.append(",\"rows\":[");
        write_rows(&mut out, &self.rows);
        out.append("],\"skipInvalidRows\":");
        write_bool(&mut out, self.skip_invalid_rows);
        write_opt_member(&mut out, ",\"templateSuffix\":", &self.template_suffix);
        out.append("}");
        assert(out@ =~= wire_text(self@));
        out
    }
}

impl Default for TableDataInsertAllRequest {
    fn default() -> (r: Self)
        ensures
            r@ == empty_request(),
    {
        TableDataInsertAllRequest::new()
    }
}

} // verus!
