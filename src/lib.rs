//! Builder and wire encoding for a batch "insert rows into a table" request,
//! with a gzip-compressed transport form and a schema container.

mod outside;
mod wire;
mod error;
mod request;
mod encode;
mod gzip;
mod schema;
mod laws;

pub use wire::{escape_char, hex_digit, json_escaped, json_quoted, json_text, quote_str, value_text};
pub use error::BQError;
pub use request::{
    empty_request, opt_view, with_rows, RequestView, RowView, TableDataInsertAllRequest,
    TableDataInsertAllRequestRows,
};
pub use encode::{bool_text, opt_member_text, row_text, rows_text, wire_text};
pub use gzip::{char_utf8_len, gzip_framed, gzip_of, last_u32_le, utf8_len, TableDataInsertAllRequestGzipped};
pub use schema::TableSchema;
pub use laws::{
    lemma_default_wire, lemma_kind_omitted, lemma_rows_in_order, lemma_template_suffix_omitted,
};
