use vstd::prelude::*;
use crate::error::BQError;
use crate::request::TableDataInsertAllRequest;
use crate::encode::wire_text;

verus! {

/// The gzip stream that flate2 writes, at its default compression level
/// and with its default header, for the UTF-8 bytes of `text`.
pub uninterp spec fn gzip_of(text: Seq<char>) -> Seq<u8>;

/// Number of bytes in the UTF-8 encoding of `c`.
pub open spec fn char_utf8_len(c: char) -> nat {
    if (c as int) < 0x80 {
        1
    } else if (c as int) < 0x800 {
        2
    } else if (c as int) < 0x10000 {
        3
    } else {
        4
    }
}

/// Number of bytes in the UTF-8 encoding of `s`.
pub open spec fn utf8_len(s: Seq<char>) -> nat
    decreases s.len(),
{
    if s.len() == 0 {
        0
    } else {
        utf8_len(s.drop_last()) + char_utf8_len(s.last())
    }
}

/// The little-endian number held by the last four bytes of `b`.
pub open spec fn last_u32_le(b: Seq<u8>) -> int {
    let n = b.len() as int;
    b[n - 4] + 0x100 * b[n - 3] + 0x1_0000 * b[n - 2] + 0x100_0000 * b[n - 1]
}

/// A gzip member as flate2 frames it for `text`: the magic bytes and the
/// deflate method byte first, and an eight-byte trailer whose last four
/// bytes give the input's UTF-8 length modulo 2^32.
pub open spec fn gzip_framed(b: Seq<u8>, text: Seq<char>) -> bool {
    &&& b.len() >= 18
    &&& b[0] == 0x1f
    &&& b[1] == 0x8b
    &&& b[2] == 8
    &&& last_u32_le(b) == utf8_len(text) % 0x1_0000_0000
}

/// Relies on flate2's `write::GzEncoder` over a `Vec<u8>` at
/// `Compression::default()`: the text's bytes are written whole, then
/// `finish` hands back the stream. Writing into a `Vec` does not fail, and
/// the encoder never misuses its deflate stream, so the result is `Ok`. Its
/// default header (magic bytes, method 8, no time, system byte 255) and the
/// trailer that `try_finish` writes (CRC-32, then the input length as a
/// wrapping `u32`, both little-endian) frame the stream, which depends on
/// the text alone.
#[verifier::external_body]
fn gzip_text(text: &str) -> (r: Result<Vec<u8>, std::io::Error>)
    ensures
        r is Ok,
        r matches Ok(v) ==> v@ == gzip_of(text@),
        r matches Ok(v) ==> gzip_framed(v@, text@),
{
    let mut encoder = flate2::write::GzEncoder::new(Vec::new(), flate2::Compression::default());
    std::io::Write::write_all(&mut encoder, text.as_bytes())?;
    encoder.finish()
}

/// A request in its compressed transport form: opaque gzip bytes.
pub struct TableDataInsertAllRequestGzipped {
    data: Vec<u8>,
}

impl TableDataInsertAllRequestGzipped {
    /// The bytes held.
    pub closed spec fn bytes(&self) -> Seq<u8> {
        self.data@
    }

    /// Wraps bytes that were compressed elsewhere.
    pub fn new(data: Vec<u8>) -> (r: Self)
        ensures
            r.bytes() == data@,
    {
        TableDataInsertAllRequestGzipped { data }
    }

    /// Number of compressed bytes.
    pub fn len(&self) -> (r: usize)
        ensures
            r == self.bytes().len(),
    {
        self.data.len()
    }

    /// The compressed bytes, for handing to a transport.
    pub fn data(&self) -> (r: &Vec<u8>)
        ensures
            r@ == self.bytes(),
    {
        &self.data
    }
}

impl TryFrom<TableDataInsertAllRequest> for TableDataInsertAllRequestGzipped {
    type Error = BQError;

    /// Consumes a request and compresses its wire body; this always
    /// succeeds.
    fn try_from(request: TableDataInsertAllRequest) -> (r: Result<Self, BQError>)
        ensures
            r is Ok,
            r matches Ok(g) ==> g.bytes() == gzip_of(wire_text(request@)),
            r matches Ok(g) ==> gzip_framed(g.bytes(), wire_text(request@)),
    {
        let text = request.to_json();
        match gzip_text(text.as_str()) {
            Ok(data) => Ok(TableDataInsertAllRequestGzipped { data }),
            Err(e) => Err(BQError::IoError(e)),
        }
    }
}

/// The compression is stated by the impl's own contract, not as a spec
/// function.
impl vstd::std_specs::convert::TryFromSpecImpl<TableDataInsertAllRequest> for TableDataInsertAllRequestGzipped {
    open spec fn obeys_try_from_spec() -> bool {
        false
    }

    open spec fn try_from_spec(v: TableDataInsertAllRequest) -> Result<Self, BQError> {
        arbitrary()
    }
}

} // verus!
