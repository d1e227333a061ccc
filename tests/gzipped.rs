use bq_insert::{TableDataInsertAllRequest, TableDataInsertAllRequestGzipped};
use std::io::Read;

fn gunzip(bytes: &[u8]) -> String {
    let mut decoder = flate2::read::GzDecoder::new(bytes);
    let mut out = String::new();
    decoder.read_to_string(&mut out).unwrap();
    out
}

#[test]
fn compressed_request_decompresses_to_its_json() {
    let mut r = TableDataInsertAllRequest::new();
    r.kind("k".to_string());
    r.add_row(Some("id-1".to_string()), serde_json::to_value(&"a")).unwrap();
    r.add_row(None, serde_json::to_value(&2)).unwrap();
    let expected = r.to_json();
    let g = TableDataInsertAllRequestGzipped::try_from(r).unwrap();
    assert_eq!(g.len(), g.data().len());
    assert_eq!(&g.data()[0..3], &[0x1f, 0x8b, 8]);
    let n = g.data().len();
    assert!(n >= 18);
    let tail = [g.data()[n - 4], g.data()[n - 3], g.data()[n - 2], g.data()[n - 1]];
    assert_eq!(u32::from_le_bytes(tail) as usize, expected.len());
    assert_eq!(gunzip(g.data()), expected);
}

#[test]
fn compressing_an_empty_request() {
    let g = TableDataInsertAllRequestGzipped::try_from(TableDataInsertAllRequest::new()).unwrap();
    assert_eq!(
        gunzip(g.data()),
        "{\"ignoreUnknownValues\":false,\"rows\":[],\"skipInvalidRows\":false}"
    );
}

#[test]
fn equal_requests_compress_alike() {
    let mut a = TableDataInsertAllRequest::new();
    a.add_row(None, serde_json::to_value(&7)).unwrap();
    let b = a.clone();
    let ga = TableDataInsertAllRequestGzipped::try_from(a).unwrap();
    let gb = TableDataInsertAllRequestGzipped::try_from(b).unwrap();
    assert_eq!(ga.data(), gb.data());
}

#[test]
fn compression_through_try_into() {
    let mut r = TableDataInsertAllRequest::new();
    r.ignore_unknown_values().skip_invalid_rows().kind("k".to_string()).template_suffix("_s".to_string());
    r.add_row(Some("i".to_string()), serde_json::to_value(&1)).unwrap();
    let g: TableDataInsertAllRequestGzipped = r.try_into().unwrap();
    assert_eq!(
        gunzip(g.data()),
        "{\"ignoreUnknownValues\":true,\"kind\":\"k\",\"rows\":[{\"insertId\":\"i\",\"json\":1}],\"skipInvalidRows\":true,\"templateSuffix\":\"_s\"}"
    );
}

#[test]
fn wrapping_precompressed_bytes() {
    let g = TableDataInsertAllRequestGzipped::new(vec![1, 2, 3, 4]);
    assert_eq!(g.len(), 4);
    assert_eq!(g.data(), &vec![1, 2, 3, 4]);
    let empty = TableDataInsertAllRequestGzipped::new(Vec::new());
    assert_eq!(empty.len(), 0);
}
