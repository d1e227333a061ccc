use bq_insert::TableSchema;

#[test]
fn default_schema_has_no_fields() {
    let s: TableSchema<String> = TableSchema::default();
    assert!(s.fields().is_none());
    assert_eq!(s.field_count(), 0);
}

#[test]
fn schema_with_fields() {
    let s = TableSchema::new(vec!["a".to_string(), "b".to_string()]);
    assert_eq!(s.field_count(), 2);
    assert_eq!(s.fields().as_ref().unwrap()[1], "b");
}

#[test]
fn schema_with_zero_fields() {
    let s: TableSchema<u32> = TableSchema::new(Vec::new());
    assert!(s.fields().is_some());
    assert_eq!(s.field_count(), 0);
}
