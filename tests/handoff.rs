use tigerbeetle_unofficial::handoff::ContextTable;

#[test]
fn parked_value_comes_back_once() {
    let mut t: ContextTable<String> = ContextTable::new(2);
    t.into_raw(1, "ctx".to_string());
    assert_eq!(t.from_raw(1), Some("ctx".to_string()));
    assert_eq!(t.from_raw(1), None);
    assert_eq!(t.from_raw(0), None);
    assert_eq!(t.from_raw(5), None);
    t.into_raw(1, "again".to_string());
    assert_eq!(t.from_raw(1).as_deref(), Some("again"));
}
