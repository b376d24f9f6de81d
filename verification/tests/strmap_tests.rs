use strawberryd::strmap::StrMap;

#[test]
fn insert_get_and_order() {
    let mut m: StrMap<String> = StrMap::new();
    assert!(m.is_empty());
    m.insert("monero".to_string(), "a".to_string());
    m.insert("ergo".to_string(), "b".to_string());
    m.insert("monero".to_string(), "c".to_string());
    assert_eq!(m.len(), 2);
    assert_eq!(m.get("monero").map(|s| s.as_str()), Some("c"));
    assert_eq!(m.get("ergo").map(|s| s.as_str()), Some("b"));
    assert!(m.get("zcash").is_none());
    assert!(m.contains_key("ergo"));
    assert_eq!(m.key_at(0), "monero");
    assert_eq!(m.key_at(1), "ergo");
    let copy = m.clone();
    assert_eq!(copy.value_at(0), "c");
}
