use mantra_claimdrop::bytes::{compare_str, str_eq};
use mantra_claimdrop::ledger::AddressMap;

#[test]
fn keys_follow_byte_order() {
    let mut m = AddressMap::new();
    for k in ["b", "é", "aa", "z", "a", "B"] {
        m.set(k.to_string(), k.len() as u128);
    }
    let keys: Vec<String> = m.page(None, 10).into_iter().map(|e| e.0).collect();
    assert_eq!(keys, vec!["B", "a", "aa", "b", "z", "é"]);
    assert_eq!(m.len(), 6);
    m.set("aa".to_string(), 42);
    assert_eq!(m.get("aa"), Some(42));
    assert_eq!(m.len(), 6);
    assert_eq!(m.remove("a"), Some(1));
    assert_eq!(m.remove("a"), None);
    assert_eq!(m.get("a"), None);
    assert_eq!(m.page(Some("aa"), 2), vec![("b".to_string(), 1), ("z".to_string(), 1)]);
    assert_eq!(m.page(Some("zz"), 5), vec![("é".to_string(), 2)]);
}

#[test]
fn string_comparison() {
    assert!(compare_str("a", "b") < 0);
    assert!(compare_str("ab", "a") > 0);
    assert_eq!(compare_str("same", "same"), 0);
    assert!(str_eq("", ""));
    assert!(!str_eq("a", "A"));
}
