use aeron_cache_embedded_client::order::{sort_by_key, text_less};

#[test]
fn text_less_compares_by_code_point_with_prefix_first() {
    assert!(text_less("a", "b"));
    assert!(!text_less("b", "a"));
    assert!(text_less("ab", "abc"));
    assert!(!text_less("abc", "ab"));
    assert!(!text_less("same", "same"));
    assert!(text_less("", "x"));
    assert!(!text_less("", ""));
    assert!(text_less("Z", "a"));
    assert!(text_less("z", "é"));
}

#[test]
fn text_less_agrees_with_string_order() {
    let words = ["", "a", "ab", "b", "B", "é", "e\u{301}", "zz", "日本", "ñ", "n"];
    for x in words.iter() {
        for y in words.iter() {
            assert_eq!(text_less(x, y), x < y, "{:?} < {:?}", x, y);
        }
    }
}

#[test]
fn sort_by_key_orders_entries_and_keeps_values() {
    let items = vec![
        ("m".to_string(), 2),
        ("b".to_string(), 1),
        ("z".to_string(), 3),
        ("a".to_string(), 0),
    ];
    let sorted = sort_by_key(items);
    assert_eq!(
        sorted,
        vec![
            ("a".to_string(), 0),
            ("b".to_string(), 1),
            ("m".to_string(), 2),
            ("z".to_string(), 3),
        ]
    );
    let empty: Vec<(String, i32)> = Vec::new();
    assert!(sort_by_key(empty).is_empty());
}
