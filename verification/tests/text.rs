use std::collections::BTreeMap;

use ot_decoders::collections::{Attributes, KeySet, KeyedMap};
use ot_decoders::text::{
    before_text, cat, contains_text, dec_text, ends_with_text, hex0x_text, hex_text, hex_upper_text,
    join_texts, precedes_text, same_text, starts_with_text, trim_text,
};

#[test]
fn numerals() {
    assert_eq!(dec_text(0u8), "0");
    assert_eq!(dec_text(u64::MAX), "18446744073709551615");
    assert_eq!(hex_text(0xABu8, 4), "00ab");
    assert_eq!(hex_text(0x12345u32, 8), "00012345");
    assert_eq!(hex_upper_text(0xABu8, 2), "AB");
    assert_eq!(hex0x_text(5u16, 4), "0x0005");
}

#[test]
fn numerals_of_distinct_numbers_differ() {
    for a in 0u16..120 {
        for b in 0u16..120 {
            assert_eq!(dec_text(a) == dec_text(b), a == b);
        }
    }
}

#[test]
fn pieces_of_text() {
    assert_eq!(cat("ab", "cd"), "abcd");
    assert_eq!(join_texts(&vec!["a".to_string(), "b".to_string(), "c".to_string()], ", "), "a, b, c");
    assert_eq!(join_texts(&Vec::new(), ","), "");
    assert!(same_text("é", "é") && !same_text("e", "é"));
    assert!(contains_text("abc", "bc") && contains_text("abc", "") && !contains_text("abc", "ca"));
    assert!(starts_with_text("abc", "ab") && !starts_with_text("abc", "bc"));
    assert!(ends_with_text("abc", "bc") && !ends_with_text("abc", "ab"));
    assert_eq!(before_text("Error (0x1)", " ("), "Error");
    assert_eq!(before_text("Error", " ("), "Error");
}

#[test]
fn attributes_keep_one_value_for_a_key() {
    let mut a = Attributes::new();
    assert!(a.is_empty());
    a.put("k", "1");
    a.put_dec("n", 7u8);
    a.put_hex("h", 0x1Fu8, 2);
    a.put_some_dec("none", None::<u8>);
    a.put("k", "2");
    assert_eq!(a.get("k").unwrap(), "2");
    assert_eq!(a.get("n").unwrap(), "7");
    assert_eq!(a.get("h").unwrap(), "0x1f");
    assert!(!a.contains_key("none"));
    assert_eq!(a.entries().len(), 3);
    let mut b = Attributes::new();
    b.put("k", "3");
    b.put("m", "4");
    a.extend(&b);
    assert_eq!(a.get("k").unwrap(), "3");
    a.extend_prefixed("p_", &b);
    assert_eq!(a.get("p_m").unwrap(), "4");
}

#[test]
fn sets_and_maps_by_key() {
    let mut s: KeySet<String> = KeySet::new();
    assert!(s.insert("a".to_string()));
    assert!(!s.insert("a".to_string()));
    assert!(s.contains(&"a".to_string()) && !s.contains(&"b".to_string()));

    let mut m: KeyedMap<String, u8> = KeyedMap::new();
    m.insert("a".to_string(), 1);
    m.insert("b".to_string(), 2);
    m.insert("a".to_string(), 3);
    assert_eq!(m.len(), 2);
    assert_eq!(m.get(&"a".to_string()), Some(&3));
    assert_eq!(m.remove(&"a".to_string()), Some(3));
    assert_eq!(m.remove(&"a".to_string()), None);
    assert_eq!(m.pop_first(), Some(("b".to_string(), 2)));
    assert!(m.is_empty());
}

#[test]
fn trimming_agrees_with_every_character() {
    for c in '\0'..=char::MAX {
        let s = format!("{c}a{c}b{c}{c}");
        assert_eq!(trim_text(&s), s.trim());
    }
    assert_eq!(trim_text(" \t\n"), "");
    assert_eq!(trim_text(""), "");
}

#[test]
fn attributes_stand_in_the_order_of_their_keys() {
    let keys = ["b", "a", "ab", "", "B", "\u{E9}", "b", "\u{10000}", "\u{FFFD}", "aa", "10", "9", "a"];
    let mut a = Attributes::new();
    let mut map = BTreeMap::new();
    for (i, k) in keys.iter().enumerate() {
        a.put_dec(k, i as u32);
        map.insert(k.to_string(), i.to_string());
        let expected: Vec<_> = map.clone().into_iter().collect();
        assert_eq!(*a.entries(), expected);
        assert_eq!(*a.clone().entries(), expected);
    }
    for x in keys {
        for y in keys {
            assert_eq!(precedes_text(x, y), x < y);
        }
    }
}
