use ot_decoders::naming::normalize_operation_name;

#[test]
fn labels_become_snake_case() {
    assert_eq!(normalize_operation_name("Read Property", "x"), "read_property");
    assert_eq!(normalize_operation_name("  I-Am!! ", "x"), "i_am");
    assert_eq!(normalize_operation_name("GetHTTP2", "x"), "gethttp2");
    assert_eq!(normalize_operation_name("a__b--c", "x"), "a_b_c");
    assert_eq!(normalize_operation_name("Größe 3", "x"), "gr_e_3");
}

#[test]
fn labels_without_words_give_the_fallback() {
    assert_eq!(normalize_operation_name("", "fallback"), "fallback");
    assert_eq!(normalize_operation_name("--- ???", "fallback"), "fallback");
    assert_eq!(normalize_operation_name("äöü", "fallback"), "fallback");
    assert_eq!(normalize_operation_name("7", "fallback"), "7");
}

#[test]
fn normalising_twice_is_normalising_once() {
    for label in ["Read Property", "__x__", "", "Ünïcode Läbel", "already_fine"] {
        let once = normalize_operation_name(label, "fall_back");
        assert_eq!(normalize_operation_name(&once, "fall_back"), once);
    }
}

#[test]
fn a_normalised_label_has_no_double_or_outer_separator() {
    for label in [" a  b ", "__A__", "x.y.z", "1-2"] {
        let s = normalize_operation_name(label, "f");
        assert!(!s.starts_with('_') && !s.ends_with('_') && !s.contains("__"));
        assert!(s.chars().all(|c| c == '_' || c.is_ascii_lowercase() || c.is_ascii_digit()));
    }
}
