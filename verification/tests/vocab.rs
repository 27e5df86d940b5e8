use mara_core::vocab::{Id, FNV_OFFSET};

#[test]
fn ids_are_fnv1a_of_their_text() {
    assert_eq!(Id::new("").value, FNV_OFFSET);
    assert_eq!(Id::new("").value, 0xcbf2_9ce4_8422_2325);
    assert_eq!(Id::new("a").value, 0xaf63_dc4c_8601_ec8c);
}

#[test]
fn compound_ids_fold_a_separator_between_parts() {
    assert_eq!(Id::pair("a", "b").value, 0xe5ea_a319_043b_0991);
    assert_eq!(Id::pair("a", "b"), Id::new("a").with("b"));
    assert_ne!(Id::pair("ab", "c"), Id::pair("a", "bc"));
    assert_ne!(Id::pair("a", "b"), Id::new("ab"));
}

#[test]
fn numeric_salts_are_exact_and_distinct() {
    assert_eq!(Id::new("a").with_u64(7).value, 0xe5ea_c619_043b_450a);
    assert_ne!(Id::new("a").with_u64(7), Id::new("a").with_u64(8));
    let other = Id::new("other");
    assert_eq!(Id::new("a").with_id(other), Id::new("a").with_u64(other.value));
}

#[test]
fn same_text_same_id() {
    assert_eq!(Id::new("widget"), Id::new("widget"));
    assert_ne!(Id::new("widget"), Id::new("Widget"));
}
