use mara_core::icons::{icon_glyph, is_icon_payload, is_svg_markup, svg_stable_hash, Icon};

#[test]
fn icon_payload_validation_does_not_depend_on_runtime_font_install() {
    assert!(
        is_icon_payload("search"),
        "static icon validation should check the bundled registry, not runtime font state"
    );
}


#[test]
fn bundled_names_resolve_to_a_glyph() {
    let (glyph, family) = icon_glyph("search").expect("search is bundled");
    assert!(!family.is_empty());
    assert!((glyph as u32) > 0x7f, "a private-use glyph, not the name's text");
    assert!(icon_glyph("definitely-not-an-icon-name").is_none());
    assert!(!is_icon_payload("definitely-not-an-icon-name"));
}

#[test]
fn svg_markup_is_recognised_after_leading_space() {
    assert!(is_svg_markup("<svg viewBox='0 0 8 8'></svg>"));
    assert!(is_svg_markup("  \n<?xml version='1.0'?><svg/>"));
    assert!(!is_svg_markup("search"));
    assert!(is_icon_payload("<svg/>"));
    assert!(matches!(Icon::from_payload("<svg/>"), Icon::Svg(_)));
    assert!(matches!(Icon::from_payload("search"), Icon::Name("search")));
}

#[test]
fn svg_hash_is_djb2_over_utf8_bytes() {
    assert_eq!(svg_stable_hash(""), 5381);
    assert_eq!(svg_stable_hash("a"), 177_670);
    assert_eq!(svg_stable_hash("<svg/>"), 6_951_878_000_030);
    assert_eq!(svg_stable_hash("é"), 5_866_513);
}
