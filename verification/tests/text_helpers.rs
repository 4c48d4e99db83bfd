use craft_config_gen::text::name_label;
use craft_config_gen::text::record_path;
use craft_config_gen::text::tag_matches;
use craft_config_gen::text::volume_source;

#[test]
fn tag_comparison_ignores_ascii_case_only() {
    assert!(tag_matches("text", "text"));
    assert!(tag_matches("TEXT", "text"));
    assert!(tag_matches("TeXt", "text"));
    assert!(!tag_matches("texts", "text"));
    assert!(!tag_matches("tex", "text"));
    assert!(!tag_matches("", "text"));
    assert!(tag_matches("", ""));
    assert!(!tag_matches("t_xt", "text"));
}

#[test]
fn label_and_path_shapes() {
    assert_eq!(name_label("Heading", "heading"), "Heading # heading");
    assert_eq!(name_label("", ""), " # ");
    assert_eq!(volume_source("abc"), "volume:abc");
    assert_eq!(record_path("fields", "heading", "u-1"), "fields/heading--u-1.yaml");
    assert_eq!(
        record_path("entryTypes", "page", "u-2"),
        "entryTypes/page--u-2.yaml"
    );
}
