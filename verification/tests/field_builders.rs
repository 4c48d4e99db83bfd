use craft_config_gen::field::Field;
use craft_config_gen::field::FieldSettings;
use craft_config_gen::generator::generate_field;
use craft_config_gen::generator::GeneratorError;

fn built(tag: &str) -> Field {
    generate_field("Sample", "sample", tag, Some("hint"), None).expect("supported tag")
}

#[test]
fn plain_text_aliases_and_defaults() {
    for tag in ["text", "plaintext", "plain_text", "TEXT", "PlainText"] {
        let f = built(tag);
        assert_eq!(f.field_type, "craft\\fields\\PlainText");
        assert_eq!(f.handle, "sample");
        assert_eq!(f.name, "Sample");
        assert_eq!(f.instructions.as_deref(), Some("hint"));
        assert_eq!(f.translation_method, "none");
        assert!(!f.searchable);
        match &f.settings {
            FieldSettings::PlainText(s) => {
                assert_eq!(s.initial_rows, 1);
                assert!(!s.multiline);
                assert!(!s.code);
                assert_eq!(s.ui_mode, "normal");
                assert!(s.byte_limit.is_none());
                assert!(s.char_limit.is_none());
                assert!(s.placeholder.is_none());
            }
            _ => panic!("wrong settings variant for {tag}"),
        }
    }
}

#[test]
fn multiline_aliases_raise_initial_rows() {
    for tag in ["textarea", "multiline", "TextArea"] {
        let f = built(tag);
        assert_eq!(f.field_type, "craft\\fields\\PlainText");
        match &f.settings {
            FieldSettings::PlainText(s) => {
                assert_eq!(s.initial_rows, 4);
                assert!(s.multiline);
            }
            _ => panic!("wrong settings variant for {tag}"),
        }
    }
}

#[test]
fn rich_text_aliases_and_defaults() {
    for tag in ["richtext", "rich_text", "wysiwyg", "WYSIWYG"] {
        let f = built(tag);
        assert_eq!(f.field_type, "craft\\ckeditor\\Field");
        match &f.settings {
            FieldSettings::CKEditor(s) => {
                assert!(s.full_graphql_data);
                assert!(s.purify_html);
                assert!(!s.parse_embeds);
                assert_eq!(s.source_editing_groups, vec!["__ADMINS__".to_string()]);
                assert_eq!(s.cke_config.len(), 36);
                assert_eq!(s.available_transforms, "");
                assert_eq!(s.available_volumes, "");
                assert!(s.character_limit.is_none());
            }
            _ => panic!("wrong settings variant for {tag}"),
        }
    }
}

#[test]
fn image_aliases_and_defaults() {
    for tag in ["image", "asset", "Image"] {
        let f = built(tag);
        assert_eq!(f.field_type, "craft\\fields\\Assets");
        match &f.settings {
            FieldSettings::Assets(s) => {
                assert!(s.allow_uploads);
                assert_eq!(s.max_relations, Some(1));
                assert_eq!(s.allowed_kinds, Some(vec!["image".to_string()]));
                assert!(s.restrict_files);
                assert!(!s.restrict_location);
                assert_eq!(s.default_placement, "end");
                assert_eq!(s.default_upload_location_subpath, "images");
                assert_eq!(s.preview_mode, "full");
                assert_eq!(s.view_mode, "list");
                assert_eq!(s.sources, "*");
                // both upload locations carry the same fresh volume reference
                assert_eq!(s.default_upload_location_source, s.restricted_location_source);
                assert!(s.default_upload_location_source.starts_with("volume:"));
                assert_eq!(s.default_upload_location_source.len(), "volume:".len() + 36);
            }
            _ => panic!("wrong settings variant for {tag}"),
        }
    }
}

#[test]
fn number_aliases_and_defaults() {
    for tag in ["number", "integer", "float", "Integer"] {
        let f = built(tag);
        assert_eq!(f.field_type, "craft\\fields\\Number");
        match &f.settings {
            FieldSettings::Number(s) => {
                assert_eq!(s.decimals, 0);
                assert_eq!(s.preview_format, "decimal");
                assert!(s.prefix.is_none());
                assert!(s.suffix.is_none());
                assert!(s.size.is_none());
            }
            _ => panic!("wrong settings variant for {tag}"),
        }
    }
}

#[test]
fn url_aliases_and_defaults() {
    for tag in ["url", "link", "URL", "Link"] {
        let f = built(tag);
        assert_eq!(f.field_type, "craft\\fields\\Url");
        match &f.settings {
            FieldSettings::Url(s) => {
                assert_eq!(s.max_length, 255);
                assert!(s.placeholder.is_none());
            }
            _ => panic!("wrong settings variant for {tag}"),
        }
    }
}

#[test]
fn unsupported_tag_is_a_named_error() {
    let r = generate_field("Gallery", "gallery", "carousel", None, None);
    match r {
        Err(GeneratorError::UnsupportedFieldType(tag)) => {
            assert_eq!(tag, "carousel");
        }
        _ => panic!("a carousel tag must be refused"),
    }
    let e = generate_field("Gallery", "gallery", "carousel", None, None).unwrap_err();
    assert_eq!(e.message(), "Unsupported field type: carousel");
}

#[test]
fn two_rich_text_fields_draw_distinct_editor_configs() {
    let a = built("richtext");
    let b = built("richtext");
    match (&a.settings, &b.settings) {
        (FieldSettings::CKEditor(x), FieldSettings::CKEditor(y)) => {
            assert_ne!(x.cke_config, y.cke_config);
        }
        _ => panic!("wrong settings variants"),
    }
}

#[test]
fn get_uuid_draws_fresh_identifiers() {
    let f = built("text");
    let a = f.get_uuid();
    let b = f.get_uuid();
    assert_eq!(a.len(), 36);
    assert_eq!(b.len(), 36);
    assert_ne!(a, b);
}
