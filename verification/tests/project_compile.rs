use craft_config_gen::config::EntryTypeConfig;
use craft_config_gen::config::EntryTypeField;
use craft_config_gen::config::FieldConfig;
use craft_config_gen::config::FieldType;
use craft_config_gen::config::ProjectConfig;
use craft_config_gen::config::SectionType;
use craft_config_gen::entry_type::FieldLayoutElement;
use craft_config_gen::generator::compile_project;
use craft_config_gen::generator::generate_entry_type;

fn field_cfg(name: &str, handle: &str, field_type: FieldType, required: bool) -> FieldConfig {
    FieldConfig {
        name: name.to_string(),
        handle: handle.to_string(),
        field_type,
        instructions: None,
        required: Some(required),
        searchable: Some(false),
        settings: None,
    }
}

fn entry_cfg(
    name: &str,
    handle: &str,
    refs: Vec<(&str, Option<bool>)>,
    has_title_field: Option<bool>,
) -> EntryTypeConfig {
    EntryTypeConfig {
        name: name.to_string(),
        handle: handle.to_string(),
        fields: refs
            .into_iter()
            .map(|(h, required)| EntryTypeField { handle: h.to_string(), required })
            .collect(),
        has_title_field,
        title_format: None,
    }
}

/// One plain-text field `heading`, one entry type `page` requiring it:
/// the smallest complete project.
fn one_field_one_entry_type() -> ProjectConfig {
    ProjectConfig {
        fields: vec![field_cfg("Heading", "heading", FieldType::PlainText, false)],
        entry_types: vec![entry_cfg("Page", "page", vec![("heading", Some(true))], None)],
        sections: None,
        volumes: None,
    }
}

#[test]
fn scenario_single_field_page() {
    let r = compile_project(&one_field_one_entry_type());

    assert_eq!(r.fields.len(), 1);
    let cf = &r.fields[0];
    assert_eq!(cf.handle, "heading");
    assert_eq!(cf.uid.len(), 36);
    assert_eq!(cf.label, "Heading # heading");
    assert_eq!(cf.file_name, format!("fields/heading--{}.yaml", cf.uid));
    assert_eq!(cf.field.field_type, "craft\\fields\\PlainText");

    assert_eq!(r.entry_types.len(), 1);
    let ce = &r.entry_types[0];
    assert_eq!(ce.handle, "page");
    assert_eq!(ce.label, "Page # page");
    assert_eq!(ce.file_name, format!("entryTypes/page--{}.yaml", ce.uid));
    let tab = &ce.entry_type.field_layouts[0].layout.tabs[0];
    assert_eq!(tab.name, "Content");
    assert_eq!(tab.elements.len(), 2);
    match &tab.elements[0] {
        FieldLayoutElement::EntryTitle(t) => {
            assert!(t.required);
            assert_eq!(t.width, 100);
        }
        _ => panic!("the first element must be the title element"),
    }
    match &tab.elements[1] {
        FieldLayoutElement::CustomField(c) => {
            // required comes from the entry-type reference, not from the
            // field declaration (which said false)
            assert!(c.required);
            assert_eq!(c.field_uid, cf.uid);
            assert_eq!(c.width, 100);
        }
        _ => panic!("the second element must be the custom field"),
    }

    // exactly two name-index entries: the field and the entry type
    assert_eq!(r.names.len(), 2);
    assert_eq!(r.names[0], (cf.uid.clone(), "Heading # heading".to_string()));
    assert_eq!(r.names[1], (ce.uid.clone(), "Page # page".to_string()));
}

#[test]
fn required_flag_follows_the_reference_not_the_field() {
    let config = ProjectConfig {
        fields: vec![field_cfg("Heading", "heading", FieldType::PlainText, true)],
        entry_types: vec![entry_cfg("Page", "page", vec![("heading", Some(false))], Some(true))],
        sections: None,
        volumes: None,
    };
    let r = compile_project(&config);
    let tab = &r.entry_types[0].entry_type.field_layouts[0].layout.tabs[0];
    match &tab.elements[1] {
        FieldLayoutElement::CustomField(c) => assert!(!c.required),
        _ => panic!("expected a custom-field element"),
    }
}

#[test]
fn unsupported_declarations_are_skipped_in_bulk() {
    let config = ProjectConfig {
        fields: vec![
            field_cfg("Heading", "heading", FieldType::PlainText, false),
            field_cfg("Kind", "kind", FieldType::Dropdown, false),
            field_cfg("When", "when", FieldType::Date, false),
            field_cfg("Link", "link", FieldType::Url, false),
        ],
        entry_types: vec![entry_cfg(
            "Page",
            "page",
            vec![("heading", None), ("kind", None), ("link", None)],
            None,
        )],
        sections: None,
        volumes: None,
    };
    let r = compile_project(&config);
    // only the supported declarations are compiled, in input order
    assert_eq!(r.fields.len(), 2);
    assert_eq!(r.fields[0].handle, "heading");
    assert_eq!(r.fields[1].handle, "link");
    // the dropped field's reference is skipped; the others stay in order
    let tab = &r.entry_types[0].entry_type.field_layouts[0].layout.tabs[0];
    assert_eq!(tab.elements.len(), 3);
    match &tab.elements[1] {
        FieldLayoutElement::CustomField(c) => assert_eq!(c.field_uid, r.fields[0].uid),
        _ => panic!("expected a custom-field element"),
    }
    match &tab.elements[2] {
        FieldLayoutElement::CustomField(c) => assert_eq!(c.field_uid, r.fields[1].uid),
        _ => panic!("expected a custom-field element"),
    }
    // the index covers exactly what was emitted
    assert_eq!(r.names.len(), 3);
}

#[test]
fn title_field_can_be_switched_off() {
    let config = ProjectConfig {
        fields: vec![field_cfg("Heading", "heading", FieldType::PlainText, false)],
        entry_types: vec![entry_cfg("Page", "page", vec![("heading", None)], Some(false))],
        sections: None,
        volumes: None,
    };
    let r = compile_project(&config);
    let tab = &r.entry_types[0].entry_type.field_layouts[0].layout.tabs[0];
    assert_eq!(tab.elements.len(), 1);
    assert!(matches!(tab.elements[0], FieldLayoutElement::CustomField(_)));
}

#[test]
fn unresolved_reference_is_skipped() {
    let config = ProjectConfig {
        fields: vec![field_cfg("Heading", "heading", FieldType::PlainText, false)],
        entry_types: vec![entry_cfg(
            "Page",
            "page",
            vec![("missing", Some(true)), ("heading", None)],
            None,
        )],
        sections: None,
        volumes: None,
    };
    let r = compile_project(&config);
    let tab = &r.entry_types[0].entry_type.field_layouts[0].layout.tabs[0];
    assert_eq!(tab.elements.len(), 2);
    match &tab.elements[1] {
        FieldLayoutElement::CustomField(c) => {
            assert_eq!(c.field_uid, r.fields[0].uid);
            assert!(!c.required);
        }
        _ => panic!("expected a custom-field element"),
    }
}

#[test]
fn every_emitted_identifier_is_indexed_and_nothing_else() {
    let r = compile_project(&ProjectConfig::example());
    assert_eq!(r.names.len(), r.fields.len() + r.entry_types.len());
    for (i, cf) in r.fields.iter().enumerate() {
        assert_eq!(r.names[i].0, cf.uid);
        assert_eq!(r.names[i].1, cf.label);
    }
    for (i, ce) in r.entry_types.iter().enumerate() {
        assert_eq!(r.names[r.fields.len() + i].0, ce.uid);
        assert_eq!(r.names[r.fields.len() + i].1, ce.label);
    }
    // every custom-field element references an indexed field identifier
    for ce in &r.entry_types {
        for tab in &ce.entry_type.field_layouts[0].layout.tabs {
            for e in &tab.elements {
                if let FieldLayoutElement::CustomField(c) = e {
                    assert!(r.names.iter().any(|(uid, _)| *uid == c.field_uid));
                }
            }
        }
    }
}

#[test]
fn two_runs_share_structure_but_not_identifiers() {
    let config = ProjectConfig::example();
    let r1 = compile_project(&config);
    let r2 = compile_project(&config);

    assert_eq!(r1.fields.len(), r2.fields.len());
    for (a, b) in r1.fields.iter().zip(r2.fields.iter()) {
        assert_eq!(a.handle, b.handle);
        assert_eq!(a.label, b.label);
        assert_eq!(a.field.field_type, b.field.field_type);
        assert_ne!(a.uid, b.uid);
        assert_ne!(a.file_name, b.file_name);
    }
    assert_eq!(r1.entry_types.len(), r2.entry_types.len());
    for (a, b) in r1.entry_types.iter().zip(r2.entry_types.iter()) {
        assert_eq!(a.handle, b.handle);
        assert_eq!(a.label, b.label);
        assert_ne!(a.uid, b.uid);
        let ta = &a.entry_type.field_layouts[0].layout.tabs[0];
        let tb = &b.entry_type.field_layouts[0].layout.tabs[0];
        assert_eq!(ta.elements.len(), tb.elements.len());
        for (x, y) in ta.elements.iter().zip(tb.elements.iter()) {
            match (x, y) {
                (FieldLayoutElement::EntryTitle(s), FieldLayoutElement::EntryTitle(t)) => {
                    assert_eq!(s.required, t.required);
                    assert_eq!(s.width, t.width);
                    assert_ne!(s.uid, t.uid);
                }
                (FieldLayoutElement::CustomField(s), FieldLayoutElement::CustomField(t)) => {
                    assert_eq!(s.required, t.required);
                    assert_eq!(s.width, t.width);
                    assert_ne!(s.uid, t.uid);
                }
                _ => panic!("element kinds must line up across runs"),
            }
        }
    }
    let labels1: Vec<&String> = r1.names.iter().map(|(_, l)| l).collect();
    let labels2: Vec<&String> = r2.names.iter().map(|(_, l)| l).collect();
    assert_eq!(labels1, labels2);
}

#[test]
fn example_config_is_complete_and_resolvable() {
    let c = ProjectConfig::example();
    assert_eq!(c.fields.len(), 5);
    assert_eq!(c.entry_types.len(), 2);
    assert_eq!(c.fields[0].handle, "heading");
    assert!(matches!(c.fields[0].field_type, FieldType::PlainText));
    for et in &c.entry_types {
        for fref in &et.fields {
            assert!(c.fields.iter().any(|f| f.handle == fref.handle));
        }
    }
    let sections = c.sections.as_ref().expect("the sample declares sections");
    assert_eq!(sections.len(), 2);
    for sc in sections {
        assert!(matches!(sc.section_type, SectionType::Channel));
        for h in &sc.entry_types {
            assert!(c.entry_types.iter().any(|et| et.handle == *h));
        }
    }
    let volumes = c.volumes.as_ref().expect("the sample declares a volume");
    assert_eq!(volumes.len(), 1);
    assert_eq!(volumes[0].handle, "images");
    assert_eq!(volumes[0].fs_handle, "local");
    let r = compile_project(&c);
    assert_eq!(r.fields.len(), 5);
    assert_eq!(r.names.len(), 7);
}

#[test]
fn ad_hoc_entry_type_builds_detached_references() {
    let handles = vec!["alpha".to_string(), "beta".to_string()];
    let et = generate_entry_type("Post", "post", &handles).expect("never fails");
    assert_eq!(et.handle, "post");
    assert_eq!(et.name, "Post");
    let tab = &et.field_layouts[0].layout.tabs[0];
    assert_eq!(tab.name, "Content");
    assert_eq!(tab.elements.len(), 3);
    assert!(matches!(tab.elements[0], FieldLayoutElement::EntryTitle(_)));
    for e in &tab.elements[1..] {
        match e {
            FieldLayoutElement::CustomField(c) => {
                assert!(!c.required);
                assert_eq!(c.field_uid.len(), 36);
            }
            _ => panic!("expected custom-field elements after the title"),
        }
    }
}
