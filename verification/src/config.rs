//! The input schema: the author-friendly project description the
//! generator compiles. Read once, never mutated.

use vstd::prelude::*;

verus! {

/// A whole project description: fields first, then the entry types that
/// reference them by handle, plus optional pass-through sections and
/// volumes.
#[derive(Debug)]
pub struct ProjectConfig {
    pub fields: Vec<FieldConfig>,
    pub entry_types: Vec<EntryTypeConfig>,
    pub sections: Option<Vec<SectionConfig>>,
    pub volumes: Option<Vec<VolumeConfig>>,
}

/// One declared field. The optional raw `settings` blob is carried
/// through opaquely and read by nothing in the generator.
#[derive(Debug)]
pub struct FieldConfig {
    pub name: String,
    pub handle: String,
    pub field_type: FieldType,
    pub instructions: Option<String>,
    pub required: Option<bool>,
    pub searchable: Option<bool>,
    pub settings: Option<serde_json::Value>,
}

/// The closed set of declarable field-type tags. Only a subset has a
/// builder; the rest are skipped during bulk compilation.
#[derive(Debug)]
pub enum FieldType {
    PlainText,
    RichText,
    Image,
    Asset,
    Number,
    Url,
    Dropdown,
    Radio,
    Checkboxes,
    Date,
    Email,
    Lightswitch,
    Color,
    Table,
    Matrix,
}

/// One declared entry type with its ordered field references.
#[derive(Debug)]
pub struct EntryTypeConfig {
    pub name: String,
    pub handle: String,
    pub fields: Vec<EntryTypeField>,
    pub has_title_field: Option<bool>,
    pub title_format: Option<String>,
}

/// A reference from an entry type to a field, by handle, with the
/// per-entry-type required flag.
#[derive(Debug)]
pub struct EntryTypeField {
    pub handle: String,
    pub required: Option<bool>,
}

/// A publishing section; carried through unchanged by the compiler.
#[derive(Debug)]
pub struct SectionConfig {
    pub name: String,
    pub handle: String,
    pub section_type: SectionType,
    pub entry_types: Vec<String>,
    pub site_settings: Option<Vec<SiteSetting>>,
}

#[derive(Debug)]
pub enum SectionType {
    Channel,
    Structure,
    Single,
}

#[derive(Debug)]
pub struct SiteSetting {
    pub site_handle: String,
    pub enabled_by_default: bool,
    pub has_urls: bool,
    pub uri_format: Option<String>,
    pub template: Option<String>,
}

/// An asset volume declaration; carried through unchanged.
#[derive(Debug)]
pub struct VolumeConfig {
    pub name: String,
    pub handle: String,
    pub fs_handle: String,
    pub transform_fs_handle: Option<String>,
    pub transform_subpath: Option<String>,
}

/// What `ProjectConfig::example` promises of one field declaration.
pub open spec fn example_field(
    fc: FieldConfig,
    name: Seq<char>,
    handle: Seq<char>,
    field_type: FieldType,
    instructions: Option<Seq<char>>,
    searchable: bool,
) -> bool {
    &&& fc.name@ == name
    &&& fc.handle@ == handle
    &&& fc.field_type == field_type
    &&& (match fc.instructions {
        Some(s) => instructions matches Some(t) && s@ == t,
        None => instructions is None,
    })
    &&& fc.required == Some(false)
    &&& fc.searchable == Some(searchable)
    &&& fc.settings is None
}

/// What `ProjectConfig::example` promises of one field reference.
pub open spec fn example_ref(
    fr: EntryTypeField,
    handle: Seq<char>,
    required: bool,
) -> bool {
    &&& fr.handle@ == handle
    &&& fr.required == Some(required)
}

/// What `ProjectConfig::example` promises of a section's one site
/// setting: the default site, enabled, with URLs.
pub open spec fn example_site(s: SiteSetting, uri_format: Seq<char>, template: Seq<char>) -> bool {
    &&& s.site_handle@ == "default"@
    &&& s.enabled_by_default == true
    &&& s.has_urls == true
    &&& s.uri_format matches Some(u) && u@ == uri_format
    &&& s.template matches Some(t) && t@ == template
}

/// What `ProjectConfig::example` promises of one section: a channel
/// publishing a single declared entry type on the default site.
pub open spec fn example_section(
    sc: SectionConfig,
    name: Seq<char>,
    handle: Seq<char>,
    entry_type_handle: Seq<char>,
    uri_format: Seq<char>,
    template: Seq<char>,
) -> bool {
    &&& sc.name@ == name
    &&& sc.handle@ == handle
    &&& sc.section_type == SectionType::Channel
    &&& sc.entry_types@.len() == 1
    &&& sc.entry_types@[0]@ == entry_type_handle
    &&& sc.site_settings matches Some(ss) && ss@.len() == 1 && example_site(
        ss@[0],
        uri_format,
        template,
    )
}

/// The representative sample description `ProjectConfig::example`
/// returns: five fields covering each supported builder, two entry
/// types whose references all resolve, two channel sections whose
/// entry-type lists name the declared entry types, and one volume.
pub open spec fn is_example_config(c: ProjectConfig) -> bool {
    &&& c.fields@.len() == 5
    &&& example_field(
        c.fields@[0],
        "Heading"@,
        "heading"@,
        FieldType::PlainText,
        Some("Enter the main heading"@),
        true,
    )
    &&& example_field(
        c.fields@[1],
        "Body Content"@,
        "bodyContent"@,
        FieldType::RichText,
        Some("Main content for the page"@),
        true,
    )
    &&& example_field(
        c.fields@[2],
        "Featured Image"@,
        "featuredImage"@,
        FieldType::Image,
        Some("Main image for the entry"@),
        false,
    )
    &&& example_field(c.fields@[3], "Link URL"@, "linkUrl"@, FieldType::Url, None, false)
    &&& example_field(
        c.fields@[4],
        "Price"@,
        "price"@,
        FieldType::Number,
        Some("Product price"@),
        false,
    )
    &&& c.entry_types@.len() == 2
    &&& c.entry_types@[0].name@ == "Page"@
    &&& c.entry_types@[0].handle@ == "page"@
    &&& c.entry_types@[0].fields@.len() == 3
    &&& example_ref(c.entry_types@[0].fields@[0], "heading"@, true)
    &&& example_ref(c.entry_types@[0].fields@[1], "bodyContent"@, false)
    &&& example_ref(c.entry_types@[0].fields@[2], "featuredImage"@, false)
    &&& c.entry_types@[0].has_title_field == Some(true)
    &&& c.entry_types@[0].title_format is None
    &&& c.entry_types@[1].name@ == "Article"@
    &&& c.entry_types@[1].handle@ == "article"@
    &&& c.entry_types@[1].fields@.len() == 2
    &&& example_ref(c.entry_types@[1].fields@[0], "bodyContent"@, true)
    &&& example_ref(c.entry_types@[1].fields@[1], "featuredImage"@, false)
    &&& c.entry_types@[1].has_title_field == Some(true)
    &&& c.entry_types@[1].title_format is None
    &&& c.sections matches Some(ss) && ss@.len() == 2 && example_section(
        ss@[0],
        "Pages"@,
        "pages"@,
        "page"@,
        "{slug}"@,
        "pages/_entry"@,
    ) && example_section(ss@[1], "Blog"@, "blog"@, "article"@, "blog/{slug}"@, "blog/_entry"@)
    &&& c.volumes matches Some(vs) && vs@.len() == 1 && vs@[0].name@ == "Images"@
        && vs@[0].handle@ == "images"@ && vs@[0].fs_handle@ == "local"@
        && vs@[0].transform_fs_handle is None && vs@[0].transform_subpath is None
}

impl ProjectConfig {
    /// A pre-populated sample description, for the command that writes
    /// a starting-point input file.
    pub fn example() -> (r: ProjectConfig)
        ensures
            is_example_config(r),
    {
        let mut fields: Vec<FieldConfig> = Vec::new();
        fields.push(
            FieldConfig {
                name: "Heading".to_owned(),
                handle: "heading".to_owned(),
                field_type: FieldType::PlainText,
                instructions: Some("Enter the main heading".to_owned()),
                required: Some(false),
                searchable: Some(true),
                settings: None,
            },
        );
        fields.push(
            FieldConfig {
                name: "Body Content".to_owned(),
                handle: "bodyContent".to_owned(),
                field_type: FieldType::RichText,
                instructions: Some("Main content for the page".to_owned()),
                required: Some(false),
                searchable: Some(true),
                settings: None,
            },
        );
        fields.push(
            FieldConfig {
                name: "Featured Image".to_owned(),
                handle: "featuredImage".to_owned(),
                field_type: FieldType::Image,
                instructions: Some("Main image for the entry".to_owned()),
                required: Some(false),
                searchable: Some(false),
                settings: None,
            },
        );
        fields.push(
            FieldConfig {
                name: "Link URL".to_owned(),
                handle: "linkUrl".to_owned(),
                field_type: FieldType::Url,
                instructions: None,
                required: Some(false),
                searchable: Some(false),
                settings: None,
            },
        );
        fields.push(
            FieldConfig {
                name: "Price".to_owned(),
                handle: "price".to_owned(),
                field_type: FieldType::Number,
                instructions: Some("Product price".to_owned()),
                required: Some(false),
                searchable: Some(false),
                settings: None,
            },
        );
        let mut page_refs: Vec<EntryTypeField> = Vec::new();
        page_refs.push(EntryTypeField { handle: "heading".to_owned(), required: Some(true) });
        page_refs.push(EntryTypeField { handle: "bodyContent".to_owned(), required: Some(false) });
        page_refs.push(
            EntryTypeField { handle: "featuredImage".to_owned(), required: Some(false) },
        );
        let mut article_refs: Vec<EntryTypeField> = Vec::new();
        article_refs.push(
            EntryTypeField { handle: "bodyContent".to_owned(), required: Some(true) },
        );
        article_refs.push(
            EntryTypeField { handle: "featuredImage".to_owned(), required: Some(false) },
        );
        let mut entry_types: Vec<EntryTypeConfig> = Vec::new();
        entry_types.push(
            EntryTypeConfig {
                name: "Page".to_owned(),
                handle: "page".to_owned(),
                fields: page_refs,
                has_title_field: Some(true),
                title_format: None,
            },
        );
        entry_types.push(
            EntryTypeConfig {
                name: "Article".to_owned(),
                handle: "article".to_owned(),
                fields: article_refs,
                has_title_field: Some(true),
                title_format: None,
            },
        );
        let mut page_sites: Vec<SiteSetting> = Vec::new();
        page_sites.push(
            SiteSetting {
                site_handle: "default".to_owned(),
                enabled_by_default: true,
                has_urls: true,
                uri_format: Some("{slug}".to_owned()),
                template: Some("pages/_entry".to_owned()),
            },
        );
        let mut blog_sites: Vec<SiteSetting> = Vec::new();
        blog_sites.push(
            SiteSetting {
                site_handle: "default".to_owned(),
                enabled_by_default: true,
                has_urls: true,
                uri_format: Some("blog/{slug}".to_owned()),
                template: Some("blog/_entry".to_owned()),
            },
        );
        let mut page_section_types: Vec<String> = Vec::new();
        page_section_types.push("page".to_owned());
        let mut blog_section_types: Vec<String> = Vec::new();
        blog_section_types.push("article".to_owned());
        let mut sections: Vec<SectionConfig> = Vec::new();
        sections.push(
            SectionConfig {
                name: "Pages".to_owned(),
                handle: "pages".to_owned(),
                section_type: SectionType::Channel,
                entry_types: page_section_types,
                site_settings: Some(page_sites),
            },
        );
        sections.push(
            SectionConfig {
                name: "Blog".to_owned(),
                handle: "blog".to_owned(),
                section_type: SectionType::Channel,
                entry_types: blog_section_types,
                site_settings: Some(blog_sites),
            },
        );
        let mut volumes: Vec<VolumeConfig> = Vec::new();
        volumes.push(
            VolumeConfig {
                name: "Images".to_owned(),
                handle: "images".to_owned(),
                fs_handle: "local".to_owned(),
                transform_fs_handle: None,
                transform_subpath: None,
            },
        );
        ProjectConfig { fields, entry_types, sections: Some(sections), volumes: Some(volumes) }
    }
}

} // verus!
