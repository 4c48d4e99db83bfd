//! Target-schema field records and the per-type builders. Each builder
//! produces a fully populated record whose settings variant matches the
//! field type, with every schema-mandated default pinned by its contract.

use vstd::prelude::*;

use crate::support::fresh_uid;
use crate::text::volume_source;

verus! {

/// A fully built target field record, ready to serialize.
#[derive(Debug)]
pub struct Field {
    pub column_suffix: Option<String>,
    pub handle: String,
    pub instructions: Option<String>,
    pub name: String,
    pub searchable: bool,
    pub settings: FieldSettings,
    pub translation_key_format: Option<String>,
    pub translation_method: String,
    pub field_type: String,
}

/// The type-specific settings shape; exactly one variant is valid for a
/// given field-type tag.
#[derive(Debug)]
pub enum FieldSettings {
    PlainText(PlainTextSettings),
    Assets(AssetSettings),
    CKEditor(CKEditorSettings),
    Number(NumberSettings),
    Url(UrlSettings),
    Dropdown(DropdownSettings),
    Radio(RadioSettings),
    Checkboxes(CheckboxesSettings),
    Date(DateSettings),
}

#[derive(Debug)]
pub struct PlainTextSettings {
    pub byte_limit: Option<u32>,
    pub char_limit: Option<u32>,
    pub code: bool,
    pub initial_rows: u32,
    pub multiline: bool,
    pub placeholder: Option<String>,
    pub ui_mode: String,
}

#[derive(Debug)]
pub struct AssetSettings {
    pub allow_self_relations: bool,
    pub allow_subfolders: bool,
    pub allow_uploads: bool,
    pub allowed_kinds: Option<Vec<String>>,
    pub branch_limit: Option<u32>,
    pub default_placement: String,
    pub default_upload_location_source: String,
    pub default_upload_location_subpath: String,
    pub maintain_hierarchy: bool,
    pub max_relations: Option<u32>,
    pub min_relations: Option<u32>,
    pub preview_mode: String,
    pub restrict_files: bool,
    pub restrict_location: bool,
    pub restricted_default_upload_subpath: Option<String>,
    pub restricted_location_source: String,
    pub restricted_location_subpath: Option<String>,
    pub selection_label: Option<String>,
    pub show_cards_in_grid: bool,
    pub show_site_menu: bool,
    pub show_unpermitted_files: bool,
    pub show_unpermitted_volumes: bool,
    pub sources: String,
    pub target_site_id: Option<String>,
    pub validate_related_elements: bool,
    pub view_mode: String,
}

#[derive(Debug)]
pub struct CKEditorSettings {
    pub available_transforms: String,
    pub available_volumes: String,
    pub character_limit: Option<u32>,
    pub cke_config: String,
    pub create_button_label: Option<String>,
    pub default_transform: Option<String>,
    pub expand_entry_buttons: bool,
    pub full_graphql_data: bool,
    pub parse_embeds: bool,
    pub purifier_config: Option<String>,
    pub purify_html: bool,
    pub show_unpermitted_files: bool,
    pub show_unpermitted_volumes: bool,
    pub show_word_count: bool,
    pub source_editing_groups: Vec<String>,
    pub word_limit: Option<u32>,
}

/// The number settings the generator fills in. The target schema also
/// takes fractional default/min/max bounds; the generator never sets
/// them, and the serialization layer emits them as nulls.
#[derive(Debug)]
pub struct NumberSettings {
    pub decimals: u32,
    pub prefix: Option<String>,
    pub preview_currency: Option<String>,
    pub preview_format: String,
    pub size: Option<u32>,
    pub suffix: Option<String>,
}

#[derive(Debug)]
pub struct UrlSettings {
    pub max_length: u32,
    pub placeholder: Option<String>,
}

#[derive(Debug)]
pub struct DropdownSettings {
    pub options: Vec<SelectOption>,
}

#[derive(Debug)]
pub struct RadioSettings {
    pub options: Vec<SelectOption>,
}

#[derive(Debug)]
pub struct CheckboxesSettings {
    pub options: Vec<SelectOption>,
}

#[derive(Debug)]
pub struct SelectOption {
    pub label: String,
    pub value: String,
    pub default: bool,
}

#[derive(Debug)]
pub struct DateSettings {
    pub max: Option<String>,
    pub min: Option<String>,
    pub minute_increment: u32,
    pub show_date: bool,
    pub show_time: bool,
    pub show_timezone: bool,
}

/// The view of an optional owned string.
pub open spec fn opt_str_view(o: Option<String>) -> Option<Seq<char>> {
    match o {
        Some(s) => Some(s@),
        None => None,
    }
}

/// The view of an optional borrowed string.
pub open spec fn opt_ref_view(o: Option<&str>) -> Option<Seq<char>> {
    match o {
        Some(s) => Some(s@),
        None => None,
    }
}

/// The metadata every builder fills the same way, whatever the type.
pub open spec fn base_field_built(
    f: Field,
    name: Seq<char>,
    handle: Seq<char>,
    instructions: Option<Seq<char>>,
) -> bool {
    &&& f.column_suffix is None
    &&& f.handle@ == handle
    &&& opt_str_view(f.instructions) == instructions
    &&& f.name@ == name
    &&& f.searchable == false
    &&& f.translation_key_format is None
    &&& f.translation_method@ == "none"@
}

pub open spec fn plain_text_settings_built(s: PlainTextSettings, multiline: bool) -> bool {
    &&& s.byte_limit is None
    &&& s.char_limit is None
    &&& s.code == false
    &&& s.initial_rows == (if multiline {
        4u32
    } else {
        1u32
    })
    &&& s.multiline == multiline
    &&& s.placeholder is None
    &&& s.ui_mode@ == "normal"@
}

/// A plain-text field as the builder leaves it.
pub open spec fn plain_text_built(
    f: Field,
    name: Seq<char>,
    handle: Seq<char>,
    instructions: Option<Seq<char>>,
    multiline: bool,
) -> bool {
    &&& base_field_built(f, name, handle, instructions)
    &&& f.field_type@ == "craft\\fields\\PlainText"@
    &&& f.settings matches FieldSettings::PlainText(s) && plain_text_settings_built(s, multiline)
}

pub open spec fn rich_text_settings_built(s: CKEditorSettings) -> bool {
    &&& s.available_transforms@ == ""@
    &&& s.available_volumes@ == ""@
    &&& s.character_limit is None
    &&& s.cke_config@.len() == 36
    &&& s.create_button_label is None
    &&& s.default_transform is None
    &&& s.expand_entry_buttons == false
    &&& s.full_graphql_data == true
    &&& s.parse_embeds == false
    &&& s.purifier_config is None
    &&& s.purify_html == true
    &&& s.show_unpermitted_files == false
    &&& s.show_unpermitted_volumes == false
    &&& s.show_word_count == false
    &&& s.source_editing_groups@.len() == 1
    &&& s.source_editing_groups@[0]@ == "__ADMINS__"@
    &&& s.word_limit is None
}

/// A rich-text field as the builder leaves it. The editor-config
/// identifier is freshly drawn, so only its length is fixed.
pub open spec fn rich_text_built(
    f: Field,
    name: Seq<char>,
    handle: Seq<char>,
    instructions: Option<Seq<char>>,
) -> bool {
    &&& base_field_built(f, name, handle, instructions)
    &&& f.field_type@ == "craft\\ckeditor\\Field"@
    &&& f.settings matches FieldSettings::CKEditor(s) && rich_text_settings_built(s)
}

/// Asset settings built around one placeholder volume reference `vol`:
/// the same freshly drawn identifier stands in both upload-location
/// source fields.
pub open spec fn asset_settings_built(s: AssetSettings, vol: Seq<char>) -> bool {
    &&& vol.len() == 36
    &&& s.allow_self_relations == false
    &&& s.allow_subfolders == false
    &&& s.allow_uploads == true
    &&& s.allowed_kinds matches Some(ks) && ks@.len() == 1 && ks@[0]@ == "image"@
    &&& s.branch_limit is None
    &&& s.default_placement@ == "end"@
    &&& s.default_upload_location_source@ == "volume:"@ + vol
    &&& s.default_upload_location_subpath@ == "images"@
    &&& s.maintain_hierarchy == false
    &&& s.max_relations == Some(1u32)
    &&& s.min_relations is None
    &&& s.preview_mode@ == "full"@
    &&& s.restrict_files == true
    &&& s.restrict_location == false
    &&& s.restricted_default_upload_subpath is None
    &&& s.restricted_location_source@ == "volume:"@ + vol
    &&& s.restricted_location_subpath is None
    &&& s.selection_label is None
    &&& s.show_cards_in_grid == false
    &&& s.show_site_menu == false
    &&& s.show_unpermitted_files == false
    &&& s.show_unpermitted_volumes == false
    &&& s.sources@ == "*"@
    &&& s.target_site_id is None
    &&& s.validate_related_elements == false
    &&& s.view_mode@ == "list"@
}

/// An image/asset field as the builder leaves it.
pub open spec fn image_built(
    f: Field,
    name: Seq<char>,
    handle: Seq<char>,
    instructions: Option<Seq<char>>,
) -> bool {
    &&& base_field_built(f, name, handle, instructions)
    &&& f.field_type@ == "craft\\fields\\Assets"@
    &&& f.settings matches FieldSettings::Assets(s) && (exists|vol: Seq<char>|
        asset_settings_built(s, vol))
}

pub open spec fn number_settings_built(s: NumberSettings) -> bool {
    &&& s.decimals == 0
    &&& s.prefix is None
    &&& s.preview_currency is None
    &&& s.preview_format@ == "decimal"@
    &&& s.size is None
    &&& s.suffix is None
}

/// A number field as the builder leaves it.
pub open spec fn number_built(
    f: Field,
    name: Seq<char>,
    handle: Seq<char>,
    instructions: Option<Seq<char>>,
) -> bool {
    &&& base_field_built(f, name, handle, instructions)
    &&& f.field_type@ == "craft\\fields\\Number"@
    &&& f.settings matches FieldSettings::Number(s) && number_settings_built(s)
}

pub open spec fn url_settings_built(s: UrlSettings) -> bool {
    &&& s.max_length == 255
    &&& s.placeholder is None
}

/// A URL field as the builder leaves it.
pub open spec fn url_built(
    f: Field,
    name: Seq<char>,
    handle: Seq<char>,
    instructions: Option<Seq<char>>,
) -> bool {
    &&& base_field_built(f, name, handle, instructions)
    &&& f.field_type@ == "craft\\fields\\Url"@
    &&& f.settings matches FieldSettings::Url(s) && url_settings_built(s)
}

fn owned_instructions(instructions: Option<&str>) -> (r: Option<String>)
    ensures
        opt_str_view(r) == opt_ref_view(instructions),
{
    match instructions {
        Some(s) => Some(s.to_owned()),
        None => None,
    }
}

impl Field {
    /// Builds a plain-text field; multiline mode raises the initial row
    /// count from 1 to 4.
    pub fn new_plain_text(
        name: &str,
        handle: &str,
        instructions: Option<&str>,
        multiline: bool,
    ) -> (r: Field)
        ensures
            plain_text_built(r, name@, handle@, opt_ref_view(instructions), multiline),
    {
        Field {
            column_suffix: None,
            handle: handle.to_owned(),
            instructions: owned_instructions(instructions),
            name: name.to_owned(),
            searchable: false,
            settings: FieldSettings::PlainText(
                PlainTextSettings {
                    byte_limit: None,
                    char_limit: None,
                    code: false,
                    initial_rows: if multiline {
                        4
                    } else {
                        1
                    },
                    multiline,
                    placeholder: None,
                    ui_mode: "normal".to_owned(),
                },
            ),
            translation_key_format: None,
            translation_method: "none".to_owned(),
            field_type: "craft\\fields\\PlainText".to_owned(),
        }
    }

    /// Builds a rich-text (CKEditor) field with a freshly drawn editor
    /// configuration identifier.
    pub fn new_rich_text(name: &str, handle: &str, instructions: Option<&str>) -> (r: Field)
        ensures
            rich_text_built(r, name@, handle@, opt_ref_view(instructions)),
    {
        let mut groups: Vec<String> = Vec::new();
        groups.push("__ADMINS__".to_owned());
        Field {
            column_suffix: None,
            handle: handle.to_owned(),
            instructions: owned_instructions(instructions),
            name: name.to_owned(),
            searchable: false,
            settings: FieldSettings::CKEditor(
                CKEditorSettings {
                    available_transforms: "".to_owned(),
                    available_volumes: "".to_owned(),
                    character_limit: None,
                    cke_config: fresh_uid(),
                    create_button_label: None,
                    default_transform: None,
                    expand_entry_buttons: false,
                    full_graphql_data: true,
                    parse_embeds: false,
                    purifier_config: None,
                    purify_html: true,
                    show_unpermitted_files: false,
                    show_unpermitted_volumes: false,
                    show_word_count: false,
                    source_editing_groups: groups,
                    word_limit: None,
                },
            ),
            translation_key_format: None,
            translation_method: "none".to_owned(),
            field_type: "craft\\ckeditor\\Field".to_owned(),
        }
    }

    /// Builds an image/asset field. Both upload-location sources point at
    /// one freshly drawn placeholder volume reference, which no volume
    /// declaration or index entry resolves; the consuming system is
    /// expected to remap it.
    pub fn new_image(name: &str, handle: &str, instructions: Option<&str>) -> (r: Field)
        ensures
            image_built(r, name@, handle@, opt_ref_view(instructions)),
    {
        let volume_uid = fresh_uid();
        let mut kinds: Vec<String> = Vec::new();
        kinds.push("image".to_owned());
        let r = Field {
            column_suffix: None,
            handle: handle.to_owned(),
            instructions: owned_instructions(instructions),
            name: name.to_owned(),
            searchable: false,
            settings: FieldSettings::Assets(
                AssetSettings {
                    allow_self_relations: false,
                    allow_subfolders: false,
                    allow_uploads: true,
                    allowed_kinds: Some(kinds),
                    branch_limit: None,
                    default_placement: "end".to_owned(),
                    default_upload_location_source: volume_source(volume_uid.as_str()),
                    default_upload_location_subpath: "images".to_owned(),
                    maintain_hierarchy: false,
                    max_relations: Some(1),
                    min_relations: None,
                    preview_mode: "full".to_owned(),
                    restrict_files: true,
                    restrict_location: false,
                    restricted_default_upload_subpath: None,
                    restricted_location_source: volume_source(volume_uid.as_str()),
                    restricted_location_subpath: None,
                    selection_label: None,
                    show_cards_in_grid: false,
                    show_site_menu: false,
                    show_unpermitted_files: false,
                    show_unpermitted_volumes: false,
                    sources: "*".to_owned(),
                    target_site_id: None,
                    validate_related_elements: false,
                    view_mode: "list".to_owned(),
                },
            ),
            translation_key_format: None,
            translation_method: "none".to_owned(),
            field_type: "craft\\fields\\Assets".to_owned(),
        };
        proof {
            let s = r.settings->Assets_0;
            assert(asset_settings_built(s, volume_uid@));
        }
        r
    }

    /// Builds a number field: whole numbers, decimal preview format.
    pub fn new_number(name: &str, handle: &str, instructions: Option<&str>) -> (r: Field)
        ensures
            number_built(r, name@, handle@, opt_ref_view(instructions)),
    {
        Field {
            column_suffix: None,
            handle: handle.to_owned(),
            instructions: owned_instructions(instructions),
            name: name.to_owned(),
            searchable: false,
            settings: FieldSettings::Number(
                NumberSettings {
                    decimals: 0,
                    prefix: None,
                    preview_currency: None,
                    preview_format: "decimal".to_owned(),
                    size: None,
                    suffix: None,
                },
            ),
            translation_key_format: None,
            translation_method: "none".to_owned(),
            field_type: "craft\\fields\\Number".to_owned(),
        }
    }

    /// Builds a URL field with the schema's 255-character limit.
    pub fn new_url(name: &str, handle: &str, instructions: Option<&str>) -> (r: Field)
        ensures
            url_built(r, name@, handle@, opt_ref_view(instructions)),
    {
        Field {
            column_suffix: None,
            handle: handle.to_owned(),
            instructions: owned_instructions(instructions),
            name: name.to_owned(),
            searchable: false,
            settings: FieldSettings::Url(UrlSettings { max_length: 255, placeholder: None }),
            translation_key_format: None,
            translation_method: "none".to_owned(),
            field_type: "craft\\fields\\Url".to_owned(),
        }
    }

    /// Draws a fresh unique identifier, as the surrounding tooling does
    /// when it files a record.
    pub fn get_uuid(&self) -> (r: String)
        ensures
            r@.len() == 36,
    {
        fresh_uid()
    }
}

} // verus!
