//! Project-level guarantees stated as theorems over the compilation
//! contract: layout order, the origin of the required flag, name-index
//! coverage, and what two runs on the same input are bound to share.

use vstd::prelude::*;

use crate::config::ProjectConfig;
use crate::entry_type::layout_elements;
use crate::entry_type::title_element_built;
use crate::entry_type::CustomField;
use crate::entry_type::EntryTitleField;
use crate::entry_type::EntryType;
use crate::entry_type::FieldLayoutElement;
use crate::field::opt_str_view;
use crate::field::AssetSettings;
use crate::field::Field;
use crate::field::FieldSettings;
use crate::field::SelectOption;
use crate::generator::compiled_project_from;
use crate::generator::custom_element_at;
use crate::generator::kept_fields;
use crate::generator::kept_refs;
use crate::generator::opt_flag;
use crate::generator::resolve_in;
use crate::generator::CompiledField;
use crate::generator::CompiledProject;

verus! {

/// Every reference the compiler kept has a resolvable handle.
proof fn lemma_kept_refs_resolve(
    refs: Seq<crate::config::EntryTypeField>,
    fields: Seq<CompiledField>,
    j: int,
)
    requires
        0 <= j < kept_refs(refs, fields).len(),
    ensures
        resolve_in(fields, kept_refs(refs, fields)[j].handle@) is Some,
    decreases refs.len(),
{
    if refs.len() > 0 {
        if resolve_in(fields, refs.last().handle@) is Some {
            if j < kept_refs(refs.drop_last(), fields).len() {
                lemma_kept_refs_resolve(refs.drop_last(), fields, j);
            }
        } else {
            lemma_kept_refs_resolve(refs.drop_last(), fields, j);
        }
    }
}

/// A handle that resolves does so to the identifier of one of the
/// compiled fields.
proof fn lemma_resolve_in_found(fields: Seq<CompiledField>, h: Seq<char>)
    requires
        resolve_in(fields, h) is Some,
    ensures
        exists|k: int|
            0 <= k < fields.len() && (#[trigger] fields[k]).handle@ == h && fields[k].uid@
                == resolve_in(fields, h)->Some_0,
    decreases fields.len(),
{
    if fields.len() > 0 {
        if fields.last().handle@ == h {
            assert(fields[fields.len() - 1].handle@ == h && fields[fields.len() - 1].uid@
                == resolve_in(fields, h)->Some_0);
        } else {
            lemma_resolve_in_found(fields.drop_last(), h);
            let k0 = choose|k: int|
                0 <= k < fields.drop_last().len() && (#[trigger] fields.drop_last()[k]).handle@
                    == h && fields.drop_last()[k].uid@ == resolve_in(fields.drop_last(), h)->Some_0;
            assert(fields[k0].handle@ == h && fields[k0].uid@ == resolve_in(fields, h)->Some_0);
        }
    }
}

/// When an entry-type declaration asks for a title (or leaves the
/// choice unspecified), the compiled layout's first element is the
/// title element, and everything after it is a custom-field element in
/// declaration order.
pub proof fn lemma_title_element_first(c: ProjectConfig, r: CompiledProject, i: int)
    requires
        compiled_project_from(c, r),
        0 <= i < r.entry_types@.len(),
        opt_flag(c.entry_types@[i].has_title_field, true),
    ensures
        layout_elements(r.entry_types@[i].entry_type).len() == 1 + kept_refs(
            c.entry_types@[i].fields@,
            r.fields@,
        ).len(),
        layout_elements(r.entry_types@[i].entry_type)[0] matches FieldLayoutElement::EntryTitle(t)
            && title_element_built(t),
        forall|p: int|
            1 <= p < layout_elements(r.entry_types@[i].entry_type).len()
                ==> (#[trigger] layout_elements(r.entry_types@[i].entry_type)[p]) matches
                FieldLayoutElement::CustomField(cf),
        forall|j: int|
            0 <= j < kept_refs(c.entry_types@[i].fields@, r.fields@).len() ==> custom_element_at(
                layout_elements(r.entry_types@[i].entry_type),
                1 + j,
                r.fields@,
                #[trigger] kept_refs(c.entry_types@[i].fields@, r.fields@)[j],
            ),
{
    let ec = c.entry_types@[i];
    let kept = kept_refs(ec.fields@, r.fields@);
    assert forall|p: int|
        1 <= p < layout_elements(r.entry_types@[i].entry_type).len() implies (#[trigger]
    layout_elements(r.entry_types@[i].entry_type)[p]) matches FieldLayoutElement::CustomField(
        cf,
    ) by {
        assert(custom_element_at(
            layout_elements(r.entry_types@[i].entry_type),
            1 + (p - 1),
            r.fields@,
            kept[p - 1],
        ));
    }
}

/// The required flag on a compiled custom-field element is the flag of
/// the entry type's own field reference (default off), whatever the
/// referenced field declaration's `required` says: no field-level flag
/// enters the layout.
pub proof fn lemma_required_flag_from_reference(
    c: ProjectConfig,
    r: CompiledProject,
    i: int,
    j: int,
)
    requires
        compiled_project_from(c, r),
        0 <= i < r.entry_types@.len(),
        0 <= j < kept_refs(c.entry_types@[i].fields@, r.fields@).len(),
    ensures
        ({
            let off: int = if opt_flag(c.entry_types@[i].has_title_field, true) {
                1
            } else {
                0
            };
            layout_elements(r.entry_types@[i].entry_type)[off + j] matches
                FieldLayoutElement::CustomField(cf) && cf.required == opt_flag(
                kept_refs(c.entry_types@[i].fields@, r.fields@)[j].required,
                false,
            )
        }),
{
    let ec = c.entry_types@[i];
    let kept = kept_refs(ec.fields@, r.fields@);
    let off: int = if opt_flag(ec.has_title_field, true) {
        1
    } else {
        0
    };
    assert(custom_element_at(
        layout_elements(r.entry_types@[i].entry_type),
        off + j,
        r.fields@,
        kept[j],
    ));
}

/// Every identifier a compiled layout element references belongs to
/// one of the compiled fields, and that field's identifier stands in
/// the name index.
pub proof fn lemma_name_index_covers_references(
    c: ProjectConfig,
    r: CompiledProject,
    i: int,
    p: int,
)
    requires
        compiled_project_from(c, r),
        0 <= i < r.entry_types@.len(),
        (if opt_flag(c.entry_types@[i].has_title_field, true) {
            1int
        } else {
            0int
        }) <= p < layout_elements(r.entry_types@[i].entry_type).len(),
    ensures
        layout_elements(r.entry_types@[i].entry_type)[p] matches FieldLayoutElement::CustomField(
            cf,
        ) && (exists|k: int|
            0 <= k < r.fields@.len() && (#[trigger] r.fields@[k]).uid@ == cf.field_uid@
                && r.names@[k].0@ == cf.field_uid@),
{
    let ec = c.entry_types@[i];
    let kept = kept_refs(ec.fields@, r.fields@);
    let off: int = if opt_flag(ec.has_title_field, true) {
        1
    } else {
        0
    };
    let j = p - off;
    assert(custom_element_at(
        layout_elements(r.entry_types@[i].entry_type),
        off + j,
        r.fields@,
        kept[j],
    ));
    lemma_kept_refs_resolve(ec.fields@, r.fields@, j);
    lemma_resolve_in_found(r.fields@, kept[j].handle@);
    let k0 = choose|k: int|
        0 <= k < r.fields@.len() && (#[trigger] r.fields@[k]).handle@ == kept[j].handle@
            && r.fields@[k].uid@ == resolve_in(r.fields@, kept[j].handle@)->Some_0;
    assert(r.names@[k0].0@ == r.fields@[k0].uid@);
}

/// The name index holds no orphan: each of its entries is the
/// identifier of an emitted record — the first block the fields, in
/// order, the rest the entry types, in order — and there is exactly one
/// entry per record.
pub proof fn lemma_name_index_no_orphans(c: ProjectConfig, r: CompiledProject)
    requires
        compiled_project_from(c, r),
    ensures
        r.names@.len() == r.fields@.len() + r.entry_types@.len(),
        forall|k: int|
            0 <= k < r.fields@.len() ==> (#[trigger] r.names@[k]).0@ == r.fields@[k].uid@,
        forall|k: int|
            r.fields@.len() <= k < r.names@.len() ==> (#[trigger] r.names@[k]).0@
                == r.entry_types@[k - r.fields@.len()].uid@,
{
    let nf = r.fields@.len() as int;
    assert forall|k: int| nf <= k < r.names@.len() implies (#[trigger] r.names@[k]).0@
        == r.entry_types@[k - nf].uid@ by {
        assert(r.names@[nf + (k - nf)].0@ == r.entry_types@[k - nf].uid@);
    }
}

/// Pointwise equality of option lists, down to the character level.
pub open spec fn options_shape_eq(a: Seq<SelectOption>, b: Seq<SelectOption>) -> bool {
    &&& a.len() == b.len()
    &&& forall|i: int|
        0 <= i < a.len() ==> (#[trigger] a[i]).label@ == b[i].label@ && a[i].value@ == b[i].value@
            && a[i].default == b[i].default
}

/// Asset settings agree except for the freshly drawn placeholder
/// volume reference inside the two upload-location sources.
pub open spec fn asset_settings_shape_eq(x: AssetSettings, y: AssetSettings) -> bool {
    &&& x.allow_self_relations == y.allow_self_relations
    &&& x.allow_subfolders == y.allow_subfolders
    &&& x.allow_uploads == y.allow_uploads
    &&& (match (x.allowed_kinds, y.allowed_kinds) {
        (Some(v), Some(w)) => v@.len() == w@.len() && (forall|i: int|
            0 <= i < v@.len() ==> (#[trigger] v@[i])@ == w@[i]@),
        (None, None) => true,
        _ => false,
    })
    &&& x.branch_limit == y.branch_limit
    &&& x.default_placement@ == y.default_placement@
    &&& x.default_upload_location_subpath@ == y.default_upload_location_subpath@
    &&& x.maintain_hierarchy == y.maintain_hierarchy
    &&& x.max_relations == y.max_relations
    &&& x.min_relations == y.min_relations
    &&& x.preview_mode@ == y.preview_mode@
    &&& x.restrict_files == y.restrict_files
    &&& x.restrict_location == y.restrict_location
    &&& opt_str_view(x.restricted_default_upload_subpath) == opt_str_view(
        y.restricted_default_upload_subpath,
    )
    &&& opt_str_view(x.restricted_location_subpath) == opt_str_view(y.restricted_location_subpath)
    &&& opt_str_view(x.selection_label) == opt_str_view(y.selection_label)
    &&& x.show_cards_in_grid == y.show_cards_in_grid
    &&& x.show_site_menu == y.show_site_menu
    &&& x.show_unpermitted_files == y.show_unpermitted_files
    &&& x.show_unpermitted_volumes == y.show_unpermitted_volumes
    &&& x.sources@ == y.sources@
    &&& opt_str_view(x.target_site_id) == opt_str_view(y.target_site_id)
    &&& x.validate_related_elements == y.validate_related_elements
    &&& x.view_mode@ == y.view_mode@
}

/// Two settings values of the same variant agree on everything except
/// freshly drawn identifiers (the rich-text editor configuration, the
/// asset placeholder volume).
pub open spec fn settings_shape_eq(a: FieldSettings, b: FieldSettings) -> bool {
    match (a, b) {
        (FieldSettings::PlainText(x), FieldSettings::PlainText(y)) => {
            &&& x.byte_limit == y.byte_limit
            &&& x.char_limit == y.char_limit
            &&& x.code == y.code
            &&& x.initial_rows == y.initial_rows
            &&& x.multiline == y.multiline
            &&& opt_str_view(x.placeholder) == opt_str_view(y.placeholder)
            &&& x.ui_mode@ == y.ui_mode@
        },
        (FieldSettings::CKEditor(x), FieldSettings::CKEditor(y)) => {
            &&& x.available_transforms@ == y.available_transforms@
            &&& x.available_volumes@ == y.available_volumes@
            &&& x.character_limit == y.character_limit
            &&& opt_str_view(x.create_button_label) == opt_str_view(y.create_button_label)
            &&& opt_str_view(x.default_transform) == opt_str_view(y.default_transform)
            &&& x.expand_entry_buttons == y.expand_entry_buttons
            &&& x.full_graphql_data == y.full_graphql_data
            &&& x.parse_embeds == y.parse_embeds
            &&& opt_str_view(x.purifier_config) == opt_str_view(y.purifier_config)
            &&& x.purify_html == y.purify_html
            &&& x.show_unpermitted_files == y.show_unpermitted_files
            &&& x.show_unpermitted_volumes == y.show_unpermitted_volumes
            &&& x.show_word_count == y.show_word_count
            &&& x.source_editing_groups@.len() == y.source_editing_groups@.len()
            &&& (forall|i: int|
                0 <= i < x.source_editing_groups@.len() ==> (#[trigger] x.source_editing_groups@[i])@
                    == y.source_editing_groups@[i]@)
            &&& x.word_limit == y.word_limit
        },
        (FieldSettings::Assets(x), FieldSettings::Assets(y)) => asset_settings_shape_eq(x, y),
        (FieldSettings::Number(x), FieldSettings::Number(y)) => {
            &&& x.decimals == y.decimals
            &&& opt_str_view(x.prefix) == opt_str_view(y.prefix)
            &&& opt_str_view(x.preview_currency) == opt_str_view(y.preview_currency)
            &&& x.preview_format@ == y.preview_format@
            &&& x.size == y.size
            &&& opt_str_view(x.suffix) == opt_str_view(y.suffix)
        },
        (FieldSettings::Url(x), FieldSettings::Url(y)) => {
            &&& x.max_length == y.max_length
            &&& opt_str_view(x.placeholder) == opt_str_view(y.placeholder)
        },
        (FieldSettings::Dropdown(x), FieldSettings::Dropdown(y)) => options_shape_eq(
            x.options@,
            y.options@,
        ),
        (FieldSettings::Radio(x), FieldSettings::Radio(y)) => options_shape_eq(
            x.options@,
            y.options@,
        ),
        (FieldSettings::Checkboxes(x), FieldSettings::Checkboxes(y)) => options_shape_eq(
            x.options@,
            y.options@,
        ),
        (FieldSettings::Date(x), FieldSettings::Date(y)) => {
            &&& opt_str_view(x.max) == opt_str_view(y.max)
            &&& opt_str_view(x.min) == opt_str_view(y.min)
            &&& x.minute_increment == y.minute_increment
            &&& x.show_date == y.show_date
            &&& x.show_time == y.show_time
            &&& x.show_timezone == y.show_timezone
        },
        _ => false,
    }
}

/// Two field records agree on all content, down to the character
/// level, except freshly drawn identifiers.
pub open spec fn field_record_shape_eq(f: Field, g: Field) -> bool {
    &&& opt_str_view(f.column_suffix) == opt_str_view(g.column_suffix)
    &&& f.handle@ == g.handle@
    &&& opt_str_view(f.instructions) == opt_str_view(g.instructions)
    &&& f.name@ == g.name@
    &&& f.searchable == g.searchable
    &&& settings_shape_eq(f.settings, g.settings)
    &&& opt_str_view(f.translation_key_format) == opt_str_view(g.translation_key_format)
    &&& f.translation_method@ == g.translation_method@
    &&& f.field_type@ == g.field_type@
}

/// Two title elements agree on everything except their identifier and
/// the wall-clock date they were added.
pub open spec fn title_element_shape_eq(s: EntryTitleField, t: EntryTitleField) -> bool {
    &&& s.autocapitalize == t.autocapitalize
    &&& s.autocomplete == t.autocomplete
    &&& s.autocorrect == t.autocorrect
    &&& opt_str_view(s.class) == opt_str_view(t.class)
    &&& s.disabled == t.disabled
    &&& opt_str_view(s.element_condition) == opt_str_view(t.element_condition)
    &&& opt_str_view(s.id) == opt_str_view(t.id)
    &&& s.include_in_cards == t.include_in_cards
    &&& opt_str_view(s.input_type) == opt_str_view(t.input_type)
    &&& opt_str_view(s.instructions) == opt_str_view(t.instructions)
    &&& opt_str_view(s.label) == opt_str_view(t.label)
    &&& s.max == t.max
    &&& s.min == t.min
    &&& opt_str_view(s.name) == opt_str_view(t.name)
    &&& opt_str_view(s.orientation) == opt_str_view(t.orientation)
    &&& opt_str_view(s.placeholder) == opt_str_view(t.placeholder)
    &&& s.provides_thumbs == t.provides_thumbs
    &&& s.readonly == t.readonly
    &&& s.required == t.required
    &&& s.size == t.size
    &&& s.step == t.step
    &&& opt_str_view(s.tip) == opt_str_view(t.tip)
    &&& opt_str_view(s.title) == opt_str_view(t.title)
    &&& s.element_type@ == t.element_type@
    &&& opt_str_view(s.user_condition) == opt_str_view(t.user_condition)
    &&& opt_str_view(s.warning) == opt_str_view(t.warning)
    &&& s.width == t.width
}

/// Two custom-field elements agree on everything except their own
/// identifier, the identifier of the field they reference and the
/// wall-clock date they were added.
pub open spec fn custom_element_shape_eq(s: CustomField, t: CustomField) -> bool {
    &&& opt_str_view(s.edit_condition) == opt_str_view(t.edit_condition)
    &&& opt_str_view(s.element_condition) == opt_str_view(t.element_condition)
    &&& opt_str_view(s.handle) == opt_str_view(t.handle)
    &&& s.include_in_cards == t.include_in_cards
    &&& opt_str_view(s.instructions) == opt_str_view(t.instructions)
    &&& opt_str_view(s.label) == opt_str_view(t.label)
    &&& s.provides_thumbs == t.provides_thumbs
    &&& s.required == t.required
    &&& opt_str_view(s.tip) == opt_str_view(t.tip)
    &&& s.element_type@ == t.element_type@
    &&& opt_str_view(s.user_condition) == opt_str_view(t.user_condition)
    &&& opt_str_view(s.warning) == opt_str_view(t.warning)
    &&& s.width == t.width
}

pub open spec fn element_shape_eq(x: FieldLayoutElement, y: FieldLayoutElement) -> bool {
    match (x, y) {
        (FieldLayoutElement::EntryTitle(s), FieldLayoutElement::EntryTitle(t)) =>
            title_element_shape_eq(s, t),
        (FieldLayoutElement::CustomField(s), FieldLayoutElement::CustomField(t)) =>
            custom_element_shape_eq(s, t),
        _ => false,
    }
}

/// Two entry-type records agree on scalar content and carry element
/// lists of the same length with pairwise equal shapes.
pub open spec fn entry_record_shape_eq(a: EntryType, b: EntryType) -> bool {
    &&& opt_str_view(a.color) == opt_str_view(b.color)
    &&& a.handle@ == b.handle@
    &&& a.has_title_field == b.has_title_field
    &&& opt_str_view(a.icon) == opt_str_view(b.icon)
    &&& a.name@ == b.name@
    &&& a.show_slug_field == b.show_slug_field
    &&& a.show_status_field == b.show_status_field
    &&& opt_str_view(a.slug_translation_key_format) == opt_str_view(b.slug_translation_key_format)
    &&& a.slug_translation_method@ == b.slug_translation_method@
    &&& opt_str_view(a.title_format) == opt_str_view(b.title_format)
    &&& opt_str_view(a.title_translation_key_format) == opt_str_view(
        b.title_translation_key_format,
    )
    &&& a.title_translation_method@ == b.title_translation_method@
    &&& a.field_layouts@.len() == b.field_layouts@.len()
    &&& layout_elements(a).len() == layout_elements(b).len()
    &&& forall|p: int|
        0 <= p < layout_elements(a).len() ==> element_shape_eq(
            #[trigger] layout_elements(a)[p],
            layout_elements(b)[p],
        )
}

/// Everything two compilations of the same input have in common: the
/// same records in the same order with the same content shape and the
/// same index labels; only identifiers, dates and therefore file names
/// differ.
pub open spec fn project_shape_eq(r1: CompiledProject, r2: CompiledProject) -> bool {
    &&& r1.fields@.len() == r2.fields@.len()
    &&& forall|i: int|
        0 <= i < r1.fields@.len() ==> (#[trigger] r1.fields@[i]).handle@ == r2.fields@[i].handle@
            && r1.fields@[i].label@ == r2.fields@[i].label@ && field_record_shape_eq(
            r1.fields@[i].field,
            r2.fields@[i].field,
        )
    &&& r1.entry_types@.len() == r2.entry_types@.len()
    &&& forall|i: int|
        0 <= i < r1.entry_types@.len() ==> (#[trigger] r1.entry_types@[i]).handle@
            == r2.entry_types@[i].handle@ && r1.entry_types@[i].label@ == r2.entry_types@[i].label@
            && entry_record_shape_eq(r1.entry_types@[i].entry_type, r2.entry_types@[i].entry_type)
    &&& r1.names@.len() == r2.names@.len()
    &&& forall|i: int| 0 <= i < r1.names@.len() ==> (#[trigger] r1.names@[i]).1@ == r2.names@[i].1@
}

/// Resolvability of a handle depends only on the compiled handles, not
/// on the identifiers drawn for them.
proof fn lemma_resolve_some_eq(f1: Seq<CompiledField>, f2: Seq<CompiledField>, h: Seq<char>)
    requires
        f1.len() == f2.len(),
        forall|i: int| 0 <= i < f1.len() ==> (#[trigger] f1[i]).handle@ == f2[i].handle@,
    ensures
        resolve_in(f1, h) is Some <==> resolve_in(f2, h) is Some,
    decreases f1.len(),
{
    if f1.len() > 0 {
        assert(f1.last().handle@ == f2.last().handle@);
        if f1.last().handle@ != h {
            assert(forall|i: int|
                0 <= i < f1.drop_last().len() ==> (#[trigger] f1.drop_last()[i]).handle@
                    == f2.drop_last()[i].handle@);
            lemma_resolve_some_eq(f1.drop_last(), f2.drop_last(), h);
        }
    }
}

/// The kept references are the same for two compilations whose fields
/// carry the same handles.
proof fn lemma_kept_refs_eq(
    refs: Seq<crate::config::EntryTypeField>,
    f1: Seq<CompiledField>,
    f2: Seq<CompiledField>,
)
    requires
        f1.len() == f2.len(),
        forall|i: int| 0 <= i < f1.len() ==> (#[trigger] f1[i]).handle@ == f2[i].handle@,
    ensures
        kept_refs(refs, f1) == kept_refs(refs, f2),
    decreases refs.len(),
{
    if refs.len() > 0 {
        lemma_resolve_some_eq(f1, f2, refs.last().handle@);
        lemma_kept_refs_eq(refs.drop_last(), f1, f2);
    }
}

/// Structure is reproducible, identity is not: two compilations of one
/// input agree on every record's content shape, element order and
/// count, and on the index labels, though each drew its own
/// identifiers.
pub proof fn lemma_structural_idempotence(
    c: ProjectConfig,
    r1: CompiledProject,
    r2: CompiledProject,
)
    requires
        compiled_project_from(c, r1),
        compiled_project_from(c, r2),
    ensures
        project_shape_eq(r1, r2),
{
    assert forall|i: int|
        0 <= i < r1.fields@.len() implies (#[trigger] r1.fields@[i]).handle@
        == r2.fields@[i].handle@ && r1.fields@[i].label@ == r2.fields@[i].label@
        && field_record_shape_eq(r1.fields@[i].field, r2.fields@[i].field) by {
        let fc = kept_fields(c.fields@)[i];
        assert(crate::generator::compiled_field_from(r1.fields@[i], fc));
        assert(crate::generator::compiled_field_from(r2.fields@[i], fc));
    }
    assert forall|i: int|
        0 <= i < r1.entry_types@.len() implies (#[trigger] r1.entry_types@[i]).handle@
        == r2.entry_types@[i].handle@ && r1.entry_types@[i].label@ == r2.entry_types@[i].label@
        && entry_record_shape_eq(
        r1.entry_types@[i].entry_type,
        r2.entry_types@[i].entry_type,
    ) by {
        let ec = c.entry_types@[i];
        let a = r1.entry_types@[i].entry_type;
        let b = r2.entry_types@[i].entry_type;
        lemma_kept_refs_eq(ec.fields@, r1.fields@, r2.fields@);
        let kept = kept_refs(ec.fields@, r1.fields@);
        let off: int = if opt_flag(ec.has_title_field, true) {
            1
        } else {
            0
        };
        assert forall|p: int| 0 <= p < layout_elements(a).len() implies element_shape_eq(
            #[trigger] layout_elements(a)[p],
            layout_elements(b)[p],
        ) by {
            if opt_flag(ec.has_title_field, true) && p == 0 {
                assert(element_shape_eq(layout_elements(a)[0], layout_elements(b)[0]));
            } else {
                let j = p - off;
                assert(custom_element_at(layout_elements(a), off + j, r1.fields@, kept[j]));
                assert(custom_element_at(layout_elements(b), off + j, r2.fields@, kept[j]));
            }
        }
    }
    assert forall|i: int| 0 <= i < r1.names@.len() implies (#[trigger] r1.names@[i]).1@
        == r2.names@[i].1@ by {
        let nf = r1.fields@.len() as int;
        if i < nf {
            assert(r1.names@[i].1@ == r1.fields@[i].label@);
            assert(r2.names@[i].1@ == r2.fields@[i].label@);
        } else {
            assert(r1.names@[nf + (i - nf)].1@ == r1.entry_types@[i - nf].label@);
            assert(r2.names@[nf + (i - nf)].1@ == r2.entry_types@[i - nf].label@);
        }
    }
}

} // verus!
