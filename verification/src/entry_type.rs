//! Target-schema entry-type records: a record with one field layout,
//! holding one "Content" tab, to which a title element and custom-field
//! elements are appended in declaration order.

use vstd::prelude::*;

use crate::support::fresh_uid;
use crate::support::now_rfc3339;

verus! {

/// A fully built target entry-type record, ready to serialize.
#[derive(Debug)]
pub struct EntryType {
    pub color: Option<String>,
    pub field_layouts: Vec<LayoutEntry>,
    pub handle: String,
    pub has_title_field: bool,
    pub icon: Option<String>,
    pub name: String,
    pub show_slug_field: bool,
    pub show_status_field: bool,
    pub slug_translation_key_format: Option<String>,
    pub slug_translation_method: String,
    pub title_format: Option<String>,
    pub title_translation_key_format: Option<String>,
    pub title_translation_method: String,
}

/// One field layout together with the generated identifier it is keyed
/// by in the serialized record.
#[derive(Debug)]
pub struct LayoutEntry {
    pub uid: String,
    pub layout: FieldLayout,
}

#[derive(Debug)]
pub struct FieldLayout {
    pub tabs: Vec<Tab>,
}

#[derive(Debug)]
pub struct Tab {
    pub element_condition: Option<String>,
    pub elements: Vec<FieldLayoutElement>,
    pub name: String,
    pub uid: String,
    pub user_condition: Option<String>,
}

/// An element of a tab: either the built-in entry title or a reference
/// to a custom field.
#[derive(Debug)]
pub enum FieldLayoutElement {
    EntryTitle(EntryTitleField),
    CustomField(CustomField),
}

#[derive(Debug)]
pub struct EntryTitleField {
    pub autocapitalize: bool,
    pub autocomplete: bool,
    pub autocorrect: bool,
    pub class: Option<String>,
    pub date_added: String,
    pub disabled: bool,
    pub element_condition: Option<String>,
    pub id: Option<String>,
    pub include_in_cards: bool,
    pub input_type: Option<String>,
    pub instructions: Option<String>,
    pub label: Option<String>,
    pub max: Option<u32>,
    pub min: Option<u32>,
    pub name: Option<String>,
    pub orientation: Option<String>,
    pub placeholder: Option<String>,
    pub provides_thumbs: bool,
    pub readonly: bool,
    pub required: bool,
    pub size: Option<u32>,
    pub step: Option<u32>,
    pub tip: Option<String>,
    pub title: Option<String>,
    pub element_type: String,
    pub uid: String,
    pub user_condition: Option<String>,
    pub warning: Option<String>,
    pub width: u32,
}

#[derive(Debug)]
pub struct CustomField {
    pub date_added: String,
    pub edit_condition: Option<String>,
    pub element_condition: Option<String>,
    pub field_uid: String,
    pub handle: Option<String>,
    pub include_in_cards: bool,
    pub instructions: Option<String>,
    pub label: Option<String>,
    pub provides_thumbs: bool,
    pub required: bool,
    pub tip: Option<String>,
    pub element_type: String,
    pub uid: String,
    pub user_condition: Option<String>,
    pub warning: Option<String>,
    pub width: u32,
}

/// The scalar fields of an entry-type record as `EntryType::new` fixes
/// them.
pub open spec fn entry_type_scalars(et: EntryType, name: Seq<char>, handle: Seq<char>) -> bool {
    &&& et.color is None
    &&& et.handle@ == handle
    &&& et.has_title_field == true
    &&& et.icon is None
    &&& et.name@ == name
    &&& et.show_slug_field == true
    &&& et.show_status_field == true
    &&& et.slug_translation_key_format is None
    &&& et.slug_translation_method@ == "none"@
    &&& et.title_format is None
    &&& et.title_translation_key_format is None
    &&& et.title_translation_method@ == "none"@
}

/// Exactly one field layout with exactly one "Content" tab, both under
/// freshly drawn identifiers.
pub open spec fn single_content_layout(et: EntryType) -> bool {
    &&& et.field_layouts@.len() == 1
    &&& et.field_layouts@[0].uid@.len() == 36
    &&& et.field_layouts@[0].layout.tabs@.len() == 1
    &&& et.field_layouts@[0].layout.tabs@[0].element_condition is None
    &&& et.field_layouts@[0].layout.tabs@[0].name@ == "Content"@
    &&& et.field_layouts@[0].layout.tabs@[0].uid@.len() == 36
    &&& et.field_layouts@[0].layout.tabs@[0].user_condition is None
}

/// The elements of the first tab of the first layout.
pub open spec fn layout_elements(et: EntryType) -> Seq<FieldLayoutElement> {
    et.field_layouts@[0].layout.tabs@[0].elements@
}

/// Whether the record has a first layout with a first tab for elements
/// to land in.
pub open spec fn has_element_slot(et: EntryType) -> bool {
    et.field_layouts@.len() > 0 && et.field_layouts@[0].layout.tabs@.len() > 0
}

/// A title element as `add_title_field` builds it: required, full
/// width, with a freshly drawn identifier and the wall-clock date it
/// was added.
pub open spec fn title_element_built(e: EntryTitleField) -> bool {
    &&& e.autocapitalize == true
    &&& e.autocomplete == false
    &&& e.autocorrect == true
    &&& e.class is None
    &&& e.disabled == false
    &&& e.element_condition is None
    &&& e.id is None
    &&& e.include_in_cards == false
    &&& e.input_type is None
    &&& e.instructions is None
    &&& e.label is None
    &&& e.max is None
    &&& e.min is None
    &&& e.name is None
    &&& e.orientation is None
    &&& e.placeholder is None
    &&& e.provides_thumbs == false
    &&& e.readonly == false
    &&& e.required == true
    &&& e.size is None
    &&& e.step is None
    &&& e.tip is None
    &&& e.title is None
    &&& e.element_type@ == "craft\\fieldlayoutelements\\entries\\EntryTitleField"@
    &&& e.uid@.len() == 36
    &&& e.user_condition is None
    &&& e.warning is None
    &&& e.width == 100
}

/// A custom-field element as `add_field` builds it: it references the
/// field by `field_uid` and carries the per-entry-type `required` flag.
pub open spec fn custom_field_built(e: CustomField, field_uid: Seq<char>, required: bool) -> bool {
    &&& e.edit_condition is None
    &&& e.element_condition is None
    &&& e.field_uid@ == field_uid
    &&& e.handle is None
    &&& e.include_in_cards == false
    &&& e.instructions is None
    &&& e.label is None
    &&& e.provides_thumbs == false
    &&& e.required == required
    &&& e.tip is None
    &&& e.element_type@ == "craft\\fieldlayoutelements\\CustomField"@
    &&& e.uid@.len() == 36
    &&& e.user_condition is None
    &&& e.warning is None
    &&& e.width == 100
}

/// `post` carries the same record content as `pre`: the same scalar
/// fields and the same layouts, tab for tab.
pub open spec fn record_unchanged(pre: EntryType, post: EntryType) -> bool {
    &&& post == (EntryType { field_layouts: post.field_layouts, ..pre })
    &&& post.field_layouts@ == pre.field_layouts@
}

/// `post` is `pre` with `e` appended to the first tab of the first
/// layout and nothing else changed.
pub open spec fn layout_extended(pre: EntryType, post: EntryType, e: FieldLayoutElement) -> bool {
    &&& post == (EntryType { field_layouts: post.field_layouts, ..pre })
    &&& post.field_layouts@.len() == pre.field_layouts@.len()
    &&& forall|i: int|
        1 <= i < pre.field_layouts@.len() ==> post.field_layouts@[i] == pre.field_layouts@[i]
    &&& post.field_layouts@[0].uid == pre.field_layouts@[0].uid
    &&& post.field_layouts@[0].layout.tabs@.len() == pre.field_layouts@[0].layout.tabs@.len()
    &&& forall|j: int|
        1 <= j < pre.field_layouts@[0].layout.tabs@.len() ==> post.field_layouts@[0].layout.tabs@[j]
            == pre.field_layouts@[0].layout.tabs@[j]
    &&& post.field_layouts@[0].layout.tabs@[0] == (Tab {
        elements: post.field_layouts@[0].layout.tabs@[0].elements,
        ..pre.field_layouts@[0].layout.tabs@[0]
    })
    &&& layout_elements(post) == layout_elements(pre).push(e)
}

impl EntryType {
    /// Builds a bare entry-type record: one layout, one empty "Content"
    /// tab, title/slug/status flags on, translation methods "none".
    pub fn new(name: &str, handle: &str) -> (r: EntryType)
        ensures
            entry_type_scalars(r, name@, handle@),
            single_content_layout(r),
            layout_elements(r).len() == 0,
    {
        let layout_uid = fresh_uid();
        let tab = Tab {
            element_condition: None,
            elements: Vec::new(),
            name: "Content".to_owned(),
            uid: fresh_uid(),
            user_condition: None,
        };
        let mut tabs: Vec<Tab> = Vec::new();
        tabs.push(tab);
        let mut field_layouts: Vec<LayoutEntry> = Vec::new();
        field_layouts.push(LayoutEntry { uid: layout_uid, layout: FieldLayout { tabs } });
        EntryType {
            color: None,
            field_layouts,
            handle: handle.to_owned(),
            has_title_field: true,
            icon: None,
            name: name.to_owned(),
            show_slug_field: true,
            show_status_field: true,
            slug_translation_key_format: None,
            slug_translation_method: "none".to_owned(),
            title_format: None,
            title_translation_key_format: None,
            title_translation_method: "none".to_owned(),
        }
    }

    /// Appends the built-in entry-title element to the first tab of the
    /// first layout; a record without such a slot is left unchanged.
    pub fn add_title_field(&mut self)
        ensures
            has_element_slot(*old(self)) ==> exists|e: FieldLayoutElement|
                #[trigger] layout_extended(*old(self), *final(self), e) && (e matches
                FieldLayoutElement::EntryTitle(t) && title_element_built(t)),
            !has_element_slot(*old(self)) ==> record_unchanged(*old(self), *final(self)),
    {
        if self.field_layouts.len() > 0 {
            let mut entry = self.field_layouts.remove(0);
            if entry.layout.tabs.len() > 0 {
                let mut tab = entry.layout.tabs.remove(0);
                let element = FieldLayoutElement::EntryTitle(
                    EntryTitleField {
                        autocapitalize: true,
                        autocomplete: false,
                        autocorrect: true,
                        class: None,
                        date_added: now_rfc3339(),
                        disabled: false,
                        element_condition: None,
                        id: None,
                        include_in_cards: false,
                        input_type: None,
                        instructions: None,
                        label: None,
                        max: None,
                        min: None,
                        name: None,
                        orientation: None,
                        placeholder: None,
                        provides_thumbs: false,
                        readonly: false,
                        required: true,
                        size: None,
                        step: None,
                        tip: None,
                        title: None,
                        element_type: "craft\\fieldlayoutelements\\entries\\EntryTitleField"
                            .to_owned(),
                        uid: fresh_uid(),
                        user_condition: None,
                        warning: None,
                        width: 100,
                    },
                );
                let ghost witness = element;
                tab.elements.push(element);
                entry.layout.tabs.insert(0, tab);
                self.field_layouts.insert(0, entry);
                proof {
                    assert(self.field_layouts@ =~= old(self).field_layouts@.update(
                        0,
                        self.field_layouts@[0],
                    ));
                    assert(self.field_layouts@[0].layout.tabs@ =~= old(
                        self,
                    ).field_layouts@[0].layout.tabs@.update(
                        0,
                        self.field_layouts@[0].layout.tabs@[0],
                    ));
                    assert(layout_extended(*old(self), *self, witness));
                }
            } else {
                self.field_layouts.insert(0, entry);
                proof {
                    assert(self.field_layouts@ =~= old(self).field_layouts@);
                }
            }
        }
    }

    /// Appends a custom-field element referencing `field_uid`, with the
    /// caller-supplied per-entry-type `required` flag, to the first tab
    /// of the first layout; a record without such a slot is left
    /// unchanged.
    pub fn add_field(&mut self, field_uid: &str, required: bool)
        ensures
            has_element_slot(*old(self)) ==> exists|e: FieldLayoutElement|
                #[trigger] layout_extended(*old(self), *final(self), e) && (e matches
                FieldLayoutElement::CustomField(c) && custom_field_built(c, field_uid@, required)),
            !has_element_slot(*old(self)) ==> record_unchanged(*old(self), *final(self)),
    {
        if self.field_layouts.len() > 0 {
            let mut entry = self.field_layouts.remove(0);
            if entry.layout.tabs.len() > 0 {
                let mut tab = entry.layout.tabs.remove(0);
                let element = FieldLayoutElement::CustomField(
                    CustomField {
                        date_added: now_rfc3339(),
                        edit_condition: None,
                        element_condition: None,
                        field_uid: field_uid.to_owned(),
                        handle: None,
                        include_in_cards: false,
                        instructions: None,
                        label: None,
                        provides_thumbs: false,
                        required,
                        tip: None,
                        element_type: "craft\\fieldlayoutelements\\CustomField".to_owned(),
                        uid: fresh_uid(),
                        user_condition: None,
                        warning: None,
                        width: 100,
                    },
                );
                let ghost witness = element;
                tab.elements.push(element);
                entry.layout.tabs.insert(0, tab);
                self.field_layouts.insert(0, entry);
                proof {
                    assert(self.field_layouts@ =~= old(self).field_layouts@.update(
                        0,
                        self.field_layouts@[0],
                    ));
                    assert(self.field_layouts@[0].layout.tabs@ =~= old(
                        self,
                    ).field_layouts@[0].layout.tabs@.update(
                        0,
                        self.field_layouts@[0].layout.tabs@[0],
                    ));
                    assert(layout_extended(*old(self), *self, witness));
                }
            } else {
                self.field_layouts.insert(0, entry);
                proof {
                    assert(self.field_layouts@ =~= old(self).field_layouts@);
                }
            }
        }
    }

    /// Draws a fresh unique identifier, as the surrounding tooling does
    /// when it files a record.
    pub fn get_uuid(&self) -> (r: String)
        ensures
            r@.len() == 36,
    {
        fresh_uid()
    }
}

} // verus!
