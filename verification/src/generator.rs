//! The compilation layer: the single-record builders behind the ad hoc
//! commands, and the whole-project orchestration that drives the field
//! and entry-type builders and keeps the identity bookkeeping.

use vstd::prelude::*;
use vstd::string::StringExecFns;

use crate::config::EntryTypeConfig;
use crate::config::EntryTypeField;
use crate::config::FieldConfig;
use crate::config::FieldType;
use crate::config::ProjectConfig;
use crate::entry_type::custom_field_built;
use crate::entry_type::entry_type_scalars;
use crate::entry_type::layout_elements;
use crate::entry_type::layout_extended;
use crate::entry_type::single_content_layout;
use crate::entry_type::title_element_built;
use crate::entry_type::EntryType;
use crate::entry_type::FieldLayoutElement;
use crate::field::image_built;
use crate::field::number_built;
use crate::field::opt_ref_view;
use crate::field::opt_str_view;
use crate::field::plain_text_built;
use crate::field::rich_text_built;
use crate::field::url_built;
use crate::field::Field;
use crate::support::fresh_uid;
use crate::support::now_unix_seconds;
use crate::text::name_label;
use crate::text::record_path;
use crate::text::tag_eq;
use crate::text::tag_matches;

verus! {

/// An input the generator refuses to compile.
#[derive(Debug)]
pub enum GeneratorError {
    /// The single-field command was handed a type tag outside the alias
    /// table; the offending tag is carried along.
    UnsupportedFieldType(String),
}

impl GeneratorError {
    /// The error rendered for display, naming the offending tag.
    pub fn message(&self) -> (r: String)
        ensures
            (match self {
                GeneratorError::UnsupportedFieldType(t) => r@ == "Unsupported field type: "@
                    + t@,
            }),
    {
        match self {
            GeneratorError::UnsupportedFieldType(t) => String::from_str(
                "Unsupported field type: ",
            ).concat(t.as_str()),
        }
    }
}

/// The builder a recognized type tag selects.
#[derive(Debug)]
pub enum TagKind {
    PlainSingle,
    PlainMulti,
    Rich,
    Image,
    Number,
    Url,
}

pub open spec fn plain_single_tag(s: Seq<char>) -> bool {
    tag_eq(s, "text"@) || tag_eq(s, "plaintext"@) || tag_eq(s, "plain_text"@)
}

pub open spec fn plain_multi_tag(s: Seq<char>) -> bool {
    tag_eq(s, "textarea"@) || tag_eq(s, "multiline"@)
}

pub open spec fn rich_tag(s: Seq<char>) -> bool {
    tag_eq(s, "richtext"@) || tag_eq(s, "rich_text"@) || tag_eq(s, "wysiwyg"@)
}

pub open spec fn image_tag(s: Seq<char>) -> bool {
    tag_eq(s, "image"@) || tag_eq(s, "asset"@)
}

pub open spec fn number_tag(s: Seq<char>) -> bool {
    tag_eq(s, "number"@) || tag_eq(s, "integer"@) || tag_eq(s, "float"@)
}

pub open spec fn url_tag(s: Seq<char>) -> bool {
    tag_eq(s, "url"@) || tag_eq(s, "link"@)
}

/// The alias table of the single-field command: which builder, if any,
/// a type tag selects, compared ignoring ASCII case.
pub open spec fn classify_tag(s: Seq<char>) -> Option<TagKind> {
    if plain_single_tag(s) {
        Some(TagKind::PlainSingle)
    } else if plain_multi_tag(s) {
        Some(TagKind::PlainMulti)
    } else if rich_tag(s) {
        Some(TagKind::Rich)
    } else if image_tag(s) {
        Some(TagKind::Image)
    } else if number_tag(s) {
        Some(TagKind::Number)
    } else if url_tag(s) {
        Some(TagKind::Url)
    } else {
        None
    }
}

/// Builds one target field from an explicit type tag and metadata, or
/// fails naming the tag if no builder recognizes it. The declaration's
/// own required flag plays no part in the record.
#[allow(unused_variables)]
pub fn generate_field(
    name: &str,
    handle: &str,
    field_type: &str,
    instructions: Option<&str>,
    required: Option<bool>,
) -> (r: Result<Field, GeneratorError>)
    ensures
        r is Ok <==> classify_tag(field_type@) is Some,
        classify_tag(field_type@) == Some(TagKind::PlainSingle) ==> (r matches Ok(f)
            && plain_text_built(f, name@, handle@, opt_ref_view(instructions), false)),
        classify_tag(field_type@) == Some(TagKind::PlainMulti) ==> (r matches Ok(f)
            && plain_text_built(f, name@, handle@, opt_ref_view(instructions), true)),
        classify_tag(field_type@) == Some(TagKind::Rich) ==> (r matches Ok(f)
            && rich_text_built(f, name@, handle@, opt_ref_view(instructions))),
        classify_tag(field_type@) == Some(TagKind::Image) ==> (r matches Ok(f)
            && image_built(f, name@, handle@, opt_ref_view(instructions))),
        classify_tag(field_type@) == Some(TagKind::Number) ==> (r matches Ok(f)
            && number_built(f, name@, handle@, opt_ref_view(instructions))),
        classify_tag(field_type@) == Some(TagKind::Url) ==> (r matches Ok(f)
            && url_built(f, name@, handle@, opt_ref_view(instructions))),
        classify_tag(field_type@) is None ==> (r matches Err(e) && (e matches
        GeneratorError::UnsupportedFieldType(t) && t@ == field_type@)),
{
    if tag_matches(field_type, "text") || tag_matches(field_type, "plaintext") || tag_matches(
        field_type,
        "plain_text",
    ) {
        Ok(Field::new_plain_text(name, handle, instructions, false))
    } else if tag_matches(field_type, "textarea") || tag_matches(field_type, "multiline") {
        Ok(Field::new_plain_text(name, handle, instructions, true))
    } else if tag_matches(field_type, "richtext") || tag_matches(field_type, "rich_text")
        || tag_matches(field_type, "wysiwyg") {
        Ok(Field::new_rich_text(name, handle, instructions))
    } else if tag_matches(field_type, "image") || tag_matches(field_type, "asset") {
        Ok(Field::new_image(name, handle, instructions))
    } else if tag_matches(field_type, "number") || tag_matches(field_type, "integer")
        || tag_matches(field_type, "float") {
        Ok(Field::new_number(name, handle, instructions))
    } else if tag_matches(field_type, "url") || tag_matches(field_type, "link") {
        Ok(Field::new_url(name, handle, instructions))
    } else {
        Err(GeneratorError::UnsupportedFieldType(field_type.to_owned()))
    }
}

/// A custom-field element whose referenced-field identifier was freshly
/// drawn on the spot, unrelated to any compiled field.
pub open spec fn detached_custom_field(e: FieldLayoutElement, required: bool) -> bool {
    e matches FieldLayoutElement::CustomField(c) && (exists|v: Seq<char>|
        v.len() == 36 && custom_field_built(c, v, required))
}

/// Builds one entry type from a bare list of field handles: a title
/// element first, then one optional-width custom-field element per
/// handle, each referencing a freshly drawn identifier that no shared
/// index records, each with `required` off.
pub fn generate_entry_type(name: &str, handle: &str, field_handles: &Vec<String>) -> (r: Result<
    EntryType,
    GeneratorError,
>)
    ensures
        r matches Ok(et) && {
            &&& entry_type_scalars(et, name@, handle@)
            &&& single_content_layout(et)
            &&& layout_elements(et).len() == 1 + field_handles@.len()
            &&& layout_elements(et)[0] matches FieldLayoutElement::EntryTitle(t)
                && title_element_built(t)
            &&& forall|i: int|
                0 <= i < field_handles@.len() ==> detached_custom_field(
                    #[trigger] layout_elements(et)[i + 1],
                    false,
                )
        },
{
    let mut entry_type = EntryType::new(name, handle);
    entry_type.add_title_field();
    let n = field_handles.len();
    for i in 0..n
        invariant
            entry_type_scalars(entry_type, name@, handle@),
            single_content_layout(entry_type),
            layout_elements(entry_type).len() == 1 + i,
            layout_elements(entry_type)[0] matches FieldLayoutElement::EntryTitle(t)
                && title_element_built(t),
            forall|j: int|
                0 <= j < i ==> detached_custom_field(#[trigger] layout_elements(entry_type)[j + 1], false),
    {
        let field_uid = fresh_uid();
        entry_type.add_field(field_uid.as_str(), false);
    }
    Ok(entry_type)
}


/// A compiled field record together with its generated identifier, its
/// index label and the file it is to land in.
#[derive(Debug)]
pub struct CompiledField {
    pub uid: String,
    pub handle: String,
    pub label: String,
    pub file_name: String,
    pub field: Field,
}

/// A compiled entry-type record together with its generated identifier,
/// its index label and the file it is to land in.
#[derive(Debug)]
pub struct CompiledEntryType {
    pub uid: String,
    pub handle: String,
    pub label: String,
    pub file_name: String,
    pub entry_type: EntryType,
}

/// Everything one project compilation produces: the records in input
/// order, the name index (fields first, then entry types) and the
/// modification timestamp for the project file.
#[derive(Debug)]
pub struct CompiledProject {
    pub fields: Vec<CompiledField>,
    pub entry_types: Vec<CompiledEntryType>,
    pub names: Vec<(String, String)>,
    pub date_modified: i64,
}

/// Whether the bulk path has a builder for this declared field type.
/// Declarations outside this set are skipped, not refused.
pub open spec fn supported_field(ft: FieldType) -> bool {
    match ft {
        FieldType::PlainText => true,
        FieldType::RichText => true,
        FieldType::Image => true,
        FieldType::Asset => true,
        FieldType::Number => true,
        FieldType::Url => true,
        _ => false,
    }
}

/// The subsequence of field declarations the bulk path compiles, in
/// input order.
pub open spec fn kept_fields(s: Seq<FieldConfig>) -> Seq<FieldConfig>
    decreases s.len(),
{
    if s.len() == 0 {
        Seq::empty()
    } else if supported_field(s.last().field_type) {
        kept_fields(s.drop_last()).push(s.last())
    } else {
        kept_fields(s.drop_last())
    }
}

/// The record the bulk path builds for one declaration, by its type.
pub open spec fn field_built_from(f: Field, fc: FieldConfig) -> bool {
    match fc.field_type {
        FieldType::PlainText => plain_text_built(
            f,
            fc.name@,
            fc.handle@,
            opt_str_view(fc.instructions),
            false,
        ),
        FieldType::RichText => rich_text_built(f, fc.name@, fc.handle@, opt_str_view(fc.instructions)),
        FieldType::Image => image_built(f, fc.name@, fc.handle@, opt_str_view(fc.instructions)),
        FieldType::Asset => image_built(f, fc.name@, fc.handle@, opt_str_view(fc.instructions)),
        FieldType::Number => number_built(f, fc.name@, fc.handle@, opt_str_view(fc.instructions)),
        FieldType::Url => url_built(f, fc.name@, fc.handle@, opt_str_view(fc.instructions)),
        _ => false,
    }
}

/// One compiled field: a fresh identifier, the declaration's handle,
/// the `"<name> # <handle>"` index label, the
/// `fields/<handle>--<uid>.yaml` file name and the built record.
pub open spec fn compiled_field_from(cf: CompiledField, fc: FieldConfig) -> bool {
    &&& cf.uid@.len() == 36
    &&& cf.handle@ == fc.handle@
    &&& cf.label@ == fc.name@ + " # "@ + fc.handle@
    &&& cf.file_name@ == "fields"@ + "/"@ + fc.handle@ + "--"@ + cf.uid@ + ".yaml"@
    &&& field_built_from(cf.field, fc)
}

/// The identifier a field handle resolves to among the compiled fields;
/// the latest declaration of a handle wins, as in the resolution table
/// the orchestrator fills.
pub open spec fn resolve_in(fields: Seq<CompiledField>, handle: Seq<char>) -> Option<Seq<char>>
    decreases fields.len(),
{
    if fields.len() == 0 {
        None
    } else if fields.last().handle@ == handle {
        Some(fields.last().uid@)
    } else {
        resolve_in(fields.drop_last(), handle)
    }
}

/// The subsequence of an entry type's field references whose handles
/// resolve; the rest are silently skipped.
pub open spec fn kept_refs(refs: Seq<EntryTypeField>, fields: Seq<CompiledField>) -> Seq<
    EntryTypeField,
>
    decreases refs.len(),
{
    if refs.len() == 0 {
        Seq::empty()
    } else if resolve_in(fields, refs.last().handle@) is Some {
        kept_refs(refs.drop_last(), fields).push(refs.last())
    } else {
        kept_refs(refs.drop_last(), fields)
    }
}

/// An optional flag with its defaulting rule.
pub open spec fn opt_flag(o: Option<bool>, if_missing: bool) -> bool {
    match o {
        Some(b) => b,
        None => if_missing,
    }
}

/// The element list the bulk path builds for one entry-type
/// declaration: the title element first when the declaration asks for
/// one (or leaves it unspecified), then one custom-field element per
/// resolvable reference, in declaration order, each carrying the
/// reference's own required flag.
/// The element at position `at` is the custom-field element the
/// reference `fref` gives rise to: it carries the identifier `fref`'s
/// handle resolves to and `fref`'s own required flag.
pub open spec fn custom_element_at(
    elems: Seq<FieldLayoutElement>,
    at: int,
    fields: Seq<CompiledField>,
    fref: EntryTypeField,
) -> bool {
    elems[at] matches FieldLayoutElement::CustomField(c) && custom_field_built(
        c,
        resolve_in(fields, fref.handle@)->Some_0,
        opt_flag(fref.required, false),
    )
}

pub open spec fn entry_type_elements_from(
    et: EntryType,
    ec: EntryTypeConfig,
    fields: Seq<CompiledField>,
) -> bool {
    let has_title = opt_flag(ec.has_title_field, true);
    let kept = kept_refs(ec.fields@, fields);
    let off: int = if has_title {
        1
    } else {
        0
    };
    &&& layout_elements(et).len() == off + kept.len()
    &&& has_title ==> (layout_elements(et)[0] matches FieldLayoutElement::EntryTitle(t)
        && title_element_built(t))
    &&& forall|j: int|
        0 <= j < kept.len() ==> custom_element_at(
            layout_elements(et),
            off + j,
            fields,
            #[trigger] kept[j],
        )
}

/// One compiled entry type: a fresh identifier, the declaration's
/// handle, the index label, the `entryTypes/<handle>--<uid>.yaml` file
/// name and the built record with its element list.
pub open spec fn compiled_entry_type_from(
    cet: CompiledEntryType,
    ec: EntryTypeConfig,
    fields: Seq<CompiledField>,
) -> bool {
    &&& cet.uid@.len() == 36
    &&& cet.handle@ == ec.handle@
    &&& cet.label@ == ec.name@ + " # "@ + ec.handle@
    &&& cet.file_name@ == "entryTypes"@ + "/"@ + ec.handle@ + "--"@ + cet.uid@ + ".yaml"@
    &&& entry_type_scalars(cet.entry_type, ec.name@, ec.handle@)
    &&& single_content_layout(cet.entry_type)
    &&& entry_type_elements_from(cet.entry_type, ec, fields)
}

/// The name index holds exactly one entry per emitted record, in
/// emission order: every field, then every entry type, each mapped to
/// its label.
pub open spec fn names_built(r: CompiledProject) -> bool {
    let nf = r.fields@.len() as int;
    let ne = r.entry_types@.len() as int;
    &&& r.names@.len() == nf + ne
    &&& forall|i: int|
        0 <= i < nf ==> (#[trigger] r.names@[i]).0@ == r.fields@[i].uid@ && r.names@[i].1@
            == r.fields@[i].label@
    &&& forall|i: int|
        0 <= i < ne ==> r.names@[nf + i].0@ == (#[trigger] r.entry_types@[i]).uid@ && r.names@[nf
            + i].1@ == r.entry_types@[i].label@
}

/// The whole contract of one project compilation.
pub open spec fn compiled_project_from(c: ProjectConfig, r: CompiledProject) -> bool {
    &&& r.fields@.len() == kept_fields(c.fields@).len()
    &&& forall|i: int|
        0 <= i < r.fields@.len() ==> compiled_field_from(
            #[trigger] r.fields@[i],
            kept_fields(c.fields@)[i],
        )
    &&& r.entry_types@.len() == c.entry_types@.len()
    &&& forall|i: int|
        0 <= i < c.entry_types@.len() ==> compiled_entry_type_from(
            #[trigger] r.entry_types@[i],
            c.entry_types@[i],
            r.fields@,
        )
    &&& names_built(r)
}

proof fn lemma_kept_fields_step(s: Seq<FieldConfig>, i: int)
    requires
        0 <= i < s.len(),
    ensures
        supported_field(s[i].field_type) ==> kept_fields(s.take(i + 1)) == kept_fields(
            s.take(i),
        ).push(s[i]),
        !supported_field(s[i].field_type) ==> kept_fields(s.take(i + 1)) == kept_fields(s.take(i)),
{
    assert(s.take(i + 1).drop_last() =~= s.take(i));
    assert(s.take(i + 1).last() == s[i]);
}

proof fn lemma_kept_refs_step(refs: Seq<EntryTypeField>, fields: Seq<CompiledField>, i: int)
    requires
        0 <= i < refs.len(),
    ensures
        resolve_in(fields, refs[i].handle@) is Some ==> kept_refs(refs.take(i + 1), fields)
            == kept_refs(refs.take(i), fields).push(refs[i]),
        resolve_in(fields, refs[i].handle@) is None ==> kept_refs(refs.take(i + 1), fields)
            == kept_refs(refs.take(i), fields),
{
    assert(refs.take(i + 1).drop_last() =~= refs.take(i));
    assert(refs.take(i + 1).last() == refs[i]);
}

fn opt_as_deref(o: &Option<String>) -> (r: Option<&str>)
    ensures
        opt_ref_view(r) == opt_str_view(*o),
{
    match o {
        Some(s) => Some(s.as_str()),
        None => None,
    }
}

/// Looks a field handle up among the compiled fields, as the
/// orchestrator's resolution table does; the latest declaration of a
/// handle wins.
pub fn resolve_uid(fields: &Vec<CompiledField>, handle: &String) -> (r: Option<String>)
    ensures
        (match r {
            Some(u) => resolve_in(fields@, handle@) == Some(u@),
            None => resolve_in(fields@, handle@) is None,
        }),
{
    let n = fields.len();
    let mut i = n;
    proof {
        assert(fields@.take(n as int) =~= fields@);
    }
    while i > 0
        invariant
            i <= n,
            n == fields@.len(),
            resolve_in(fields@, handle@) == resolve_in(fields@.take(i as int), handle@),
        decreases i,
    {
        i = i - 1;
        proof {
            assert(fields@.take(i as int + 1).drop_last() =~= fields@.take(i as int));
            assert(fields@.take(i as int + 1).last() == fields@[i as int]);
        }
        if handle.eq(&fields[i].handle) {
            return Some(fields[i].uid.clone());
        }
    }
    proof {
        assert(fields@.take(0) =~= Seq::<CompiledField>::empty());
    }
    None
}

/// Compiles a whole project description in two passes: every supported
/// field declaration in input order (unsupported types are skipped),
/// then every entry-type declaration, resolving field references
/// against the first pass; the name index records exactly the emitted
/// records, fields first.
#[verifier::loop_isolation(false)]
pub fn compile_project(config: &ProjectConfig) -> (r: CompiledProject)
    ensures
        compiled_project_from(*config, r),
{
    let mut fields: Vec<CompiledField> = Vec::new();
    let nf_in = config.fields.len();
    for idx in 0..nf_in
        invariant
            fields@.len() == kept_fields(config.fields@.take(idx as int)).len(),
            forall|i: int|
                0 <= i < fields@.len() ==> compiled_field_from(
                    #[trigger] fields@[i],
                    kept_fields(config.fields@.take(idx as int))[i],
                ),
    {
        let fc = &config.fields[idx];
        let built: Option<Field> = match fc.field_type {
            FieldType::PlainText => Some(
                Field::new_plain_text(
                    fc.name.as_str(),
                    fc.handle.as_str(),
                    opt_as_deref(&fc.instructions),
                    false,
                ),
            ),
            FieldType::RichText => Some(
                Field::new_rich_text(fc.name.as_str(), fc.handle.as_str(), opt_as_deref(&fc.instructions)),
            ),
            FieldType::Image => Some(
                Field::new_image(fc.name.as_str(), fc.handle.as_str(), opt_as_deref(&fc.instructions)),
            ),
            FieldType::Asset => Some(
                Field::new_image(fc.name.as_str(), fc.handle.as_str(), opt_as_deref(&fc.instructions)),
            ),
            FieldType::Number => Some(
                Field::new_number(fc.name.as_str(), fc.handle.as_str(), opt_as_deref(&fc.instructions)),
            ),
            FieldType::Url => Some(
                Field::new_url(fc.name.as_str(), fc.handle.as_str(), opt_as_deref(&fc.instructions)),
            ),
            _ => None,
        };
        proof {
            lemma_kept_fields_step(config.fields@, idx as int);
        }
        match built {
            Some(field) => {
                let uid = fresh_uid();
                let label = name_label(fc.name.as_str(), fc.handle.as_str());
                let file_name = record_path("fields", fc.handle.as_str(), uid.as_str());
                fields.push(
                    CompiledField { uid, handle: fc.handle.clone(), label, file_name, field },
                );
            },
            None => {},
        }
    }
    proof {
        assert(config.fields@.take(nf_in as int) =~= config.fields@);
    }
    let mut entry_types: Vec<CompiledEntryType> = Vec::new();
    let ne_in = config.entry_types.len();
    for idx in 0..ne_in
        invariant
            entry_types@.len() == idx,
            forall|i: int|
                0 <= i < idx ==> compiled_entry_type_from(
                    #[trigger] entry_types@[i],
                    config.entry_types@[i],
                    fields@,
                ),
    {
        let ec = &config.entry_types[idx];
        let mut entry_type = EntryType::new(ec.name.as_str(), ec.handle.as_str());
        let has_title = match ec.has_title_field {
            Some(b) => b,
            None => true,
        };
        if has_title {
            entry_type.add_title_field();
        }
        let ghost off: int = if has_title {
            1
        } else {
            0
        };
        let ghost mut kept: Seq<EntryTypeField> = Seq::<EntryTypeField>::empty();
        let m = ec.fields.len();
        for j in 0..m
            invariant
                entry_type_scalars(entry_type, ec.name@, ec.handle@),
                single_content_layout(entry_type),
                has_title == opt_flag(ec.has_title_field, true),
                off == (if has_title {
                    1int
                } else {
                    0int
                }),
                kept == kept_refs(ec.fields@.take(j as int), fields@),
                layout_elements(entry_type).len() == off + kept.len(),
                has_title ==> (layout_elements(entry_type)[0] matches
                    FieldLayoutElement::EntryTitle(t) && title_element_built(t)),
                forall|k: int|
                    0 <= k < kept.len() ==> custom_element_at(
                        layout_elements(entry_type),
                        off + k,
                        fields@,
                        #[trigger] kept[k],
                    ),
        {
            let fref = &ec.fields[j];
            proof {
                lemma_kept_refs_step(ec.fields@, fields@, j as int);
            }
            let ghost kept_old = kept_refs(ec.fields@.take(j as int), fields@);
            let ghost kept_new = kept_refs(ec.fields@.take(j as int + 1), fields@);
            let ghost pre = entry_type;
            match resolve_uid(&fields, &fref.handle) {
                Some(field_uid) => {
                    let req = match fref.required {
                        Some(b) => b,
                        None => false,
                    };
                    entry_type.add_field(field_uid.as_str(), req);
                    proof {
                        let e = choose|e: FieldLayoutElement|
                            #[trigger] layout_extended(pre, entry_type, e) && (e matches
                            FieldLayoutElement::CustomField(c) && custom_field_built(
                                c,
                                field_uid@,
                                req,
                            ));
                        assert(layout_elements(entry_type) == layout_elements(pre).push(e));
                        assert(kept_new == kept_old.push(ec.fields@[j as int]));
                        let pre_kept = kept;
                        kept = kept.push(ec.fields@[j as int]);
                        assert forall|k: int| 0 <= k < kept.len() implies custom_element_at(
                            layout_elements(entry_type),
                            off + k,
                            fields@,
                            #[trigger] kept[k],
                        ) by {
                            if k < pre_kept.len() {
                                assert(custom_element_at(
                                    layout_elements(pre),
                                    off + k,
                                    fields@,
                                    pre_kept[k],
                                ));
                                assert(kept[k] == pre_kept[k]);
                                assert(layout_elements(entry_type)[off + k] == layout_elements(
                                    pre,
                                )[off + k]);
                            } else {
                                assert(kept[k] == ec.fields@[j as int]);
                                assert(layout_elements(entry_type)[off + k] == e);
                                assert(resolve_in(fields@, kept[k].handle@) == Some(field_uid@));
                            }
                        }
                    }
                },
                None => {
                    proof {
                        assert(kept_new == kept_old);
                    }
                },
            }
        }
        proof {
            assert(ec.fields@.take(m as int) =~= ec.fields@);
        }
        let uid = fresh_uid();
        let label = name_label(ec.name.as_str(), ec.handle.as_str());
        let file_name = record_path("entryTypes", ec.handle.as_str(), uid.as_str());
        entry_types.push(
            CompiledEntryType { uid, handle: ec.handle.clone(), label, file_name, entry_type },
        );
    }
    let nf = fields.len();
    let mut names: Vec<(String, String)> = Vec::new();
    for i in 0..nf
        invariant
            names@.len() == i,
            forall|k: int|
                0 <= k < i ==> (#[trigger] names@[k]).0@ == fields@[k].uid@ && names@[k].1@
                    == fields@[k].label@,
    {
        names.push((fields[i].uid.clone(), fields[i].label.clone()));
    }
    let ne = entry_types.len();
    for i in 0..ne
        invariant
            names@.len() == nf + i,
            forall|k: int|
                0 <= k < nf ==> (#[trigger] names@[k]).0@ == fields@[k].uid@ && names@[k].1@
                    == fields@[k].label@,
            forall|k: int|
                0 <= k < i ==> names@[nf + k].0@ == (#[trigger] entry_types@[k]).uid@ && names@[nf
                    + k].1@ == entry_types@[k].label@,
    {
        names.push((entry_types[i].uid.clone(), entry_types[i].label.clone()));
    }
    let date_modified = now_unix_seconds();
    CompiledProject { fields, entry_types, names, date_modified }
}

} // verus!
