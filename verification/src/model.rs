//! The Type & Enum Modeler and the Doc Extractor: struct and enum
//! declarations become shape descriptors, with their documentation text and
//! their two independent serialization-direction flags; every declared type
//! is modeled whether or not either tag is present.

use vstd::prelude::*;

use crate::ast::{AttrNode, EnumNode, FieldNode, ItemNode, StructNode, VariantKind, VariantNode};
use crate::strutil::{join_seqs, join_strings, str_eq, trim, trim_spec};
use crate::typemap::{spec_ts_list, spec_type_to_ts, type_to_ts};

verus! {

/// The descriptor of one interface field.
pub struct TsField {
    pub name: String,
    pub ty: String,
    pub doc_comment: String,
}

pub ghost struct TsFieldV {
    pub name: Seq<char>,
    pub ty: Seq<char>,
    pub doc_comment: Seq<char>,
}

impl View for TsField {
    type V = TsFieldV;

    open spec fn view(&self) -> TsFieldV {
        TsFieldV { name: self.name@, ty: self.ty@, doc_comment: self.doc_comment@ }
    }
}

impl DeepView for TsField {
    type V = TsFieldV;

    open spec fn deep_view(&self) -> TsFieldV {
        self.view()
    }
}

/// The shape of one enum variant's descriptor.
pub enum TsVariantKind {
    Unit,
    Tuple(Vec<String>),
    Struct(Vec<TsField>),
}

pub ghost enum TsVariantKindV {
    Unit,
    Tuple(Seq<Seq<char>>),
    Struct(Seq<TsFieldV>),
}

impl View for TsVariantKind {
    type V = TsVariantKindV;

    open spec fn view(&self) -> TsVariantKindV {
        match self {
            TsVariantKind::Unit => TsVariantKindV::Unit,
            TsVariantKind::Tuple(types) => TsVariantKindV::Tuple(types.deep_view()),
            TsVariantKind::Struct(fields) => TsVariantKindV::Struct(fields.deep_view()),
        }
    }
}

/// The descriptor of one enum variant.
pub struct TsVariant {
    pub name: String,
    pub doc_comment: String,
    pub kind: TsVariantKind,
}

pub ghost struct TsVariantV {
    pub name: Seq<char>,
    pub doc_comment: Seq<char>,
    pub kind: TsVariantKindV,
}

impl View for TsVariant {
    type V = TsVariantV;

    open spec fn view(&self) -> TsVariantV {
        TsVariantV { name: self.name@, doc_comment: self.doc_comment@, kind: self.kind@ }
    }
}

impl DeepView for TsVariant {
    type V = TsVariantV;

    open spec fn deep_view(&self) -> TsVariantV {
        self.view()
    }
}

/// The shape of one modeled type: an interface of named fields, or an enum
/// of variants.
pub enum TsShape {
    Interface { fields: Vec<TsField> },
    Enum { variants: Vec<TsVariant> },
}

pub ghost enum TsShapeV {
    Interface { fields: Seq<TsFieldV> },
    Enum { variants: Seq<TsVariantV> },
}

impl View for TsShape {
    type V = TsShapeV;

    open spec fn view(&self) -> TsShapeV {
        match self {
            TsShape::Interface { fields } => TsShapeV::Interface { fields: fields.deep_view() },
            TsShape::Enum { variants } => TsShapeV::Enum { variants: variants.deep_view() },
        }
    }
}

/// The full descriptor of one modeled type.
pub struct TsDecl {
    pub name: String,
    pub doc_comment: String,
    pub shape: TsShape,
}

pub ghost struct TsDeclV {
    pub name: Seq<char>,
    pub doc_comment: Seq<char>,
    pub shape: TsShapeV,
}

impl View for TsDecl {
    type V = TsDeclV;

    open spec fn view(&self) -> TsDeclV {
        TsDeclV { name: self.name@, doc_comment: self.doc_comment@, shape: self.shape@ }
    }
}

/// One extracted type: its descriptor, its two serialization-direction
/// flags, and the module it came from.
pub struct ExtractedTypeInfo {
    pub name: String,
    pub ts_interface: TsDecl,
    pub is_serializable: bool,
    pub is_deserializable: bool,
    pub original_file_name: String,
}

pub ghost struct ExtractedTypeInfoV {
    pub name: Seq<char>,
    pub ts_interface: TsDeclV,
    pub is_serializable: bool,
    pub is_deserializable: bool,
    pub original_file_name: Seq<char>,
}

impl View for ExtractedTypeInfo {
    type V = ExtractedTypeInfoV;

    open spec fn view(&self) -> ExtractedTypeInfoV {
        ExtractedTypeInfoV {
            name: self.name@,
            ts_interface: self.ts_interface@,
            is_serializable: self.is_serializable,
            is_deserializable: self.is_deserializable,
            original_file_name: self.original_file_name@,
        }
    }
}

impl DeepView for ExtractedTypeInfo {
    type V = ExtractedTypeInfoV;

    open spec fn deep_view(&self) -> ExtractedTypeInfoV {
        self.view()
    }
}

/// The trimmed values of the documentation attributes, in order.
pub open spec fn spec_doc_values(attrs: Seq<AttrNode>) -> Seq<Seq<char>>
    decreases attrs.len(),
{
    if attrs.len() == 0 {
        Seq::empty()
    } else {
        let rest = spec_doc_values(attrs.drop_last());
        match attrs.last() {
            AttrNode::Doc(s) => rest.push(trim_spec(s@)),
            _ => rest,
        }
    }
}

/// The documentation text of a declaration: its documentation attributes'
/// values, each trimmed, joined by single newlines.
pub open spec fn spec_doc_comment(attrs: Seq<AttrNode>) -> Seq<char> {
    join_seqs(spec_doc_values(attrs), "\n"@)
}

/// Concatenates the documentation attributes into one string, one line per
/// attribute, each line trimmed.
pub fn extract_doc_comments(attrs: &Vec<AttrNode>) -> (r: String)
    ensures
        r@ == spec_doc_comment(attrs@),
{
    let mut vals: Vec<String> = Vec::new();
    let mut i: usize = 0;
    while i < attrs.len()
        invariant
            i <= attrs@.len(),
            vals.deep_view() == spec_doc_values(attrs@.take(i as int)),
        decreases attrs@.len() - i,
    {
        let ghost prev = vals.deep_view();
        match &attrs[i] {
            AttrNode::Doc(s) => {
                vals.push(trim(s.as_str()));
                proof {
                    assert(vals.deep_view() =~= prev.push(trim_spec(s@)));
                }
            },
            _ => {},
        }
        proof {
            assert(attrs@.take(i as int + 1).drop_last() =~= attrs@.take(i as int));
            assert(attrs@.take(i as int + 1).last() == attrs@[i as int]);
        }
        i = i + 1;
    }
    proof {
        assert(attrs@.take(attrs@.len() as int) =~= attrs@);
    }
    join_strings(&vals, "\n")
}

/// Whether one derive path names the macro: its last segment equals the
/// macro's name.
pub open spec fn derive_path_matches(path: Seq<Seq<char>>, name: Seq<char>) -> bool {
    path.len() > 0 && path.last() == name
}

/// Whether one attribute derives the named macro.
pub open spec fn attr_has_derive(attr: AttrNode, name: Seq<char>) -> bool {
    match attr {
        AttrNode::Derive(paths) => exists|j: int|
            0 <= j < paths@.len() && derive_path_matches(
                (#[trigger] paths@[j]).deep_view(),
                name,
            ),
        _ => false,
    }
}

/// Whether any attribute in the list derives the named macro.
pub open spec fn spec_has_derive(attrs: Seq<AttrNode>, name: Seq<char>) -> bool {
    exists|i: int| 0 <= i < attrs.len() && attr_has_derive(#[trigger] attrs[i], name)
}

/// Tests whether the attribute list carries a derive of the named macro.
pub fn has_derive_macro(attrs: &Vec<AttrNode>, macro_name: &str) -> (r: bool)
    ensures
        r == spec_has_derive(attrs@, macro_name@),
{
    let mut i: usize = 0;
    while i < attrs.len()
        invariant
            i <= attrs@.len(),
            forall|k: int| 0 <= k < i ==> !attr_has_derive(#[trigger] attrs@[k], macro_name@),
        decreases attrs@.len() - i,
    {
        match &attrs[i] {
            AttrNode::Derive(paths) => {
                let mut j: usize = 0;
                while j < paths.len()
                    invariant
                        0 <= i < attrs@.len(),
                        attrs@[i as int] == AttrNode::Derive(*paths),
                        j <= paths@.len(),
                        forall|k: int| 0 <= k < j ==> !derive_path_matches(
                            (#[trigger] paths@[k]).deep_view(),
                            macro_name@,
                        ),
                    decreases paths@.len() - j,
                {
                    let path = &paths[j];
                    if path.len() > 0 && str_eq(path[path.len() - 1].as_str(), macro_name) {
                        proof {
                            assert(paths@[j as int] == *path);
                            assert(path.deep_view().last() == macro_name@);
                            assert(derive_path_matches(paths@[j as int].deep_view(), macro_name@));
                            let ghost ps = attrs@[i as int]->Derive_0;
                            assert(ps == *paths);
                            assert(derive_path_matches(ps@[j as int].deep_view(), macro_name@));
                            assert(attr_has_derive(attrs@[i as int], macro_name@));
                        }
                        return true;
                    }
                    j = j + 1;
                }
                proof {
                    assert(!attr_has_derive(attrs@[i as int], macro_name@));
                }
            },
            _ => {
                proof {
                    assert(!attr_has_derive(attrs@[i as int], macro_name@));
                }
            },
        }
        i = i + 1;
    }
    false
}

/// The field descriptors of a list of named fields, in order.
pub open spec fn spec_fields_ts(fields: Seq<FieldNode>, defined: Seq<Seq<char>>) -> Seq<TsFieldV>
    decreases fields.len(),
{
    if fields.len() == 0 {
        Seq::empty()
    } else {
        spec_fields_ts(fields.drop_last(), defined).push(
            TsFieldV {
                name: fields.last().name@,
                ty: spec_type_to_ts(fields.last().ty, defined, false),
                doc_comment: spec_doc_comment(fields.last().attrs@),
            },
        )
    }
}

/// Converts a list of named fields into field descriptors.
fn fields_to_ts(fields: &Vec<FieldNode>, defined_types: &Vec<String>) -> (r: Vec<TsField>)
    ensures
        r.deep_view() == spec_fields_ts(fields@, defined_types.deep_view()),
{
    let mut r: Vec<TsField> = Vec::new();
    let mut i: usize = 0;
    while i < fields.len()
        invariant
            i <= fields@.len(),
            r.deep_view() == spec_fields_ts(fields@.take(i as int), defined_types.deep_view()),
        decreases fields@.len() - i,
    {
        let ghost prev = r.deep_view();
        let f = &fields[i];
        let fld = TsField {
            name: f.name.clone(),
            ty: type_to_ts(&f.ty, defined_types, false),
            doc_comment: extract_doc_comments(&f.attrs),
        };
        r.push(fld);
        proof {
            assert(fields@.take(i as int + 1).drop_last() =~= fields@.take(i as int));
            assert(fields@.take(i as int + 1).last() == fields@[i as int]);
            assert(r.deep_view() =~= spec_fields_ts(
                fields@.take(i as int + 1),
                defined_types.deep_view(),
            ));
        }
        i = i + 1;
    }
    proof {
        assert(fields@.take(fields@.len() as int) =~= fields@);
    }
    r
}

/// The descriptor of a struct declaration: an interface of its named
/// fields, mapped in non-strict mode against the types known so far.
pub open spec fn spec_struct_decl(s: StructNode, defined: Seq<Seq<char>>) -> TsDeclV {
    TsDeclV {
        name: s.name@,
        doc_comment: spec_doc_comment(s.attrs@),
        shape: TsShapeV::Interface { fields: spec_fields_ts(s.fields@, defined) },
    }
}

/// Converts a struct declaration into its interface descriptor.
pub fn convert_struct_to_ts_interface(s: &StructNode, defined_types: &Vec<String>) -> (r: TsDecl)
    ensures
        r@ == spec_struct_decl(*s, defined_types.deep_view()),
{
    TsDecl {
        name: s.name.clone(),
        doc_comment: extract_doc_comments(&s.attrs),
        shape: TsShape::Interface { fields: fields_to_ts(&s.fields, defined_types) },
    }
}

/// The descriptor of one enum variant's shape.
pub open spec fn spec_variant_kind(kind: VariantKind, defined: Seq<Seq<char>>) -> TsVariantKindV {
    match kind {
        VariantKind::Unit => TsVariantKindV::Unit,
        VariantKind::Tuple(types) => TsVariantKindV::Tuple(spec_ts_list(types@, defined, false)),
        VariantKind::Struct(fields) => TsVariantKindV::Struct(spec_fields_ts(fields@, defined)),
    }
}

/// The variant descriptors of an enum, in order.
pub open spec fn spec_variants_ts(
    variants: Seq<VariantNode>,
    defined: Seq<Seq<char>>,
) -> Seq<TsVariantV>
    decreases variants.len(),
{
    if variants.len() == 0 {
        Seq::empty()
    } else {
        spec_variants_ts(variants.drop_last(), defined).push(
            TsVariantV {
                name: variants.last().name@,
                doc_comment: spec_doc_comment(variants.last().attrs@),
                kind: spec_variant_kind(variants.last().kind, defined),
            },
        )
    }
}

/// The descriptor of an enum declaration.
pub open spec fn spec_enum_decl(e: EnumNode, defined: Seq<Seq<char>>) -> TsDeclV {
    TsDeclV {
        name: e.name@,
        doc_comment: spec_doc_comment(e.attrs@),
        shape: TsShapeV::Enum { variants: spec_variants_ts(e.variants@, defined) },
    }
}

/// Converts the types of one tuple variant, in order.
fn tuple_types_to_ts(types: &Vec<crate::ast::TypeNode>, defined_types: &Vec<String>) -> (r: Vec<
    String,
>)
    ensures
        r.deep_view() == spec_ts_list(types@, defined_types.deep_view(), false),
{
    let mut r: Vec<String> = Vec::new();
    let mut i: usize = 0;
    while i < types.len()
        invariant
            i <= types@.len(),
            r.deep_view() == spec_ts_list(types@.take(i as int), defined_types.deep_view(), false),
        decreases types@.len() - i,
    {
        r.push(type_to_ts(&types[i], defined_types, false));
        proof {
            assert(types@.take(i as int + 1).drop_last() =~= types@.take(i as int));
            assert(types@.take(i as int + 1).last() == types@[i as int]);
            assert(r.deep_view() =~= spec_ts_list(
                types@.take(i as int + 1),
                defined_types.deep_view(),
                false,
            ));
        }
        i = i + 1;
    }
    proof {
        assert(types@.take(types@.len() as int) =~= types@);
    }
    r
}

/// Converts an enum declaration into its enum descriptor.
pub fn convert_enum_to_ts_enum(e: &EnumNode, defined_types: &Vec<String>) -> (r: TsDecl)
    ensures
        r@ == spec_enum_decl(*e, defined_types.deep_view()),
{
    let mut variants: Vec<TsVariant> = Vec::new();
    let mut i: usize = 0;
    while i < e.variants.len()
        invariant
            i <= e.variants@.len(),
            variants.deep_view() == spec_variants_ts(
                e.variants@.take(i as int),
                defined_types.deep_view(),
            ),
        decreases e.variants@.len() - i,
    {
        let v = &e.variants[i];
        let kind = match &v.kind {
            VariantKind::Unit => TsVariantKind::Unit,
            VariantKind::Tuple(types) => TsVariantKind::Tuple(
                tuple_types_to_ts(types, defined_types),
            ),
            VariantKind::Struct(fields) => TsVariantKind::Struct(
                fields_to_ts(fields, defined_types),
            ),
        };
        let var = TsVariant {
            name: v.name.clone(),
            doc_comment: extract_doc_comments(&v.attrs),
            kind,
        };
        variants.push(var);
        proof {
            assert(e.variants@.take(i as int + 1).drop_last() =~= e.variants@.take(i as int));
            assert(e.variants@.take(i as int + 1).last() == e.variants@[i as int]);
            assert(variants.deep_view() =~= spec_variants_ts(
                e.variants@.take(i as int + 1),
                defined_types.deep_view(),
            ));
        }
        i = i + 1;
    }
    proof {
        assert(e.variants@.take(e.variants@.len() as int) =~= e.variants@);
    }
    TsDecl {
        name: e.name.clone(),
        doc_comment: extract_doc_comments(&e.attrs),
        shape: TsShape::Enum { variants },
    }
}

/// The entry that one struct declaration contributes, given the names known
/// before it.
pub open spec fn spec_type_entry_struct(
    s: StructNode,
    known: Seq<Seq<char>>,
    file: Seq<char>,
) -> ExtractedTypeInfoV {
    ExtractedTypeInfoV {
        name: s.name@,
        ts_interface: spec_struct_decl(s, known),
        is_serializable: spec_has_derive(s.attrs@, "Serialize"@),
        is_deserializable: spec_has_derive(s.attrs@, "Deserialize"@),
        original_file_name: file,
    }
}

/// The entry that one enum declaration contributes, given the names known
/// before it.
pub open spec fn spec_type_entry_enum(
    e: EnumNode,
    known: Seq<Seq<char>>,
    file: Seq<char>,
) -> ExtractedTypeInfoV {
    ExtractedTypeInfoV {
        name: e.name@,
        ts_interface: spec_enum_decl(e, known),
        is_serializable: spec_has_derive(e.attrs@, "Serialize"@),
        is_deserializable: spec_has_derive(e.attrs@, "Deserialize"@),
        original_file_name: file,
    }
}

/// The extracted types of a module's declarations, in declaration order;
/// `known` holds the names declared before `items`, so the field types of
/// each declaration are mapped against the names declared before it.
pub open spec fn spec_extract_types_from(
    items: Seq<ItemNode>,
    file: Seq<char>,
    known: Seq<Seq<char>>,
) -> Seq<ExtractedTypeInfoV>
    decreases items.len(),
{
    if items.len() == 0 {
        Seq::empty()
    } else {
        match items[0] {
            ItemNode::Struct(s) => seq![spec_type_entry_struct(s, known, file)]
                + spec_extract_types_from(items.drop_first(), file, known.push(s.name@)),
            ItemNode::Enum(e) => seq![spec_type_entry_enum(e, known, file)]
                + spec_extract_types_from(items.drop_first(), file, known.push(e.name@)),
            _ => spec_extract_types_from(items.drop_first(), file, known),
        }
    }
}

/// The extracted types of a whole module.
pub open spec fn spec_extract_types(items: Seq<ItemNode>, file: Seq<char>) -> Seq<
    ExtractedTypeInfoV,
> {
    spec_extract_types_from(items, file, Seq::empty())
}

/// Models every struct and enum declaration of a module, in order, tagging
/// each with its serialization-direction flags and the module's name.
pub fn extract_and_convert_types(items: &Vec<ItemNode>, original_file_name: &str) -> (r: Vec<
    ExtractedTypeInfo,
>)
    ensures
        r.deep_view() == spec_extract_types(items@, original_file_name@),
{
    let mut r: Vec<ExtractedTypeInfo> = Vec::new();
    let mut defined_names: Vec<String> = Vec::new();
    let mut i: usize = 0;
    proof {
        assert(defined_names.deep_view() =~= Seq::<Seq<char>>::empty());
        assert(items@.skip(0) =~= items@);
    }
    while i < items.len()
        invariant
            i <= items@.len(),
            r.deep_view() + spec_extract_types_from(
                items@.skip(i as int),
                original_file_name@,
                defined_names.deep_view(),
            ) =~= spec_extract_types(items@, original_file_name@),
        decreases items@.len() - i,
    {
        let ghost known = defined_names.deep_view();
        let ghost rv = r.deep_view();
        proof {
            assert(items@.skip(i as int)[0] == items@[i as int]);
            assert(items@.skip(i as int).drop_first() =~= items@.skip(i as int + 1));
        }
        match &items[i] {
            ItemNode::Struct(s) => {
                let is_serializable = has_derive_macro(&s.attrs, "Serialize");
                let is_deserializable = has_derive_macro(&s.attrs, "Deserialize");
                let ts_interface = convert_struct_to_ts_interface(s, &defined_names);
                let entry = ExtractedTypeInfo {
                    name: s.name.clone(),
                    ts_interface,
                    is_serializable,
                    is_deserializable,
                    original_file_name: original_file_name.to_owned(),
                };
                r.push(entry);
                defined_names.push(s.name.clone());
                proof {
                    assert(r.deep_view() =~= rv + seq![
                        spec_type_entry_struct(*s, known, original_file_name@),
                    ]);
                    assert(defined_names.deep_view() =~= known.push(s.name@));
                }
            },
            ItemNode::Enum(e) => {
                let is_serializable = has_derive_macro(&e.attrs, "Serialize");
                let is_deserializable = has_derive_macro(&e.attrs, "Deserialize");
                let ts_interface = convert_enum_to_ts_enum(e, &defined_names);
                let entry = ExtractedTypeInfo {
                    name: e.name.clone(),
                    ts_interface,
                    is_serializable,
                    is_deserializable,
                    original_file_name: original_file_name.to_owned(),
                };
                r.push(entry);
                defined_names.push(e.name.clone());
                proof {
                    assert(r.deep_view() =~= rv + seq![
                        spec_type_entry_enum(*e, known, original_file_name@),
                    ]);
                    assert(defined_names.deep_view() =~= known.push(e.name@));
                }
            },
            _ => {},
        }
        i = i + 1;
    }
    proof {
        assert(items@.skip(items@.len() as int) =~= Seq::<ItemNode>::empty());
        assert(r.deep_view() =~= spec_extract_types(items@, original_file_name@));
    }
    r
}

} // verus!
