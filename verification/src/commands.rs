//! The Command Modeler: finds procedure declarations carrying the command
//! marker, drops framework-injected context parameters and parameters whose
//! types cannot safely be reconstructed, and decides each command's return
//! typing.

use vstd::prelude::*;

use crate::aliases::{extract_use_aliases, spec_use_aliases, AliasMap};
use crate::ast::{AttrNode, FnNode, GenericArg, ItemNode, ParamNode, TypeNode};
use crate::model::{extract_doc_comments, spec_doc_comment, ExtractedTypeInfo, ExtractedTypeInfoV};
use crate::strutil::{join_seqs, join_strings, starts_with_seq, str_eq, str_starts_with};
use crate::typemap::{spec_first_type_arg, spec_type_to_ts, type_to_ts};

verus! {

/// The fully-qualified form of a path: a single-segment name canonicalizes
/// through the alias map; a longer path stands as written.
pub open spec fn spec_canonical_path(
    segments: Seq<Seq<char>>,
    aliases: Map<Seq<char>, Seq<char>>,
) -> Seq<char> {
    let joined = join_seqs(segments, "::"@);
    if segments.len() == 1 && aliases.contains_key(joined) {
        aliases[joined]
    } else {
        joined
    }
}

/// Whether a declared type is a framework-injected context type: the
/// generic shared-state container (matched by path prefix) or one of the
/// window and application handles (matched exactly, through aliases).
pub open spec fn spec_is_ignored(t: TypeNode, aliases: Map<Seq<char>, Seq<char>>) -> bool
    decreases t,
{
    match t {
        TypeNode::Path { segments, args } => {
            let fp = spec_canonical_path(segments.deep_view(), aliases);
            ||| starts_with_seq(fp, "tauri::State"@)
            ||| fp == "tauri::WebviewWindow"@
            ||| fp == "tauri::State"@
            ||| fp == "tauri::AppHandle"@
            ||| fp == "tauri::Window"@
        },
        TypeNode::Reference(inner) => spec_is_ignored(*inner, aliases),
        _ => false,
    }
}

/// Resolves a path type to its fully-qualified form.
fn canonical_path(segments: &Vec<String>, aliases: &AliasMap) -> (r: String)
    ensures
        r@ == spec_canonical_path(segments.deep_view(), aliases@),
{
    let joined = join_strings(segments, "::");
    if segments.len() == 1 {
        match aliases.get(joined.as_str()) {
            Some(v) => v.clone(),
            None => joined,
        }
    } else {
        joined
    }
}

/// Tests whether a parameter's type is a framework-injected context type.
pub fn is_ignored_tauri_type(ty: &TypeNode, aliases: &AliasMap) -> (r: bool)
    ensures
        r == spec_is_ignored(*ty, aliases@),
    decreases *ty,
{
    match ty {
        TypeNode::Path { segments, args } => {
            let fp = canonical_path(segments, aliases);
            str_starts_with(fp.as_str(), "tauri::State") || str_eq(
                fp.as_str(),
                "tauri::WebviewWindow",
            ) || str_eq(fp.as_str(), "tauri::State") || str_eq(fp.as_str(), "tauri::AppHandle")
                || str_eq(fp.as_str(), "tauri::Window")
        },
        TypeNode::Reference(inner) => is_ignored_tauri_type(inner, aliases),
        _ => false,
    }
}

/// Whether a declared type is the transport's opaque response wrapper.
pub open spec fn spec_is_ipc_response(t: TypeNode, aliases: Map<Seq<char>, Seq<char>>) -> bool
    decreases t,
{
    match t {
        TypeNode::Path { segments, args } => spec_canonical_path(segments.deep_view(), aliases)
            == "tauri::ipc::Response"@,
        TypeNode::Reference(inner) => spec_is_ipc_response(*inner, aliases),
        _ => false,
    }
}

/// Tests whether a declared type is the transport's opaque response wrapper.
pub fn is_tauri_ipc_response(ty: &TypeNode, aliases: &AliasMap) -> (r: bool)
    ensures
        r == spec_is_ipc_response(*ty, aliases@),
    decreases *ty,
{
    match ty {
        TypeNode::Path { segments, args } => {
            let fp = canonical_path(segments, aliases);
            str_eq(fp.as_str(), "tauri::ipc::Response")
        },
        TypeNode::Reference(inner) => is_tauri_ipc_response(inner, aliases),
        _ => false,
    }
}

/// Whether one attribute path spells the command marker, in either of its
/// two accepted spellings.
pub open spec fn marker_is_command(path: Seq<Seq<char>>) -> bool {
    ||| (path.len() == 1 && path[0] == "command"@)
    ||| (path.len() == 2 && path[0] == "tauri"@ && path[1] == "command"@)
}

/// Whether one attribute is the command marker.
pub open spec fn attr_is_command(attr: AttrNode) -> bool {
    match attr {
        AttrNode::Marker(path) => marker_is_command(path.deep_view()),
        _ => false,
    }
}

/// Whether the attribute list carries the command marker.
pub open spec fn spec_has_tauri_command(attrs: Seq<AttrNode>) -> bool {
    exists|i: int| 0 <= i < attrs.len() && attr_is_command(#[trigger] attrs[i])
}

/// Tests whether the attribute list carries the command marker.
pub fn has_tauri_command(attrs: &Vec<AttrNode>) -> (r: bool)
    ensures
        r == spec_has_tauri_command(attrs@),
{
    let mut i: usize = 0;
    while i < attrs.len()
        invariant
            i <= attrs@.len(),
            forall|k: int| 0 <= k < i ==> !attr_is_command(#[trigger] attrs@[k]),
        decreases attrs@.len() - i,
    {
        match &attrs[i] {
            AttrNode::Marker(path) => {
                let single = path.len() == 1 && str_eq(path[0].as_str(), "command");
                let double = path.len() == 2 && str_eq(path[0].as_str(), "tauri") && str_eq(
                    path[1].as_str(),
                    "command",
                );
                if single || double {
                    proof {
                        assert(attr_is_command(attrs@[i as int]));
                    }
                    return true;
                }
                proof {
                    assert(!attr_is_command(attrs@[i as int]));
                }
            },
            _ => {
                proof {
                    assert(!attr_is_command(attrs@[i as int]));
                }
            },
        }
        i = i + 1;
    }
    false
}

/// The module-defined type names reachable through a declared type, in
/// pre-order, through reference, tuple and generic-argument positions.
pub open spec fn spec_udt_names(t: TypeNode, defined: Seq<Seq<char>>) -> Seq<Seq<char>>
    decreases t,
{
    match t {
        TypeNode::Path { segments, args } => {
            if segments@.len() == 0 {
                Seq::empty()
            } else {
                let own: Seq<Seq<char>> = if defined.contains(segments@.last()@) {
                    seq![segments@.last()@]
                } else {
                    Seq::empty()
                };
                own + spec_udt_args(args, defined)
            }
        },
        TypeNode::Reference(inner) => spec_udt_names(*inner, defined),
        TypeNode::Tuple(elems) => spec_udt_tuple(elems@, defined),
        TypeNode::Opaque => Seq::empty(),
    }
}

pub open spec fn spec_udt_args(args: Option<Vec<GenericArg>>, defined: Seq<Seq<char>>) -> Seq<
    Seq<char>,
>
    decreases args,
{
    match args {
        Some(list) => spec_udt_list(list@, defined),
        None => Seq::empty(),
    }
}

pub open spec fn spec_udt_list(list: Seq<GenericArg>, defined: Seq<Seq<char>>) -> Seq<Seq<char>>
    decreases list,
{
    if list.len() == 0 {
        Seq::empty()
    } else {
        spec_udt_list(list.drop_last(), defined) + (match list.last() {
            GenericArg::Type(t) => spec_udt_names(t, defined),
            GenericArg::Other => Seq::empty(),
        })
    }
}

pub open spec fn spec_udt_tuple(elems: Seq<TypeNode>, defined: Seq<Seq<char>>) -> Seq<Seq<char>>
    decreases elems,
{
    if elems.len() == 0 {
        Seq::empty()
    } else {
        spec_udt_tuple(elems.drop_last(), defined) + spec_udt_names(elems.last(), defined)
    }
}

/// Collects the module-defined type names reachable through a declared
/// type, in pre-order, duplicates kept.
pub fn get_user_defined_type_names(ty: &TypeNode, defined_types_names: &Vec<String>) -> (r: Vec<
    String,
>)
    ensures
        r.deep_view() == spec_udt_names(*ty, defined_types_names.deep_view()),
    decreases *ty,
{
    let mut out: Vec<String> = Vec::new();
    match ty {
        TypeNode::Path { segments, args } => {
            if segments.len() == 0 {
                proof {
                    assert(out.deep_view() =~= Seq::<Seq<char>>::empty());
                }
            } else {
                let name = &segments[segments.len() - 1];
                if crate::strutil::vec_contains_str(defined_types_names, name.as_str()) {
                    out.push(name.clone());
                    proof {
                        assert(out.deep_view() =~= seq![name@]);
                    }
                } else {
                    proof {
                        assert(out.deep_view() =~= Seq::<Seq<char>>::empty());
                    }
                }
                let ghost own = out.deep_view();
                match args {
                    Some(list) => {
                        let mut j: usize = 0;
                        while j < list.len()
                            invariant
                                j <= list@.len(),
                                *ty == (TypeNode::Path {
                                    segments: *segments,
                                    args: Some(*list),
                                }),
                                out.deep_view() =~= own + spec_udt_list(
                                    list@.take(j as int),
                                    defined_types_names.deep_view(),
                                ),
                            decreases list@.len() - j,
                        {
                            match &list[j] {
                                GenericArg::Type(inner) => {
                                    proof {
                                        assert(ty->Path_args == Some(*list));
                                        assert(decreases_to!(*ty => ty->Path_args));
                                        assert(decreases_to!(ty->Path_args => ty->Path_args->Some_0));
                                        assert(decreases_to!(ty->Path_args->Some_0 => ty->Path_args->Some_0@));
                                        assert(decreases_to!(ty->Path_args->Some_0@ => ty->Path_args->Some_0@[j as int]));
                                        assert(list@[j as int]->Type_0 == *inner);
                                        assert(decreases_to!(list@[j as int] => list@[j as int]->Type_0));
                                        assert(decreases_to!(*ty => *inner));
                                    }
                                    let mut sub = get_user_defined_type_names(
                                        inner,
                                        defined_types_names,
                                    );
                                    let ghost subv = sub.deep_view();
                                    let ghost outv = out.deep_view();
                                    out.append(&mut sub);
                                    proof {
                                        assert(out.deep_view() =~= outv + subv);
                                    }
                                },
                                GenericArg::Other => {},
                            }
                            proof {
                                assert(list@.take(j as int + 1).drop_last() =~= list@.take(
                                    j as int,
                                ));
                                assert(list@.take(j as int + 1).last() == list@[j as int]);
                            }
                            j = j + 1;
                        }
                        proof {
                            let ghost dv = defined_types_names.deep_view();
                            assert(list@.take(list@.len() as int) =~= list@);
                            assert(out.deep_view() == own + spec_udt_list(list@, dv));
                            assert(*args == Some(*list));
                            assert(spec_udt_args(Some(*list), dv) == spec_udt_list(list@, dv));
                            assert(*ty == (TypeNode::Path {
                                segments: *segments,
                                args: Some(*list),
                            }));
                            assert(segments@.len() > 0);
                            assert(own == (if dv.contains(segments@.last()@) {
                                seq![segments@.last()@]
                            } else {
                                Seq::<Seq<char>>::empty()
                            }));
                            assert(out.deep_view() == spec_udt_names(*ty, dv));
                        }
                    },
                    None => {
                        proof {
                            assert(out.deep_view() =~= own + spec_udt_args(
                                None,
                                defined_types_names.deep_view(),
                            ));
                        }
                    },
                }
            }
        },
        TypeNode::Reference(inner) => {
            let mut sub = get_user_defined_type_names(inner, defined_types_names);
            let ghost subv = sub.deep_view();
            out.append(&mut sub);
            proof {
                assert(out.deep_view() =~= subv);
                assert(out.deep_view() == spec_udt_names(*ty, defined_types_names.deep_view()));
            }
        },
        TypeNode::Tuple(elems) => {
            let mut j: usize = 0;
            while j < elems.len()
                invariant
                    j <= elems@.len(),
                    *ty == TypeNode::Tuple(*elems),
                    out.deep_view() =~= spec_udt_tuple(
                        elems@.take(j as int),
                        defined_types_names.deep_view(),
                    ),
                decreases elems@.len() - j,
            {
                proof {
                    assert(ty->Tuple_0 == *elems);
                    assert(decreases_to!(*ty => ty->Tuple_0));
                    assert(decreases_to!(ty->Tuple_0 => ty->Tuple_0@));
                    assert(decreases_to!(ty->Tuple_0@ => ty->Tuple_0@[j as int]));
                    assert(decreases_to!(*ty => elems@[j as int]));
                }
                let mut sub = get_user_defined_type_names(&elems[j], defined_types_names);
                let ghost subv = sub.deep_view();
                let ghost outv = out.deep_view();
                out.append(&mut sub);
                proof {
                    assert(out.deep_view() =~= outv + subv);
                    assert(elems@.take(j as int + 1).drop_last() =~= elems@.take(j as int));
                    assert(elems@.take(j as int + 1).last() == elems@[j as int]);
                }
                j = j + 1;
            }
            proof {
                assert(elems@.take(elems@.len() as int) =~= elems@);
                assert(out.deep_view() == spec_udt_names(*ty, defined_types_names.deep_view()));
            }
        },
        TypeNode::Opaque => {
            proof {
                assert(out.deep_view() =~= Seq::<Seq<char>>::empty());
            }
        },
    }
    out
}

} // verus!

verus! {

/// One command descriptor: the display name/type pairs of its kept
/// parameters, the matching invocation-object entries, and its return type.
pub struct CommandInfo {
    pub name: String,
    pub doc_comment: String,
    pub args: Vec<String>,
    pub invoke_args: Vec<String>,
    pub return_type: String,
}

pub ghost struct CommandInfoV {
    pub name: Seq<char>,
    pub doc_comment: Seq<char>,
    pub args: Seq<Seq<char>>,
    pub invoke_args: Seq<Seq<char>>,
    pub return_type: Seq<char>,
}

impl View for CommandInfo {
    type V = CommandInfoV;

    open spec fn view(&self) -> CommandInfoV {
        CommandInfoV {
            name: self.name@,
            doc_comment: self.doc_comment@,
            args: self.args.deep_view(),
            invoke_args: self.invoke_args.deep_view(),
            return_type: self.return_type@,
        }
    }
}

impl DeepView for CommandInfo {
    type V = CommandInfoV;

    open spec fn deep_view(&self) -> CommandInfoV {
        self.view()
    }
}

/// The first extracted type of that name, in declaration order.
pub open spec fn spec_find_type(types: Seq<ExtractedTypeInfoV>, name: Seq<char>) -> Option<
    ExtractedTypeInfoV,
>
    decreases types.len(),
{
    if types.len() == 0 {
        None
    } else if types[0].name == name {
        Some(types[0])
    } else {
        spec_find_type(types.drop_first(), name)
    }
}

fn find_type<'a>(types: &'a Vec<ExtractedTypeInfo>, name: &str) -> (r: Option<
    &'a ExtractedTypeInfo,
>)
    ensures
        match r {
            Some(info) => spec_find_type(types.deep_view(), name@) == Some(info@),
            None => spec_find_type(types.deep_view(), name@) is None,
        },
{
    let ghost tv = types.deep_view();
    let mut i: usize = 0;
    proof {
        assert(tv.skip(0) =~= tv);
    }
    while i < types.len()
        invariant
            i <= types@.len(),
            tv == types.deep_view(),
            tv.len() == types@.len(),
            spec_find_type(tv, name@) == spec_find_type(tv.skip(i as int), name@),
        decreases types@.len() - i,
    {
        proof {
            assert(tv.skip(i as int)[0] == tv[i as int]);
        }
        if str_eq(types[i].name.as_str(), name) {
            proof {
                assert(tv[i as int].name == name@);
            }
            return Some(&types[i]);
        }
        proof {
            assert(tv.skip(i as int).drop_first() =~= tv.skip(i as int + 1));
        }
        i = i + 1;
    }
    proof {
        assert(tv.skip(types@.len() as int) =~= Seq::<ExtractedTypeInfoV>::empty());
    }
    None
}

/// Whether this name, if the module defines it, cannot be reconstructed
/// from the wire.
pub open spec fn spec_blocks_deser(name: Seq<char>, types: Seq<ExtractedTypeInfoV>) -> bool {
    match spec_find_type(types, name) {
        Some(info) => !info.is_deserializable,
        None => false,
    }
}

/// Whether every name in the list is reconstructible.
pub open spec fn spec_all_deserializable(
    names: Seq<Seq<char>>,
    types: Seq<ExtractedTypeInfoV>,
) -> bool {
    forall|k: int| 0 <= k < names.len() ==> !spec_blocks_deser(#[trigger] names[k], types)
}

fn all_deserializable(names: &Vec<String>, types: &Vec<ExtractedTypeInfo>) -> (r: bool)
    ensures
        r == spec_all_deserializable(names.deep_view(), types.deep_view()),
{
    let mut k: usize = 0;
    while k < names.len()
        invariant
            k <= names@.len(),
            forall|j: int| 0 <= j < k ==> !spec_blocks_deser(
                (#[trigger] names.deep_view()[j]),
                types.deep_view(),
            ),
        decreases names@.len() - k,
    {
        match find_type(types, names[k].as_str()) {
            Some(info) => {
                if !info.is_deserializable {
                    proof {
                        assert(spec_blocks_deser(names.deep_view()[k as int], types.deep_view()));
                    }
                    return false;
                }
            },
            None => {},
        }
        k = k + 1;
    }
    true
}

/// Whether this name, if the module defines it, cannot be written to the
/// wire.
pub open spec fn spec_blocks_ser(name: Seq<char>, types: Seq<ExtractedTypeInfoV>) -> bool {
    match spec_find_type(types, name) {
        Some(info) => !info.is_serializable,
        None => false,
    }
}

/// Whether every name in the list is serializable.
pub open spec fn spec_all_serializable(
    names: Seq<Seq<char>>,
    types: Seq<ExtractedTypeInfoV>,
) -> bool {
    forall|k: int| 0 <= k < names.len() ==> !spec_blocks_ser(#[trigger] names[k], types)
}

fn all_serializable(names: &Vec<String>, types: &Vec<ExtractedTypeInfo>) -> (r: bool)
    ensures
        r == spec_all_serializable(names.deep_view(), types.deep_view()),
{
    let mut k: usize = 0;
    while k < names.len()
        invariant
            k <= names@.len(),
            forall|j: int| 0 <= j < k ==> !spec_blocks_ser(
                (#[trigger] names.deep_view()[j]),
                types.deep_view(),
            ),
        decreases names@.len() - k,
    {
        match find_type(types, names[k].as_str()) {
            Some(info) => {
                if !info.is_serializable {
                    proof {
                        assert(spec_blocks_ser(names.deep_view()[k as int], types.deep_view()));
                    }
                    return false;
                }
            },
            None => {},
        }
        k = k + 1;
    }
    true
}

/// Whether a parameter survives filtering: it is not a context type, and
/// every module-defined type reachable through it can be reconstructed.
pub open spec fn spec_param_kept(
    p: ParamNode,
    aliases: Map<Seq<char>, Seq<char>>,
    types: Seq<ExtractedTypeInfoV>,
    defined: Seq<Seq<char>>,
) -> bool {
    !spec_is_ignored(p.ty, aliases) && spec_all_deserializable(
        spec_udt_names(p.ty, defined),
        types,
    )
}

/// The parameters that survive filtering, in declaration order.
pub open spec fn spec_kept_params(
    inputs: Seq<ParamNode>,
    aliases: Map<Seq<char>, Seq<char>>,
    types: Seq<ExtractedTypeInfoV>,
    defined: Seq<Seq<char>>,
) -> Seq<ParamNode>
    decreases inputs.len(),
{
    if inputs.len() == 0 {
        Seq::empty()
    } else {
        let rest = spec_kept_params(inputs.drop_last(), aliases, types, defined);
        if spec_param_kept(inputs.last(), aliases, types, defined) {
            rest.push(inputs.last())
        } else {
            rest
        }
    }
}

/// A parameter's display name; a parameter without a plain identifier
/// pattern displays as `arg`.
pub open spec fn spec_param_name(p: ParamNode) -> Seq<char> {
    match p.name {
        Some(n) => n@,
        None => "arg"@,
    }
}

/// A kept parameter's display pair.
pub open spec fn spec_arg_entry(p: ParamNode, defined: Seq<Seq<char>>) -> Seq<char> {
    spec_param_name(p) + ": "@ + spec_type_to_ts(p.ty, defined, true)
}

/// A kept parameter's invocation-object entry.
pub open spec fn spec_invoke_entry(p: ParamNode) -> Seq<char> {
    spec_param_name(p) + ": "@ + spec_param_name(p)
}

/// The display pairs of a list of kept parameters, in order.
pub open spec fn spec_args_of(kept: Seq<ParamNode>, defined: Seq<Seq<char>>) -> Seq<Seq<char>>
    decreases kept.len(),
{
    if kept.len() == 0 {
        Seq::empty()
    } else {
        spec_args_of(kept.drop_last(), defined).push(spec_arg_entry(kept.last(), defined))
    }
}

/// The invocation-object entries of a list of kept parameters, in order.
pub open spec fn spec_invokes_of(kept: Seq<ParamNode>) -> Seq<Seq<char>>
    decreases kept.len(),
{
    if kept.len() == 0 {
        Seq::empty()
    } else {
        spec_invokes_of(kept.drop_last()).push(spec_invoke_entry(kept.last()))
    }
}

/// Whether a declared type is a two-armed result whose success arm is the
/// empty tuple.
pub open spec fn spec_is_result_unit(t: TypeNode) -> bool {
    match t {
        TypeNode::Path { segments, args } => segments@.len() > 0 && segments@.last()@
            == "Result"@ && (match spec_first_type_arg(args) {
            Some(inner) => match inner {
                TypeNode::Tuple(elems) => elems@.len() == 0,
                _ => false,
            },
            None => false,
        }),
        _ => false,
    }
}

fn is_result_unit(ty: &TypeNode) -> (r: bool)
    ensures
        r == spec_is_result_unit(*ty),
{
    match ty {
        TypeNode::Path { segments, args } => {
            if segments.len() == 0 {
                false
            } else if !str_eq(segments[segments.len() - 1].as_str(), "Result") {
                false
            } else {
                match args {
                    Some(list) => {
                        if list.len() > 0 {
                            match &list[0] {
                                GenericArg::Type(inner) => match inner {
                                    TypeNode::Tuple(elems) => elems.len() == 0,
                                    _ => false,
                                },
                                GenericArg::Other => false,
                            }
                        } else {
                            false
                        }
                    },
                    None => false,
                }
            }
        },
        _ => false,
    }
}

/// A command's return typing: a two-armed result with an empty success arm
/// maps to `void` whatever its error arm; the opaque response wrapper maps
/// to the opaque marker; anything else maps in strict mode, and degrades to
/// the opaque marker when a reachable module-defined type cannot be written
/// to the wire.
pub open spec fn spec_return_type(
    output: Option<TypeNode>,
    aliases: Map<Seq<char>, Seq<char>>,
    types: Seq<ExtractedTypeInfoV>,
    defined: Seq<Seq<char>>,
) -> Seq<char> {
    match output {
        Some(ty) => {
            let base = if spec_is_result_unit(ty) {
                "void"@
            } else if spec_is_ipc_response(ty, aliases) {
                "unknown"@
            } else {
                spec_type_to_ts(ty, defined, true)
            };
            if spec_all_serializable(spec_udt_names(ty, defined), types) {
                base
            } else {
                "unknown"@
            }
        },
        None => "void"@,
    }
}

/// The descriptor of one marked procedure.
pub open spec fn spec_command_of(
    f: FnNode,
    aliases: Map<Seq<char>, Seq<char>>,
    types: Seq<ExtractedTypeInfoV>,
    defined: Seq<Seq<char>>,
) -> CommandInfoV {
    let kept = spec_kept_params(f.inputs@, aliases, types, defined);
    CommandInfoV {
        name: f.name@,
        doc_comment: spec_doc_comment(f.attrs@),
        args: spec_args_of(kept, defined),
        invoke_args: spec_invokes_of(kept),
        return_type: spec_return_type(f.output, aliases, types, defined),
    }
}

/// The names of the extracted types, in order.
pub open spec fn spec_type_names(types: Seq<ExtractedTypeInfoV>) -> Seq<Seq<char>> {
    types.map_values(|t: ExtractedTypeInfoV| t.name)
}

/// Collects the names of the extracted types, in order.
pub fn type_names(types: &Vec<ExtractedTypeInfo>) -> (r: Vec<String>)
    ensures
        r.deep_view() == spec_type_names(types.deep_view()),
{
    let ghost tv = types.deep_view();
    let mut r: Vec<String> = Vec::new();
    let mut k: usize = 0;
    while k < types.len()
        invariant
            k <= types@.len(),
            tv == types.deep_view(),
            r@.len() == k,
            forall|j: int| 0 <= j < k ==> (#[trigger] r@[j])@ == tv[j].name,
        decreases types@.len() - k,
    {
        r.push(types[k].name.clone());
        k = k + 1;
    }
    proof {
        assert(r.deep_view() =~= spec_type_names(tv));
    }
    r
}

/// The command descriptors of a module's marked procedures, in declaration
/// order, against a fixed alias map and completed type list.
pub open spec fn spec_commands_from(
    items: Seq<ItemNode>,
    aliases: Map<Seq<char>, Seq<char>>,
    types: Seq<ExtractedTypeInfoV>,
    defined: Seq<Seq<char>>,
) -> Seq<CommandInfoV>
    decreases items.len(),
{
    if items.len() == 0 {
        Seq::empty()
    } else {
        let rest = spec_commands_from(items.drop_first(), aliases, types, defined);
        match items[0] {
            ItemNode::Fn(f) => if spec_has_tauri_command(f.attrs@) {
                seq![spec_command_of(f, aliases, types, defined)] + rest
            } else {
                rest
            },
            _ => rest,
        }
    }
}

/// The command descriptors of a module, its aliases resolved from its own
/// import declarations and its known-type set taken from the completed
/// extracted-type list.
pub open spec fn spec_commands(items: Seq<ItemNode>, types: Seq<ExtractedTypeInfoV>) -> Seq<
    CommandInfoV,
> {
    spec_commands_from(items, spec_use_aliases(items), types, spec_type_names(types))
}

/// Builds the descriptor of one marked procedure.
fn command_of(
    f: &FnNode,
    aliases: &AliasMap,
    all_extracted_types: &Vec<ExtractedTypeInfo>,
    defined_names: &Vec<String>,
) -> (r: CommandInfo)
    ensures
        r@ == spec_command_of(
            *f,
            aliases@,
            all_extracted_types.deep_view(),
            defined_names.deep_view(),
        ),
{
    let ghost av = aliases@;
    let ghost tv = all_extracted_types.deep_view();
    let ghost dv = defined_names.deep_view();
    let mut args: Vec<String> = Vec::new();
    let mut invoke: Vec<String> = Vec::new();
    let mut i: usize = 0;
    while i < f.inputs.len()
        invariant
            i <= f.inputs@.len(),
            av == aliases@,
            tv == all_extracted_types.deep_view(),
            dv == defined_names.deep_view(),
            args.deep_view() =~= spec_args_of(
                spec_kept_params(f.inputs@.take(i as int), av, tv, dv),
                dv,
            ),
            invoke.deep_view() =~= spec_invokes_of(
                spec_kept_params(f.inputs@.take(i as int), av, tv, dv),
            ),
        decreases f.inputs@.len() - i,
    {
        let ghost kept_before = spec_kept_params(f.inputs@.take(i as int), av, tv, dv);
        let p = &f.inputs[i];
        if !is_ignored_tauri_type(&p.ty, aliases) {
            let names = get_user_defined_type_names(&p.ty, defined_names);
            if all_deserializable(&names, all_extracted_types) {
                proof {
                    assert(spec_param_kept(f.inputs@[i as int], av, tv, dv));
                }
                let pname = match &p.name {
                    Some(n) => n.clone(),
                    None => String::from_str("arg"),
                };
                let ty_str = type_to_ts(&p.ty, defined_names, true);
                let mut a = pname.clone();
                a.append(": ");
                a.append(ty_str.as_str());
                args.push(a);
                let mut b = pname.clone();
                b.append(": ");
                b.append(pname.as_str());
                invoke.push(b);
                proof {
                    assert(a@ == spec_arg_entry(f.inputs@[i as int], dv));
                    assert(b@ == spec_invoke_entry(f.inputs@[i as int]));
                }
            } else {
                proof {
                    assert(!spec_param_kept(f.inputs@[i as int], av, tv, dv));
                }
            }
        } else {
            proof {
                assert(!spec_param_kept(f.inputs@[i as int], av, tv, dv));
            }
        }
        proof {
            assert(f.inputs@.take(i as int + 1).drop_last() =~= f.inputs@.take(i as int));
            assert(f.inputs@.take(i as int + 1).last() == f.inputs@[i as int]);
            let kept_after = spec_kept_params(f.inputs@.take(i as int + 1), av, tv, dv);
            if spec_param_kept(f.inputs@[i as int], av, tv, dv) {
                assert(kept_after == kept_before.push(f.inputs@[i as int]));
                assert(kept_after.drop_last() =~= kept_before);
                assert(kept_after.last() == f.inputs@[i as int]);
                assert(args.deep_view() =~= spec_args_of(kept_after, dv));
                assert(invoke.deep_view() =~= spec_invokes_of(kept_after));
            } else {
                assert(kept_after == kept_before);
            }
        }
        i = i + 1;
    }
    proof {
        assert(f.inputs@.take(f.inputs@.len() as int) =~= f.inputs@);
    }
    let return_type = match &f.output {
        Some(ty) => {
            let base = if is_result_unit(ty) {
                String::from_str("void")
            } else if is_tauri_ipc_response(ty, aliases) {
                String::from_str("unknown")
            } else {
                type_to_ts(ty, defined_names, true)
            };
            let names = get_user_defined_type_names(ty, defined_names);
            if all_serializable(&names, all_extracted_types) {
                base
            } else {
                String::from_str("unknown")
            }
        },
        None => String::from_str("void"),
    };
    let r = CommandInfo {
        name: f.name.clone(),
        doc_comment: extract_doc_comments(&f.attrs),
        args,
        invoke_args: invoke,
        return_type,
    };
    r
}

/// Extracts the command descriptors of a module's marked procedures, in
/// declaration order.
pub fn extract_tauri_commands(
    items: &Vec<ItemNode>,
    all_extracted_types: &Vec<ExtractedTypeInfo>,
) -> (r: Vec<CommandInfo>)
    ensures
        r.deep_view() == spec_commands(items@, all_extracted_types.deep_view()),
{
    let ghost tv = all_extracted_types.deep_view();
    let aliases = extract_use_aliases(items);
    let defined_names = type_names(all_extracted_types);
    let ghost av = aliases@;
    let ghost dv = defined_names.deep_view();
    let mut r: Vec<CommandInfo> = Vec::new();
    let mut i: usize = 0;
    proof {
        assert(items@.skip(0) =~= items@);
    }
    while i < items.len()
        invariant
            i <= items@.len(),
            av == aliases@,
            tv == all_extracted_types.deep_view(),
            dv == defined_names.deep_view(),
            r.deep_view() + spec_commands_from(items@.skip(i as int), av, tv, dv)
                =~= spec_commands_from(items@, av, tv, dv),
        decreases items@.len() - i,
    {
        let ghost rv = r.deep_view();
        proof {
            assert(items@.skip(i as int)[0] == items@[i as int]);
            assert(items@.skip(i as int).drop_first() =~= items@.skip(i as int + 1));
        }
        match &items[i] {
            ItemNode::Fn(f) => {
                if has_tauri_command(&f.attrs) {
                    let c = command_of(f, &aliases, all_extracted_types, &defined_names);
                    r.push(c);
                    proof {
                        assert(r.deep_view() =~= rv + seq![spec_command_of(*f, av, tv, dv)]);
                    }
                }
            },
            _ => {},
        }
        i = i + 1;
    }
    proof {
        assert(items@.skip(items@.len() as int) =~= Seq::<ItemNode>::empty());
        assert(r.deep_view() =~= spec_commands_from(items@, av, tv, dv));
        assert(dv == spec_type_names(tv));
        assert(av == spec_use_aliases(items@));
    }
    r
}

} // verus!
