//! Laws of the extraction pipeline, stated and proved over the same spec
//! functions that the executable functions' contracts use.

use vstd::prelude::*;

use crate::ast::{EnumNode, FnNode, ItemNode, ParamNode, StructNode, TypeNode};
use crate::commands::{
    spec_all_deserializable, spec_all_serializable, spec_arg_entry, spec_args_of,
    spec_command_of, spec_commands_from, spec_has_tauri_command, spec_invoke_entry,
    spec_invokes_of, spec_kept_params, spec_param_kept, spec_udt_names, CommandInfoV,
};
use crate::model::{
    spec_extract_types, spec_extract_types_from, spec_has_derive, spec_type_entry_enum,
    spec_type_entry_struct, ExtractedTypeInfoV,
};
use crate::strutil::contains_seq;
use crate::typemap::{is_number_name, spec_first_type_arg, spec_type_to_ts};

verus! {

broadcast use vstd::string::group_string_axioms;

/// The primitive and container names that the mapping table special-cases
/// are pairwise distinct, and no container name is an integer or float
/// width.
proof fn lemma_special_names_distinct()
    ensures
        "bool"@ != "String"@,
        "Option"@ != "String"@,
        "Option"@ != "bool"@,
        "Vec"@ != "String"@,
        "Vec"@ != "bool"@,
        "Vec"@ != "Option"@,
        "HashMap"@ != "String"@,
        "HashMap"@ != "bool"@,
        "HashMap"@ != "Option"@,
        "HashMap"@ != "Vec"@,
        "Result"@ != "String"@,
        "Result"@ != "bool"@,
        "Result"@ != "Option"@,
        "Result"@ != "Vec"@,
        "Result"@ != "HashMap"@,
        !is_number_name("String"@),
        !is_number_name("bool"@),
        !is_number_name("Option"@),
        !is_number_name("Vec"@),
        !is_number_name("HashMap"@),
        !is_number_name("Result"@),
        forall|n: Seq<char>| is_number_name(n) ==> n != "String"@ && n != "bool"@,
{
    reveal_strlit("String");
    reveal_strlit("bool");
    reveal_strlit("Option");
    reveal_strlit("Vec");
    reveal_strlit("HashMap");
    reveal_strlit("Result");
    reveal_strlit("u8");
    reveal_strlit("u16");
    reveal_strlit("u32");
    reveal_strlit("u64");
    reveal_strlit("u128");
    reveal_strlit("i8");
    reveal_strlit("i16");
    reveal_strlit("i32");
    reveal_strlit("i64");
    reveal_strlit("i128");
    reveal_strlit("usize");
    reveal_strlit("isize");
    reveal_strlit("f32");
    reveal_strlit("f64");
    assert("String"@.len() == 6);
    assert("bool"@.len() == 4);
    assert("Option"@.len() == 6);
    assert("Vec"@.len() == 3);
    assert("HashMap"@.len() == 7);
    assert("Result"@.len() == 6);
    assert("u8"@.len() == 2);
    assert("u16"@.len() == 3);
    assert("u32"@.len() == 3);
    assert("u64"@.len() == 3);
    assert("u128"@.len() == 4);
    assert("i8"@.len() == 2);
    assert("i16"@.len() == 3);
    assert("i32"@.len() == 3);
    assert("i64"@.len() == 3);
    assert("i128"@.len() == 4);
    assert("usize"@.len() == 5);
    assert("isize"@.len() == 5);
    assert("f32"@.len() == 3);
    assert("f64"@.len() == 3);
    assert("String"@[0] == 'S');
    assert("Option"@[0] == 'O');
    assert("Result"@[0] == 'R');
    assert("Vec"@[0] == 'V');
    assert("bool"@[0] == 'b');
    assert("u16"@[0] == 'u');
    assert("u32"@[0] == 'u');
    assert("u64"@[0] == 'u');
    assert("u128"@[0] == 'u');
    assert("i16"@[0] == 'i');
    assert("i32"@[0] == 'i');
    assert("i64"@[0] == 'i');
    assert("i128"@[0] == 'i');
    assert("f32"@[0] == 'f');
    assert("f64"@[0] == 'f');
}

/// Law: every primitive maps to its fixed target, independent of the strict
/// flag and of the known-type set: the string type to `string`, the boolean
/// type to `boolean`, and every integer and float width to `number`.
pub proof fn lemma_primitive_map_fixed(t: TypeNode, defined: Seq<Seq<char>>, strict: bool)
    requires
        t is Path,
        t->Path_segments@.len() > 0,
    ensures
        t->Path_segments@.last()@ == "String"@ ==> spec_type_to_ts(t, defined, strict)
            == "string"@,
        t->Path_segments@.last()@ == "bool"@ ==> spec_type_to_ts(t, defined, strict)
            == "boolean"@,
        is_number_name(t->Path_segments@.last()@) ==> spec_type_to_ts(t, defined, strict)
            == "number"@,
{
    lemma_special_names_distinct();
    let name = t->Path_segments@.last()@;
    let args = t->Path_args;
    assert(spec_type_to_ts(t, defined, strict) == crate::typemap::spec_path_ts(
        name,
        args,
        defined,
        strict,
    ));
    if name == "String"@ {
        assert(crate::typemap::spec_path_ts(name, args, defined, strict) == "string"@);
    }
}

/// Law: an optional of an optional preserves nesting depth: the innermost
/// mapped type is suffixed once per optional layer, never collapsed.
pub proof fn lemma_optional_depth(
    t2: TypeNode,
    t1: TypeNode,
    inner: TypeNode,
    defined: Seq<Seq<char>>,
    strict: bool,
)
    requires
        t2 is Path,
        t2->Path_segments@.len() > 0,
        t2->Path_segments@.last()@ == "Option"@,
        spec_first_type_arg(t2->Path_args) == Some(t1),
        t1 is Path,
        t1->Path_segments@.len() > 0,
        t1->Path_segments@.last()@ == "Option"@,
        spec_first_type_arg(t1->Path_args) == Some(inner),
    ensures
        spec_type_to_ts(t2, defined, strict) == spec_type_to_ts(inner, defined, strict)
            + " | undefined"@ + " | undefined"@,
{
    lemma_special_names_distinct();
    assert(spec_type_to_ts(t2, defined, strict) == crate::typemap::spec_path_ts(
        t2->Path_segments@.last()@,
        t2->Path_args,
        defined,
        strict,
    ));
    assert(spec_type_to_ts(t1, defined, strict) == crate::typemap::spec_path_ts(
        t1->Path_segments@.last()@,
        t1->Path_args,
        defined,
        strict,
    ));
    assert(spec_type_to_ts(t1, defined, strict) == spec_type_to_ts(inner, defined, strict)
        + " | undefined"@);
}

/// Law: a list type parenthesizes its element's mapped type before
/// suffixing exactly when that mapped type is a union.
pub proof fn lemma_list_parenthesization(
    t: TypeNode,
    inner: TypeNode,
    defined: Seq<Seq<char>>,
    strict: bool,
)
    requires
        t is Path,
        t->Path_segments@.len() > 0,
        t->Path_segments@.last()@ == "Vec"@,
        spec_first_type_arg(t->Path_args) == Some(inner),
    ensures
        contains_seq(spec_type_to_ts(inner, defined, strict), " | "@) ==> spec_type_to_ts(
            t,
            defined,
            strict,
        ) == "("@ + spec_type_to_ts(inner, defined, strict) + ")[]"@,
        !contains_seq(spec_type_to_ts(inner, defined, strict), " | "@) ==> spec_type_to_ts(
            t,
            defined,
            strict,
        ) == spec_type_to_ts(inner, defined, strict) + "[]"@,
{
    lemma_special_names_distinct();
    assert(spec_type_to_ts(t, defined, strict) == crate::typemap::spec_path_ts(
        t->Path_segments@.last()@,
        t->Path_args,
        defined,
        strict,
    ));
}

/// Law: a two-armed result maps to its success arm's mapped type, whatever
/// its error arm holds.
pub proof fn lemma_result_error_arm_dropped(
    t: TypeNode,
    ok: TypeNode,
    defined: Seq<Seq<char>>,
    strict: bool,
)
    requires
        t is Path,
        t->Path_segments@.len() > 0,
        t->Path_segments@.last()@ == "Result"@,
        spec_first_type_arg(t->Path_args) == Some(ok),
    ensures
        spec_type_to_ts(t, defined, strict) == spec_type_to_ts(ok, defined, strict),
{
    lemma_special_names_distinct();
    assert(spec_type_to_ts(t, defined, strict) == crate::typemap::spec_path_ts(
        t->Path_segments@.last()@,
        t->Path_args,
        defined,
        strict,
    ));
}

/// Whether an extracted entry models the given struct declaration: same
/// name, and each serialization flag recording exactly the presence of its
/// tag.
pub open spec fn models_struct(entry: ExtractedTypeInfoV, s: StructNode) -> bool {
    &&& entry.name == s.name@
    &&& entry.is_serializable == spec_has_derive(s.attrs@, "Serialize"@)
    &&& entry.is_deserializable == spec_has_derive(s.attrs@, "Deserialize"@)
}

proof fn lemma_struct_modeled_from(
    items: Seq<ItemNode>,
    file: Seq<char>,
    known: Seq<Seq<char>>,
    i: int,
)
    requires
        0 <= i < items.len(),
        items[i] is Struct,
    ensures
        exists|j: int|
            0 <= j < spec_extract_types_from(items, file, known).len() && models_struct(
                #[trigger] spec_extract_types_from(items, file, known)[j],
                items[i]->Struct_0,
            ),
    decreases items.len(),
{
    let res = spec_extract_types_from(items, file, known);
    if i == 0 {
        assert(res[0] == spec_type_entry_struct(items[0]->Struct_0, known, file));
        assert(models_struct(res[0], items[0]->Struct_0));
    } else {
        match items[0] {
            ItemNode::Struct(s) => {
                lemma_struct_modeled_from(items.drop_first(), file, known.push(s.name@), i - 1);
                let rest = spec_extract_types_from(
                    items.drop_first(),
                    file,
                    known.push(s.name@),
                );
                let j = choose|j: int|
                    0 <= j < rest.len() && models_struct(
                        #[trigger] rest[j],
                        items.drop_first()[i - 1]->Struct_0,
                    );
                assert(res[j + 1] == rest[j]);
                assert(models_struct(res[j + 1], items[i]->Struct_0));
            },
            ItemNode::Enum(e) => {
                lemma_struct_modeled_from(items.drop_first(), file, known.push(e.name@), i - 1);
                let rest = spec_extract_types_from(
                    items.drop_first(),
                    file,
                    known.push(e.name@),
                );
                let j = choose|j: int|
                    0 <= j < rest.len() && models_struct(
                        #[trigger] rest[j],
                        items.drop_first()[i - 1]->Struct_0,
                    );
                assert(res[j + 1] == rest[j]);
                assert(models_struct(res[j + 1], items[i]->Struct_0));
            },
            _ => {
                lemma_struct_modeled_from(items.drop_first(), file, known, i - 1);
            },
        }
    }
}

/// Law: every struct declaration is present among the extracted types, its
/// two flags recording exactly the presence of the two serialization tags;
/// in particular a struct with neither tag is still present, with both
/// flags false.
pub proof fn lemma_untagged_struct_still_modeled(items: Seq<ItemNode>, file: Seq<char>, i: int)
    requires
        0 <= i < items.len(),
        items[i] is Struct,
    ensures
        exists|j: int|
            0 <= j < spec_extract_types(items, file).len() && models_struct(
                #[trigger] spec_extract_types(items, file)[j],
                items[i]->Struct_0,
            ),
        !spec_has_derive(items[i]->Struct_0.attrs@, "Serialize"@) && !spec_has_derive(
            items[i]->Struct_0.attrs@,
            "Deserialize"@,
        ) ==> exists|j: int|
            0 <= j < spec_extract_types(items, file).len() && {
                let entry = #[trigger] spec_extract_types(items, file)[j];
                entry.name == items[i]->Struct_0.name@ && !entry.is_serializable
                    && !entry.is_deserializable
            },
{
    lemma_struct_modeled_from(items, file, Seq::empty(), i);
    let res0 = spec_extract_types_from(items, file, Seq::empty());
    let j = choose|j: int|
        0 <= j < res0.len() && models_struct(#[trigger] res0[j], items[i]->Struct_0);
    assert(spec_extract_types(items, file) == res0);
    assert(models_struct(spec_extract_types(items, file)[j], items[i]->Struct_0));
    if !spec_has_derive(items[i]->Struct_0.attrs@, "Serialize"@) && !spec_has_derive(
        items[i]->Struct_0.attrs@,
        "Deserialize"@,
    ) {
        let entry = spec_extract_types(items, file)[j];
        assert(entry.name == items[i]->Struct_0.name@ && !entry.is_serializable
            && !entry.is_deserializable);
    }
}

/// Whether an extracted entry models the given enum declaration: same
/// name, and each serialization flag recording exactly the presence of its
/// tag.
pub open spec fn models_enum(entry: ExtractedTypeInfoV, e: EnumNode) -> bool {
    &&& entry.name == e.name@
    &&& entry.is_serializable == spec_has_derive(e.attrs@, "Serialize"@)
    &&& entry.is_deserializable == spec_has_derive(e.attrs@, "Deserialize"@)
}

proof fn lemma_enum_modeled_from(
    items: Seq<ItemNode>,
    file: Seq<char>,
    known: Seq<Seq<char>>,
    i: int,
)
    requires
        0 <= i < items.len(),
        items[i] is Enum,
    ensures
        exists|j: int|
            0 <= j < spec_extract_types_from(items, file, known).len() && models_enum(
                #[trigger] spec_extract_types_from(items, file, known)[j],
                items[i]->Enum_0,
            ),
    decreases items.len(),
{
    let res = spec_extract_types_from(items, file, known);
    if i == 0 {
        assert(res[0] == spec_type_entry_enum(items[0]->Enum_0, known, file));
        assert(models_enum(res[0], items[0]->Enum_0));
    } else {
        match items[0] {
            ItemNode::Struct(s) => {
                lemma_enum_modeled_from(items.drop_first(), file, known.push(s.name@), i - 1);
                let rest = spec_extract_types_from(items.drop_first(), file, known.push(s.name@));
                let j = choose|j: int|
                    0 <= j < rest.len() && models_enum(
                        #[trigger] rest[j],
                        items.drop_first()[i - 1]->Enum_0,
                    );
                assert(res[j + 1] == rest[j]);
                assert(models_enum(res[j + 1], items[i]->Enum_0));
            },
            ItemNode::Enum(e) => {
                lemma_enum_modeled_from(items.drop_first(), file, known.push(e.name@), i - 1);
                let rest = spec_extract_types_from(items.drop_first(), file, known.push(e.name@));
                let j = choose|j: int|
                    0 <= j < rest.len() && models_enum(
                        #[trigger] rest[j],
                        items.drop_first()[i - 1]->Enum_0,
                    );
                assert(res[j + 1] == rest[j]);
                assert(models_enum(res[j + 1], items[i]->Enum_0));
            },
            _ => {
                lemma_enum_modeled_from(items.drop_first(), file, known, i - 1);
            },
        }
    }
}

/// Law: every enum declaration is present among the extracted types, its
/// two flags recording exactly the presence of the two serialization tags.
pub proof fn lemma_enum_still_modeled(items: Seq<ItemNode>, file: Seq<char>, i: int)
    requires
        0 <= i < items.len(),
        items[i] is Enum,
    ensures
        exists|j: int|
            0 <= j < spec_extract_types(items, file).len() && models_enum(
                #[trigger] spec_extract_types(items, file)[j],
                items[i]->Enum_0,
            ),
{
    lemma_enum_modeled_from(items, file, Seq::empty(), i);
    let res0 = spec_extract_types_from(items, file, Seq::empty());
    let j = choose|j: int| 0 <= j < res0.len() && models_enum(#[trigger] res0[j], items[i]->Enum_0);
    assert(spec_extract_types(items, file) == res0);
    assert(models_enum(spec_extract_types(items, file)[j], items[i]->Enum_0));
}

/// Law: the argument list and the invocation list of a command are aligned:
/// they have one entry each per kept parameter, and the entries at each
/// index come from the same parameter.
pub proof fn lemma_args_invokes_aligned(kept: Seq<ParamNode>, defined: Seq<Seq<char>>)
    ensures
        spec_args_of(kept, defined).len() == kept.len(),
        spec_invokes_of(kept).len() == kept.len(),
        forall|j: int|
            0 <= j < kept.len() ==> spec_args_of(kept, defined)[j] == spec_arg_entry(
                #[trigger] kept[j],
                defined,
            ) && spec_invokes_of(kept)[j] == spec_invoke_entry(kept[j]),
    decreases kept.len(),
{
    if kept.len() > 0 {
        lemma_args_invokes_aligned(kept.drop_last(), defined);
        assert forall|j: int| 0 <= j < kept.len() implies spec_args_of(kept, defined)[j]
            == spec_arg_entry(#[trigger] kept[j], defined) && spec_invokes_of(kept)[j]
            == spec_invoke_entry(kept[j]) by {
            if j < kept.len() - 1 {
                assert(kept.drop_last()[j] == kept[j]);
                assert(spec_args_of(kept.drop_last(), defined)[j] == spec_arg_entry(
                    kept.drop_last()[j],
                    defined,
                ));
                assert(spec_invokes_of(kept.drop_last())[j] == spec_invoke_entry(
                    kept.drop_last()[j],
                ));
            } else {
                assert(spec_args_of(kept, defined)[j] == spec_arg_entry(kept.last(), defined));
                assert(spec_invokes_of(kept)[j] == spec_invoke_entry(kept.last()));
            }
        }
    }
}

proof fn lemma_kept_params_skip_blocked(
    inputs: Seq<ParamNode>,
    aliases: Map<Seq<char>, Seq<char>>,
    types: Seq<ExtractedTypeInfoV>,
    defined: Seq<Seq<char>>,
    i: int,
)
    requires
        0 <= i < inputs.len(),
        !spec_param_kept(inputs[i], aliases, types, defined),
    ensures
        spec_kept_params(inputs, aliases, types, defined) == spec_kept_params(
            inputs.remove(i),
            aliases,
            types,
            defined,
        ),
    decreases inputs.len(),
{
    if i == inputs.len() - 1 {
        assert(inputs.remove(i) =~= inputs.drop_last());
    } else {
        assert(inputs.remove(i).drop_last() =~= inputs.drop_last().remove(i));
        assert(inputs.remove(i).last() == inputs.last());
        lemma_kept_params_skip_blocked(inputs.drop_last(), aliases, types, defined, i);
    }
}

/// Law: a parameter whose type reaches a type that cannot be reconstructed
/// is dropped whole: the command's argument and invocation lists are
/// exactly those of the remaining parameters, and stay aligned index for
/// index.
pub proof fn lemma_blocked_param_dropped(
    f: FnNode,
    aliases: Map<Seq<char>, Seq<char>>,
    types: Seq<ExtractedTypeInfoV>,
    defined: Seq<Seq<char>>,
    i: int,
)
    requires
        0 <= i < f.inputs@.len(),
        !spec_all_deserializable(spec_udt_names(f.inputs@[i].ty, defined), types),
    ensures
        spec_command_of(f, aliases, types, defined).args == spec_args_of(
            spec_kept_params(f.inputs@.remove(i), aliases, types, defined),
            defined,
        ),
        spec_command_of(f, aliases, types, defined).invoke_args == spec_invokes_of(
            spec_kept_params(f.inputs@.remove(i), aliases, types, defined),
        ),
        spec_command_of(f, aliases, types, defined).args.len() == spec_command_of(
            f,
            aliases,
            types,
            defined,
        ).invoke_args.len(),
{
    assert(!spec_param_kept(f.inputs@[i], aliases, types, defined));
    lemma_kept_params_skip_blocked(f.inputs@, aliases, types, defined, i);
    lemma_args_invokes_aligned(spec_kept_params(f.inputs@, aliases, types, defined), defined);
}

/// Law: a command whose declared return type reaches a type that cannot be
/// written to the wire keeps everything else of its descriptor, and its
/// return typing is forced to the opaque marker.
pub proof fn lemma_return_degrades_to_opaque(
    f: FnNode,
    aliases: Map<Seq<char>, Seq<char>>,
    types: Seq<ExtractedTypeInfoV>,
    defined: Seq<Seq<char>>,
)
    requires
        f.output is Some,
        !spec_all_serializable(spec_udt_names(f.output->0, defined), types),
    ensures
        spec_command_of(f, aliases, types, defined).return_type == "unknown"@,
{
}

/// Law: a module with no marked procedure yields an empty, valid command
/// list.
pub proof fn lemma_no_marked_fn_no_commands(
    items: Seq<ItemNode>,
    aliases: Map<Seq<char>, Seq<char>>,
    types: Seq<ExtractedTypeInfoV>,
    defined: Seq<Seq<char>>,
)
    requires
        forall|i: int|
            0 <= i < items.len() ==> !((#[trigger] items[i]) is Fn && spec_has_tauri_command(
                items[i]->Fn_0.attrs@,
            )),
    ensures
        spec_commands_from(items, aliases, types, defined) == Seq::<CommandInfoV>::empty(),
    decreases items.len(),
{
    if items.len() > 0 {
        assert(!(items[0] is Fn && spec_has_tauri_command(items[0]->Fn_0.attrs@)));
        assert forall|i: int| 0 <= i < items.drop_first().len() implies !((#[trigger] items.drop_first()[i]) is Fn
            && spec_has_tauri_command(items.drop_first()[i]->Fn_0.attrs@)) by {
            assert(items.drop_first()[i] == items[i + 1]);
        }
        lemma_no_marked_fn_no_commands(items.drop_first(), aliases, types, defined);
    }
}

proof fn lemma_marked_fn_in_commands_from(
    items: Seq<ItemNode>,
    aliases: Map<Seq<char>, Seq<char>>,
    types: Seq<ExtractedTypeInfoV>,
    defined: Seq<Seq<char>>,
    i: int,
)
    requires
        0 <= i < items.len(),
        items[i] is Fn,
        spec_has_tauri_command(items[i]->Fn_0.attrs@),
    ensures
        exists|j: int|
            0 <= j < spec_commands_from(items, aliases, types, defined).len() && #[trigger] spec_commands_from(
                items,
                aliases,
                types,
                defined,
            )[j] == spec_command_of(items[i]->Fn_0, aliases, types, defined),
    decreases items.len(),
{
    let res = spec_commands_from(items, aliases, types, defined);
    let rest = spec_commands_from(items.drop_first(), aliases, types, defined);
    if i == 0 {
        assert(res[0] == spec_command_of(items[0]->Fn_0, aliases, types, defined));
    } else {
        lemma_marked_fn_in_commands_from(items.drop_first(), aliases, types, defined, i - 1);
        let j = choose|j: int|
            0 <= j < rest.len() && #[trigger] rest[j] == spec_command_of(
                items.drop_first()[i - 1]->Fn_0,
                aliases,
                types,
                defined,
            );
        match items[0] {
            ItemNode::Fn(f) => {
                if spec_has_tauri_command(f.attrs@) {
                    assert(res[j + 1] == rest[j]);
                } else {
                    assert(res[j] == rest[j]);
                }
            },
            _ => {
                assert(res[j] == rest[j]);
            },
        }
    }
}

/// Law: a marked procedure always yields a command descriptor, whatever its
/// parameters and return type; degradation never removes the command
/// itself.
pub proof fn lemma_marked_fn_kept(
    items: Seq<ItemNode>,
    aliases: Map<Seq<char>, Seq<char>>,
    types: Seq<ExtractedTypeInfoV>,
    defined: Seq<Seq<char>>,
    i: int,
)
    requires
        0 <= i < items.len(),
        items[i] is Fn,
        spec_has_tauri_command(items[i]->Fn_0.attrs@),
    ensures
        exists|j: int|
            0 <= j < spec_commands_from(items, aliases, types, defined).len() && #[trigger] spec_commands_from(
                items,
                aliases,
                types,
                defined,
            )[j] == spec_command_of(items[i]->Fn_0, aliases, types, defined),
{
    lemma_marked_fn_in_commands_from(items, aliases, types, defined, i);
}

} // verus!
