//! The Type Mapper: a pure recursive mapping from a declared type to a
//! target type expression. It never fails; anything it cannot describe
//! degrades to the bottom type `any`.

use vstd::prelude::*;

use crate::ast::{GenericArg, TypeNode};
use crate::strutil::{contains_seq, join_seqs, join_strings, str_contains, str_eq,
    vec_contains_str};

verus! {

/// The declared names that map to the target's `number`.
pub open spec fn is_number_name(n: Seq<char>) -> bool {
    ||| n == "u8"@
    ||| n == "u16"@
    ||| n == "u32"@
    ||| n == "u64"@
    ||| n == "u128"@
    ||| n == "i8"@
    ||| n == "i16"@
    ||| n == "i32"@
    ||| n == "i64"@
    ||| n == "i128"@
    ||| n == "usize"@
    ||| n == "isize"@
    ||| n == "f32"@
    ||| n == "f64"@
}

fn is_number_str(name: &str) -> (r: bool)
    ensures
        r == is_number_name(name@),
{
    str_eq(name, "u8") || str_eq(name, "u16") || str_eq(name, "u32") || str_eq(name, "u64")
        || str_eq(name, "u128") || str_eq(name, "i8") || str_eq(name, "i16") || str_eq(
        name,
        "i32",
    ) || str_eq(name, "i64") || str_eq(name, "i128") || str_eq(name, "usize") || str_eq(
        name,
        "isize",
    ) || str_eq(name, "f32") || str_eq(name, "f64")
}

/// The first angle-bracketed argument, when it is a type.
pub open spec fn spec_first_type_arg(args: Option<Vec<GenericArg>>) -> Option<TypeNode> {
    match args {
        Some(list) => if list@.len() > 0 {
            match list@[0] {
                GenericArg::Type(t) => Some(t),
                GenericArg::Other => None,
            }
        } else {
            None
        },
        None => None,
    }
}

/// The two angle-bracketed arguments, when there are exactly two and both
/// are types.
pub open spec fn spec_two_type_args(args: Option<Vec<GenericArg>>) -> Option<
    (TypeNode, TypeNode),
> {
    match args {
        Some(list) => if list@.len() == 2 {
            match (list@[0], list@[1]) {
                (GenericArg::Type(k), GenericArg::Type(v)) => Some((k, v)),
                _ => None,
            }
        } else {
            None
        },
        None => None,
    }
}

/// Whether a referenced type is a plain string slice, whose reference maps
/// directly to the target's `string`.
pub open spec fn ref_target_is_str(t: TypeNode) -> bool {
    match t {
        TypeNode::Path { segments, args } => segments@.len() > 0 && segments@.last()@ == "str"@,
        _ => false,
    }
}

/// What the last path segment's name maps to, given its argument list.
pub open spec fn spec_path_ts(
    name: Seq<char>,
    args: Option<Vec<GenericArg>>,
    defined: Seq<Seq<char>>,
    strict: bool,
) -> Seq<char>
    decreases args,
{
    if name == "String"@ {
        "string"@
    } else if name == "bool"@ {
        "boolean"@
    } else if is_number_name(name) {
        "number"@
    } else if name == "Option"@ {
        match spec_first_type_arg(args) {
            Some(inner) => spec_type_to_ts(inner, defined, strict) + " | undefined"@,
            None => "any"@,
        }
    } else if name == "Vec"@ {
        match spec_first_type_arg(args) {
            Some(inner) => {
                let inner_ts = spec_type_to_ts(inner, defined, strict);
                if contains_seq(inner_ts, " | "@) {
                    "("@ + inner_ts + ")[]"@
                } else {
                    inner_ts + "[]"@
                }
            },
            None => "any[]"@,
        }
    } else if name == "HashMap"@ {
        match spec_two_type_args(args) {
            Some((k, v)) => "Record<"@ + spec_type_to_ts(k, defined, strict) + ", "@
                + spec_type_to_ts(v, defined, strict) + ">"@,
            None => "Record<any, any>"@,
        }
    } else if name == "Result"@ {
        match spec_first_type_arg(args) {
            Some(ok) => spec_type_to_ts(ok, defined, strict),
            None => "any"@,
        }
    } else if strict || !defined.contains(name) {
        "T."@ + name
    } else {
        name
    }
}

/// The target type expressions of a list of declared types, in order.
pub open spec fn spec_ts_list(
    elems: Seq<TypeNode>,
    defined: Seq<Seq<char>>,
    strict: bool,
) -> Seq<Seq<char>>
    decreases elems,
{
    if elems.len() == 0 {
        Seq::empty()
    } else {
        spec_ts_list(elems.drop_last(), defined, strict).push(
            spec_type_to_ts(elems.last(), defined, strict),
        )
    }
}

/// The target type expression of a declared type.
///
/// `strict` is true at command boundaries: every name that is not a
/// primitive or a recognized container then carries the foreign-type
/// marker, whether or not the module defines it.
pub open spec fn spec_type_to_ts(t: TypeNode, defined: Seq<Seq<char>>, strict: bool) -> Seq<char>
    decreases t,
{
    match t {
        TypeNode::Path { segments, args } => {
            if segments@.len() == 0 {
                "any"@
            } else {
                spec_path_ts(segments@.last()@, args, defined, strict)
            }
        },
        TypeNode::Reference(inner) => {
            if ref_target_is_str(*inner) {
                "string"@
            } else {
                spec_type_to_ts(*inner, defined, strict)
            }
        },
        TypeNode::Tuple(elems) => {
            if elems@.len() == 0 {
                "void"@
            } else {
                "["@ + join_seqs(spec_ts_list(elems@, defined, strict), ", "@) + "]"@
            }
        },
        TypeNode::Opaque => "any"@,
    }
}

/// Maps a declared type to its target type expression.
pub fn type_to_ts(ty: &TypeNode, defined_types: &Vec<String>, is_tauri_command_type: bool) -> (r:
    String)
    ensures
        r@ == spec_type_to_ts(*ty, defined_types.deep_view(), is_tauri_command_type),
    decreases *ty,
{
    match ty {
        TypeNode::Path { segments, args } => {
            if segments.len() == 0 {
                String::from_str("any")
            } else {
                let name = &segments[segments.len() - 1];
                proof {
                    assert(name@ == segments@.last()@);
                    assert(ty->Path_args == *args);
                    assert(decreases_to!(*ty => ty->Path_args));
                }
                path_args_to_ts(name, args, defined_types, is_tauri_command_type)
            }
        },
        TypeNode::Reference(inner) => {
            if ref_is_str(inner) {
                String::from_str("string")
            } else {
                type_to_ts(inner, defined_types, is_tauri_command_type)
            }
        },
        TypeNode::Tuple(elems) => {
            if elems.len() == 0 {
                String::from_str("void")
            } else {
                let mut parts: Vec<String> = Vec::new();
                let mut i: usize = 0;
                while i < elems.len()
                    invariant
                        i <= elems@.len(),
                        parts.deep_view() == spec_ts_list(
                            elems@.take(i as int),
                            defined_types.deep_view(),
                            is_tauri_command_type,
                        ),
                        *ty == TypeNode::Tuple(*elems),
                    decreases elems@.len() - i,
                {
                    proof {
                        assert(ty->Tuple_0 == *elems);
                        assert(decreases_to!(*ty => ty->Tuple_0));
                        assert(decreases_to!(ty->Tuple_0 => ty->Tuple_0@));
                        assert(decreases_to!(ty->Tuple_0@ => ty->Tuple_0@[i as int]));
                        assert(decreases_to!(*ty => elems@[i as int]));
                    }
                    let p = type_to_ts(&elems[i], defined_types, is_tauri_command_type);
                    parts.push(p);
                    proof {
                        assert(elems@.take(i as int + 1).drop_last() =~= elems@.take(i as int));
                        assert(elems@.take(i as int + 1).last() == elems@[i as int]);
                    }
                    i = i + 1;
                }
                proof {
                    assert(elems@.take(elems@.len() as int) =~= elems@);
                }
                let joined = join_strings(&parts, ", ");
                let mut r = String::from_str("[");
                r.append(joined.as_str());
                r.append("]");
                r
            }
        },
        TypeNode::Opaque => String::from_str("any"),
    }
}

/// An argument list structurally dominates each type among its arguments;
/// recursion from the list into an argument therefore terminates.
proof fn lemma_arg_decreases(args: Option<Vec<GenericArg>>, inner: TypeNode, i: int)
    requires
        args is Some,
        0 <= i < args->Some_0@.len(),
        args->Some_0@[i] == GenericArg::Type(inner),
    ensures
        decreases_to!(args => inner),
{
    assert(decreases_to!(args => args->Some_0));
    assert(decreases_to!(args->Some_0 => args->Some_0@));
    assert(decreases_to!(args->Some_0@ => args->Some_0@[i]));
    assert(decreases_to!(args->Some_0@[i] => args->Some_0@[i]->Type_0));
}

/// Maps one path segment's name and argument list, as `spec_path_ts` says.
fn path_args_to_ts(
    name: &String,
    args: &Option<Vec<GenericArg>>,
    defined_types: &Vec<String>,
    is_tauri_command_type: bool,
) -> (r: String)
    ensures
        r@ == spec_path_ts(name@, *args, defined_types.deep_view(), is_tauri_command_type),
    decreases *args,
{
    if str_eq(name.as_str(), "String") {
        String::from_str("string")
    } else if str_eq(name.as_str(), "bool") {
        String::from_str("boolean")
    } else if is_number_str(name.as_str()) {
        String::from_str("number")
    } else if str_eq(name.as_str(), "Option") {
        match args {
            Some(list) => {
                if list.len() > 0 {
                    match &list[0] {
                        GenericArg::Type(inner) => {
                            proof {
                                lemma_arg_decreases(*args, *inner, 0);
                            }
                            let mut r = type_to_ts(
                                inner,
                                defined_types,
                                is_tauri_command_type,
                            );
                            r.append(" | undefined");
                            r
                        },
                        GenericArg::Other => String::from_str("any"),
                    }
                } else {
                    String::from_str("any")
                }
            },
            None => String::from_str("any"),
        }
    } else if str_eq(name.as_str(), "Vec") {
        match args {
            Some(list) => {
                if list.len() > 0 {
                    match &list[0] {
                        GenericArg::Type(inner) => {
                            proof {
                                lemma_arg_decreases(*args, *inner, 0);
                            }
                            let inner_ts = type_to_ts(
                                inner,
                                defined_types,
                                is_tauri_command_type,
                            );
                            if str_contains(inner_ts.as_str(), " | ") {
                                let mut r = String::from_str("(");
                                r.append(inner_ts.as_str());
                                r.append(")[]");
                                r
                            } else {
                                let mut r = inner_ts;
                                r.append("[]");
                                r
                            }
                        },
                        GenericArg::Other => String::from_str("any[]"),
                    }
                } else {
                    String::from_str("any[]")
                }
            },
            None => String::from_str("any[]"),
        }
    } else if str_eq(name.as_str(), "HashMap") {
        match args {
            Some(list) => {
                if list.len() == 2 {
                    match (&list[0], &list[1]) {
                        (GenericArg::Type(k), GenericArg::Type(v)) => {
                            proof {
                                lemma_arg_decreases(*args, *k, 0);
                                lemma_arg_decreases(*args, *v, 1);
                            }
                            let k_ts = type_to_ts(
                                k,
                                defined_types,
                                is_tauri_command_type,
                            );
                            let v_ts = type_to_ts(
                                v,
                                defined_types,
                                is_tauri_command_type,
                            );
                            let mut r = String::from_str("Record<");
                            r.append(k_ts.as_str());
                            r.append(", ");
                            r.append(v_ts.as_str());
                            r.append(">");
                            r
                        },
                        _ => String::from_str("Record<any, any>"),
                    }
                } else {
                    String::from_str("Record<any, any>")
                }
            },
            None => String::from_str("Record<any, any>"),
        }
    } else if str_eq(name.as_str(), "Result") {
        match args {
            Some(list) => {
                if list.len() > 0 {
                    match &list[0] {
                        GenericArg::Type(ok) => {
                            proof {
                                lemma_arg_decreases(*args, *ok, 0);
                            }
                            type_to_ts(ok, defined_types, is_tauri_command_type)
                        },
                        GenericArg::Other => String::from_str("any"),
                    }
                } else {
                    String::from_str("any")
                }
            },
            None => String::from_str("any"),
        }
    } else if is_tauri_command_type || !vec_contains_str(
        defined_types,
        name.as_str(),
    ) {
        let mut r = String::from_str("T.");
        r.append(name.as_str());
        r
    } else {
        name.clone()
    }
}

/// Whether a reference's target is a plain string slice.
fn ref_is_str(t: &TypeNode) -> (r: bool)
    ensures
        r == ref_target_is_str(*t),
{
    match t {
        TypeNode::Path { segments, args } => {
            segments.len() > 0 && str_eq(segments[segments.len() - 1].as_str(), "str")
        },
        _ => false,
    }
}

} // verus!
