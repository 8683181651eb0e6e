use tauria_tsgen::ast::{
    AttrNode, ExprNode, FieldNode, FnNode, GenericArg, ItemNode, LitKind, ParamNode, StructNode,
    TypeNode, UseTreeNode,
};
use tauria_tsgen::commands::extract_tauri_commands;
use tauria_tsgen::events::extract_events;
use tauria_tsgen::model::{extract_and_convert_types, TsShape};
use tauria_tsgen::typemap::type_to_ts;

fn s(x: &str) -> String {
    x.to_string()
}

fn path(name: &str) -> TypeNode {
    TypeNode::Path { segments: vec![s(name)], args: None }
}

fn generic(name: &str, args: Vec<TypeNode>) -> TypeNode {
    TypeNode::Path {
        segments: vec![s(name)],
        args: Some(args.into_iter().map(GenericArg::Type).collect()),
    }
}

fn derive(names: &[&str]) -> AttrNode {
    AttrNode::Derive(names.iter().map(|n| vec![s(n)]).collect())
}

fn marked_fn(name: &str, inputs: Vec<(&str, TypeNode)>, output: Option<TypeNode>) -> FnNode {
    FnNode {
        name: s(name),
        attrs: vec![AttrNode::Marker(vec![s("tauri"), s("command")])],
        inputs: inputs
            .into_iter()
            .map(|(n, ty)| ParamNode { name: Some(s(n)), ty })
            .collect(),
        output,
        body: vec![],
    }
}

fn int_fields(names: &[&str]) -> Vec<FieldNode> {
    names
        .iter()
        .map(|n| FieldNode { name: s(n), ty: path("i32"), attrs: vec![] })
        .collect()
}

/// An untagged struct taken by value: the type is still modeled with both
/// flags false, the parameter is dropped, and the empty-tuple return maps
/// to `void`.
#[test]
fn untagged_point_scenario() {
    let items = vec![
        ItemNode::Struct(StructNode { name: s("Point"), attrs: vec![], fields: int_fields(&["x", "y"]) }),
        ItemNode::Fn(marked_fn(
            "move_to",
            vec![("point", path("Point"))],
            Some(TypeNode::Tuple(vec![])),
        )),
    ];
    let types = extract_and_convert_types(&items, "point_module");
    assert_eq!(types.len(), 1);
    assert_eq!(types[0].name, "Point");
    assert!(!types[0].is_serializable);
    assert!(!types[0].is_deserializable);
    match &types[0].ts_interface.shape {
        TsShape::Interface { fields } => {
            assert_eq!(fields.len(), 2);
            assert_eq!(fields[0].name, "x");
            assert_eq!(fields[0].ty, "number");
            assert_eq!(fields[1].name, "y");
        },
        _ => panic!("expected an interface shape"),
    }

    let commands = extract_tauri_commands(&items, &types);
    assert_eq!(commands.len(), 1);
    assert_eq!(commands[0].name, "move_to");
    assert_eq!(commands[0].args.len(), 0);
    assert_eq!(commands[0].invoke_args.len(), 0);
    assert_eq!(commands[0].return_type, "void");
}

/// A context-handle parameter first, then a plain string: only the string
/// parameter remains, under its own name, at index zero.
#[test]
fn context_handle_dropped_scenario() {
    let items = vec![ItemNode::Fn(marked_fn(
        "say",
        vec![
            ("window", TypeNode::Path { segments: vec![s("tauri"), s("Window")], args: None }),
            ("greeting", path("String")),
        ],
        None,
    ))];
    let commands = extract_tauri_commands(&items, &vec![]);
    assert_eq!(commands.len(), 1);
    assert_eq!(commands[0].args.len(), 1);
    assert_eq!(commands[0].args[0], "greeting: string");
    assert_eq!(commands[0].invoke_args[0], "greeting: greeting");
}

/// A body that broadcasts a literal event with a struct-literal payload of a
/// serializable modeled type yields one broadcast event with that type.
#[test]
fn broadcast_struct_payload_scenario() {
    let emit_call = ExprNode::MethodCall {
        receiver: Box::new(ExprNode::Var { name: s("app") }),
        method: s("emit"),
        args: vec![
            ExprNode::Lit { kind: LitKind::Str(s("ping")) },
            ExprNode::StructLit { name: s("Ping"), children: vec![ExprNode::Lit { kind: LitKind::Int }] },
        ],
    };
    let items = vec![
        ItemNode::Struct(StructNode {
            name: s("Ping"),
            attrs: vec![derive(&["Serialize"])],
            fields: vec![FieldNode { name: s("n"), ty: path("u32"), attrs: vec![] }],
        }),
        ItemNode::Fn(FnNode {
            name: s("send_ping"),
            attrs: vec![AttrNode::Marker(vec![s("tauri"), s("command")])],
            inputs: vec![("app", TypeNode::Path { segments: vec![s("tauri"), s("AppHandle")], args: None })]
                .into_iter()
                .map(|(n, ty)| ParamNode { name: Some(s(n)), ty })
                .collect(),
            output: None,
            body: vec![emit_call],
        }),
    ];
    let types = extract_and_convert_types(&items, "ping_module");
    assert!(types[0].is_serializable);
    let (globals, windows) = extract_events(&items, &types);
    assert_eq!(globals.len(), 1);
    assert_eq!(globals[0].event_name, "ping");
    assert_eq!(globals[0].payload_type, "T.Ping");
    assert_eq!(windows.len(), 0);
}

/// Depth is preserved when optionals nest.
#[test]
fn optional_depth_preserved() {
    let defined = vec![];
    let t = generic("Option", vec![generic("Option", vec![path("u32")])]);
    assert_eq!(type_to_ts(&t, &defined, false), "number | undefined | undefined");
    assert_eq!(type_to_ts(&t, &defined, true), "number | undefined | undefined");
}

/// A union element type is parenthesized before the list suffix.
#[test]
fn list_of_optional_parenthesized() {
    let defined = vec![];
    let t = generic("Vec", vec![generic("Option", vec![path("u32")])]);
    assert_eq!(type_to_ts(&t, &defined, false), "(number | undefined)[]");
}

/// The error arm never reaches the mapped type, whatever it is.
#[test]
fn result_error_arm_ignored() {
    let defined = vec![s("Payload")];
    for err in ["MyError", "String", "u8"] {
        let t = generic("Result", vec![path("Payload"), path(err)]);
        assert_eq!(type_to_ts(&t, &defined, false), "Payload");
    }
}

/// A non-literal event name is simply not modeled.
#[test]
fn non_literal_event_name_unmodeled() {
    let emit_call = ExprNode::MethodCall {
        receiver: Box::new(ExprNode::Var { name: s("app") }),
        method: s("emit"),
        args: vec![
            ExprNode::Var { name: s("topic") },
            ExprNode::Lit { kind: LitKind::Str(s("payload")) },
        ],
    };
    let items = vec![ItemNode::Fn(FnNode {
        name: s("dynamic_emit"),
        attrs: vec![],
        inputs: vec![ParamNode { name: Some(s("topic")), ty: path("String") }],
        output: None,
        body: vec![emit_call],
    })];
    let (globals, windows) = extract_events(&items, &vec![]);
    assert_eq!(globals.len(), 0);
    assert_eq!(windows.len(), 0);
}

/// A scoped emission records the window, the event, and the inferred
/// payload type of a variable payload; a bare emission without a payload
/// maps to `void`; repeated emissions are all kept.
#[test]
fn window_events_recorded() {
    let scoped = || ExprNode::MethodCall {
        receiver: Box::new(ExprNode::Var { name: s("app") }),
        method: s("emit_to"),
        args: vec![
            ExprNode::Lit { kind: LitKind::Str(s("main")) },
            ExprNode::Lit { kind: LitKind::Str(s("refresh")) },
            ExprNode::Var { name: s("payload") },
        ],
    };
    let bare = ExprNode::MethodCall {
        receiver: Box::new(ExprNode::Var { name: s("window") }),
        method: s("emit"),
        args: vec![ExprNode::Lit { kind: LitKind::Str(s("tick")) }],
    };
    let items = vec![ItemNode::Fn(FnNode {
        name: s("notify"),
        attrs: vec![],
        inputs: vec![ParamNode { name: Some(s("payload")), ty: path("Refresh") }],
        output: None,
        body: vec![scoped(), scoped(), bare],
    })];
    let types = extract_and_convert_types(
        &vec![ItemNode::Struct(StructNode {
            name: s("Refresh"),
            attrs: vec![derive(&["Serialize"])],
            fields: vec![],
        })],
        "refresh_module",
    );
    let (globals, windows) = extract_events(&items, &types);
    assert_eq!(windows.len(), 2);
    assert_eq!(windows[0].window_name, "main");
    assert_eq!(windows[0].event_name, "refresh");
    assert_eq!(windows[0].payload_type, "T.Refresh");
    assert_eq!(windows[1].event_name, "refresh");
    assert_eq!(globals.len(), 1);
    assert_eq!(globals[0].event_name, "tick");
    assert_eq!(globals[0].payload_type, "void");
}

/// A return type that reaches a non-serializable modeled type degrades to
/// the opaque marker while the command itself stays.
#[test]
fn return_degrades_command_stays() {
    let items = vec![
        ItemNode::Struct(StructNode {
            name: s("Secret"),
            attrs: vec![derive(&["Deserialize"])],
            fields: vec![],
        }),
        ItemNode::Fn(marked_fn("reveal", vec![], Some(generic("Vec", vec![path("Secret")])))),
    ];
    let types = extract_and_convert_types(&items, "secret_module");
    let commands = extract_tauri_commands(&items, &types);
    assert_eq!(commands.len(), 1);
    assert_eq!(commands[0].name, "reveal");
    assert_eq!(commands[0].return_type, "unknown");
}

/// A parameter that transitively reaches a non-deserializable type is
/// dropped whole, and the remaining entries keep their alignment.
#[test]
fn blocked_parameter_dropped_alignment_kept() {
    let items = vec![
        ItemNode::Struct(StructNode {
            name: s("Opaque"),
            attrs: vec![derive(&["Serialize"])],
            fields: vec![],
        }),
        ItemNode::Fn(marked_fn(
            "mixed",
            vec![
                ("first", path("String")),
                ("blocked", generic("Vec", vec![path("Opaque")])),
                ("last", path("u32")),
            ],
            None,
        )),
    ];
    let types = extract_and_convert_types(&items, "opaque_module");
    let commands = extract_tauri_commands(&items, &types);
    assert_eq!(commands.len(), 1);
    assert_eq!(commands[0].args, vec![s("first: string"), s("last: number")]);
    assert_eq!(commands[0].invoke_args, vec![s("first: first"), s("last: last")]);
}

/// A module with no marked procedure yields an empty, valid command list.
#[test]
fn module_without_commands_is_empty() {
    let items = vec![ItemNode::Use(UseTreeNode::Glob), ItemNode::Other];
    let commands = extract_tauri_commands(&items, &vec![]);
    assert_eq!(commands.len(), 0);
    let types = extract_and_convert_types(&items, "empty_module");
    assert_eq!(types.len(), 0);
}
