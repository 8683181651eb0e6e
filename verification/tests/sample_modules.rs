//! End-to-end extraction over module models that mirror the sample backend
//! modules, whose Rust-side shapes stand in `tauria_tsgen::samples`.

use tauria_tsgen::ast::{
    AttrNode, EnumNode, ExprNode, FieldNode, FnNode, GenericArg, ItemNode, LitKind, ParamNode,
    StructNode, TypeNode, VariantKind, VariantNode,
};
use tauria_tsgen::commands::extract_tauri_commands;
use tauria_tsgen::events::extract_events;
use tauria_tsgen::model::{extract_and_convert_types, TsShape, TsVariantKind};
use tauria_tsgen::samples::{Append, AppendEx, Data, EventPayload, MainPayload, Message, SubPayload, User};

fn s(x: &str) -> String {
    x.to_string()
}

fn path(name: &str) -> TypeNode {
    TypeNode::Path { segments: vec![s(name)], args: None }
}

fn path2(a: &str, b: &str) -> TypeNode {
    TypeNode::Path { segments: vec![s(a), s(b)], args: None }
}

fn generic(name: &str, args: Vec<TypeNode>) -> TypeNode {
    TypeNode::Path {
        segments: vec![s(name)],
        args: Some(args.into_iter().map(GenericArg::Type).collect()),
    }
}

fn serde_both() -> AttrNode {
    AttrNode::Derive(vec![vec![s("Serialize")], vec![s("Deserialize")]])
}

fn field(name: &str, ty: TypeNode) -> FieldNode {
    FieldNode { name: s(name), ty, attrs: vec![] }
}

fn named_param(name: &str, ty: TypeNode) -> ParamNode {
    ParamNode { name: Some(s(name)), ty }
}

fn command_marker() -> AttrNode {
    AttrNode::Marker(vec![s("tauri"), s("command")])
}

fn lit_str(v: &str) -> ExprNode {
    ExprNode::Lit { kind: LitKind::Str(s(v)) }
}

/// The user-record module: a tagged struct and a command returning it.
#[test]
fn user_module_extracted() {
    let _shape = User { id: 1, name: s("Test User"), email: None };
    let items = vec![
        ItemNode::Struct(StructNode {
            name: s("User"),
            attrs: vec![serde_both()],
            fields: vec![
                field("id", path("u32")),
                field("name", path("String")),
                field("email", generic("Option", vec![path("String")])),
            ],
        }),
        ItemNode::Fn(FnNode {
            name: s("get_user_data"),
            attrs: vec![command_marker()],
            inputs: vec![named_param("id", path("u32"))],
            output: Some(path("User")),
            body: vec![],
        }),
    ];
    let types = extract_and_convert_types(&items, "struct_test");
    assert_eq!(types.len(), 1);
    assert_eq!(types[0].original_file_name, "struct_test");
    match &types[0].ts_interface.shape {
        TsShape::Interface { fields } => {
            assert_eq!(fields.len(), 3);
            assert_eq!(fields[2].name, "email");
            assert_eq!(fields[2].ty, "string | undefined");
        },
        _ => panic!("expected an interface shape"),
    }
    let commands = extract_tauri_commands(&items, &types);
    assert_eq!(commands.len(), 1);
    assert_eq!(commands[0].args, vec![s("id: number")]);
    assert_eq!(commands[0].invoke_args, vec![s("id: id")]);
    assert_eq!(commands[0].return_type, "T.User");
}

/// The message module: an enum with one variant of each shape.
#[test]
fn message_module_extracted() {
    let _shape = Message::Move { x: 0, y: 0 };
    let items = vec![
        ItemNode::Enum(EnumNode {
            name: s("Message"),
            attrs: vec![serde_both()],
            variants: vec![
                VariantNode { name: s("Quit"), attrs: vec![], kind: VariantKind::Unit },
                VariantNode {
                    name: s("Move"),
                    attrs: vec![],
                    kind: VariantKind::Struct(vec![field("x", path("i32")), field("y", path("i32"))]),
                },
                VariantNode {
                    name: s("Write"),
                    attrs: vec![],
                    kind: VariantKind::Tuple(vec![path("String")]),
                },
                VariantNode {
                    name: s("ChangeColor"),
                    attrs: vec![],
                    kind: VariantKind::Tuple(vec![path("i32"), path("i32"), path("i32")]),
                },
            ],
        }),
        ItemNode::Fn(FnNode {
            name: s("process_message"),
            attrs: vec![command_marker()],
            inputs: vec![named_param("msg", path("Message"))],
            output: Some(path("String")),
            body: vec![],
        }),
    ];
    let types = extract_and_convert_types(&items, "enum_test");
    assert_eq!(types.len(), 1);
    match &types[0].ts_interface.shape {
        TsShape::Enum { variants } => {
            assert_eq!(variants.len(), 4);
            assert!(matches!(variants[0].kind, TsVariantKind::Unit));
            match &variants[1].kind {
                TsVariantKind::Struct(members) => {
                    assert_eq!(members.len(), 2);
                    assert_eq!(members[0].ty, "number");
                },
                _ => panic!("expected a struct variant"),
            }
            match &variants[2].kind {
                TsVariantKind::Tuple(members) => assert_eq!(members, &vec![s("string")]),
                _ => panic!("expected a tuple variant"),
            }
            match &variants[3].kind {
                TsVariantKind::Tuple(members) => assert_eq!(members.len(), 3),
                _ => panic!("expected a tuple variant"),
            }
        },
        _ => panic!("expected an enum shape"),
    }
    let commands = extract_tauri_commands(&items, &types);
    assert_eq!(commands[0].args, vec![s("msg: T.Message")]);
    assert_eq!(commands[0].return_type, "string");
}

/// The nesting module: eligibility propagates through the whole type graph.
#[test]
fn nesting_module_extracted() {
    let _shape = Data {
        msg: Message::Quit,
        append: Append { num: 0, append_ex: AppendEx { num: 1 } },
    };
    let items = vec![
        ItemNode::Enum(EnumNode {
            name: s("Message"),
            attrs: vec![serde_both()],
            variants: vec![VariantNode { name: s("Quit"), attrs: vec![], kind: VariantKind::Unit }],
        }),
        ItemNode::Struct(StructNode {
            name: s("AppendEx"),
            attrs: vec![serde_both()],
            fields: vec![field("num", path("i32"))],
        }),
        ItemNode::Struct(StructNode {
            name: s("Append"),
            attrs: vec![serde_both()],
            fields: vec![field("num", path("i32")), field("appendEx", path("AppendEx"))],
        }),
        ItemNode::Struct(StructNode {
            name: s("Data"),
            attrs: vec![serde_both()],
            fields: vec![field("msg", path("Message")), field("append", path("Append"))],
        }),
        ItemNode::Fn(FnNode {
            name: s("process_message"),
            attrs: vec![command_marker()],
            inputs: vec![named_param("msg", path("Data"))],
            output: Some(path("String")),
            body: vec![],
        }),
    ];
    let types = extract_and_convert_types(&items, "nesting_type_test");
    assert_eq!(types.len(), 4);
    // Within the module, a field's type maps against the names declared
    // before it: Append knows AppendEx, Data knows Message and Append.
    match &types[2].ts_interface.shape {
        TsShape::Interface { fields } => assert_eq!(fields[1].ty, "AppendEx"),
        _ => panic!("expected an interface shape"),
    }
    let commands = extract_tauri_commands(&items, &types);
    assert_eq!(commands[0].args, vec![s("msg: T.Data")]);
}

/// The event modules: a scoped emission with a struct payload, two main
/// window emissions, and a broadcast from a window handle.
#[test]
fn event_modules_extracted() {
    let _p1 = EventPayload { message: s("payload-struct") };
    let _p2 = MainPayload { message: s("test"), value: 1 };
    let _p3 = SubPayload { data: s("test") };
    let items = vec![
        ItemNode::Struct(StructNode {
            name: s("MainPayload"),
            attrs: vec![serde_both()],
            fields: vec![field("message", path("String")), field("value", path("u32"))],
        }),
        ItemNode::Struct(StructNode {
            name: s("SubPayload"),
            attrs: vec![serde_both()],
            fields: vec![field("data", path("String"))],
        }),
        ItemNode::Fn(FnNode {
            name: s("emit_main_event"),
            attrs: vec![command_marker()],
            inputs: vec![
                named_param("app", path2("tauri", "AppHandle")),
                named_param("payload", path("MainPayload")),
            ],
            output: None,
            body: vec![ExprNode::MethodCall {
                receiver: Box::new(ExprNode::Var { name: s("app") }),
                method: s("emit_to"),
                args: vec![
                    lit_str("main"),
                    lit_str("main_event"),
                    ExprNode::StructLit { name: s("MainPayload"), children: vec![] },
                ],
            }],
        }),
        ItemNode::Fn(FnNode {
            name: s("emit_sub_event"),
            attrs: vec![command_marker()],
            inputs: vec![
                named_param("window", path2("tauri", "WebviewWindow")),
                named_param("payload", path("SubPayload")),
            ],
            output: None,
            body: vec![ExprNode::MethodCall {
                receiver: Box::new(ExprNode::Var { name: s("window") }),
                method: s("emit"),
                args: vec![
                    lit_str("sub_event"),
                    ExprNode::StructLit { name: s("SubPayload"), children: vec![] },
                ],
            }],
        }),
        ItemNode::Fn(FnNode {
            name: s("emit_another_main_event"),
            attrs: vec![command_marker()],
            inputs: vec![named_param("app", path2("tauri", "AppHandle"))],
            output: None,
            body: vec![ExprNode::MethodCall {
                receiver: Box::new(ExprNode::Var { name: s("app") }),
                method: s("emit_to"),
                args: vec![lit_str("main"), lit_str("another_main_event"), lit_str("simple string")],
            }],
        }),
    ];
    let types = extract_and_convert_types(&items, "event_window_many");
    let (globals, windows) = extract_events(&items, &types);

    assert_eq!(windows.len(), 2);
    assert_eq!(windows[0].window_name, "main");
    assert_eq!(windows[0].event_name, "main_event");
    assert_eq!(windows[0].payload_type, "T.MainPayload");
    assert_eq!(windows[1].event_name, "another_main_event");
    assert_eq!(windows[1].payload_type, "string");

    assert_eq!(globals.len(), 1);
    assert_eq!(globals[0].event_name, "sub_event");
    assert_eq!(globals[0].payload_type, "T.SubPayload");

    // The commands keep only the payload parameters.
    let commands = extract_tauri_commands(&items, &types);
    assert_eq!(commands.len(), 3);
    assert_eq!(commands[0].args, vec![s("payload: T.MainPayload")]);
    assert_eq!(commands[1].args, vec![s("payload: T.SubPayload")]);
    assert_eq!(commands[2].args.len(), 0);
}
