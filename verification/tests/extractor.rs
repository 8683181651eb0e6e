use tauria_tsgen::aliases::{extract_use_aliases, AliasMap};
use tauria_tsgen::ast::{
    AttrNode, EnumNode, FieldNode, FnNode, GenericArg, ItemNode, ParamNode, StructNode, TypeNode,
    UseTreeNode, VariantKind, VariantNode,
};
use tauria_tsgen::commands::{extract_tauri_commands, has_tauri_command, is_ignored_tauri_type,
    is_tauri_ipc_response};
use tauria_tsgen::model::{extract_and_convert_types, extract_doc_comments};
use tauria_tsgen::typemap::type_to_ts;

fn s(x: &str) -> String {
    x.to_string()
}

fn path(name: &str) -> TypeNode {
    TypeNode::Path { segments: vec![s(name)], args: None }
}

fn path2(a: &str, b: &str) -> TypeNode {
    TypeNode::Path { segments: vec![s(a), s(b)], args: None }
}

fn path3(a: &str, b: &str, c: &str) -> TypeNode {
    TypeNode::Path { segments: vec![s(a), s(b), s(c)], args: None }
}

fn generic(name: &str, args: Vec<TypeNode>) -> TypeNode {
    TypeNode::Path {
        segments: vec![s(name)],
        args: Some(args.into_iter().map(GenericArg::Type).collect()),
    }
}

fn generic2(a: &str, b: &str, args: Vec<TypeNode>) -> TypeNode {
    TypeNode::Path {
        segments: vec![s(a), s(b)],
        args: Some(args.into_iter().map(GenericArg::Type).collect()),
    }
}

fn reference(t: TypeNode) -> TypeNode {
    TypeNode::Reference(Box::new(t))
}

fn tuple(ts: Vec<TypeNode>) -> TypeNode {
    TypeNode::Tuple(ts)
}

fn derive(names: &[&str]) -> AttrNode {
    AttrNode::Derive(names.iter().map(|n| vec![s(n)]).collect())
}

fn plain_struct(name: &str, attrs: Vec<AttrNode>, fields: Vec<(&str, TypeNode)>) -> ItemNode {
    ItemNode::Struct(StructNode {
        name: s(name),
        attrs,
        fields: fields
            .into_iter()
            .map(|(n, ty)| FieldNode { name: s(n), ty, attrs: vec![] })
            .collect(),
    })
}

fn marked_fn(name: &str, inputs: Vec<(&str, TypeNode)>, output: Option<TypeNode>) -> ItemNode {
    ItemNode::Fn(FnNode {
        name: s(name),
        attrs: vec![AttrNode::Marker(vec![s("tauri"), s("command")])],
        inputs: inputs
            .into_iter()
            .map(|(n, ty)| ParamNode { name: Some(s(n)), ty })
            .collect(),
        output,
        body: vec![],
    })
}

#[test]
fn test_type_to_ts() {
    let defined_types = vec![s("MyStruct"), s("MyEnum"), s("AnotherType")];
    let conv = |ty: TypeNode, strict: bool| -> String { type_to_ts(&ty, &defined_types, strict) };

    // Basic types
    assert_eq!(conv(path("String"), false), "string");
    assert_eq!(conv(path("bool"), false), "boolean");
    assert_eq!(conv(path("u32"), false), "number");
    assert_eq!(conv(path("f64"), false), "number");
    assert_eq!(conv(path("usize"), false), "number");

    // Option<T>
    assert_eq!(conv(generic("Option", vec![path("String")]), false), "string | undefined");
    assert_eq!(conv(generic("Option", vec![path("u32")]), false), "number | undefined");
    assert_eq!(conv(generic("Option", vec![path("MyStruct")]), false), "MyStruct | undefined");

    // Vec<T>
    assert_eq!(conv(generic("Vec", vec![path("String")]), false), "string[]");
    assert_eq!(conv(generic("Vec", vec![path("bool")]), false), "boolean[]");
    assert_eq!(conv(generic("Vec", vec![path("MyEnum")]), false), "MyEnum[]");

    // HashMap<K, V>
    assert_eq!(
        conv(generic("HashMap", vec![path("String"), path("u32")]), false),
        "Record<string, number>"
    );
    assert_eq!(
        conv(generic("HashMap", vec![path("String"), path("MyStruct")]), false),
        "Record<string, MyStruct>"
    );

    // Result<T, E> (should return T)
    assert_eq!(conv(generic("Result", vec![path("String"), path("MyError")]), false), "string");
    assert_eq!(conv(generic("Result", vec![path("u32"), path("MyError")]), false), "number");
    assert_eq!(conv(generic("Result", vec![path("MyStruct"), path("MyError")]), false), "MyStruct");

    // Reference types
    assert_eq!(conv(reference(path("str")), false), "string");
    assert_eq!(conv(reference(path("String")), false), "string");
    assert_eq!(conv(reference(path("u32")), false), "number");

    // Tuple types
    assert_eq!(conv(tuple(vec![]), false), "void");
    assert_eq!(conv(tuple(vec![path("String"), path("u32")]), false), "[string, number]");
    assert_eq!(conv(tuple(vec![path("String"), path("MyStruct")]), false), "[string, MyStruct]");
    assert_eq!(
        conv(tuple(vec![path("String"), tuple(vec![path("u32"), path("bool")])]), false),
        "[string, [number, boolean]]"
    );

    // User-defined types
    assert_eq!(conv(path("MyStruct"), false), "MyStruct");
    assert_eq!(conv(path("MyStruct"), true), "T.MyStruct");
    assert_eq!(conv(path("AnotherType"), false), "AnotherType");
    assert_eq!(conv(path("NonExistentType"), false), "T.NonExistentType");

    // Nested types
    assert_eq!(
        conv(generic("Option", vec![generic("Vec", vec![path("String")])]), false),
        "string[] | undefined"
    );
    assert_eq!(
        conv(generic("Vec", vec![generic("Option", vec![path("u32")])]), false),
        "(number | undefined)[]"
    );
    assert_eq!(
        conv(generic("HashMap", vec![path("String"), generic("Vec", vec![path("MyStruct")])]), false),
        "Record<string, MyStruct[]>"
    );

    // Unknown types (fallback to the foreign-type marker)
    assert_eq!(conv(path("SomeUnknownType"), false), "T.SomeUnknownType");
    assert_eq!(conv(path("SomeUnknownType"), true), "T.SomeUnknownType");
}

fn tauri_rename_aliases() -> AliasMap {
    // use tauri::{WebviewWindow as MyWindow, State as MyState,
    //             AppHandle as MyAppHandle, Window as MyTauriWindow};
    let items = vec![ItemNode::Use(UseTreeNode::Path {
        ident: s("tauri"),
        tree: Box::new(UseTreeNode::Group {
            items: vec![
                UseTreeNode::Rename { ident: s("WebviewWindow"), rename: s("MyWindow") },
                UseTreeNode::Rename { ident: s("State"), rename: s("MyState") },
                UseTreeNode::Rename { ident: s("AppHandle"), rename: s("MyAppHandle") },
                UseTreeNode::Rename { ident: s("Window"), rename: s("MyTauriWindow") },
            ],
        }),
    })];
    extract_use_aliases(&items)
}

#[test]
fn test_is_ignored_tauri_type() {
    let aliases = tauri_rename_aliases();

    // WebviewWindow
    assert!(is_ignored_tauri_type(&path2("tauri", "WebviewWindow"), &aliases));
    assert!(is_ignored_tauri_type(&reference(path2("tauri", "WebviewWindow")), &aliases));
    assert!(is_ignored_tauri_type(&path("MyWindow"), &aliases));

    // State
    assert!(is_ignored_tauri_type(&generic2("tauri", "State", vec![path("String")]), &aliases));
    assert!(is_ignored_tauri_type(&generic("MyState", vec![path("String")]), &aliases));

    // AppHandle
    assert!(is_ignored_tauri_type(&path2("tauri", "AppHandle"), &aliases));
    assert!(is_ignored_tauri_type(&path("MyAppHandle"), &aliases));

    // Window
    assert!(is_ignored_tauri_type(&path2("tauri", "Window"), &aliases));
    assert!(is_ignored_tauri_type(&reference(path2("tauri", "Window")), &aliases));
    assert!(is_ignored_tauri_type(&path("MyTauriWindow"), &aliases));

    // Unrelated types
    assert!(!is_ignored_tauri_type(&path("String"), &aliases));
    assert!(!is_ignored_tauri_type(&path2("my_tauri", "WebviewWindow"), &aliases));
    assert!(!is_ignored_tauri_type(&path("WebviewWindow"), &aliases));
}

#[test]
fn test_is_tauri_ipc_response() {
    // use tauri::ipc::Response as IpcResponse;
    let items = vec![ItemNode::Use(UseTreeNode::Path {
        ident: s("tauri"),
        tree: Box::new(UseTreeNode::Path {
            ident: s("ipc"),
            tree: Box::new(UseTreeNode::Rename { ident: s("Response"), rename: s("IpcResponse") }),
        }),
    })];
    let aliases = extract_use_aliases(&items);

    assert!(is_tauri_ipc_response(&path3("tauri", "ipc", "Response"), &aliases));
    assert!(is_tauri_ipc_response(&reference(path3("tauri", "ipc", "Response")), &aliases));
    assert!(is_tauri_ipc_response(&path("IpcResponse"), &aliases));
    assert!(!is_tauri_ipc_response(&path("String"), &aliases));
    assert!(!is_tauri_ipc_response(&path2("tauri", "Response"), &aliases));
}

#[test]
fn test_has_tauri_command() {
    // #[tauri::command] fn my_command() {}
    let attrs = vec![AttrNode::Marker(vec![s("tauri"), s("command")])];
    assert!(has_tauri_command(&attrs));

    // #[command] fn another_command() {}
    let attrs = vec![AttrNode::Marker(vec![s("command")])];
    assert!(has_tauri_command(&attrs));

    // fn not_a_command() {}
    let attrs: Vec<AttrNode> = vec![];
    assert!(!has_tauri_command(&attrs));
}

#[test]
fn test_extract_doc_comments() {
    // /// This is a doc comment. ... on my_function
    let attrs = vec![
        AttrNode::Doc(s(" This is a doc comment.")),
        AttrNode::Doc(s(" # Arguments")),
        AttrNode::Doc(s(" * `arg1` - The first argument.")),
        AttrNode::Doc(s(" * `arg1` - The first argument.")),
        AttrNode::Doc(s(" # Returns")),
        AttrNode::Doc(s(" The result.")),
    ];
    let doc_comment = extract_doc_comments(&attrs);
    assert_eq!(
        doc_comment.replace("\r\n", "\n"),
        "This is a doc comment.\n# Arguments\n* `arg1` - The first argument.\n* `arg1` - The first argument.\n# Returns\nThe result."
            .replace("\r\n", "\n")
    );

    // /// Single line doc comment. on another_function
    let attrs = vec![AttrNode::Doc(s(" Single line doc comment."))];
    assert_eq!(extract_doc_comments(&attrs), "Single line doc comment.");

    // fn no_doc_function() {}
    let attrs: Vec<AttrNode> = vec![];
    assert_eq!(extract_doc_comments(&attrs), "");
}

#[test]
fn test_extract_and_convert_types() {
    let items = vec![
        plain_struct(
            "MyStruct",
            vec![derive(&["Serialize", "Deserialize"])],
            vec![("field1", path("String"))],
        ),
        ItemNode::Enum(EnumNode {
            name: s("MyEnum"),
            attrs: vec![derive(&["Serialize", "Deserialize"])],
            variants: vec![VariantNode {
                name: s("VariantA"),
                attrs: vec![],
                kind: VariantKind::Unit,
            }],
        }),
        plain_struct("NotConvertedStruct", vec![], vec![]),
        plain_struct("OnlySerializable", vec![derive(&["Serialize"])], vec![]),
        plain_struct("OnlyDeserializable", vec![derive(&["Deserialize"])], vec![]),
        plain_struct("NoDerive", vec![], vec![]),
    ];
    let extracted_types = extract_and_convert_types(&items, "test_file");

    assert_eq!(extracted_types.len(), 6);

    let my_struct = extracted_types.iter().find(|info| info.name == "MyStruct").unwrap();
    assert!(my_struct.is_serializable);
    assert!(my_struct.is_deserializable);

    let my_enum = extracted_types.iter().find(|info| info.name == "MyEnum").unwrap();
    assert!(my_enum.is_serializable);
    assert!(my_enum.is_deserializable);

    let not_converted_struct =
        extracted_types.iter().find(|info| info.name == "NotConvertedStruct").unwrap();
    assert!(!not_converted_struct.is_serializable);
    assert!(!not_converted_struct.is_deserializable);

    let only_serializable =
        extracted_types.iter().find(|info| info.name == "OnlySerializable").unwrap();
    assert!(only_serializable.is_serializable);
    assert!(!only_serializable.is_deserializable);

    let only_deserializable =
        extracted_types.iter().find(|info| info.name == "OnlyDeserializable").unwrap();
    assert!(!only_deserializable.is_serializable);
    assert!(only_deserializable.is_deserializable);

    let no_derive = extracted_types.iter().find(|info| info.name == "NoDerive").unwrap();
    assert!(!no_derive.is_serializable);
    assert!(!no_derive.is_deserializable);
}

#[test]
fn test_extract_tauri_commands_with_special_types() {
    // use tauri::{WebviewWindow as MyWindow, State, AppHandle, Window};
    // use tauri::ipc::Response as IpcResponse;
    let mut items = vec![
        ItemNode::Use(UseTreeNode::Path {
            ident: s("tauri"),
            tree: Box::new(UseTreeNode::Group {
                items: vec![
                    UseTreeNode::Rename { ident: s("WebviewWindow"), rename: s("MyWindow") },
                    UseTreeNode::Name { ident: s("State") },
                    UseTreeNode::Name { ident: s("AppHandle") },
                    UseTreeNode::Name { ident: s("Window") },
                ],
            }),
        }),
        ItemNode::Use(UseTreeNode::Path {
            ident: s("tauri"),
            tree: Box::new(UseTreeNode::Path {
                ident: s("ipc"),
                tree: Box::new(UseTreeNode::Rename {
                    ident: s("Response"),
                    rename: s("IpcResponse"),
                }),
            }),
        }),
    ];
    items.push(marked_fn(
        "command_with_aliases",
        vec![
            ("window", path("MyWindow")),
            ("state", generic("State", vec![path("String")])),
            ("app", path("AppHandle")),
            ("tauri_window", path("Window")),
            ("message", path("String")),
        ],
        None,
    ));
    items.push(marked_fn("command_returns_response", vec![], Some(path3("tauri", "ipc", "Response"))));
    items.push(marked_fn("command_returns_alias_response", vec![], Some(path("IpcResponse"))));
    items.push(marked_fn(
        "command_with_window",
        vec![("window", path("Window")), ("message", path("String"))],
        None,
    ));

    let defined_types = vec![];
    let functions = extract_tauri_commands(&items, &defined_types);

    assert_eq!(functions.len(), 4);

    assert_eq!(functions[0].name, "command_with_aliases");
    assert_eq!(functions[0].args.len(), 1);
    assert_eq!(functions[0].args[0], "message: string");

    assert_eq!(functions[1].name, "command_returns_response");
    assert_eq!(functions[1].return_type, "unknown");

    assert_eq!(functions[2].name, "command_returns_alias_response");
    assert_eq!(functions[2].return_type, "unknown");

    assert_eq!(functions[3].name, "command_with_window");
    assert_eq!(functions[3].args.len(), 1);
    assert_eq!(functions[3].args[0], "message: string");
}

#[test]
fn alias_map_last_insertion_wins() {
    // A later import of the same local name wins.
    let items = vec![
        ItemNode::Use(UseTreeNode::Path {
            ident: s("a"),
            tree: Box::new(UseTreeNode::Name { ident: s("X") }),
        }),
        ItemNode::Use(UseTreeNode::Path {
            ident: s("b"),
            tree: Box::new(UseTreeNode::Name { ident: s("X") }),
        }),
    ];
    let aliases = extract_use_aliases(&items);
    assert_eq!(aliases.get("X").unwrap().as_str(), "b::X");
    assert!(aliases.get("Y").is_none());
}

#[test]
fn wildcard_import_tracks_nothing() {
    let items = vec![ItemNode::Use(UseTreeNode::Path {
        ident: s("tauri"),
        tree: Box::new(UseTreeNode::Glob),
    })];
    let aliases = extract_use_aliases(&items);
    assert!(aliases.get("Window").is_none());
    // A context type reached only through a wildcard import is untracked,
    // so its bare name is not recognized as framework-injected.
    assert!(!is_ignored_tauri_type(&path("Window"), &aliases));
}
