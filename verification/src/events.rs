//! The Event Modeler: walks procedure bodies depth-first, matching the two
//! emission call shapes, and records each emission with its literal name
//! and inferred payload type. Non-literal names are simply not modeled, and
//! every emission is kept, duplicates included.

use vstd::prelude::*;

use crate::ast::{ExprNode, FnNode, ItemNode, LitKind, ParamNode, TypeNode};
use crate::model::ExtractedTypeInfo;
use crate::strutil::str_eq;
use crate::typemap::{spec_path_ts, spec_type_to_ts, type_to_ts};

verus! {

broadcast use vstd::string::group_string_axioms;

/// One broadcast emission: its literal event name and its payload's target
/// type expression.
pub struct EventInfo {
    pub event_name: String,
    pub payload_type: String,
}

pub ghost struct EventInfoV {
    pub event_name: Seq<char>,
    pub payload_type: Seq<char>,
}

impl View for EventInfo {
    type V = EventInfoV;

    open spec fn view(&self) -> EventInfoV {
        EventInfoV { event_name: self.event_name@, payload_type: self.payload_type@ }
    }
}

impl DeepView for EventInfo {
    type V = EventInfoV;

    open spec fn deep_view(&self) -> EventInfoV {
        self.view()
    }
}

/// One window-scoped emission: the literal window name, the literal event
/// name, and the payload's target type expression.
pub struct WindowEventInfo {
    pub window_name: String,
    pub event_name: String,
    pub payload_type: String,
}

pub ghost struct WindowEventInfoV {
    pub window_name: Seq<char>,
    pub event_name: Seq<char>,
    pub payload_type: Seq<char>,
}

impl View for WindowEventInfo {
    type V = WindowEventInfoV;

    open spec fn view(&self) -> WindowEventInfoV {
        WindowEventInfoV {
            window_name: self.window_name@,
            event_name: self.event_name@,
            payload_type: self.payload_type@,
        }
    }
}

impl DeepView for WindowEventInfo {
    type V = WindowEventInfoV;

    open spec fn deep_view(&self) -> WindowEventInfoV {
        self.view()
    }
}

/// The declared type of the last parameter with this plain-identifier name.
pub open spec fn spec_lookup_param(params: Seq<ParamNode>, name: Seq<char>) -> Option<TypeNode>
    decreases params.len(),
{
    if params.len() == 0 {
        None
    } else {
        match params.last().name {
            Some(n) => if n@ == name {
                Some(params.last().ty)
            } else {
                spec_lookup_param(params.drop_last(), name)
            },
            None => spec_lookup_param(params.drop_last(), name),
        }
    }
}

fn lookup_param<'a>(params: &'a Vec<ParamNode>, name: &str) -> (r: Option<&'a TypeNode>)
    ensures
        match r {
            Some(ty) => spec_lookup_param(params@, name@) == Some(*ty),
            None => spec_lookup_param(params@, name@) is None,
        },
{
    let mut j: usize = params.len();
    proof {
        assert(params@.take(params@.len() as int) =~= params@);
    }
    while j > 0
        invariant
            j <= params@.len(),
            spec_lookup_param(params@, name@) == spec_lookup_param(
                params@.take(j as int),
                name@,
            ),
        decreases j,
    {
        j = j - 1;
        let p = &params[j];
        proof {
            assert(params@.take(j as int + 1).last() == params@[j as int]);
            assert(params@.take(j as int + 1).drop_last() =~= params@.take(j as int));
        }
        match &p.name {
            Some(n) => {
                if str_eq(n.as_str(), name) {
                    return Some(&p.ty);
                }
            },
            None => {},
        }
    }
    proof {
        assert(params@.take(0) =~= Seq::<ParamNode>::empty());
    }
    None
}

/// The payload type inferred from a payload expression: a plain variable
/// reference resolves to its parameter's declared type, a struct literal to
/// its named type, a primitive literal to its literal kind; anything else
/// falls back to the bottom type.
pub open spec fn spec_payload_type(
    e: ExprNode,
    defined: Seq<Seq<char>>,
    params: Seq<ParamNode>,
) -> Seq<char> {
    match e {
        ExprNode::Var { name } => match spec_lookup_param(params, name@) {
            Some(ty) => spec_type_to_ts(ty, defined, true),
            None => "any"@,
        },
        ExprNode::StructLit { name, children } => spec_path_ts(name@, None, defined, true),
        ExprNode::Lit { kind } => match kind {
            LitKind::Str(s) => "string"@,
            LitKind::Int => "number"@,
            LitKind::Float => "number"@,
            LitKind::Bool => "boolean"@,
            LitKind::Other => "any"@,
        },
        _ => "any"@,
    }
}

/// Infers the payload type of one payload expression.
pub fn payload_type_from_expr(
    expr: &ExprNode,
    defined_types: &Vec<String>,
    params: &Vec<ParamNode>,
) -> (r: String)
    ensures
        r@ == spec_payload_type(*expr, defined_types.deep_view(), params@),
{
    match expr {
        ExprNode::Var { name } => {
            match lookup_param(params, name.as_str()) {
                Some(ty) => type_to_ts(ty, defined_types, true),
                None => String::from_str("any"),
            }
        },
        ExprNode::StructLit { name, children } => {
            let mut segments: Vec<String> = Vec::new();
            segments.push(name.clone());
            let bare = TypeNode::Path { segments, args: None };
            let r = type_to_ts(&bare, defined_types, true);
            proof {
                assert(bare->Path_segments@.last()@ == name@);
            }
            r
        },
        ExprNode::Lit { kind } => match kind {
            LitKind::Str(s) => String::from_str("string"),
            LitKind::Int => String::from_str("number"),
            LitKind::Float => String::from_str("number"),
            LitKind::Bool => String::from_str("boolean"),
            LitKind::Other => String::from_str("any"),
        },
        _ => String::from_str("any"),
    }
}

/// Whether a receiver is bound to one of the two conventional emitter
/// roles: the application handle or the window handle parameter name.
pub open spec fn receiver_is_emitter(e: ExprNode) -> bool {
    match e {
        ExprNode::Var { name } => name@ == "app"@ || name@ == "window"@,
        _ => false,
    }
}

/// The string of a literal expression, when it is a string literal.
pub open spec fn expr_str_lit(e: ExprNode) -> Option<Seq<char>> {
    match e {
        ExprNode::Lit { kind } => match kind {
            LitKind::Str(s) => Some(s@),
            _ => None,
        },
        _ => None,
    }
}

/// The broadcast emission that one method call records, if it matches the
/// broadcast shape on a conventional emitter receiver with a literal name.
pub open spec fn spec_global_emit(
    receiver: ExprNode,
    method: Seq<char>,
    args: Seq<ExprNode>,
    defined: Seq<Seq<char>>,
    params: Seq<ParamNode>,
) -> Seq<EventInfoV> {
    if method == "emit"@ && receiver_is_emitter(receiver) && args.len() >= 1 && expr_str_lit(
        args[0],
    ) is Some {
        seq![
            EventInfoV {
                event_name: expr_str_lit(args[0])->Some_0,
                payload_type: if args.len() >= 2 {
                    spec_payload_type(args[1], defined, params)
                } else {
                    "void"@
                },
            },
        ]
    } else {
        Seq::empty()
    }
}

/// The window-scoped emission that one method call records, if it matches
/// the scoped shape with literal window and event names.
pub open spec fn spec_window_emit(
    method: Seq<char>,
    args: Seq<ExprNode>,
    defined: Seq<Seq<char>>,
    params: Seq<ParamNode>,
) -> Seq<WindowEventInfoV> {
    if method == "emit_to"@ && args.len() >= 2 && expr_str_lit(args[0]) is Some && expr_str_lit(
        args[1],
    ) is Some {
        seq![
            WindowEventInfoV {
                window_name: expr_str_lit(args[0])->Some_0,
                event_name: expr_str_lit(args[1])->Some_0,
                payload_type: if args.len() >= 3 {
                    spec_payload_type(args[2], defined, params)
                } else {
                    "void"@
                },
            },
        ]
    } else {
        Seq::empty()
    }
}

/// The broadcast emissions found in one expression, depth-first: a matching
/// call records its emission before the emissions inside its receiver and
/// arguments.
pub open spec fn spec_global_events(
    e: ExprNode,
    defined: Seq<Seq<char>>,
    params: Seq<ParamNode>,
) -> Seq<EventInfoV>
    decreases e,
{
    match e {
        ExprNode::MethodCall { receiver, method, args } => spec_global_emit(
            *receiver,
            method@,
            args@,
            defined,
            params,
        ) + spec_global_events(*receiver, defined, params) + spec_global_list(
            args@,
            defined,
            params,
        ),
        ExprNode::StructLit { name, children } => spec_global_list(children@, defined, params),
        ExprNode::Other { children } => spec_global_list(children@, defined, params),
        _ => Seq::empty(),
    }
}

pub open spec fn spec_global_list(
    es: Seq<ExprNode>,
    defined: Seq<Seq<char>>,
    params: Seq<ParamNode>,
) -> Seq<EventInfoV>
    decreases es,
{
    if es.len() == 0 {
        Seq::empty()
    } else {
        spec_global_list(es.drop_last(), defined, params) + spec_global_events(
            es.last(),
            defined,
            params,
        )
    }
}

/// The window-scoped emissions found in one expression, depth-first.
pub open spec fn spec_window_events(
    e: ExprNode,
    defined: Seq<Seq<char>>,
    params: Seq<ParamNode>,
) -> Seq<WindowEventInfoV>
    decreases e,
{
    match e {
        ExprNode::MethodCall { receiver, method, args } => spec_window_emit(
            method@,
            args@,
            defined,
            params,
        ) + spec_window_events(*receiver, defined, params) + spec_window_list(
            args@,
            defined,
            params,
        ),
        ExprNode::StructLit { name, children } => spec_window_list(children@, defined, params),
        ExprNode::Other { children } => spec_window_list(children@, defined, params),
        _ => Seq::empty(),
    }
}

pub open spec fn spec_window_list(
    es: Seq<ExprNode>,
    defined: Seq<Seq<char>>,
    params: Seq<ParamNode>,
) -> Seq<WindowEventInfoV>
    decreases es,
{
    if es.len() == 0 {
        Seq::empty()
    } else {
        spec_window_list(es.drop_last(), defined, params) + spec_window_events(
            es.last(),
            defined,
            params,
        )
    }
}

/// Tests whether a receiver is bound to one of the two emitter roles.
fn is_emitter_recv(e: &ExprNode) -> (r: bool)
    ensures
        r == receiver_is_emitter(*e),
{
    match e {
        ExprNode::Var { name } => str_eq(name.as_str(), "app") || str_eq(name.as_str(), "window"),
        _ => false,
    }
}

/// The string of one expression, when it is a string literal.
fn str_lit_of<'a>(e: &'a ExprNode) -> (r: Option<&'a String>)
    ensures
        match r {
            Some(s) => expr_str_lit(*e) == Some(s@),
            None => expr_str_lit(*e) is None,
        },
{
    match e {
        ExprNode::Lit { kind: LitKind::Str(s) } => Some(s),
        _ => None,
    }
}

/// Walks one expression, appending every emission it holds.
fn walk_expr(
    e: &ExprNode,
    defined_types: &Vec<String>,
    params: &Vec<ParamNode>,
    globals: &mut Vec<EventInfo>,
    windows: &mut Vec<WindowEventInfo>,
)
    ensures
        final(globals).deep_view() == old(globals).deep_view() + spec_global_events(
            *e,
            defined_types.deep_view(),
            params@,
        ),
        final(windows).deep_view() == old(windows).deep_view() + spec_window_events(
            *e,
            defined_types.deep_view(),
            params@,
        ),
    decreases *e,
{
    let ghost dv = defined_types.deep_view();
    let ghost pv = params@;
    match e {
        ExprNode::MethodCall { receiver, method, args } => {
            let ghost g0 = globals.deep_view();
            let ghost w0 = windows.deep_view();
            if str_eq(method.as_str(), "emit") {
                let is_emitter = is_emitter_recv(receiver);
                if is_emitter && args.len() >= 1 {
                    match str_lit_of(&args[0]) {
                        Some(s) => {
                            let payload_type = if args.len() >= 2 {
                                payload_type_from_expr(&args[1], defined_types, params)
                            } else {
                                String::from_str("void")
                            };
                            let info = EventInfo { event_name: s.clone(), payload_type };
                            globals.push(info);
                        },
                        None => {},
                    }
                }
            } else if str_eq(method.as_str(), "emit_to") {
                if args.len() >= 2 {
                    let win_lit = str_lit_of(&args[0]);
                    let event_lit = str_lit_of(&args[1]);
                    match (win_lit, event_lit) {
                        (Some(w), Some(ev)) => {
                            let payload_type = if args.len() >= 3 {
                                payload_type_from_expr(&args[2], defined_types, params)
                            } else {
                                String::from_str("void")
                            };
                            let info = WindowEventInfo {
                                window_name: w.clone(),
                                event_name: ev.clone(),
                                payload_type,
                            };
                            windows.push(info);
                        },
                        _ => {},
                    }
                }
            }
            proof {
                reveal_strlit("emit");
                reveal_strlit("emit_to");
                assert("emit"@.len() == 4);
                assert("emit_to"@.len() == 7);
                assert("emit"@ != "emit_to"@);
                if method@ == "emit"@ {
                    assert(spec_window_emit(method@, args@, dv, pv) =~= Seq::<
                        WindowEventInfoV,
                    >::empty());
                } else if method@ == "emit_to"@ {
                    if args@.len() >= 2 && expr_str_lit(args@[0]) is Some && expr_str_lit(
                        args@[1],
                    ) is Some {
                        assert(windows.deep_view() =~= w0 + spec_window_emit(
                            method@,
                            args@,
                            dv,
                            pv,
                        ));
                    } else {
                        assert(spec_window_emit(method@, args@, dv, pv) =~= Seq::<
                            WindowEventInfoV,
                        >::empty());
                    }
                } else {
                    assert(spec_window_emit(method@, args@, dv, pv) =~= Seq::<
                        WindowEventInfoV,
                    >::empty());
                }
                assert(globals.deep_view() =~= g0 + spec_global_emit(
                    *(*receiver),
                    method@,
                    args@,
                    dv,
                    pv,
                ));
                assert(windows.deep_view() =~= w0 + spec_window_emit(method@, args@, dv, pv));
                assert(e->MethodCall_receiver == *receiver);
                assert(decreases_to!(*e => e->MethodCall_receiver));
            }
            walk_expr(receiver, defined_types, params, globals, windows);
            let ghost g2 = globals.deep_view();
            let ghost w2 = windows.deep_view();
            let mut j: usize = 0;
            while j < args.len()
                invariant
                    j <= args@.len(),
                    dv == defined_types.deep_view(),
                    pv == params@,
                    *e == (ExprNode::MethodCall {
                        receiver: *receiver,
                        method: *method,
                        args: *args,
                    }),
                    globals.deep_view() =~= g2 + spec_global_list(args@.take(j as int), dv, pv),
                    windows.deep_view() =~= w2 + spec_window_list(args@.take(j as int), dv, pv),
                decreases args@.len() - j,
            {
                proof {
                    assert(e->MethodCall_args == *args);
                    assert(decreases_to!(*e => e->MethodCall_args));
                    assert(decreases_to!(e->MethodCall_args => e->MethodCall_args@));
                    assert(decreases_to!(e->MethodCall_args@ => e->MethodCall_args@[j as int]));
                    assert(decreases_to!(*e => args@[j as int]));
                }
                walk_expr(&args[j], defined_types, params, globals, windows);
                proof {
                    assert(args@.take(j as int + 1).drop_last() =~= args@.take(j as int));
                    assert(args@.take(j as int + 1).last() == args@[j as int]);
                }
                j = j + 1;
            }
            proof {
                assert(args@.take(args@.len() as int) =~= args@);
                assert(globals.deep_view() =~= g0 + spec_global_events(*e, dv, pv));
                assert(windows.deep_view() =~= w0 + spec_window_events(*e, dv, pv));
            }
        },
        ExprNode::StructLit { name, children } => {
            let ghost g0 = globals.deep_view();
            let ghost w0 = windows.deep_view();
            let mut j: usize = 0;
            while j < children.len()
                invariant
                    j <= children@.len(),
                    dv == defined_types.deep_view(),
                    pv == params@,
                    *e == (ExprNode::StructLit { name: *name, children: *children }),
                    globals.deep_view() =~= g0 + spec_global_list(children@.take(j as int), dv, pv),
                    windows.deep_view() =~= w0 + spec_window_list(children@.take(j as int), dv, pv),
                decreases children@.len() - j,
            {
                proof {
                    assert(e->StructLit_children == *children);
                    assert(decreases_to!(*e => e->StructLit_children));
                    assert(decreases_to!(e->StructLit_children => e->StructLit_children@));
                    assert(decreases_to!(e->StructLit_children@ => e->StructLit_children@[j as int]));
                    assert(decreases_to!(*e => children@[j as int]));
                }
                walk_expr(&children[j], defined_types, params, globals, windows);
                proof {
                    assert(children@.take(j as int + 1).drop_last() =~= children@.take(j as int));
                    assert(children@.take(j as int + 1).last() == children@[j as int]);
                }
                j = j + 1;
            }
            proof {
                assert(children@.take(children@.len() as int) =~= children@);
                assert(globals.deep_view() =~= g0 + spec_global_events(*e, dv, pv));
                assert(windows.deep_view() =~= w0 + spec_window_events(*e, dv, pv));
            }
        },
        ExprNode::Other { children } => {
            let ghost g0 = globals.deep_view();
            let ghost w0 = windows.deep_view();
            let mut j: usize = 0;
            while j < children.len()
                invariant
                    j <= children@.len(),
                    dv == defined_types.deep_view(),
                    pv == params@,
                    *e == (ExprNode::Other { children: *children }),
                    globals.deep_view() =~= g0 + spec_global_list(children@.take(j as int), dv, pv),
                    windows.deep_view() =~= w0 + spec_window_list(children@.take(j as int), dv, pv),
                decreases children@.len() - j,
            {
                proof {
                    assert(e->Other_children == *children);
                    assert(decreases_to!(*e => e->Other_children));
                    assert(decreases_to!(e->Other_children => e->Other_children@));
                    assert(decreases_to!(e->Other_children@ => e->Other_children@[j as int]));
                    assert(decreases_to!(*e => children@[j as int]));
                }
                walk_expr(&children[j], defined_types, params, globals, windows);
                proof {
                    assert(children@.take(j as int + 1).drop_last() =~= children@.take(j as int));
                    assert(children@.take(j as int + 1).last() == children@[j as int]);
                }
                j = j + 1;
            }
            proof {
                assert(children@.take(children@.len() as int) =~= children@);
                assert(globals.deep_view() =~= g0 + spec_global_events(*e, dv, pv));
                assert(windows.deep_view() =~= w0 + spec_window_events(*e, dv, pv));
            }
        },
        _ => {
            proof {
                assert(globals.deep_view() =~= globals.deep_view() + spec_global_events(
                    *e,
                    dv,
                    pv,
                ));
                assert(windows.deep_view() =~= windows.deep_view() + spec_window_events(
                    *e,
                    dv,
                    pv,
                ));
            }
        },
    }
}

/// The broadcast emissions of one procedure's body.
pub open spec fn spec_fn_globals(f: FnNode, defined: Seq<Seq<char>>) -> Seq<EventInfoV> {
    spec_global_list(f.body@, defined, f.inputs@)
}

/// The window-scoped emissions of one procedure's body.
pub open spec fn spec_fn_windows(f: FnNode, defined: Seq<Seq<char>>) -> Seq<WindowEventInfoV> {
    spec_window_list(f.body@, defined, f.inputs@)
}

/// The broadcast emissions of a module's procedures, in declaration order.
pub open spec fn spec_items_globals(items: Seq<ItemNode>, defined: Seq<Seq<char>>) -> Seq<
    EventInfoV,
>
    decreases items.len(),
{
    if items.len() == 0 {
        Seq::empty()
    } else {
        spec_items_globals(items.drop_last(), defined) + (match items.last() {
            ItemNode::Fn(f) => spec_fn_globals(f, defined),
            _ => Seq::empty(),
        })
    }
}

/// The window-scoped emissions of a module's procedures, in declaration
/// order.
pub open spec fn spec_items_windows(items: Seq<ItemNode>, defined: Seq<Seq<char>>) -> Seq<
    WindowEventInfoV,
>
    decreases items.len(),
{
    if items.len() == 0 {
        Seq::empty()
    } else {
        spec_items_windows(items.drop_last(), defined) + (match items.last() {
            ItemNode::Fn(f) => spec_fn_windows(f, defined),
            _ => Seq::empty(),
        })
    }
}

/// Extracts the broadcast and window-scoped emissions of a module's
/// procedures, against the completed extracted-type list.
pub fn extract_events(
    items: &Vec<ItemNode>,
    all_extracted_types: &Vec<ExtractedTypeInfo>,
) -> (r: (Vec<EventInfo>, Vec<WindowEventInfo>))
    ensures
        r.0.deep_view() == spec_items_globals(
            items@,
            crate::commands::spec_type_names(all_extracted_types.deep_view()),
        ),
        r.1.deep_view() == spec_items_windows(
            items@,
            crate::commands::spec_type_names(all_extracted_types.deep_view()),
        ),
{
    let defined_names = crate::commands::type_names(all_extracted_types);
    let ghost dv = defined_names.deep_view();
    let mut globals: Vec<EventInfo> = Vec::new();
    let mut windows: Vec<WindowEventInfo> = Vec::new();
    let mut i: usize = 0;
    while i < items.len()
        invariant
            i <= items@.len(),
            dv == defined_names.deep_view(),
            globals.deep_view() =~= spec_items_globals(items@.take(i as int), dv),
            windows.deep_view() =~= spec_items_windows(items@.take(i as int), dv),
        decreases items@.len() - i,
    {
        let ghost g0 = globals.deep_view();
        let ghost w0 = windows.deep_view();
        match &items[i] {
            ItemNode::Fn(f) => {
                let mut j: usize = 0;
                while j < f.body.len()
                    invariant
                        j <= f.body@.len(),
                        dv == defined_names.deep_view(),
                        items@[i as int] == ItemNode::Fn(*f),
                        globals.deep_view() =~= g0 + spec_global_list(
                            f.body@.take(j as int),
                            dv,
                            f.inputs@,
                        ),
                        windows.deep_view() =~= w0 + spec_window_list(
                            f.body@.take(j as int),
                            dv,
                            f.inputs@,
                        ),
                    decreases f.body@.len() - j,
                {
                    walk_expr(&f.body[j], &defined_names, &f.inputs, &mut globals, &mut windows);
                    proof {
                        assert(f.body@.take(j as int + 1).drop_last() =~= f.body@.take(j as int));
                        assert(f.body@.take(j as int + 1).last() == f.body@[j as int]);
                    }
                    j = j + 1;
                }
                proof {
                    assert(f.body@.take(f.body@.len() as int) =~= f.body@);
                }
            },
            _ => {},
        }
        proof {
            assert(items@.take(i as int + 1).drop_last() =~= items@.take(i as int));
            assert(items@.take(i as int + 1).last() == items@[i as int]);
            assert(globals.deep_view() =~= spec_items_globals(items@.take(i as int + 1), dv));
            assert(windows.deep_view() =~= spec_items_windows(items@.take(i as int + 1), dv));
        }
        i = i + 1;
    }
    proof {
        assert(items@.take(items@.len() as int) =~= items@);
    }
    (globals, windows)
}

} // verus!
