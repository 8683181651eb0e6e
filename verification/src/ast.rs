//! The library's own model of a backend module's declared syntax.
//!
//! Declarations arrive here as plain data: a caller outside the library
//! parses the module source and hands over values of these types. Every
//! extraction function works on this model alone.

use vstd::prelude::*;

verus! {

/// One generic argument of a path segment: a type, or something the
/// extraction never reads (a lifetime, a const argument, a binding).
pub enum GenericArg {
    Type(TypeNode),
    Other,
}

/// A declared type.
///
/// `Path` keeps every segment name and, when the last segment carries an
/// angle-bracketed argument list, that list in order; `args` is `None` when
/// the last segment has no such list. `Opaque` stands for any type the
/// extraction does not inspect (a function pointer, a raw pointer, a macro
/// in type position, ...).
pub enum TypeNode {
    Path { segments: Vec<String>, args: Option<Vec<GenericArg>> },
    Reference(Box<TypeNode>),
    Tuple(Vec<TypeNode>),
    Opaque,
}

/// The kind of a literal expression.
pub enum LitKind {
    Str(String),
    Int,
    Float,
    Bool,
    Other,
}

/// An expression, kept only as deeply as event detection reads it.
///
/// `Var` is a path expression consisting of one plain identifier.
/// `StructLit` keeps the literal's last path-segment name and the
/// expressions of its fields. `Other` stands for every remaining
/// expression kind and keeps its child expressions in source order,
/// so that a walk still reaches every nested call.
pub enum ExprNode {
    MethodCall { receiver: Box<ExprNode>, method: String, args: Vec<ExprNode> },
    Var { name: String },
    StructLit { name: String, children: Vec<ExprNode> },
    Lit { kind: LitKind },
    Other { children: Vec<ExprNode> },
}

/// An attribute, kept only as deeply as the extraction reads it.
///
/// `Derive` holds the paths listed by a derive attribute, each path as its
/// segment names. `Doc` holds the string value of one documentation
/// attribute. `Marker` holds any other attribute's path segments.
pub enum AttrNode {
    Derive(Vec<Vec<String>>),
    Doc(String),
    Marker(Vec<String>),
}

/// A named field of a struct or of a struct-like enum variant.
pub struct FieldNode {
    pub name: String,
    pub ty: TypeNode,
    pub attrs: Vec<AttrNode>,
}

/// A struct declaration. `fields` is empty for unit and tuple structs.
pub struct StructNode {
    pub name: String,
    pub attrs: Vec<AttrNode>,
    pub fields: Vec<FieldNode>,
}

/// The shape of one enum variant.
pub enum VariantKind {
    Unit,
    Tuple(Vec<TypeNode>),
    Struct(Vec<FieldNode>),
}

/// An enum variant.
pub struct VariantNode {
    pub name: String,
    pub attrs: Vec<AttrNode>,
    pub kind: VariantKind,
}

/// An enum declaration.
pub struct EnumNode {
    pub name: String,
    pub attrs: Vec<AttrNode>,
    pub variants: Vec<VariantNode>,
}

/// A typed procedure parameter. `name` is `None` when the parameter's
/// pattern is not a plain identifier.
pub struct ParamNode {
    pub name: Option<String>,
    pub ty: TypeNode,
}

/// A procedure declaration. `output` is `None` when no return type is
/// declared. `body` holds the expressions of the body in source order.
pub struct FnNode {
    pub name: String,
    pub attrs: Vec<AttrNode>,
    pub inputs: Vec<ParamNode>,
    pub output: Option<TypeNode>,
    pub body: Vec<ExprNode>,
}

/// One node of an import declaration's tree.
pub enum UseTreeNode {
    Path { ident: String, tree: Box<UseTreeNode> },
    Name { ident: String },
    Rename { ident: String, rename: String },
    Group { items: Vec<UseTreeNode> },
    Glob,
}

/// A top-level declaration of a module. `Other` stands for every
/// declaration kind the extraction does not read.
pub enum ItemNode {
    Struct(StructNode),
    Enum(EnumNode),
    Fn(FnNode),
    Use(UseTreeNode),
    Other,
}

} // verus!
