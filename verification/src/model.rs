//! The mathematical model of a module: the syntax tree as plain values.
//!
//! Every type of [`crate::ast`] has a view in this file. Contracts are stated
//! over these views; names are sequences of characters and lists are
//! sequences.

use vstd::prelude::*;

verus! {

/// Source position of a node: byte offsets of its first byte and of the byte
/// after its last one. Nodes that the transform creates carry [`dummy_span`].
#[derive(Clone, Copy, Debug, PartialEq, Eq, Structural)]
pub struct Span {
    pub lo: u32,
    pub hi: u32,
}

/// Position of a node that has no place in the source text.
pub open spec fn dummy_span() -> Span {
    Span { lo: 0, hi: 0 }
}

impl Span {
    /// The position of a node that has no place in the source text.
    pub fn dummy() -> (s: Span)
        ensures
            s == dummy_span(),
    {
        Span { lo: 0, hi: 0 }
    }
}

/// Keyword of a variable declaration.
#[derive(Clone, Copy, Debug, PartialEq, Eq, Structural)]
pub enum VarDeclKind {
    Var,
    Let,
    Const,
}

/// An identifier: its name, and whether it carries the `?` of an optional
/// parameter.
pub struct IdentView {
    pub sym: Seq<char>,
    pub optional: bool,
}

/// The property of a member access: `.name`, `.#name` or `[expr]`.
pub enum MemberPropView {
    Ident(IdentView),
    PrivateName(Seq<char>),
    Computed(Box<ExprView>),
}

/// A member access `obj.prop`.
pub struct MemberExprView {
    pub obj: Box<ExprView>,
    pub prop: MemberPropView,
}

/// What a call calls: `super`, `import` or an expression.
pub enum CalleeView {
    Super,
    Import,
    Expr(Box<ExprView>),
}

/// A plain call: its position, callee and arguments, and the length of its
/// type-argument list where it has one.
pub struct CallExprView {
    pub span: Span,
    pub callee: CalleeView,
    pub args: Seq<ExprView>,
    pub type_args: Option<usize>,
}

/// An expression, or any other node below a module item. `Other` stands for
/// every construct that the transform only passes through: it has a label and
/// its children in source order.
pub enum ExprView {
    Ident(IdentView),
    Str(Seq<char>),
    Member(MemberExprView),
    Call(CallExprView),
    Spread(Box<ExprView>),
    Other { kind: Seq<char>, children: Seq<ExprView> },
}

/// The key of a property in an object pattern: an identifier, a string
/// literal, a number as written, or `[expr]`.
pub enum PropNameView {
    Ident(IdentView),
    Str(Seq<char>),
    Num(Seq<char>),
    Computed(ExprView),
}

/// One property of an object pattern: `{ key }` or `{ key = value }`,
/// `{ key: value }`, or `{ ...rest }`.
#[allow(inconsistent_fields)]
pub enum ObjectPatPropView {
    Assign { key: IdentView, value: Option<ExprView> },
    KeyValue { key: PropNameView, value: Box<PatView> },
    Rest(Box<PatView>),
}

/// The left-hand side of a declarator: a name, an object pattern, or any
/// other pattern as a node.
pub enum PatView {
    Ident(IdentView),
    Object { optional: bool, props: Seq<ObjectPatPropView> },
    Other(ExprView),
}

/// `name = init` inside a variable declaration.
pub struct VarDeclaratorView {
    pub name: PatView,
    pub init: Option<ExprView>,
}

/// A variable declaration; `declare` marks an ambient one.
pub struct VarDeclView {
    pub kind: VarDeclKind,
    pub declare: bool,
    pub decls: Seq<VarDeclaratorView>,
}

/// The exported name on the left of `as` in an import specifier.
pub enum ModuleExportNameView {
    Ident(IdentView),
    Str(Seq<char>),
}

/// One specifier of an import declaration.
pub enum ImportSpecifierView {
    Named { local: IdentView, imported: Option<ModuleExportNameView> },
    Default { local: IdentView },
    Namespace { local: IdentView },
}

/// An import declaration; `type_only` marks `import type`.
pub struct ImportDeclView {
    pub src: Seq<char>,
    pub specifiers: Seq<ImportSpecifierView>,
    pub type_only: bool,
}

/// A top-level item: an import, a variable declaration that is a statement
/// of its own, or anything else as a node.
pub enum ModuleItemView {
    Import(ImportDeclView),
    Var(VarDeclView),
    Other(ExprView),
}

/// A module: its top-level items in source order.
pub struct ModuleView {
    pub body: Seq<ModuleItemView>,
}

/// The identifier `sym` as it stands in an expression.
pub open spec fn plain_ident(sym: Seq<char>) -> IdentView {
    IdentView { sym, optional: false }
}

} // verus!
