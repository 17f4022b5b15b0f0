//! The syntax tree that the transform reads and rewrites.
//!
//! The tree spells out the shapes that the transform tells apart: identifiers,
//! string literals, member accesses, calls, imports and variable declarations
//! with their binding patterns. Every other construct is an [`Expr::Other`]
//! node, which only hands its children on to the traversal.

use vstd::prelude::*;
use crate::model::{
    CalleeView, CallExprView, ExprView, IdentView, ImportDeclView, ImportSpecifierView,
    MemberExprView, MemberPropView, ModuleExportNameView, ModuleItemView, ModuleView,
    ObjectPatPropView, PatView, plain_ident, PropNameView, Span, VarDeclaratorView, VarDeclKind,
    VarDeclView,
};

verus! {

/// An identifier. `optional` marks the `?` of an optional parameter.
#[derive(Debug, PartialEq, Eq)]
pub struct Ident {
    pub sym: String,
    pub optional: bool,
}

/// The property of a member access.
#[derive(Debug, PartialEq, Eq)]
pub enum MemberProp {
    /// `obj.name`
    Ident(Ident),
    /// `obj.#name`
    PrivateName(String),
    /// `obj[expr]`
    Computed(Box<Expr>),
}

/// A member access `obj.prop`.
#[derive(Debug, PartialEq, Eq)]
pub struct MemberExpr {
    pub obj: Box<Expr>,
    pub prop: MemberProp,
}

/// What a call calls.
#[derive(Debug, PartialEq, Eq)]
pub enum Callee {
    /// `super(..)`
    Super,
    /// `import(..)`
    Import,
    Expr(Box<Expr>),
}

/// A plain call `callee(args)`. `type_args` is the length of the explicit
/// type-argument list, where the call has one.
#[derive(Debug, PartialEq, Eq)]
pub struct CallExpr {
    pub span: Span,
    pub callee: Callee,
    pub args: Vec<Expr>,
    pub type_args: Option<usize>,
}

/// An expression, or any other node below a module item.
#[derive(Debug, PartialEq, Eq)]
pub enum Expr {
    Ident(Ident),
    /// A string literal, by its value.
    Str(String),
    Member(MemberExpr),
    Call(CallExpr),
    /// A spread element `...expr` among arguments or elements.
    Spread(Box<Expr>),
    /// Any other construct (`new`, optional chains, functions, statements,
    /// literals, ...): a label for its kind and its children in source order.
    Other { kind: String, children: Vec<Expr> },
}

/// The key of a property in an object pattern.
#[derive(Debug, PartialEq, Eq)]
pub enum PropName {
    Ident(Ident),
    Str(String),
    /// A numeric key, as written.
    Num(String),
    /// `[expr]`
    Computed(Expr),
}

/// One property of an object pattern.
#[derive(Debug, PartialEq, Eq)]
#[allow(inconsistent_fields)]
pub enum ObjectPatProp {
    /// `{ key }` or `{ key = value }`
    Assign { key: Ident, value: Option<Expr> },
    /// `{ key: value }`
    KeyValue { key: PropName, value: Box<Pat> },
    /// `{ ...rest }`
    Rest(Box<Pat>),
}

/// The left-hand side of a variable declarator.
#[derive(Debug, PartialEq, Eq)]
pub enum Pat {
    Ident(Ident),
    Object { optional: bool, props: Vec<ObjectPatProp> },
    /// Any other pattern, as a node.
    Other(Expr),
}

/// `name = init` inside a variable declaration.
#[derive(Debug, PartialEq, Eq)]
pub struct VarDeclarator {
    pub name: Pat,
    pub init: Option<Expr>,
}

/// A variable declaration statement. `declare` marks an ambient declaration.
#[derive(Debug, PartialEq, Eq)]
pub struct VarDecl {
    pub kind: VarDeclKind,
    pub declare: bool,
    pub decls: Vec<VarDeclarator>,
}

/// The exported name on the left of `as` in an import specifier.
#[derive(Debug, PartialEq, Eq)]
pub enum ModuleExportName {
    Ident(Ident),
    Str(String),
}

/// One specifier of an import declaration.
#[derive(Debug, PartialEq, Eq)]
pub enum ImportSpecifier {
    /// `{ local }` or `{ imported as local }`
    Named { local: Ident, imported: Option<ModuleExportName> },
    /// `local`
    Default { local: Ident },
    /// `* as local`
    Namespace { local: Ident },
}

/// `import specifiers from "src"`. `type_only` marks `import type`.
#[derive(Debug, PartialEq, Eq)]
pub struct ImportDecl {
    pub src: String,
    pub specifiers: Vec<ImportSpecifier>,
    pub type_only: bool,
}

/// A top-level item of a module.
#[derive(Debug, PartialEq, Eq)]
pub enum ModuleItem {
    Import(ImportDecl),
    /// A variable declaration that stands as a statement of its own.
    Var(VarDecl),
    /// Any other statement or declaration, as a node.
    Other(Expr),
}

/// A module: its top-level items in source order.
#[derive(Debug, PartialEq, Eq)]
pub struct Module {
    pub body: Vec<ModuleItem>,
}

impl View for Ident {
    type V = IdentView;

    open spec fn view(&self) -> IdentView {
        IdentView { sym: self.sym@, optional: self.optional }
    }
}

impl Clone for Ident {
    fn clone(&self) -> (copy: Self)
        ensures
            copy == *self,
    {
        Ident { sym: self.sym.clone(), optional: self.optional }
    }
}

impl Ident {
    /// The identifier `sym`, as it stands in an expression.
    pub fn plain(sym: &str) -> (id: Ident)
        ensures
            id@ == plain_ident(sym@),
    {
        Ident { sym: sym.to_owned(), optional: false }
    }
}

impl Expr {
    /// The model of this node.
    pub open spec fn model(self) -> ExprView
        decreases self,
    {
        match self {
            Expr::Ident(id) => ExprView::Ident(id@),
            Expr::Str(value) => ExprView::Str(value@),
            Expr::Member(member) => ExprView::Member(
                MemberExprView {
                    obj: Box::new((*member.obj).model()),
                    prop: match member.prop {
                        MemberProp::Ident(id) => MemberPropView::Ident(id@),
                        MemberProp::PrivateName(name) => MemberPropView::PrivateName(name@),
                        MemberProp::Computed(e) => MemberPropView::Computed(Box::new((*e).model())),
                    },
                },
            ),
            Expr::Call(call) => ExprView::Call(
                CallExprView {
                    span: call.span,
                    callee: match call.callee {
                        Callee::Super => CalleeView::Super,
                        Callee::Import => CalleeView::Import,
                        Callee::Expr(e) => CalleeView::Expr(Box::new((*e).model())),
                    },
                    args: exprs_model(call.args@),
                    type_args: call.type_args,
                },
            ),
            Expr::Spread(e) => ExprView::Spread(Box::new((*e).model())),
            Expr::Other { kind, children } => ExprView::Other {
                kind: kind@,
                children: exprs_model(children@),
            },
        }
    }
}

/// The models of a list of nodes, one by one.
pub open spec fn exprs_model(es: Seq<Expr>) -> Seq<ExprView>
    decreases es,
{
    Seq::new(es.len(), |i: int| if 0 <= i < es.len() { es[i].model() } else { arbitrary() })
}

impl View for Expr {
    type V = ExprView;

    open spec fn view(&self) -> ExprView {
        self.model()
    }
}

impl View for MemberProp {
    type V = MemberPropView;

    open spec fn view(&self) -> MemberPropView {
        match self {
            MemberProp::Ident(id) => MemberPropView::Ident(id@),
            MemberProp::PrivateName(name) => MemberPropView::PrivateName(name@),
            MemberProp::Computed(e) => MemberPropView::Computed(Box::new((**e).model())),
        }
    }
}

impl View for MemberExpr {
    type V = MemberExprView;

    open spec fn view(&self) -> MemberExprView {
        MemberExprView { obj: Box::new((*self.obj).model()), prop: self.prop@ }
    }
}

impl View for Callee {
    type V = CalleeView;

    open spec fn view(&self) -> CalleeView {
        match self {
            Callee::Super => CalleeView::Super,
            Callee::Import => CalleeView::Import,
            Callee::Expr(e) => CalleeView::Expr(Box::new((**e).model())),
        }
    }
}

impl View for CallExpr {
    type V = CallExprView;

    open spec fn view(&self) -> CallExprView {
        CallExprView {
            span: self.span,
            callee: self.callee@,
            args: exprs_model(self.args@),
            type_args: self.type_args,
        }
    }
}

/// The model of an expression that may be absent.
pub open spec fn opt_expr_model(e: Option<Expr>) -> Option<ExprView> {
    match e {
        Some(e) => Some(e.model()),
        None => None,
    }
}

impl View for PropName {
    type V = PropNameView;

    open spec fn view(&self) -> PropNameView {
        match self {
            PropName::Ident(id) => PropNameView::Ident(id@),
            PropName::Str(value) => PropNameView::Str(value@),
            PropName::Num(raw) => PropNameView::Num(raw@),
            PropName::Computed(e) => PropNameView::Computed(e.model()),
        }
    }
}

impl Pat {
    /// The model of this pattern.
    pub open spec fn model(self) -> PatView
        decreases self,
    {
        match self {
            Pat::Ident(id) => PatView::Ident(id@),
            Pat::Object { optional, props } => PatView::Object {
                optional,
                props: props_model(props@),
            },
            Pat::Other(e) => PatView::Other(e.model()),
        }
    }
}

impl ObjectPatProp {
    /// The model of this property.
    pub open spec fn model(self) -> ObjectPatPropView
        decreases self,
    {
        match self {
            ObjectPatProp::Assign { key, value } => ObjectPatPropView::Assign {
                key: key@,
                value: opt_expr_model(value),
            },
            ObjectPatProp::KeyValue { key, value } => ObjectPatPropView::KeyValue {
                key: key@,
                value: Box::new((*value).model()),
            },
            ObjectPatProp::Rest(arg) => ObjectPatPropView::Rest(Box::new((*arg).model())),
        }
    }
}

/// The models of the properties of an object pattern, one by one.
pub open spec fn props_model(ps: Seq<ObjectPatProp>) -> Seq<ObjectPatPropView>
    decreases ps,
{
    Seq::new(ps.len(), |i: int| if 0 <= i < ps.len() { ps[i].model() } else { arbitrary() })
}

impl View for Pat {
    type V = PatView;

    open spec fn view(&self) -> PatView {
        self.model()
    }
}

impl View for ObjectPatProp {
    type V = ObjectPatPropView;

    open spec fn view(&self) -> ObjectPatPropView {
        self.model()
    }
}

impl View for VarDeclarator {
    type V = VarDeclaratorView;

    open spec fn view(&self) -> VarDeclaratorView {
        VarDeclaratorView { name: self.name@, init: opt_expr_model(self.init) }
    }
}

impl View for VarDecl {
    type V = VarDeclView;

    open spec fn view(&self) -> VarDeclView {
        VarDeclView {
            kind: self.kind,
            declare: self.declare,
            decls: self.decls@.map_values(|d: VarDeclarator| d@),
        }
    }
}

impl View for ModuleExportName {
    type V = ModuleExportNameView;

    open spec fn view(&self) -> ModuleExportNameView {
        match self {
            ModuleExportName::Ident(id) => ModuleExportNameView::Ident(id@),
            ModuleExportName::Str(value) => ModuleExportNameView::Str(value@),
        }
    }
}

impl View for ImportSpecifier {
    type V = ImportSpecifierView;

    open spec fn view(&self) -> ImportSpecifierView {
        match self {
            ImportSpecifier::Named { local, imported } => ImportSpecifierView::Named {
                local: local@,
                imported: match imported {
                    Some(name) => Some(name@),
                    None => None,
                },
            },
            ImportSpecifier::Default { local } => ImportSpecifierView::Default { local: local@ },
            ImportSpecifier::Namespace { local } => ImportSpecifierView::Namespace { local: local@ },
        }
    }
}

impl View for ImportDecl {
    type V = ImportDeclView;

    open spec fn view(&self) -> ImportDeclView {
        ImportDeclView {
            src: self.src@,
            specifiers: self.specifiers@.map_values(|s: ImportSpecifier| s@),
            type_only: self.type_only,
        }
    }
}

impl View for ModuleItem {
    type V = ModuleItemView;

    open spec fn view(&self) -> ModuleItemView {
        match self {
            ModuleItem::Import(decl) => ModuleItemView::Import(decl@),
            ModuleItem::Var(decl) => ModuleItemView::Var(decl@),
            ModuleItem::Other(e) => ModuleItemView::Other(e.model()),
        }
    }
}

impl View for Module {
    type V = ModuleView;

    open spec fn view(&self) -> ModuleView {
        ModuleView { body: self.body@.map_values(|i: ModuleItem| i@) }
    }
}

} // verus!
