//! What the call-site rewriter does, stated on the model.
//!
//! A call qualifies when it has no type arguments and its callee is a name
//! bound to `createElement`, or `base.createElement` or
//! `base.default.createElement` with `base` bound to React. Every qualifying
//! call of the tree, nested ones too, becomes a call of the shim alias with
//! the same arguments and the same position.

use vstd::prelude::*;
use crate::constants::{CREATE_ELEMENT, DEFAULT};
use crate::model::{
    CalleeView, CallExprView, ExprView, IdentView, MemberExprView, MemberPropView, ModuleItemView,
    ModuleView, ObjectPatPropView, PatView, PropNameView, VarDeclaratorView, VarDeclView,
};
use crate::react_collector::{ImportTarget, ReactImportView};
use crate::seqs::sum;

verus! {

/// Whether `sym` is bound to the React module object.
pub open spec fn is_react(bindings: Seq<ReactImportView>, sym: Seq<char>) -> bool {
    exists|i: int|
        0 <= i < bindings.len() && (#[trigger] bindings[i]).target == ImportTarget::Base
            && bindings[i].ident.sym == sym
}

/// Whether `sym` is bound to `createElement`.
pub open spec fn is_create_element(bindings: Seq<ReactImportView>, sym: Seq<char>) -> bool {
    exists|i: int|
        0 <= i < bindings.len() && (#[trigger] bindings[i]).target == ImportTarget::CreateElement
            && bindings[i].ident.sym == sym
}

/// Whether `member` is `base.default` with `base` bound to React.
pub open spec fn is_react_default_member(
    bindings: Seq<ReactImportView>,
    member: MemberExprView,
) -> bool {
    &&& member.prop matches MemberPropView::Ident(prop)
    &&& prop.sym == DEFAULT@
    &&& *member.obj matches ExprView::Ident(base)
    &&& is_react(bindings, base.sym)
}

/// Whether `member` is `base.createElement` or `base.default.createElement`
/// with `base` bound to React.
pub open spec fn is_create_element_member(
    bindings: Seq<ReactImportView>,
    member: MemberExprView,
) -> bool {
    &&& member.prop matches MemberPropView::Ident(prop)
    &&& prop.sym == CREATE_ELEMENT@
    &&& match *member.obj {
        ExprView::Ident(base) => is_react(bindings, base.sym),
        ExprView::Member(inner) => is_react_default_member(bindings, inner),
        _ => false,
    }
}

/// Whether the call carries a type-argument list that is not empty.
pub open spec fn has_type_args(call: CallExprView) -> bool {
    call.type_args matches Some(n) && n > 0
}

/// Whether the rewriter replaces `call`.
pub open spec fn qualifies(bindings: Seq<ReactImportView>, call: CallExprView) -> bool {
    &&& !has_type_args(call)
    &&& match call.callee {
        CalleeView::Expr(callee) => match *callee {
            ExprView::Ident(id) => !id.optional && is_create_element(bindings, id.sym),
            ExprView::Member(member) => is_create_element_member(bindings, member),
            _ => false,
        },
        _ => false,
    }
}

/// The call of the shim that stands for `call`: the alias as callee, the
/// arguments and the position of `call`, no type arguments.
pub open spec fn interop_call(alias: IdentView, call: CallExprView) -> CallExprView {
    CallExprView {
        span: call.span,
        callee: CalleeView::Expr(Box::new(ExprView::Ident(alias))),
        args: call.args,
        type_args: None,
    }
}

/// Whether `call` calls the shim alias by name.
pub open spec fn is_interop_call(alias: IdentView, call: CallExprView) -> bool {
    call.callee == CalleeView::Expr(Box::new(ExprView::Ident(alias)))
}

/// The predicate "the rewriter replaces this call".
pub open spec fn qualifying(bindings: Seq<ReactImportView>) -> spec_fn(CallExprView) -> bool {
    |call: CallExprView| qualifies(bindings, call)
}

/// The predicate "this call calls the shim alias".
pub open spec fn calling(alias: IdentView) -> spec_fn(CallExprView) -> bool {
    |call: CallExprView| is_interop_call(alias, call)
}

/// `e` with every qualifying call replaced.
pub open spec fn rewrite_expr(
    bindings: Seq<ReactImportView>,
    alias: IdentView,
    e: ExprView,
) -> ExprView
    decreases e,
{
    match e {
        ExprView::Ident(_) => e,
        ExprView::Str(_) => e,
        ExprView::Member(member) => ExprView::Member(
            MemberExprView {
                obj: Box::new(rewrite_expr(bindings, alias, *member.obj)),
                prop: match member.prop {
                    MemberPropView::Computed(c) => MemberPropView::Computed(
                        Box::new(rewrite_expr(bindings, alias, *c)),
                    ),
                    _ => member.prop,
                },
            },
        ),
        ExprView::Call(call) => ExprView::Call(rewrite_call(bindings, alias, call)),
        ExprView::Spread(inner) => ExprView::Spread(
            Box::new(rewrite_expr(bindings, alias, *inner)),
        ),
        ExprView::Other { kind, children } => ExprView::Other {
            kind,
            children: rewrite_exprs(bindings, alias, children),
        },
    }
}

/// `call` after the rewriter: replaced where it qualifies, and with every
/// qualifying call below it replaced.
pub open spec fn rewrite_call(
    bindings: Seq<ReactImportView>,
    alias: IdentView,
    call: CallExprView,
) -> CallExprView
    decreases call,
{
    if qualifies(bindings, call) {
        CallExprView {
            span: call.span,
            callee: CalleeView::Expr(Box::new(ExprView::Ident(alias))),
            args: rewrite_exprs(bindings, alias, call.args),
            type_args: None,
        }
    } else {
        CallExprView {
            span: call.span,
            callee: match call.callee {
                CalleeView::Expr(callee) => CalleeView::Expr(
                    Box::new(rewrite_expr(bindings, alias, *callee)),
                ),
                _ => call.callee,
            },
            args: rewrite_exprs(bindings, alias, call.args),
            type_args: call.type_args,
        }
    }
}

/// The nodes of `es`, each rewritten.
pub open spec fn rewrite_exprs(
    bindings: Seq<ReactImportView>,
    alias: IdentView,
    es: Seq<ExprView>,
) -> Seq<ExprView>
    decreases es,
{
    Seq::new(
        es.len(),
        |i: int|
            if 0 <= i < es.len() {
                rewrite_expr(bindings, alias, es[i])
            } else {
                arbitrary()
            },
    )
}

/// An expression that may be absent, rewritten.
pub open spec fn rewrite_opt_expr(
    bindings: Seq<ReactImportView>,
    alias: IdentView,
    e: Option<ExprView>,
) -> Option<ExprView> {
    match e {
        Some(e) => Some(rewrite_expr(bindings, alias, e)),
        None => None,
    }
}

/// A property key, rewritten: only a computed key holds an expression.
pub open spec fn rewrite_key(
    bindings: Seq<ReactImportView>,
    alias: IdentView,
    key: PropNameView,
) -> PropNameView {
    match key {
        PropNameView::Computed(e) => PropNameView::Computed(rewrite_expr(bindings, alias, e)),
        _ => key,
    }
}

/// A pattern with the expressions inside it rewritten.
pub open spec fn rewrite_pat(bindings: Seq<ReactImportView>, alias: IdentView, pat: PatView) -> PatView
    decreases pat,
{
    match pat {
        PatView::Ident(_) => pat,
        PatView::Object { optional, props } => PatView::Object {
            optional,
            props: rewrite_props(bindings, alias, props),
        },
        PatView::Other(e) => PatView::Other(rewrite_expr(bindings, alias, e)),
    }
}

/// A property of an object pattern with the expressions inside it rewritten.
pub open spec fn rewrite_prop(
    bindings: Seq<ReactImportView>,
    alias: IdentView,
    prop: ObjectPatPropView,
) -> ObjectPatPropView
    decreases prop,
{
    match prop {
        ObjectPatPropView::Assign { key, value } => ObjectPatPropView::Assign {
            key,
            value: rewrite_opt_expr(bindings, alias, value),
        },
        ObjectPatPropView::KeyValue { key, value } => ObjectPatPropView::KeyValue {
            key: rewrite_key(bindings, alias, key),
            value: Box::new(rewrite_pat(bindings, alias, *value)),
        },
        ObjectPatPropView::Rest(arg) => ObjectPatPropView::Rest(
            Box::new(rewrite_pat(bindings, alias, *arg)),
        ),
    }
}

/// The properties of an object pattern, each rewritten.
pub open spec fn rewrite_props(
    bindings: Seq<ReactImportView>,
    alias: IdentView,
    props: Seq<ObjectPatPropView>,
) -> Seq<ObjectPatPropView>
    decreases props,
{
    Seq::new(
        props.len(),
        |i: int|
            if 0 <= i < props.len() {
                rewrite_prop(bindings, alias, props[i])
            } else {
                arbitrary()
            },
    )
}

/// A declarator with its pattern and its initialiser rewritten.
pub open spec fn rewrite_declarator(
    bindings: Seq<ReactImportView>,
    alias: IdentView,
    declarator: VarDeclaratorView,
) -> VarDeclaratorView {
    VarDeclaratorView {
        name: rewrite_pat(bindings, alias, declarator.name),
        init: rewrite_opt_expr(bindings, alias, declarator.init),
    }
}

/// A variable declaration with every declarator rewritten.
pub open spec fn rewrite_var_decl(
    bindings: Seq<ReactImportView>,
    alias: IdentView,
    decl: VarDeclView,
) -> VarDeclView {
    VarDeclView {
        kind: decl.kind,
        declare: decl.declare,
        decls: decl.decls.map_values(
            |d: VarDeclaratorView| rewrite_declarator(bindings, alias, d),
        ),
    }
}

/// A top-level item, rewritten. An import declaration holds no expression.
pub open spec fn rewrite_item(
    bindings: Seq<ReactImportView>,
    alias: IdentView,
    item: ModuleItemView,
) -> ModuleItemView {
    match item {
        ModuleItemView::Import(_) => item,
        ModuleItemView::Var(decl) => ModuleItemView::Var(rewrite_var_decl(bindings, alias, decl)),
        ModuleItemView::Other(e) => ModuleItemView::Other(rewrite_expr(bindings, alias, e)),
    }
}

/// The items of a module, each rewritten.
pub open spec fn rewrite_items(
    bindings: Seq<ReactImportView>,
    alias: IdentView,
    items: Seq<ModuleItemView>,
) -> Seq<ModuleItemView> {
    items.map_values(|item: ModuleItemView| rewrite_item(bindings, alias, item))
}

/// The number of calls in `e`, itself included, of which `p` holds.
pub open spec fn count_expr(p: spec_fn(CallExprView) -> bool, e: ExprView) -> nat
    decreases e, 0nat,
{
    match e {
        ExprView::Ident(_) => 0,
        ExprView::Str(_) => 0,
        ExprView::Member(member) => count_expr(p, *member.obj) + match member.prop {
            MemberPropView::Computed(c) => count_expr(p, *c),
            _ => 0,
        },
        ExprView::Call(call) => count_call(p, call),
        ExprView::Spread(inner) => count_expr(p, *inner),
        ExprView::Other { kind, children } => count_exprs(p, children),
    }
}

/// The number of calls in the callee of a call, of which `p` holds.
pub open spec fn count_callee(p: spec_fn(CallExprView) -> bool, call: CallExprView) -> nat
    decreases call, 0nat,
{
    match call.callee {
        CalleeView::Expr(callee) => count_expr(p, *callee),
        _ => 0,
    }
}

/// The number of calls among `call` and the calls below it, of which `p`
/// holds.
pub open spec fn count_call(p: spec_fn(CallExprView) -> bool, call: CallExprView) -> nat
    decreases call, 1nat,
{
    (if p(call) {
        1nat
    } else {
        0nat
    }) + count_callee(p, call) + count_exprs(p, call.args)
}

/// The number of calls in the nodes of `es`, of which `p` holds.
pub open spec fn count_exprs(p: spec_fn(CallExprView) -> bool, es: Seq<ExprView>) -> nat
    decreases es, 1nat,
{
    sum(expr_counts(p, es))
}

/// The count of each node of `es`.
pub open spec fn expr_counts(p: spec_fn(CallExprView) -> bool, es: Seq<ExprView>) -> Seq<nat>
    decreases es, 0nat,
{
    Seq::new(
        es.len(),
        |i: int|
            if 0 <= i < es.len() {
                count_expr(p, es[i])
            } else {
                0
            },
    )
}

/// The count of an expression that may be absent.
pub open spec fn count_opt_expr(p: spec_fn(CallExprView) -> bool, e: Option<ExprView>) -> nat {
    match e {
        Some(e) => count_expr(p, e),
        None => 0,
    }
}

/// The count of a property key.
pub open spec fn count_key(p: spec_fn(CallExprView) -> bool, key: PropNameView) -> nat {
    match key {
        PropNameView::Computed(e) => count_expr(p, e),
        _ => 0,
    }
}

/// The number of calls inside a pattern, of which `p` holds.
pub open spec fn count_pat(p: spec_fn(CallExprView) -> bool, pat: PatView) -> nat
    decreases pat,
{
    match pat {
        PatView::Ident(_) => 0,
        PatView::Object { optional, props } => sum(prop_counts(p, props)),
        PatView::Other(e) => count_expr(p, e),
    }
}

/// The number of calls inside a property of an object pattern, of which `p`
/// holds.
pub open spec fn count_prop(p: spec_fn(CallExprView) -> bool, prop: ObjectPatPropView) -> nat
    decreases prop,
{
    match prop {
        ObjectPatPropView::Assign { key, value } => count_opt_expr(p, value),
        ObjectPatPropView::KeyValue { key, value } => count_key(p, key) + count_pat(p, *value),
        ObjectPatPropView::Rest(arg) => count_pat(p, *arg),
    }
}

/// The count of each property of `props`.
pub open spec fn prop_counts(p: spec_fn(CallExprView) -> bool, props: Seq<ObjectPatPropView>) -> Seq<
    nat,
>
    decreases props,
{
    Seq::new(
        props.len(),
        |i: int|
            if 0 <= i < props.len() {
                count_prop(p, props[i])
            } else {
                0
            },
    )
}

/// The number of calls inside a declarator, of which `p` holds.
pub open spec fn count_declarator(
    p: spec_fn(CallExprView) -> bool,
    declarator: VarDeclaratorView,
) -> nat {
    count_pat(p, declarator.name) + count_opt_expr(p, declarator.init)
}

/// The number of calls inside a variable declaration, of which `p` holds.
pub open spec fn count_var_decl(p: spec_fn(CallExprView) -> bool, decl: VarDeclView) -> nat {
    sum(decl.decls.map_values(|d: VarDeclaratorView| count_declarator(p, d)))
}

/// The number of calls inside a top-level item, of which `p` holds.
pub open spec fn count_item(p: spec_fn(CallExprView) -> bool, item: ModuleItemView) -> nat {
    match item {
        ModuleItemView::Import(_) => 0,
        ModuleItemView::Var(decl) => count_var_decl(p, decl),
        ModuleItemView::Other(e) => count_expr(p, e),
    }
}

/// The number of calls inside the items of a module, of which `p` holds.
pub open spec fn count_items(p: spec_fn(CallExprView) -> bool, items: Seq<ModuleItemView>) -> nat {
    sum(items.map_values(|item: ModuleItemView| count_item(p, item)))
}

/// The number of calls in a module that the rewriter replaces.
pub open spec fn replacements(bindings: Seq<ReactImportView>, module: ModuleView) -> nat {
    count_items(qualifying(bindings), module.body)
}

} // verus!
