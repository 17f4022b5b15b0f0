//! Facts about the rewriter that hold of every tree.

use vstd::prelude::*;
use crate::model::{
    CalleeView, CallExprView, ExprView, IdentView, MemberPropView, ModuleItemView,
    ObjectPatPropView, PatView, PropNameView, VarDeclaratorView,
};
use crate::react_collector::ReactImportView;
use crate::hygiene::{
    call_names, declarator_names, expr_name_lists, expr_names, exprs_names, item_names, key_names,
    opt_expr_names, pat_names, prop_name_lists, prop_names,
};
use crate::rewrite::{
    calling, count_call, count_callee, count_declarator, count_expr, count_exprs, count_item,
    count_items, count_pat, count_prop, expr_counts, is_interop_call, prop_counts, qualifies,
    qualifying, rewrite_call, rewrite_declarator, rewrite_expr, rewrite_exprs, rewrite_item,
    rewrite_items, rewrite_pat, rewrite_prop, rewrite_props, rewrite_var_decl,
};
use crate::seqs::{concat, lemma_append_contains, lemma_concat_contains, lemma_sum_zero};

verus! {

/// The callee of a qualifying call holds no call.
pub proof fn lemma_qualifying_callee_holds_no_call(
    bindings: Seq<ReactImportView>,
    p: spec_fn(CallExprView) -> bool,
    call: CallExprView,
)
    requires
        qualifies(bindings, call),
    ensures
        count_callee(p, call) == 0,
{
    let callee = *call.callee->Expr_0;
    match callee {
        ExprView::Member(member) => {
            match *member.obj {
                ExprView::Member(inner) => {
                    assert(count_expr(p, *inner.obj) == 0);
                    assert(count_expr(p, *member.obj) == 0);
                },
                _ => {
                    assert(count_expr(p, *member.obj) == 0);
                },
            }
            assert(count_expr(p, callee) == 0);
        },
        _ => {
            assert(count_expr(p, callee) == 0);
        },
    }
}

/// An expression without a qualifying call is left as it is.
pub proof fn lemma_expr_without_replacement(
    bindings: Seq<ReactImportView>,
    alias: IdentView,
    e: ExprView,
)
    requires
        count_expr(qualifying(bindings), e) == 0,
    ensures
        rewrite_expr(bindings, alias, e) == e,
    decreases e,
{
    match e {
        ExprView::Ident(_) => {},
        ExprView::Str(_) => {},
        ExprView::Member(member) => {
            lemma_expr_without_replacement(bindings, alias, *member.obj);
            match member.prop {
                MemberPropView::Computed(c) => {
                    lemma_expr_without_replacement(bindings, alias, *c);
                },
                _ => {},
            }
        },
        ExprView::Call(call) => {
            lemma_call_without_replacement(bindings, alias, call);
        },
        ExprView::Spread(inner) => {
            lemma_expr_without_replacement(bindings, alias, *inner);
        },
        ExprView::Other { kind, children } => {
            lemma_exprs_without_replacement(bindings, alias, children);
        },
    }
}

/// A call without a qualifying call in it is left as it is.
pub proof fn lemma_call_without_replacement(
    bindings: Seq<ReactImportView>,
    alias: IdentView,
    call: CallExprView,
)
    requires
        count_call(qualifying(bindings), call) == 0,
    ensures
        rewrite_call(bindings, alias, call) == call,
    decreases call,
{
    assert(!qualifies(bindings, call));
    match call.callee {
        CalleeView::Expr(callee) => {
            lemma_expr_without_replacement(bindings, alias, *callee);
        },
        _ => {},
    }
    lemma_exprs_without_replacement(bindings, alias, call.args);
}

/// Nodes without a qualifying call are left as they are.
pub proof fn lemma_exprs_without_replacement(
    bindings: Seq<ReactImportView>,
    alias: IdentView,
    es: Seq<ExprView>,
)
    requires
        count_exprs(qualifying(bindings), es) == 0,
    ensures
        rewrite_exprs(bindings, alias, es) == es,
    decreases es,
{
    lemma_sum_zero(expr_counts(qualifying(bindings), es));
    assert forall|i: int| 0 <= i < es.len() implies rewrite_expr(bindings, alias, es[i])
        == es[i] by {
        assert(expr_counts(qualifying(bindings), es)[i] == 0);
        lemma_expr_without_replacement(bindings, alias, es[i]);
    }
    assert(rewrite_exprs(bindings, alias, es) =~= es);
}

/// A pattern without a qualifying call is left as it is.
pub proof fn lemma_pat_without_replacement(
    bindings: Seq<ReactImportView>,
    alias: IdentView,
    pat: PatView,
)
    requires
        count_pat(qualifying(bindings), pat) == 0,
    ensures
        rewrite_pat(bindings, alias, pat) == pat,
    decreases pat,
{
    match pat {
        PatView::Ident(_) => {},
        PatView::Object { optional, props } => {
            lemma_sum_zero(prop_counts(qualifying(bindings), props));
            assert forall|i: int| 0 <= i < props.len() implies rewrite_prop(
                bindings,
                alias,
                props[i],
            ) == props[i] by {
                assert(prop_counts(qualifying(bindings), props)[i] == 0);
                lemma_prop_without_replacement(bindings, alias, props[i]);
            }
            assert(rewrite_props(bindings, alias, props) =~= props);
        },
        PatView::Other(e) => {
            lemma_expr_without_replacement(bindings, alias, e);
        },
    }
}

/// A property without a qualifying call is left as it is.
pub proof fn lemma_prop_without_replacement(
    bindings: Seq<ReactImportView>,
    alias: IdentView,
    prop: ObjectPatPropView,
)
    requires
        count_prop(qualifying(bindings), prop) == 0,
    ensures
        rewrite_prop(bindings, alias, prop) == prop,
    decreases prop,
{
    match prop {
        ObjectPatPropView::Assign { key, value } => {
            if let Some(e) = value {
                lemma_expr_without_replacement(bindings, alias, e);
            }
        },
        ObjectPatPropView::KeyValue { key, value } => {
            if let PropNameView::Computed(e) = key {
                lemma_expr_without_replacement(bindings, alias, e);
            }
            lemma_pat_without_replacement(bindings, alias, *value);
        },
        ObjectPatPropView::Rest(arg) => {
            lemma_pat_without_replacement(bindings, alias, *arg);
        },
    }
}

/// A top-level item without a qualifying call is left as it is.
pub proof fn lemma_item_without_replacement(
    bindings: Seq<ReactImportView>,
    alias: IdentView,
    item: ModuleItemView,
)
    requires
        count_item(qualifying(bindings), item) == 0,
    ensures
        rewrite_item(bindings, alias, item) == item,
{
    let p = qualifying(bindings);
    match item {
        ModuleItemView::Import(_) => {},
        ModuleItemView::Var(decl) => {
            lemma_sum_zero(decl.decls.map_values(|d: VarDeclaratorView| count_declarator(p, d)));
            assert forall|i: int| 0 <= i < decl.decls.len() implies rewrite_declarator(
                bindings,
                alias,
                decl.decls[i],
            ) == decl.decls[i] by {
                let d = decl.decls[i];
                assert(decl.decls.map_values(|d: VarDeclaratorView| count_declarator(p, d))[i]
                    == 0);
                lemma_pat_without_replacement(bindings, alias, d.name);
                if let Some(e) = d.init {
                    lemma_expr_without_replacement(bindings, alias, e);
                }
            }
            assert(rewrite_var_decl(bindings, alias, decl).decls =~= decl.decls);
        },
        ModuleItemView::Other(e) => {
            lemma_expr_without_replacement(bindings, alias, e);
        },
    }
}

/// Items without a qualifying call are left as they are.
pub proof fn lemma_items_without_replacement(
    bindings: Seq<ReactImportView>,
    alias: IdentView,
    items: Seq<ModuleItemView>,
)
    requires
        count_items(qualifying(bindings), items) == 0,
    ensures
        rewrite_items(bindings, alias, items) == items,
{
    let p = qualifying(bindings);
    lemma_sum_zero(items.map_values(|item: ModuleItemView| count_item(p, item)));
    assert forall|i: int| 0 <= i < items.len() implies rewrite_item(bindings, alias, items[i])
        == items[i] by {
        assert(items.map_values(|item: ModuleItemView| count_item(p, item))[i] == 0);
        lemma_item_without_replacement(bindings, alias, items[i]);
    }
    assert(rewrite_items(bindings, alias, items) =~= items);
}

/// Among the rewritten nodes, an identifier is one that was there before.
pub proof fn lemma_rewritten_ident(
    bindings: Seq<ReactImportView>,
    alias: IdentView,
    e: ExprView,
    id: IdentView,
)
    requires
        rewrite_expr(bindings, alias, e) == ExprView::Ident(id),
    ensures
        e == ExprView::Ident(id),
{
}

/// Where the alias names no identifier of `e`, the calls of the alias in the
/// rewritten `e` are as many as the qualifying calls in `e`.
pub proof fn lemma_interop_calls_in_rewritten_expr(
    bindings: Seq<ReactImportView>,
    alias: IdentView,
    e: ExprView,
)
    requires
        !expr_names(e).contains(alias.sym),
    ensures
        count_expr(calling(alias), rewrite_expr(bindings, alias, e)) == count_expr(
            qualifying(bindings),
            e,
        ),
    decreases e,
{
    match e {
        ExprView::Ident(_) => {},
        ExprView::Str(_) => {},
        ExprView::Member(member) => {
            let rest = match member.prop {
                MemberPropView::Ident(prop) => seq![prop.sym],
                MemberPropView::PrivateName(_) => Seq::empty(),
                MemberPropView::Computed(c) => expr_names(*c),
            };
            lemma_append_contains(expr_names(*member.obj), rest, alias.sym);
            lemma_interop_calls_in_rewritten_expr(bindings, alias, *member.obj);
            match member.prop {
                MemberPropView::Computed(c) => {
                    lemma_interop_calls_in_rewritten_expr(bindings, alias, *c);
                },
                _ => {},
            }
        },
        ExprView::Call(call) => {
            lemma_interop_calls_in_rewritten_call(bindings, alias, call);
        },
        ExprView::Spread(inner) => {
            lemma_interop_calls_in_rewritten_expr(bindings, alias, *inner);
        },
        ExprView::Other { kind, children } => {
            lemma_interop_calls_in_rewritten_exprs(bindings, alias, children);
        },
    }
}

/// Where the alias names no identifier of `call`, the calls of the alias in
/// the rewritten `call` are as many as the qualifying calls in `call`.
pub proof fn lemma_interop_calls_in_rewritten_call(
    bindings: Seq<ReactImportView>,
    alias: IdentView,
    call: CallExprView,
)
    requires
        !call_names(call).contains(alias.sym),
    ensures
        count_call(calling(alias), rewrite_call(bindings, alias, call)) == count_call(
            qualifying(bindings),
            call,
        ),
    decreases call,
{
    let callee_names = match call.callee {
        CalleeView::Expr(callee) => expr_names(*callee),
        _ => Seq::empty(),
    };
    lemma_append_contains(callee_names, exprs_names(call.args), alias.sym);
    lemma_interop_calls_in_rewritten_exprs(bindings, alias, call.args);
    let out = rewrite_call(bindings, alias, call);
    if qualifies(bindings, call) {
        lemma_qualifying_callee_holds_no_call(bindings, qualifying(bindings), call);
        assert(is_interop_call(alias, out));
        assert(count_callee(calling(alias), out) == 0);
    } else {
        match call.callee {
            CalleeView::Expr(callee) => {
                lemma_interop_calls_in_rewritten_expr(bindings, alias, *callee);
                if is_interop_call(alias, out) {
                    lemma_rewritten_ident(bindings, alias, *callee, alias);
                    assert(expr_names(*callee)[0] == alias.sym);
                }
            },
            _ => {},
        }
        assert(!is_interop_call(alias, out));
    }
}

/// Where the alias names no identifier of `es`, the calls of the alias in the
/// rewritten nodes are as many as the qualifying calls in `es`.
pub proof fn lemma_interop_calls_in_rewritten_exprs(
    bindings: Seq<ReactImportView>,
    alias: IdentView,
    es: Seq<ExprView>,
)
    requires
        !exprs_names(es).contains(alias.sym),
    ensures
        count_exprs(calling(alias), rewrite_exprs(bindings, alias, es)) == count_exprs(
            qualifying(bindings),
            es,
        ),
    decreases es,
{
    lemma_concat_contains(expr_name_lists(es), alias.sym);
    let after = expr_counts(calling(alias), rewrite_exprs(bindings, alias, es));
    let before = expr_counts(qualifying(bindings), es);
    assert forall|i: int| 0 <= i < es.len() implies after[i] == before[i] by {
        assert(!expr_name_lists(es)[i].contains(alias.sym));
        lemma_interop_calls_in_rewritten_expr(bindings, alias, es[i]);
    }
    assert(after =~= before);
}

/// Where the alias names no identifier of `pat`, the calls of the alias in
/// the rewritten `pat` are as many as the qualifying calls in `pat`.
pub proof fn lemma_interop_calls_in_rewritten_pat(
    bindings: Seq<ReactImportView>,
    alias: IdentView,
    pat: PatView,
)
    requires
        !pat_names(pat).contains(alias.sym),
    ensures
        count_pat(calling(alias), rewrite_pat(bindings, alias, pat)) == count_pat(
            qualifying(bindings),
            pat,
        ),
    decreases pat,
{
    match pat {
        PatView::Ident(_) => {},
        PatView::Object { optional, props } => {
            lemma_concat_contains(prop_name_lists(props), alias.sym);
            let after = prop_counts(calling(alias), rewrite_props(bindings, alias, props));
            let before = prop_counts(qualifying(bindings), props);
            assert forall|i: int| 0 <= i < props.len() implies after[i] == before[i] by {
                assert(!prop_name_lists(props)[i].contains(alias.sym));
                lemma_interop_calls_in_rewritten_prop(bindings, alias, props[i]);
            }
            assert(after =~= before);
        },
        PatView::Other(e) => {
            lemma_interop_calls_in_rewritten_expr(bindings, alias, e);
        },
    }
}

/// Where the alias names no identifier of `prop`, the calls of the alias in
/// the rewritten `prop` are as many as the qualifying calls in `prop`.
pub proof fn lemma_interop_calls_in_rewritten_prop(
    bindings: Seq<ReactImportView>,
    alias: IdentView,
    prop: ObjectPatPropView,
)
    requires
        !prop_names(prop).contains(alias.sym),
    ensures
        count_prop(calling(alias), rewrite_prop(bindings, alias, prop)) == count_prop(
            qualifying(bindings),
            prop,
        ),
    decreases prop,
{
    match prop {
        ObjectPatPropView::Assign { key, value } => {
            lemma_append_contains(seq![key.sym], opt_expr_names(value), alias.sym);
            if let Some(e) = value {
                lemma_interop_calls_in_rewritten_expr(bindings, alias, e);
            }
        },
        ObjectPatPropView::KeyValue { key, value } => {
            lemma_append_contains(key_names(key), pat_names(*value), alias.sym);
            if let PropNameView::Computed(e) = key {
                lemma_interop_calls_in_rewritten_expr(bindings, alias, e);
            }
            lemma_interop_calls_in_rewritten_pat(bindings, alias, *value);
        },
        ObjectPatPropView::Rest(arg) => {
            lemma_interop_calls_in_rewritten_pat(bindings, alias, *arg);
        },
    }
}

/// Where the alias names no identifier of `item`, the calls of the alias in
/// the rewritten `item` are as many as the qualifying calls in `item`.
pub proof fn lemma_interop_calls_in_rewritten_item(
    bindings: Seq<ReactImportView>,
    alias: IdentView,
    item: ModuleItemView,
)
    requires
        !item_names(item).contains(alias.sym),
    ensures
        count_item(calling(alias), rewrite_item(bindings, alias, item)) == count_item(
            qualifying(bindings),
            item,
        ),
{
    match item {
        ModuleItemView::Import(_) => {},
        ModuleItemView::Var(decl) => {
            let names = decl.decls.map_values(|d: VarDeclaratorView| declarator_names(d));
            lemma_concat_contains(names, alias.sym);
            let after = rewrite_var_decl(bindings, alias, decl).decls.map_values(
                |d: VarDeclaratorView| count_declarator(calling(alias), d),
            );
            let before = decl.decls.map_values(
                |d: VarDeclaratorView| count_declarator(qualifying(bindings), d),
            );
            assert forall|i: int| 0 <= i < decl.decls.len() implies after[i] == before[i] by {
                let d = decl.decls[i];
                assert(!names[i].contains(alias.sym));
                lemma_append_contains(pat_names(d.name), opt_expr_names(d.init), alias.sym);
                lemma_interop_calls_in_rewritten_pat(bindings, alias, d.name);
                if let Some(e) = d.init {
                    lemma_interop_calls_in_rewritten_expr(bindings, alias, e);
                }
            }
            assert(after =~= before);
        },
        ModuleItemView::Other(e) => {
            lemma_interop_calls_in_rewritten_expr(bindings, alias, e);
        },
    }
}

/// Where the alias names no identifier of `items`, the calls of the alias in
/// the rewritten items are as many as the qualifying calls in `items`.
pub proof fn lemma_interop_calls_in_rewritten_items(
    bindings: Seq<ReactImportView>,
    alias: IdentView,
    items: Seq<ModuleItemView>,
)
    requires
        !concat(items.map_values(|item: ModuleItemView| item_names(item))).contains(alias.sym),
    ensures
        count_items(calling(alias), rewrite_items(bindings, alias, items)) == count_items(
            qualifying(bindings),
            items,
        ),
{
    let names = items.map_values(|item: ModuleItemView| item_names(item));
    lemma_concat_contains(names, alias.sym);
    let after = rewrite_items(bindings, alias, items).map_values(
        |item: ModuleItemView| count_item(calling(alias), item),
    );
    let before = items.map_values(|item: ModuleItemView| count_item(qualifying(bindings), item));
    assert forall|i: int| 0 <= i < items.len() implies after[i] == before[i] by {
        assert(!names[i].contains(alias.sym));
        lemma_interop_calls_in_rewritten_item(bindings, alias, items[i]);
    }
    assert(after =~= before);
}

/// Where `p` holds of no call, no call of `e` counts.
pub proof fn lemma_nothing_to_count_in_expr(p: spec_fn(CallExprView) -> bool, e: ExprView)
    requires
        forall|call: CallExprView| !(#[trigger] p(call)),
    ensures
        count_expr(p, e) == 0,
    decreases e,
{
    match e {
        ExprView::Ident(_) => {},
        ExprView::Str(_) => {},
        ExprView::Member(member) => {
            lemma_nothing_to_count_in_expr(p, *member.obj);
            match member.prop {
                MemberPropView::Computed(c) => {
                    lemma_nothing_to_count_in_expr(p, *c);
                },
                _ => {},
            }
        },
        ExprView::Call(call) => {
            match call.callee {
                CalleeView::Expr(callee) => {
                    lemma_nothing_to_count_in_expr(p, *callee);
                },
                _ => {},
            }
            lemma_nothing_to_count_in_exprs(p, call.args);
            assert(!p(call));
            assert(count_callee(p, call) == 0);
            assert(count_call(p, call) == 0);
        },
        ExprView::Spread(inner) => {
            lemma_nothing_to_count_in_expr(p, *inner);
        },
        ExprView::Other { kind, children } => {
            lemma_nothing_to_count_in_exprs(p, children);
        },
    }
}

/// Where `p` holds of no call, no call of `es` counts.
pub proof fn lemma_nothing_to_count_in_exprs(p: spec_fn(CallExprView) -> bool, es: Seq<ExprView>)
    requires
        forall|call: CallExprView| !(#[trigger] p(call)),
    ensures
        count_exprs(p, es) == 0,
    decreases es,
{
    assert forall|i: int| 0 <= i < es.len() implies expr_counts(p, es)[i] == 0 by {
        lemma_nothing_to_count_in_expr(p, es[i]);
    }
    lemma_sum_zero(expr_counts(p, es));
}

/// Where `p` holds of no call, no call of `pat` counts.
pub proof fn lemma_nothing_to_count_in_pat(p: spec_fn(CallExprView) -> bool, pat: PatView)
    requires
        forall|call: CallExprView| !(#[trigger] p(call)),
    ensures
        count_pat(p, pat) == 0,
    decreases pat,
{
    match pat {
        PatView::Ident(_) => {},
        PatView::Object { optional, props } => {
            assert forall|i: int| 0 <= i < props.len() implies prop_counts(p, props)[i] == 0 by {
                lemma_nothing_to_count_in_prop(p, props[i]);
            }
            lemma_sum_zero(prop_counts(p, props));
        },
        PatView::Other(e) => {
            lemma_nothing_to_count_in_expr(p, e);
        },
    }
}

/// Where `p` holds of no call, no call of `prop` counts.
pub proof fn lemma_nothing_to_count_in_prop(
    p: spec_fn(CallExprView) -> bool,
    prop: ObjectPatPropView,
)
    requires
        forall|call: CallExprView| !(#[trigger] p(call)),
    ensures
        count_prop(p, prop) == 0,
    decreases prop,
{
    match prop {
        ObjectPatPropView::Assign { key, value } => {
            if let Some(e) = value {
                lemma_nothing_to_count_in_expr(p, e);
            }
        },
        ObjectPatPropView::KeyValue { key, value } => {
            if let PropNameView::Computed(e) = key {
                lemma_nothing_to_count_in_expr(p, e);
            }
            lemma_nothing_to_count_in_pat(p, *value);
        },
        ObjectPatPropView::Rest(arg) => {
            lemma_nothing_to_count_in_pat(p, *arg);
        },
    }
}

/// Where `p` holds of no call, no call of `items` counts.
pub proof fn lemma_nothing_to_count_in_items(
    p: spec_fn(CallExprView) -> bool,
    items: Seq<ModuleItemView>,
)
    requires
        forall|call: CallExprView| !(#[trigger] p(call)),
    ensures
        count_items(p, items) == 0,
{
    let counts = items.map_values(|item: ModuleItemView| count_item(p, item));
    assert forall|i: int| 0 <= i < items.len() implies counts[i] == 0 by {
        match items[i] {
            ModuleItemView::Import(_) => {},
            ModuleItemView::Var(decl) => {
                let each = decl.decls.map_values(|d: VarDeclaratorView| count_declarator(p, d));
                assert forall|j: int| 0 <= j < decl.decls.len() implies each[j] == 0 by {
                    lemma_nothing_to_count_in_pat(p, decl.decls[j].name);
                    if let Some(e) = decl.decls[j].init {
                        lemma_nothing_to_count_in_expr(p, e);
                    }
                }
                lemma_sum_zero(each);
            },
            ModuleItemView::Other(e) => {
                lemma_nothing_to_count_in_expr(p, e);
            },
        }
    }
    lemma_sum_zero(counts);
}

/// Without bindings no call qualifies.
pub proof fn lemma_no_binding_no_replacement(items: Seq<ModuleItemView>)
    ensures
        count_items(qualifying(Seq::empty()), items) == 0,
{
    let p = qualifying(Seq::<ReactImportView>::empty());
    assert forall|call: CallExprView| !(#[trigger] p(call)) by {
        assert(!qualifies(Seq::empty(), call));
    }
    lemma_nothing_to_count_in_items(p, items);
}

} // verus!
