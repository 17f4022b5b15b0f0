//! The local name of the shim, chosen so that it collides with no identifier
//! of the module.
//!
//! The candidates are `__c`, `__c_`, `__c__` and so on; the alias is the first
//! of them that is not the name of any identifier in the module.

use vstd::prelude::*;
use crate::ast::{
    Callee, CallExpr, Expr, exprs_model, Ident, ImportDecl, ImportSpecifier, MemberProp, Module,
    ModuleExportName, ModuleItem, ObjectPatProp, Pat, PropName, props_model, VarDecl,
};
use crate::constants::{ALIAS_PADDING, INTEROP_ALIAS};
use crate::model::{
    CalleeView, CallExprView, ExprView, IdentView, ImportDeclView, ImportSpecifierView,
    MemberPropView, ModuleExportNameView, ModuleItemView, ModuleView, ObjectPatPropView, PatView,
    plain_ident, PropNameView, VarDeclaratorView, VarDeclView,
};
use crate::seqs::{concat, lemma_concat_take_next};
use crate::text::same_text;

verus! {

/// The names of the identifiers in `e`, in source order.
pub open spec fn expr_names(e: ExprView) -> Seq<Seq<char>>
    decreases e, 0nat,
{
    match e {
        ExprView::Ident(id) => seq![id.sym],
        ExprView::Str(_) => Seq::empty(),
        ExprView::Member(member) => expr_names(*member.obj) + match member.prop {
            MemberPropView::Ident(prop) => seq![prop.sym],
            MemberPropView::PrivateName(_) => Seq::empty(),
            MemberPropView::Computed(c) => expr_names(*c),
        },
        ExprView::Call(call) => call_names(call),
        ExprView::Spread(inner) => expr_names(*inner),
        ExprView::Other { kind, children } => exprs_names(children),
    }
}

/// The names of the identifiers in a call: those of the callee, then those of
/// the arguments.
pub open spec fn call_names(call: CallExprView) -> Seq<Seq<char>>
    decreases call, 0nat,
{
    (match call.callee {
        CalleeView::Expr(callee) => expr_names(*callee),
        _ => Seq::empty(),
    }) + exprs_names(call.args)
}

/// The names of the identifiers in the nodes of `es`.
pub open spec fn exprs_names(es: Seq<ExprView>) -> Seq<Seq<char>>
    decreases es, 1nat,
{
    concat(expr_name_lists(es))
}

/// The names of each node of `es`.
pub open spec fn expr_name_lists(es: Seq<ExprView>) -> Seq<Seq<Seq<char>>>
    decreases es, 0nat,
{
    Seq::new(
        es.len(),
        |i: int|
            if 0 <= i < es.len() {
                expr_names(es[i])
            } else {
                Seq::empty()
            },
    )
}

/// The names in an expression that may be absent.
pub open spec fn opt_expr_names(e: Option<ExprView>) -> Seq<Seq<char>> {
    match e {
        Some(e) => expr_names(e),
        None => Seq::empty(),
    }
}

/// The names in a property key.
pub open spec fn key_names(key: PropNameView) -> Seq<Seq<char>> {
    match key {
        PropNameView::Ident(id) => seq![id.sym],
        PropNameView::Computed(e) => expr_names(e),
        _ => Seq::empty(),
    }
}

/// The names of the identifiers in a pattern.
pub open spec fn pat_names(pat: PatView) -> Seq<Seq<char>>
    decreases pat,
{
    match pat {
        PatView::Ident(id) => seq![id.sym],
        PatView::Object { optional, props } => concat(prop_name_lists(props)),
        PatView::Other(e) => expr_names(e),
    }
}

/// The names of the identifiers in a property of an object pattern.
pub open spec fn prop_names(prop: ObjectPatPropView) -> Seq<Seq<char>>
    decreases prop,
{
    match prop {
        ObjectPatPropView::Assign { key, value } => seq![key.sym] + opt_expr_names(value),
        ObjectPatPropView::KeyValue { key, value } => key_names(key) + pat_names(*value),
        ObjectPatPropView::Rest(arg) => pat_names(*arg),
    }
}

/// The names of each property of `props`.
pub open spec fn prop_name_lists(props: Seq<ObjectPatPropView>) -> Seq<Seq<Seq<char>>>
    decreases props,
{
    Seq::new(
        props.len(),
        |i: int|
            if 0 <= i < props.len() {
                prop_names(props[i])
            } else {
                Seq::empty()
            },
    )
}

/// The names of the identifiers in a declarator.
pub open spec fn declarator_names(declarator: VarDeclaratorView) -> Seq<Seq<char>> {
    pat_names(declarator.name) + opt_expr_names(declarator.init)
}

/// The names of the identifiers in a variable declaration.
pub open spec fn var_decl_names(decl: VarDeclView) -> Seq<Seq<char>> {
    concat(decl.decls.map_values(|d: VarDeclaratorView| declarator_names(d)))
}

/// The names of the identifiers in an import specifier: the imported name
/// where it is an identifier, then the local name.
pub open spec fn specifier_names(specifier: ImportSpecifierView) -> Seq<Seq<char>> {
    match specifier {
        ImportSpecifierView::Named { local, imported } => (match imported {
            Some(ModuleExportNameView::Ident(id)) => seq![id.sym],
            _ => Seq::empty(),
        }) + seq![local.sym],
        ImportSpecifierView::Default { local } => seq![local.sym],
        ImportSpecifierView::Namespace { local } => seq![local.sym],
    }
}

/// The names of the identifiers in an import declaration.
pub open spec fn import_names(decl: ImportDeclView) -> Seq<Seq<char>> {
    concat(decl.specifiers.map_values(|s: ImportSpecifierView| specifier_names(s)))
}

/// The names of the identifiers in a top-level item.
pub open spec fn item_names(item: ModuleItemView) -> Seq<Seq<char>> {
    match item {
        ModuleItemView::Import(decl) => import_names(decl),
        ModuleItemView::Var(decl) => var_decl_names(decl),
        ModuleItemView::Other(e) => expr_names(e),
    }
}

/// The names of all identifiers of a module, in source order.
pub open spec fn module_names(module: ModuleView) -> Seq<Seq<char>> {
    concat(module.body.map_values(|item: ModuleItemView| item_names(item)))
}

/// The `k`-th candidate for the alias: `__c` followed by `k` underscores.
pub open spec fn alias_candidate(k: nat) -> Seq<char> {
    INTEROP_ALIAS@ + Seq::new(k, |i: int| '_')
}

/// Whether candidate `k` is unused while every earlier candidate is taken.
pub open spec fn is_first_unused(taken: Seq<Seq<char>>, k: nat) -> bool {
    &&& !taken.contains(alias_candidate(k))
    &&& forall|j: nat| j < k ==> taken.contains(#[trigger] alias_candidate(j))
}

/// The first candidate that is not among `taken`.
pub open spec fn fresh_alias(taken: Seq<Seq<char>>) -> Seq<char> {
    alias_candidate(choose|k: nat| is_first_unused(taken, k))
}

/// The alias of the shim in `module`, as an identifier.
pub open spec fn module_alias(module: ModuleView) -> IdentView {
    plain_ident(fresh_alias(module_names(module)))
}

/// The length of the longest name among `names`.
pub open spec fn longest(names: Seq<Seq<char>>) -> nat
    decreases names.len(),
{
    if names.len() == 0 {
        0
    } else {
        let rest = longest(names.drop_last());
        if names.last().len() > rest {
            names.last().len()
        } else {
            rest
        }
    }
}

/// No name is longer than the longest.
pub proof fn lemma_longest_bounds(names: Seq<Seq<char>>, i: int)
    requires
        0 <= i < names.len(),
    ensures
        names[i].len() <= longest(names),
    decreases names.len(),
{
    if i < names.len() - 1 {
        lemma_longest_bounds(names.drop_last(), i);
    }
}

/// A candidate longer than every taken name is unused.
proof fn lemma_long_candidate_unused(taken: Seq<Seq<char>>, k: nat)
    requires
        k > longest(taken),
    ensures
        !taken.contains(alias_candidate(k)),
{
    if taken.contains(alias_candidate(k)) {
        let i = choose|i: int| 0 <= i < taken.len() && taken[i] == alias_candidate(k);
        lemma_longest_bounds(taken, i);
    }
}

/// Below an unused candidate there is a first unused one.
proof fn lemma_first_unused_below(taken: Seq<Seq<char>>, k: nat)
    requires
        !taken.contains(alias_candidate(k)),
    ensures
        exists|j: nat| j <= k && is_first_unused(taken, j),
    decreases k,
{
    if !is_first_unused(taken, k) {
        let j = choose|j: nat| j < k && !taken.contains(#[trigger] alias_candidate(j));
        lemma_first_unused_below(taken, j);
    }
}

/// There is exactly one first unused candidate, and the fresh alias is that
/// one.
pub proof fn lemma_first_unused_is_fresh_alias(taken: Seq<Seq<char>>, k: nat)
    requires
        is_first_unused(taken, k),
    ensures
        fresh_alias(taken) == alias_candidate(k),
{
    let c = choose|c: nat| is_first_unused(taken, c);
    if c < k {
        assert(taken.contains(alias_candidate(c)));
    }
    if k < c {
        assert(taken.contains(alias_candidate(k)));
    }
}

/// The fresh alias is none of the taken names.
pub proof fn lemma_fresh_alias_unused(taken: Seq<Seq<char>>)
    ensures
        !taken.contains(fresh_alias(taken)),
        exists|k: nat| is_first_unused(taken, k) && fresh_alias(taken) == alias_candidate(k),
{
    lemma_long_candidate_unused(taken, longest(taken) + 1);
    lemma_first_unused_below(taken, longest(taken) + 1);
    let k = choose|k: nat| is_first_unused(taken, k);
    lemma_first_unused_is_fresh_alias(taken, k);
}

/// The texts of a list of names.
pub open spec fn texts(names: Seq<String>) -> Seq<Seq<char>> {
    names.map_values(|name: String| name@)
}

/// Adds the name of `id` to `out`.
fn push_name(id: &Ident, out: &mut Vec<String>)
    ensures
        texts(final(out)@) == texts(old(out)@) + seq![id@.sym],
{
    out.push(id.sym.clone());
    assert(texts(out@) == texts(old(out)@).push(id.sym@));
}

/// Adds the names of the identifiers in `e` to `out`.
fn collect_expr_names(e: &Expr, out: &mut Vec<String>)
    ensures
        texts(final(out)@) == texts(old(out)@) + expr_names(e@),
    decreases e,
{
    match e {
        Expr::Ident(id) => {
            push_name(id, out);
        },
        Expr::Str(_) => {},
        Expr::Member(member) => {
            collect_expr_names(&member.obj, out);
            match &member.prop {
                MemberProp::Ident(prop) => {
                    push_name(prop, out);
                },
                MemberProp::PrivateName(_) => {},
                MemberProp::Computed(c) => {
                    collect_expr_names(c, out);
                },
            }
        },
        Expr::Call(call) => {
            collect_call_names(call, out);
        },
        Expr::Spread(inner) => {
            collect_expr_names(inner, out);
        },
        Expr::Other { kind, children } => {
            collect_exprs_names(children, out);
        },
    }
}

/// Adds the names of the identifiers in `call` to `out`.
fn collect_call_names(call: &CallExpr, out: &mut Vec<String>)
    ensures
        texts(final(out)@) == texts(old(out)@) + call_names(call@),
    decreases call,
{
    if let Callee::Expr(callee) = &call.callee {
        collect_expr_names(callee, out);
    }
    collect_exprs_names(&call.args, out);
}

/// Adds the names of the identifiers in the nodes of `es` to `out`.
fn collect_exprs_names(es: &Vec<Expr>, out: &mut Vec<String>)
    ensures
        texts(final(out)@) == texts(old(out)@) + exprs_names(exprs_model(es@)),
    decreases es,
{
    let ghost parts = expr_name_lists(exprs_model(es@));
    let mut i: usize = 0;
    while i < es.len()
        invariant
            i <= es.len(),
            parts == expr_name_lists(exprs_model(es@)),
            texts(out@) == texts(old(out)@) + concat(parts.take(i as int)),
        decreases es.len() - i,
    {
        proof {
            lemma_concat_take_next(parts, i as int);
        }
        collect_expr_names(&es[i], out);
        i = i + 1;
    }
    assert(parts.take(es.len() as int) == parts);
}

/// Adds the names of the identifiers in an expression that may be absent.
fn collect_opt_expr_names(e: &Option<Expr>, out: &mut Vec<String>)
    ensures
        texts(final(out)@) == texts(old(out)@) + opt_expr_names(crate::ast::opt_expr_model(*e)),
{
    if let Some(e) = e {
        collect_expr_names(e, out);
    }
}

/// Adds the names of the identifiers in a pattern to `out`.
fn collect_pat_names(pat: &Pat, out: &mut Vec<String>)
    ensures
        texts(final(out)@) == texts(old(out)@) + pat_names(pat@),
    decreases pat,
{
    match pat {
        Pat::Ident(id) => {
            push_name(id, out);
        },
        Pat::Object { optional, props } => {
            collect_props_names(props, out);
        },
        Pat::Other(e) => {
            collect_expr_names(e, out);
        },
    }
}

/// Adds the names of the identifiers in the properties of an object pattern.
fn collect_props_names(props: &Vec<ObjectPatProp>, out: &mut Vec<String>)
    ensures
        texts(final(out)@) == texts(old(out)@) + concat(prop_name_lists(props_model(props@))),
    decreases props,
{
    let ghost parts = prop_name_lists(props_model(props@));
    let mut i: usize = 0;
    while i < props.len()
        invariant
            i <= props.len(),
            parts == prop_name_lists(props_model(props@)),
            texts(out@) == texts(old(out)@) + concat(parts.take(i as int)),
        decreases props.len() - i,
    {
        proof {
            lemma_concat_take_next(parts, i as int);
        }
        collect_prop_names(&props[i], out);
        i = i + 1;
    }
    assert(parts.take(props.len() as int) == parts);
}

/// Adds the names of the identifiers in a property of an object pattern.
fn collect_prop_names(prop: &ObjectPatProp, out: &mut Vec<String>)
    ensures
        texts(final(out)@) == texts(old(out)@) + prop_names(prop@),
    decreases prop,
{
    match prop {
        ObjectPatProp::Assign { key, value } => {
            push_name(key, out);
            collect_opt_expr_names(value, out);
        },
        ObjectPatProp::KeyValue { key, value } => {
            match key {
                PropName::Ident(id) => {
                    push_name(id, out);
                },
                PropName::Computed(e) => {
                    collect_expr_names(e, out);
                },
                _ => {},
            }
            collect_pat_names(value, out);
        },
        ObjectPatProp::Rest(arg) => {
            collect_pat_names(arg, out);
        },
    }
}

/// Adds the names of the identifiers in a variable declaration to `out`.
fn collect_var_decl_names(decl: &VarDecl, out: &mut Vec<String>)
    ensures
        texts(final(out)@) == texts(old(out)@) + var_decl_names(decl@),
{
    let ghost parts = decl@.decls.map_values(|d: VarDeclaratorView| declarator_names(d));
    let mut i: usize = 0;
    while i < decl.decls.len()
        invariant
            i <= decl.decls.len(),
            parts == decl@.decls.map_values(|d: VarDeclaratorView| declarator_names(d)),
            texts(out@) == texts(old(out)@) + concat(parts.take(i as int)),
        decreases decl.decls.len() - i,
    {
        proof {
            lemma_concat_take_next(parts, i as int);
        }
        collect_pat_names(&decl.decls[i].name, out);
        collect_opt_expr_names(&decl.decls[i].init, out);
        i = i + 1;
    }
    assert(parts.take(decl.decls.len() as int) == parts);
}

/// Adds the names of the identifiers in an import declaration to `out`.
fn collect_import_names(decl: &ImportDecl, out: &mut Vec<String>)
    ensures
        texts(final(out)@) == texts(old(out)@) + import_names(decl@),
{
    let ghost parts = decl@.specifiers.map_values(|s: ImportSpecifierView| specifier_names(s));
    let mut i: usize = 0;
    while i < decl.specifiers.len()
        invariant
            i <= decl.specifiers.len(),
            parts == decl@.specifiers.map_values(|s: ImportSpecifierView| specifier_names(s)),
            texts(out@) == texts(old(out)@) + concat(parts.take(i as int)),
        decreases decl.specifiers.len() - i,
    {
        proof {
            lemma_concat_take_next(parts, i as int);
        }
        match &decl.specifiers[i] {
            ImportSpecifier::Named { local, imported } => {
                if let Some(ModuleExportName::Ident(id)) = imported {
                    push_name(id, out);
                }
                push_name(local, out);
            },
            ImportSpecifier::Default { local } => {
                push_name(local, out);
            },
            ImportSpecifier::Namespace { local } => {
                push_name(local, out);
            },
        }
        i = i + 1;
    }
    assert(parts.take(decl.specifiers.len() as int) == parts);
}

/// The names of all identifiers of `module`, in source order.
pub fn names_of_module(module: &Module) -> (names: Vec<String>)
    ensures
        texts(names@) == module_names(module@),
{
    let mut names: Vec<String> = Vec::new();
    let ghost parts = module@.body.map_values(|item: ModuleItemView| item_names(item));
    let mut i: usize = 0;
    while i < module.body.len()
        invariant
            i <= module.body.len(),
            parts == module@.body.map_values(|item: ModuleItemView| item_names(item)),
            texts(names@) == concat(parts.take(i as int)),
        decreases module.body.len() - i,
    {
        proof {
            lemma_concat_take_next(parts, i as int);
        }
        match &module.body[i] {
            ModuleItem::Import(decl) => {
                collect_import_names(decl, &mut names);
            },
            ModuleItem::Var(decl) => {
                collect_var_decl_names(decl, &mut names);
            },
            ModuleItem::Other(e) => {
                collect_expr_names(e, &mut names);
            },
        }
        i = i + 1;
    }
    assert(parts.take(module.body.len() as int) == parts);
    names
}

/// Whether `name` is among `names`.
fn listed(names: &Vec<String>, name: &str) -> (found: bool)
    ensures
        found == texts(names@).contains(name@),
{
    let mut i: usize = 0;
    while i < names.len()
        invariant
            i <= names.len(),
            forall|j: int| 0 <= j < i ==> texts(names@)[j] != name@,
        decreases names.len() - i,
    {
        if same_text(names[i].as_str(), name) {
            assert(texts(names@)[i as int] == name@);
            return true;
        }
        i = i + 1;
    }
    false
}

/// The length of the longest of `names`.
fn longest_length(names: &Vec<String>) -> (most: usize)
    ensures
        most == longest(texts(names@)),
{
    let mut most: usize = 0;
    let mut i: usize = 0;
    while i < names.len()
        invariant
            i <= names.len(),
            most == longest(texts(names@).take(i as int)),
        decreases names.len() - i,
    {
        proof {
            assert(texts(names@).take(i + 1).drop_last() == texts(names@).take(i as int));
            assert(texts(names@).take(i + 1).last() == names[i as int]@);
        }
        let length = names[i].as_str().unicode_len();
        if length > most {
            most = length;
        }
        i = i + 1;
    }
    assert(texts(names@).take(names.len() as int) == texts(names@));
    most
}

/// The first candidate for the alias that is not among `taken`.
pub fn pick_alias(taken: &Vec<String>) -> (alias: Ident)
    ensures
        alias@ == plain_ident(fresh_alias(texts(taken@))),
{
    let bound = longest_length(taken);
    let mut candidate: String = INTEROP_ALIAS.to_owned();
    let ghost mut k: nat = 0;
    proof {
        reveal_strlit("__c");
        assert(candidate@ == alias_candidate(0));
    }
    while listed(taken, candidate.as_str())
        invariant
            bound == longest(texts(taken@)),
            candidate@ == alias_candidate(k),
            INTEROP_ALIAS@.len() == 3,
            forall|j: nat| j < k ==> texts(taken@).contains(#[trigger] alias_candidate(j)),
        decreases bound - k,
    {
        proof {
            let i = choose|i: int|
                0 <= i < texts(taken@).len() && texts(taken@)[i] == alias_candidate(k);
            lemma_longest_bounds(texts(taken@), i);
            reveal_strlit("_");
            assert(alias_candidate(k + 1) == alias_candidate(k) + ALIAS_PADDING@);
        }
        candidate.append(ALIAS_PADDING);
        proof {
            k = k + 1;
        }
    }
    proof {
        lemma_first_unused_is_fresh_alias(texts(taken@), k);
    }
    Ident { sym: candidate, optional: false }
}

} // verus!
