//! What holds of the transform for every module.

use vstd::prelude::*;
use crate::constants::{REACT_NATIVE_CSS_INTEROP_PACKAGE, REACT_PACKAGE, REQUIRE};
use crate::denial::is_denied;
use crate::hygiene::{
    alias_candidate, declarator_names, fresh_alias, is_first_unused, item_names, key_names,
    lemma_fresh_alias_unused, module_alias, module_names, opt_expr_names, pat_names,
    prop_name_lists, prop_names, specifier_names,
};
use crate::model::{
    CallExprView, IdentView, ImportSpecifierView, ModuleItemView, ModuleView, ObjectPatPropView,
    PatView, plain_ident, VarDeclaratorView,
};
use crate::react_collector::{
    first_prop_binding, import_specifiers_bindings, item_bindings, items_bindings, module_bindings,
    ModuleType, pattern_bindings, prop_binding, ReactImportView,
};
use crate::rewrite::{
    calling, count_call, count_callee, count_declarator, count_expr, count_exprs, count_item,
    count_items, count_pat, count_prop, expr_counts, interop_call, is_create_element,
    is_interop_call, prop_counts, qualifies, qualifying, replacements, rewrite_call, rewrite_expr,
    rewrite_item, rewrite_items, rewrite_pat, rewrite_prop, rewrite_props,
};
use crate::rewrite_laws::{
    lemma_exprs_without_replacement, lemma_interop_calls_in_rewritten_items,
    lemma_items_without_replacement, lemma_no_binding_no_replacement,
};
use crate::seqs::{concat, lemma_append_contains, lemma_concat_contains, lemma_sum_prepend, sum};
use crate::transform::{cjs_shim, esm_shim, shim, shim_form, transform};

verus! {

/// A module in a denied file is returned as it is.
pub proof fn denied_module_is_unchanged(filename: Option<Seq<char>>, module: ModuleView)
    ensures
        is_denied(filename) ==> transform(is_denied(filename), module) == module,
{
}

/// A module without a React binding holds no qualifying call and is returned
/// as it is.
pub proof fn module_without_react_is_unchanged(denied: bool, module: ModuleView)
    ensures
        module_bindings(module).len() == 0 ==> {
            &&& replacements(module_bindings(module), module) == 0
            &&& transform(denied, module) == module
        },
{
    if module_bindings(module).len() == 0 {
        assert(module_bindings(module) =~= Seq::<ReactImportView>::empty());
        lemma_no_binding_no_replacement(module.body);
    }
}

/// Where no call of a module qualifies, the rewriter pass leaves every item
/// as it is, and the module is returned as it is.
pub proof fn module_without_replacement_is_unchanged(denied: bool, module: ModuleView)
    ensures
        replacements(module_bindings(module), module) == 0 ==> {
            &&& rewrite_items(module_bindings(module), module_alias(module), module.body)
                == module.body
            &&& transform(denied, module) == module
        },
{
    if replacements(module_bindings(module), module) == 0 {
        lemma_items_without_replacement(
            module_bindings(module),
            module_alias(module),
            module.body,
        );
    }
}

/// The alias of a module is the name of none of its identifiers.
pub proof fn alias_is_unused_in_module(module: ModuleView)
    ensures
        !module_names(module).contains(module_alias(module).sym),
        exists|k: nat|
            is_first_unused(module_names(module), k) && module_alias(module).sym
                == alias_candidate(k),
{
    lemma_fresh_alias_unused(module_names(module));
}

/// The `k`-th candidate for the alias, as an identifier.
spec fn plain_alias(k: nat) -> IdentView {
    plain_ident(alias_candidate(k))
}

/// No candidate for the alias is spelled `require`.
proof fn lemma_alias_is_not_require(k: nat)
    ensures
        alias_candidate(k) != REQUIRE@,
{
    reveal_strlit("__c");
    reveal_strlit("require");
    assert(alias_candidate(k)[0] == '_');
    assert(REQUIRE@[0] == 'r');
}

/// The shim binding holds no call of the alias.
proof fn lemma_shim_holds_no_interop_call(form: ModuleType, k: nat)
    ensures
        count_item(calling(plain_alias(k)), shim(form, plain_alias(k))) == 0,
{
    let alias = plain_alias(k);
    let p = calling(alias);
    match form {
        ModuleType::Esm => {},
        ModuleType::Cjs => {
            lemma_alias_is_not_require(k);
            let decl = cjs_shim(alias)->Var_0;
            let declarator = decl.decls[0];
            let init = declarator.init->0;
            assert(count_expr(p, init->Call_0.args[0]) == 0);
            assert(expr_counts(p, init->Call_0.args) =~= seq![0nat]);
            assert(seq![0nat].drop_last() =~= Seq::<nat>::empty());
            assert(sum(seq![0nat]) == 0) by {
                reveal_with_fuel(sum, 2);
            }
            assert(count_exprs(p, init->Call_0.args) == 0);
            assert(count_callee(p, init->Call_0) == 0);
            assert(!is_interop_call(alias, init->Call_0));
            assert(count_call(p, init->Call_0) == 0);
            assert(count_expr(p, init) == 0);
            let props = declarator.name->Object_props;
            assert(count_prop(p, props[0]) == 0);
            assert(prop_counts(p, props) =~= seq![0nat]);
            assert(count_pat(p, declarator.name) == 0);
            assert(count_declarator(p, declarator) == 0);
            assert(decl.decls.map_values(
                |d: VarDeclaratorView| count_declarator(p, d),
            ) =~= seq![0nat]);
        },
    }
}

/// In a module in which a call qualifies, unless its file is denied, the
/// first item of the result is the shim binding, as an import or as a
/// `require` declaration, and the result holds as many calls of the alias as
/// the module holds qualifying calls.
pub proof fn rewritten_module_starts_with_shim(denied: bool, module: ModuleView)
    ensures
        !denied && replacements(module_bindings(module), module) > 0 ==> {
            let out = transform(denied, module);
            let alias = module_alias(module);
            &&& out.body.len() == module.body.len() + 1
            &&& out.body[0] == shim(shim_form(module_bindings(module)), alias)
            &&& (out.body[0] == esm_shim(alias) || out.body[0] == cjs_shim(alias))
            &&& count_items(calling(alias), out.body) == replacements(
                module_bindings(module),
                module,
            )
        },
{
    let bindings = module_bindings(module);
    if !denied && replacements(bindings, module) > 0 {
        let alias = module_alias(module);
        let out = transform(denied, module);
        let rewritten = rewrite_items(bindings, alias, module.body);
        if bindings.len() == 0 {
            assert(bindings =~= Seq::<ReactImportView>::empty());
            lemma_no_binding_no_replacement(module.body);
        }
        assert(out.body == seq![shim(shim_form(bindings), alias)] + rewritten);
        lemma_fresh_alias_unused(module_names(module));
        let k = choose|k: nat|
            is_first_unused(module_names(module), k) && fresh_alias(module_names(module))
                == alias_candidate(k);
        assert(alias == plain_alias(k));
        lemma_shim_holds_no_interop_call(shim_form(bindings), k);
        lemma_interop_calls_in_rewritten_items(bindings, alias, module.body);
        let counts = rewritten.map_values(|item: ModuleItemView| count_item(calling(alias), item));
        assert(out.body.map_values(|item: ModuleItemView| count_item(calling(alias), item))
            =~= seq![0nat] + counts);
        lemma_sum_prepend(0, counts);
    }
}

/// A replaced call keeps its position and its arguments: as many, in the
/// same order, each rewritten in turn and a spread where there was one.
/// Where no argument holds a qualifying call, the arguments are the very
/// same.
pub proof fn replaced_call_keeps_its_arguments(
    bindings: Seq<ReactImportView>,
    alias: IdentView,
    call: CallExprView,
)
    requires
        qualifies(bindings, call),
    ensures
        interop_call(alias, call).args == call.args,
        rewrite_call(bindings, alias, call).span == call.span,
        rewrite_call(bindings, alias, call).type_args is None,
        is_interop_call(alias, rewrite_call(bindings, alias, call)),
        rewrite_call(bindings, alias, call).args.len() == call.args.len(),
        forall|i: int|
            0 <= i < call.args.len() ==> {
                &&& (#[trigger] rewrite_call(bindings, alias, call).args[i]) == rewrite_expr(
                    bindings,
                    alias,
                    call.args[i],
                )
                &&& rewrite_call(bindings, alias, call).args[i] is Spread
                    <==> call.args[i] is Spread
            },
        count_exprs(qualifying(bindings), call.args) == 0 ==> rewrite_call(
            bindings,
            alias,
            call,
        ).args == call.args,
{
    if count_exprs(qualifying(bindings), call.args) == 0 {
        lemma_exprs_without_replacement(bindings, alias, call.args);
    }
}

/// The binding that a property of an object pattern makes is named in the
/// property.
proof fn lemma_prop_binding_named(prop: ObjectPatPropView)
    ensures
        prop_binding(prop) matches Some(local) ==> prop_names(prop).contains(local.sym),
{
    match prop {
        ObjectPatPropView::Assign { key, value } => {
            lemma_append_contains(seq![key.sym], opt_expr_names(value), key.sym);
            assert(seq![key.sym][0] == key.sym);
        },
        ObjectPatPropView::KeyValue { key, value } => {
            if let PatView::Ident(local) = *value {
                lemma_append_contains(key_names(key), pat_names(*value), local.sym);
                assert(pat_names(*value)[0] == local.sym);
            }
        },
        ObjectPatPropView::Rest(_) => {},
    }
}

/// The first binding among properties is the binding of one of them.
proof fn lemma_first_prop_binding_index(props: Seq<ObjectPatPropView>)
    ensures
        first_prop_binding(props) matches Some(local) ==> exists|k: int|
            0 <= k < props.len() && prop_binding(#[trigger] props[k]) == Some(local),
    decreases props.len(),
{
    if props.len() > 0 {
        if prop_binding(props[0]) is None {
            lemma_first_prop_binding_index(props.drop_first());
            if let Some(local) = first_prop_binding(props.drop_first()) {
                let k = choose|k: int|
                    0 <= k < props.drop_first().len() && prop_binding(
                        #[trigger] props.drop_first()[k],
                    ) == Some(local);
                assert(props.drop_first()[k] == props[k + 1]);
            }
        }
    }
}

/// Rewriting does not change the binding that a property makes.
proof fn lemma_prop_binding_after_rewrite(
    bindings: Seq<ReactImportView>,
    alias: IdentView,
    prop: ObjectPatPropView,
)
    ensures
        prop_binding(rewrite_prop(bindings, alias, prop)) == prop_binding(prop),
{
}

/// Rewriting does not change the first binding among properties.
proof fn lemma_first_prop_binding_after_rewrite(
    bindings: Seq<ReactImportView>,
    alias: IdentView,
    props: Seq<ObjectPatPropView>,
)
    ensures
        first_prop_binding(rewrite_props(bindings, alias, props)) == first_prop_binding(props),
    decreases props.len(),
{
    if props.len() > 0 {
        lemma_prop_binding_after_rewrite(bindings, alias, props[0]);
        lemma_first_prop_binding_after_rewrite(bindings, alias, props.drop_first());
        assert(rewrite_props(bindings, alias, props).drop_first() =~= rewrite_props(
            bindings,
            alias,
            props.drop_first(),
        ));
    }
}

/// Rewriting does not change the bindings that a pattern makes.
proof fn lemma_pattern_bindings_after_rewrite(
    bindings: Seq<ReactImportView>,
    alias: IdentView,
    name: PatView,
)
    ensures
        pattern_bindings(rewrite_pat(bindings, alias, name)) == pattern_bindings(name),
{
    if let PatView::Object { optional, props } = name {
        lemma_first_prop_binding_after_rewrite(bindings, alias, props);
    }
}

/// The bindings that a pattern makes are named in the pattern.
proof fn lemma_pattern_bindings_named(name: PatView, j: int)
    requires
        0 <= j < pattern_bindings(name).len(),
    ensures
        pat_names(name).contains(pattern_bindings(name)[j].ident.sym),
{
    match name {
        PatView::Ident(id) => {
            assert(pat_names(name)[0] == id.sym);
        },
        PatView::Object { optional, props } => {
            lemma_first_prop_binding_index(props);
            let local = first_prop_binding(props)->0;
            let k = choose|k: int|
                0 <= k < props.len() && prop_binding(#[trigger] props[k]) == Some(local);
            lemma_prop_binding_named(props[k]);
            assert(prop_name_lists(props)[k].contains(local.sym));
            lemma_concat_contains(prop_name_lists(props), local.sym);
        },
        PatView::Other(_) => {},
    }
}

/// The bindings of import specifiers are named in the specifiers.
proof fn lemma_specifier_bindings_named(specifiers: Seq<ImportSpecifierView>, j: int)
    requires
        0 <= j < import_specifiers_bindings(specifiers).len(),
    ensures
        concat(specifiers.map_values(|s: ImportSpecifierView| specifier_names(s))).contains(
            import_specifiers_bindings(specifiers)[j].ident.sym,
        ),
    decreases specifiers.len(),
{
    let names = specifiers.map_values(|s: ImportSpecifierView| specifier_names(s));
    let sym = import_specifiers_bindings(specifiers)[j].ident.sym;
    let front = specifiers.drop_last();
    if j < import_specifiers_bindings(front).len() {
        lemma_specifier_bindings_named(front, j);
        let front_names = front.map_values(|s: ImportSpecifierView| specifier_names(s));
        lemma_concat_contains(front_names, sym);
        let k = choose|k: int| 0 <= k < front_names.len() && #[trigger] front_names[k].contains(sym);
        assert(names[k].contains(sym));
    } else {
        let last = specifiers.last();
        let k = specifiers.len() - 1;
        match last {
            ImportSpecifierView::Named { local, imported } => {
                let first = specifier_names(last).subrange(0, specifier_names(last).len() - 1);
                assert(specifier_names(last).last() == local.sym);
            },
            ImportSpecifierView::Default { local } => {
                assert(specifier_names(last)[0] == local.sym);
            },
            ImportSpecifierView::Namespace { local } => {
                assert(specifier_names(last)[0] == local.sym);
            },
        }
        assert(names[k].contains(sym));
    }
    lemma_concat_contains(names, sym);
}

/// Whether `after` binds what `before` binds: the same import, or a variable
/// declaration with as many declarators whose pattern makes the same
/// bindings.
pub open spec fn binds_alike(after: ModuleItemView, before: ModuleItemView) -> bool {
    match before {
        ModuleItemView::Import(_) => after == before,
        ModuleItemView::Var(decl) => {
            &&& after matches ModuleItemView::Var(changed)
            &&& changed.decls.len() == decl.decls.len()
            &&& decl.decls.len() == 1 ==> pattern_bindings(changed.decls[0].name)
                == pattern_bindings(decl.decls[0].name)
        },
        ModuleItemView::Other(_) => after is Other,
    }
}

/// A rewritten item binds what the item binds.
proof fn lemma_rewritten_item_binds_alike(
    bindings: Seq<ReactImportView>,
    alias: IdentView,
    item: ModuleItemView,
)
    ensures
        binds_alike(rewrite_item(bindings, alias, item), item),
{
    if let ModuleItemView::Var(decl) = item {
        if decl.decls.len() == 1 {
            lemma_pattern_bindings_after_rewrite(bindings, alias, decl.decls[0].name);
        }
    }
}

/// The bindings of an item are named in any item that binds alike.
proof fn lemma_item_bindings_named(after: ModuleItemView, before: ModuleItemView, j: int)
    requires
        binds_alike(after, before),
        0 <= j < item_bindings(after).len(),
    ensures
        item_names(before).contains(item_bindings(after)[j].ident.sym),
{
    match before {
        ModuleItemView::Import(decl) => {
            lemma_specifier_bindings_named(decl.specifiers, j);
        },
        ModuleItemView::Var(decl) => {
            let sym = item_bindings(after)[j].ident.sym;
            let name = decl.decls[0].name;
            lemma_pattern_bindings_named(name, j);
            let names = decl.decls.map_values(|d: VarDeclaratorView| declarator_names(d));
            lemma_append_contains(pat_names(name), opt_expr_names(decl.decls[0].init), sym);
            assert(names[0].contains(sym));
            lemma_concat_contains(names, sym);
        },
        ModuleItemView::Other(_) => {},
    }
}

/// The bindings of items are named in any items that bind alike.
proof fn lemma_items_bindings_named(
    after: Seq<ModuleItemView>,
    before: Seq<ModuleItemView>,
    j: int,
)
    requires
        after.len() == before.len(),
        forall|k: int| 0 <= k < before.len() ==> binds_alike(#[trigger] after[k], before[k]),
        0 <= j < items_bindings(after).len(),
    ensures
        concat(before.map_values(|item: ModuleItemView| item_names(item))).contains(
            items_bindings(after)[j].ident.sym,
        ),
    decreases after.len(),
{
    let names = before.map_values(|item: ModuleItemView| item_names(item));
    let sym = items_bindings(after)[j].ident.sym;
    let front = after.drop_last();
    if j < items_bindings(front).len() {
        assert forall|k: int| 0 <= k < before.drop_last().len() implies binds_alike(
            #[trigger] front[k],
            before.drop_last()[k],
        ) by {
            assert(binds_alike(after[k], before[k]));
        }
        lemma_items_bindings_named(front, before.drop_last(), j);
        let front_names = before.drop_last().map_values(|item: ModuleItemView| item_names(item));
        lemma_concat_contains(front_names, sym);
        let k = choose|k: int| 0 <= k < front_names.len() && #[trigger] front_names[k].contains(sym);
        assert(names[k].contains(sym));
    } else {
        let k = after.len() - 1;
        assert(binds_alike(after[k], before[k]));
        lemma_item_bindings_named(after.last(), before.last(), j - items_bindings(front).len());
        assert(names[k].contains(sym));
    }
    lemma_concat_contains(names, sym);
}

/// The shim binding is no React binding.
proof fn lemma_shim_binds_nothing(form: ModuleType, alias: IdentView)
    ensures
        item_bindings(shim(form, alias)).len() == 0,
{
    reveal_strlit("react");
    reveal_strlit("react-native-css-interop");
    assert(REACT_NATIVE_CSS_INTEROP_PACKAGE@.len() != REACT_PACKAGE@.len());
}

/// The bindings of a list of items with one more item in front.
proof fn lemma_items_bindings_prepend(first: ModuleItemView, rest: Seq<ModuleItemView>)
    ensures
        items_bindings(seq![first] + rest) == item_bindings(first) + items_bindings(rest),
    decreases rest.len(),
{
    if rest.len() == 0 {
        reveal_with_fuel(items_bindings, 2);
        assert(seq![first] + rest =~= seq![first]);
        assert(seq![first].drop_last() =~= Seq::<ModuleItemView>::empty());
        assert(item_bindings(first) + Seq::<ReactImportView>::empty() =~= item_bindings(first));
        assert(Seq::<ReactImportView>::empty() + item_bindings(first) =~= item_bindings(first));
    } else {
        assert((seq![first] + rest).drop_last() =~= seq![first] + rest.drop_last());
        lemma_items_bindings_prepend(first, rest.drop_last());
        assert((item_bindings(first) + items_bindings(rest.drop_last())) + item_bindings(
            rest.last(),
        ) =~= item_bindings(first) + (items_bindings(rest.drop_last()) + item_bindings(
            rest.last(),
        )));
    }
}

/// Every React binding of a transformed module is named by an identifier of
/// the module as it was.
pub proof fn bindings_after_transform_are_named_before(denied: bool, module: ModuleView, j: int)
    requires
        0 <= j < module_bindings(transform(denied, module)).len(),
    ensures
        module_names(module).contains(module_bindings(transform(denied, module))[j].ident.sym),
{
    let out = transform(denied, module);
    if out == module {
        assert forall|k: int| 0 <= k < module.body.len() implies binds_alike(
            #[trigger] module.body[k],
            module.body[k],
        ) by {}
        lemma_items_bindings_named(module.body, module.body, j);
    } else {
        let bindings = module_bindings(module);
        let alias = module_alias(module);
        let first = shim(shim_form(bindings), alias);
        let rest = rewrite_items(bindings, alias, module.body);
        lemma_items_bindings_prepend(first, rest);
        lemma_shim_binds_nothing(shim_form(bindings), alias);
        assert(item_bindings(first) + items_bindings(rest) =~= items_bindings(rest));
        assert forall|k: int| 0 <= k < module.body.len() implies binds_alike(
            #[trigger] rest[k],
            module.body[k],
        ) by {
            lemma_rewritten_item_binds_alike(bindings, alias, module.body[k]);
        }
        lemma_items_bindings_named(rest, module.body, j);
    }
}

/// A call of the alias does not qualify when the transformed module is
/// transformed again: the alias is none of its React bindings.
pub proof fn synthesized_calls_are_not_rewritten_again(
    denied: bool,
    module: ModuleView,
    call: CallExprView,
)
    requires
        is_interop_call(module_alias(module), call),
    ensures
        !is_create_element(
            module_bindings(transform(denied, module)),
            module_alias(module).sym,
        ),
        !qualifies(module_bindings(transform(denied, module)), call),
{
    let again = module_bindings(transform(denied, module));
    let alias = module_alias(module);
    lemma_fresh_alias_unused(module_names(module));
    assert forall|j: int| 0 <= j < again.len() implies (#[trigger] again[j]).ident.sym
        != alias.sym by {
        bindings_after_transform_are_named_before(denied, module, j);
    }
}

} // verus!
