//! The transform itself: the eligibility gate, the collector pass, the
//! rewriter pass and the insertion of the shim binding.

use vstd::prelude::*;
use crate::ast::{
    Callee, CallExpr, Expr, exprs_model, Ident, ImportDecl, ImportSpecifier, MemberExpr, MemberProp,
    Module, ModuleExportName, ModuleItem, ObjectPatProp, opt_expr_model, Pat, PropName, props_model,
    VarDecl, VarDeclarator,
};
use crate::constants::{
    CREATE_ELEMENT, CREATE_ELEMENT_AND_CHECK_CSS_INTEROP, DEFAULT, INTEROP_ALIAS,
    REACT_NATIVE_CSS_INTEROP_PACKAGE, REQUIRE,
};
use crate::denial::{is_denied, path_is_denied};
use crate::hygiene::{module_alias, names_of_module, pick_alias};
use crate::model::{
    ExprView, IdentView, ModuleItemView, plain_ident, Span, VarDeclaratorView, VarDeclKind,
};
use crate::react_collector::{
    imports_view, ImportTarget, module_bindings, ModuleType, ReactCollector, ReactImport,
    ReactImportView,
};
use crate::rewrite::{
    count_call, count_declarator, count_expr, count_exprs, count_item, count_opt_expr, count_pat,
    count_prop, count_var_decl, expr_counts, interop_call, is_create_element,
    is_create_element_member, is_react, is_react_default_member, prop_counts, qualifies, qualifying,
    replacements, rewrite_call, rewrite_declarator, rewrite_expr, rewrite_exprs, rewrite_item,
    rewrite_items, rewrite_opt_expr, rewrite_pat, rewrite_prop, rewrite_props, rewrite_var_decl,
};
use crate::rewrite_laws::{lemma_items_without_replacement, lemma_qualifying_callee_holds_no_call};
use crate::seqs::{lemma_sum_take_next, saturated, sum};
use crate::text::same_text;
use crate::transform::{cjs_shim, esm_shim, has_esm_binding, shim_form, shim_require, transform};

verus! {

/// The transform for one module.
pub struct NativeWindVisitor {
    /// The file name of the module, where the host supplies one.
    pub filename: Option<String>,
    /// The local name of the shim in the module at hand.
    pub interop_ident: Ident,
    /// The React bindings of the module at hand.
    pub react_imports: Vec<ReactImport>,
    /// How many calls were replaced in the module at hand; it stops at the
    /// largest `usize`.
    pub replaced_create_element_cnt: usize,
}

/// The transform for the module in the file `filename`.
pub fn nativewind(filename: String) -> (visitor: NativeWindVisitor)
    ensures
        visitor.filename == Some(filename),
        visitor.interop_ident@ == plain_ident(INTEROP_ALIAS@),
        visitor.react_imports@.len() == 0,
        visitor.replaced_create_element_cnt == 0,
{
    NativeWindVisitor::default(filename)
}

impl NativeWindVisitor {
    /// The bindings of the module at hand.
    pub open spec fn bindings(&self) -> Seq<ReactImportView> {
        imports_view(self.react_imports@)
    }

    /// The alias of the shim in the module at hand.
    pub open spec fn alias(&self) -> IdentView {
        self.interop_ident@
    }

    /// Whether the file of the module is denied.
    pub open spec fn denied(&self) -> bool {
        is_denied(
            match self.filename {
                Some(path) => Some(path@),
                None => None,
            },
        )
    }

    /// Whether `self` is `before` with `replaced` more calls counted.
    pub open spec fn carries_on(&self, before: &Self, replaced: nat) -> bool {
        &&& self.filename == before.filename
        &&& self.interop_ident == before.interop_ident
        &&& self.react_imports == before.react_imports
        &&& self.replaced_create_element_cnt == saturated(
            before.replaced_create_element_cnt + replaced,
        )
    }

    /// A transform for the module in the file `filename`, with nothing
    /// collected and nothing replaced.
    pub fn default(filename: String) -> (visitor: Self)
        ensures
            visitor.filename == Some(filename),
            visitor.interop_ident@ == plain_ident(INTEROP_ALIAS@),
            visitor.react_imports@.len() == 0,
            visitor.replaced_create_element_cnt == 0,
    {
        NativeWindVisitor {
            filename: Some(filename),
            interop_ident: Ident::plain(INTEROP_ALIAS),
            react_imports: Vec::new(),
            replaced_create_element_cnt: 0,
        }
    }

    /// A transform for a module whose file name the host does not supply.
    pub fn without_filename() -> (visitor: Self)
        ensures
            visitor.filename is None,
            visitor.interop_ident@ == plain_ident(INTEROP_ALIAS@),
            visitor.react_imports@.len() == 0,
            visitor.replaced_create_element_cnt == 0,
    {
        NativeWindVisitor {
            filename: None,
            interop_ident: Ident::plain(INTEROP_ALIAS),
            react_imports: Vec::new(),
            replaced_create_element_cnt: 0,
        }
    }

    /// Whether the module is left alone because of the file it is in.
    pub fn is_denied_file(&self) -> (denied: bool)
        ensures
            denied == self.denied(),
    {
        match &self.filename {
            Some(path) => path_is_denied(path.as_str()),
            None => false,
        }
    }

    /// Whether `target_sym` is bound to the React module object.
    pub fn is_react(&self, target_sym: &str) -> (r: bool)
        ensures
            r == is_react(self.bindings(), target_sym@),
    {
        let mut i: usize = 0;
        while i < self.react_imports.len()
            invariant
                i <= self.react_imports.len(),
                forall|j: int|
                    0 <= j < i ==> !((#[trigger] self.bindings()[j]).target == ImportTarget::Base
                        && self.bindings()[j].ident.sym == target_sym@),
            decreases self.react_imports.len() - i,
        {
            let import = &self.react_imports[i];
            let base = match import.target {
                ImportTarget::Base => true,
                ImportTarget::CreateElement => false,
            };
            if base && same_text(import.ident.sym.as_str(), target_sym) {
                assert(self.bindings()[i as int].target == ImportTarget::Base);
                return true;
            }
            i = i + 1;
        }
        false
    }

    /// Whether `target_sym` is bound to `createElement`.
    pub fn is_create_element(&self, target_sym: &str) -> (r: bool)
        ensures
            r == is_create_element(self.bindings(), target_sym@),
    {
        let mut i: usize = 0;
        while i < self.react_imports.len()
            invariant
                i <= self.react_imports.len(),
                forall|j: int|
                    0 <= j < i ==> !((#[trigger] self.bindings()[j]).target
                        == ImportTarget::CreateElement && self.bindings()[j].ident.sym
                        == target_sym@),
            decreases self.react_imports.len() - i,
        {
            let import = &self.react_imports[i];
            let factory = match import.target {
                ImportTarget::Base => false,
                ImportTarget::CreateElement => true,
            };
            if factory && same_text(import.ident.sym.as_str(), target_sym) {
                assert(self.bindings()[i as int].target == ImportTarget::CreateElement);
                return true;
            }
            i = i + 1;
        }
        false
    }

    /// With `check_create_element`: whether `member_expr` is
    /// `base.createElement` or `base.default.createElement`. Without it:
    /// whether `member_expr` is `base.default`. `base` is a name bound to the
    /// React module object.
    pub fn is_react_create_element_member_expr(
        &self,
        member_expr: &MemberExpr,
        check_create_element: bool,
    ) -> (r: bool)
        ensures
            r == if check_create_element {
                is_create_element_member(self.bindings(), member_expr@)
            } else {
                is_react_default_member(self.bindings(), member_expr@)
            },
        decreases member_expr,
    {
        if let MemberProp::Ident(prop) = &member_expr.prop {
            let wanted = if check_create_element {
                CREATE_ELEMENT
            } else {
                DEFAULT
            };
            if !same_text(prop.sym.as_str(), wanted) {
                return false;
            }
            match &*member_expr.obj {
                Expr::Ident(base) => self.is_react(base.sym.as_str()),
                Expr::Member(inner) => {
                    if check_create_element {
                        self.is_react_create_element_member_expr(inner, false)
                    } else {
                        false
                    }
                },
                _ => false,
            }
        } else {
            false
        }
    }

    /// Whether the rewriter replaces `call`.
    pub fn qualifies(&self, call: &CallExpr) -> (r: bool)
        ensures
            r == qualifies(self.bindings(), call@),
    {
        if let Some(n) = call.type_args {
            if n > 0 {
                return false;
            }
        }
        if let Callee::Expr(callee) = &call.callee {
            match &**callee {
                Expr::Ident(id) => !id.optional && self.is_create_element(id.sym.as_str()),
                Expr::Member(member) => self.is_react_create_element_member_expr(member, true),
                _ => false,
            }
        } else {
            false
        }
    }

    /// The call of the shim that takes the place of `orig_call_expr`: the same
    /// arguments and position, the alias as callee, no type arguments.
    pub fn get_create_element_interop_call_expr(&self, orig_call_expr: CallExpr) -> (call: CallExpr)
        ensures
            call@ == interop_call(self.alias(), orig_call_expr@),
            call.args == orig_call_expr.args,
            call.span == orig_call_expr.span,
    {
        CallExpr {
            callee: Callee::Expr(Box::new(Expr::Ident(self.interop_ident.clone()))),
            args: orig_call_expr.args,
            span: orig_call_expr.span,
            type_args: None,
        }
    }

    /// `import { createElementAndCheckCssInterop as __c } from 'react-native-css-interop'`
    pub fn get_import_create_element_and_check_css_interop(&self) -> (item: ModuleItem)
        ensures
            item@ == esm_shim(self.alias()),
    {
        let mut specifiers: Vec<ImportSpecifier> = Vec::new();
        specifiers.push(
            ImportSpecifier::Named {
                local: self.interop_ident.clone(),
                imported: Some(
                    ModuleExportName::Ident(Ident::plain(CREATE_ELEMENT_AND_CHECK_CSS_INTEROP)),
                ),
            },
        );
        let item = ModuleItem::Import(
            ImportDecl {
                src: REACT_NATIVE_CSS_INTEROP_PACKAGE.to_owned(),
                specifiers,
                type_only: false,
            },
        );
        assert(item@->Import_0.specifiers =~= esm_shim(self.alias())->Import_0.specifiers);
        item
    }

    /// `const { createElementAndCheckCssInterop: __c } = require('react-native-css-interop')`
    pub fn get_require_create_element_and_check_css_interop(&self) -> (item: ModuleItem)
        ensures
            item@ == cjs_shim(self.alias()),
    {
        let mut args: Vec<Expr> = Vec::new();
        args.push(Expr::Str(REACT_NATIVE_CSS_INTEROP_PACKAGE.to_owned()));
        assert(exprs_model(args@) =~= seq![ExprView::Str(REACT_NATIVE_CSS_INTEROP_PACKAGE@)]);
        let init = Expr::Call(
            CallExpr {
                span: Span::dummy(),
                callee: Callee::Expr(Box::new(Expr::Ident(Ident::plain(REQUIRE)))),
                args,
                type_args: None,
            },
        );
        assert(init@ == shim_require()) by {
            reveal_with_fuel(Expr::model, 2);
        }
        let mut props: Vec<ObjectPatProp> = Vec::new();
        props.push(
            ObjectPatProp::KeyValue {
                key: PropName::Ident(Ident::plain(CREATE_ELEMENT_AND_CHECK_CSS_INTEROP)),
                value: Box::new(Pat::Ident(self.interop_ident.clone())),
            },
        );
        let name = Pat::Object { optional: false, props };
        assert(name@ == cjs_shim(self.alias())->Var_0.decls[0].name) by {
            reveal_with_fuel(Pat::model, 2);
            reveal_with_fuel(ObjectPatProp::model, 2);
            assert(props_model(props@) =~= cjs_shim(
                self.alias(),
            )->Var_0.decls[0].name->Object_props);
        }
        let mut decls: Vec<VarDeclarator> = Vec::new();
        decls.push(VarDeclarator { name, init: Some(init) });
        let item = ModuleItem::Var(VarDecl { kind: VarDeclKind::Const, declare: false, decls });
        assert(item@->Var_0.decls =~= cjs_shim(self.alias())->Var_0.decls);
        item
    }
}

impl NativeWindVisitor {
    /// Counts one more replaced call.
    pub fn count_replacement(&mut self)
        ensures
            final(self).carries_on(old(self), 1),
    {
        if self.replaced_create_element_cnt < usize::MAX {
            self.replaced_create_element_cnt = self.replaced_create_element_cnt + 1;
        }
    }

    /// Replaces `call_expr` by a call of the shim where it qualifies, and
    /// every qualifying call below it, counting each.
    pub fn visit_mut_call_expr(&mut self, call_expr: &mut CallExpr)
        ensures
            final(call_expr)@ == rewrite_call(
                old(self).bindings(),
                old(self).alias(),
                old(call_expr)@,
            ),
            final(self).carries_on(
                old(self),
                count_call(qualifying(old(self).bindings()), old(call_expr)@),
            ),
        decreases *old(call_expr),
    {
        let ghost p = qualifying(self.bindings());
        if self.qualifies(call_expr) {
            proof {
                lemma_qualifying_callee_holds_no_call(self.bindings(), p, call_expr@);
            }
            self.count_replacement();
            let mut taken = CallExpr {
                span: Span::dummy(),
                callee: Callee::Super,
                args: Vec::new(),
                type_args: None,
            };
            core::mem::swap(call_expr, &mut taken);
            *call_expr = self.get_create_element_interop_call_expr(taken);
            self.visit_mut_exprs(&mut call_expr.args);
        } else {
            match &mut call_expr.callee {
                Callee::Expr(callee) => {
                    self.visit_mut_expr(callee);
                },
                _ => {},
            }
            self.visit_mut_exprs(&mut call_expr.args);
        }
    }

    /// Replaces every qualifying call in `e`, counting each.
    pub fn visit_mut_expr(&mut self, e: &mut Expr)
        ensures
            final(e)@ == rewrite_expr(old(self).bindings(), old(self).alias(), old(e)@),
            final(self).carries_on(
                old(self),
                count_expr(qualifying(old(self).bindings()), old(e)@),
            ),
        decreases *old(e),
    {
        match e {
            Expr::Ident(_) => {},
            Expr::Str(_) => {},
            Expr::Member(member) => {
                self.visit_mut_expr(&mut member.obj);
                match &mut member.prop {
                    MemberProp::Computed(c) => {
                        self.visit_mut_expr(c);
                    },
                    _ => {},
                }
            },
            Expr::Call(call) => {
                self.visit_mut_call_expr(call);
            },
            Expr::Spread(inner) => {
                self.visit_mut_expr(inner);
            },
            Expr::Other { kind, children } => {
                self.visit_mut_exprs(children);
            },
        }
    }

    /// Replaces every qualifying call in the nodes of `es`, counting each.
    pub fn visit_mut_exprs(&mut self, es: &mut Vec<Expr>)
        ensures
            exprs_model(final(es)@) == rewrite_exprs(
                old(self).bindings(),
                old(self).alias(),
                exprs_model(old(es)@),
            ),
            final(self).carries_on(
                old(self),
                count_exprs(qualifying(old(self).bindings()), exprs_model(old(es)@)),
            ),
        decreases *old(es),
    {
        let ghost counts = expr_counts(qualifying(self.bindings()), exprs_model(es@));
        let mut i: usize = 0;
        while i < es.len()
            invariant
                i <= es.len(),
                es.len() == old(es).len(),
                counts == expr_counts(qualifying(old(self).bindings()), exprs_model(old(es)@)),
                forall|j: int|
                    0 <= j < i ==> (#[trigger] es[j])@ == rewrite_expr(
                        old(self).bindings(),
                        old(self).alias(),
                        old(es)[j]@,
                    ),
                forall|j: int| i <= j < es.len() ==> es[j] == old(es)[j],
                self.carries_on(old(self), sum(counts.take(i as int))),
            decreases es.len() - i,
        {
            proof {
                lemma_sum_take_next(counts, i as int);
            }
            self.visit_mut_expr(&mut es[i]);
            i = i + 1;
        }
        proof {
            assert(counts.take(es.len() as int) == counts);
            assert(exprs_model(es@) =~= rewrite_exprs(
                old(self).bindings(),
                old(self).alias(),
                exprs_model(old(es)@),
            ));
        }
    }
}

impl NativeWindVisitor {
    /// Replaces every qualifying call in an expression that may be absent.
    pub fn visit_mut_opt_expr(&mut self, e: &mut Option<Expr>)
        ensures
            opt_expr_model(*final(e)) == rewrite_opt_expr(
                old(self).bindings(),
                old(self).alias(),
                opt_expr_model(*old(e)),
            ),
            final(self).carries_on(
                old(self),
                count_opt_expr(qualifying(old(self).bindings()), opt_expr_model(*old(e))),
            ),
    {
        match e {
            Some(inner) => {
                self.visit_mut_expr(inner);
            },
            None => {},
        }
    }

    /// Replaces every qualifying call inside `pat`, counting each.
    pub fn visit_mut_pat(&mut self, pat: &mut Pat)
        ensures
            final(pat)@ == rewrite_pat(old(self).bindings(), old(self).alias(), old(pat)@),
            final(self).carries_on(
                old(self),
                count_pat(qualifying(old(self).bindings()), old(pat)@),
            ),
        decreases *old(pat),
    {
        match pat {
            Pat::Ident(_) => {},
            Pat::Object { optional, props } => {
                self.visit_mut_props(props);
            },
            Pat::Other(e) => {
                self.visit_mut_expr(e);
            },
        }
    }

    /// Replaces every qualifying call inside `prop`, counting each.
    pub fn visit_mut_prop(&mut self, prop: &mut ObjectPatProp)
        ensures
            final(prop)@ == rewrite_prop(old(self).bindings(), old(self).alias(), old(prop)@),
            final(self).carries_on(
                old(self),
                count_prop(qualifying(old(self).bindings()), old(prop)@),
            ),
        decreases *old(prop),
    {
        match prop {
            ObjectPatProp::Assign { key, value } => {
                self.visit_mut_opt_expr(value);
            },
            ObjectPatProp::KeyValue { key, value } => {
                match key {
                    PropName::Computed(e) => {
                        self.visit_mut_expr(e);
                    },
                    _ => {},
                }
                self.visit_mut_pat(value);
            },
            ObjectPatProp::Rest(arg) => {
                self.visit_mut_pat(arg);
            },
        }
    }

    /// Replaces every qualifying call inside the properties of an object
    /// pattern, counting each.
    pub fn visit_mut_props(&mut self, props: &mut Vec<ObjectPatProp>)
        ensures
            props_model(final(props)@) == rewrite_props(
                old(self).bindings(),
                old(self).alias(),
                props_model(old(props)@),
            ),
            final(self).carries_on(
                old(self),
                sum(prop_counts(qualifying(old(self).bindings()), props_model(old(props)@))),
            ),
        decreases *old(props),
    {
        let ghost counts = prop_counts(qualifying(self.bindings()), props_model(props@));
        let mut i: usize = 0;
        while i < props.len()
            invariant
                i <= props.len(),
                props.len() == old(props).len(),
                counts == prop_counts(qualifying(old(self).bindings()), props_model(old(props)@)),
                forall|j: int|
                    0 <= j < i ==> (#[trigger] props[j])@ == rewrite_prop(
                        old(self).bindings(),
                        old(self).alias(),
                        old(props)[j]@,
                    ),
                forall|j: int| i <= j < props.len() ==> props[j] == old(props)[j],
                self.carries_on(old(self), sum(counts.take(i as int))),
            decreases props.len() - i,
        {
            proof {
                lemma_sum_take_next(counts, i as int);
            }
            self.visit_mut_prop(&mut props[i]);
            i = i + 1;
        }
        proof {
            assert(counts.take(props.len() as int) == counts);
            assert(props_model(props@) =~= rewrite_props(
                old(self).bindings(),
                old(self).alias(),
                props_model(old(props)@),
            ));
        }
    }

    /// Replaces every qualifying call inside a variable declaration, counting
    /// each.
    pub fn visit_mut_var_decl(&mut self, decl: &mut VarDecl)
        ensures
            final(decl)@ == rewrite_var_decl(old(self).bindings(), old(self).alias(), old(decl)@),
            final(self).carries_on(
                old(self),
                count_var_decl(qualifying(old(self).bindings()), old(decl)@),
            ),
    {
        let ghost p = qualifying(self.bindings());
        let ghost counts = decl@.decls.map_values(|d: VarDeclaratorView| count_declarator(p, d));
        let mut i: usize = 0;
        while i < decl.decls.len()
            invariant
                i <= decl.decls.len(),
                decl.decls.len() == old(decl).decls.len(),
                decl.kind == old(decl).kind,
                decl.declare == old(decl).declare,
                p == qualifying(old(self).bindings()),
                counts == old(decl)@.decls.map_values(
                    |d: VarDeclaratorView| count_declarator(p, d),
                ),
                forall|j: int|
                    0 <= j < i ==> (#[trigger] decl.decls[j])@ == rewrite_declarator(
                        old(self).bindings(),
                        old(self).alias(),
                        old(decl).decls[j]@,
                    ),
                forall|j: int| i <= j < decl.decls.len() ==> decl.decls[j] == old(decl).decls[j],
                self.carries_on(old(self), sum(counts.take(i as int))),
            decreases decl.decls.len() - i,
        {
            proof {
                lemma_sum_take_next(counts, i as int);
            }
            let declarator = &mut decl.decls[i];
            self.visit_mut_pat(&mut declarator.name);
            self.visit_mut_opt_expr(&mut declarator.init);
            i = i + 1;
        }
        proof {
            assert(counts.take(decl.decls.len() as int) == counts);
            assert(decl@.decls =~= rewrite_var_decl(
                old(self).bindings(),
                old(self).alias(),
                old(decl)@,
            ).decls);
        }
    }

    /// Replaces every qualifying call inside a top-level item, counting each.
    pub fn visit_mut_module_item(&mut self, item: &mut ModuleItem)
        ensures
            final(item)@ == rewrite_item(old(self).bindings(), old(self).alias(), old(item)@),
            final(self).carries_on(
                old(self),
                count_item(qualifying(old(self).bindings()), old(item)@),
            ),
    {
        match item {
            ModuleItem::Import(_) => {},
            ModuleItem::Var(decl) => {
                self.visit_mut_var_decl(decl);
            },
            ModuleItem::Other(e) => {
                self.visit_mut_expr(e);
            },
        }
    }

    /// Replaces every qualifying call of a module, counting each.
    pub fn visit_mut_module_items(&mut self, module: &mut Module)
        ensures
            final(module)@.body == rewrite_items(
                old(self).bindings(),
                old(self).alias(),
                old(module)@.body,
            ),
            final(self).carries_on(
                old(self),
                replacements(old(self).bindings(), old(module)@),
            ),
    {
        let ghost p = qualifying(self.bindings());
        let ghost counts = module@.body.map_values(|item: ModuleItemView| count_item(p, item));
        let mut i: usize = 0;
        while i < module.body.len()
            invariant
                i <= module.body.len(),
                module.body.len() == old(module).body.len(),
                p == qualifying(old(self).bindings()),
                counts == old(module)@.body.map_values(
                    |item: ModuleItemView| count_item(p, item),
                ),
                forall|j: int|
                    0 <= j < i ==> (#[trigger] module.body[j])@ == rewrite_item(
                        old(self).bindings(),
                        old(self).alias(),
                        old(module).body[j]@,
                    ),
                forall|j: int| i <= j < module.body.len() ==> module.body[j] == old(module).body[j],
                self.carries_on(old(self), sum(counts.take(i as int))),
            decreases module.body.len() - i,
        {
            proof {
                lemma_sum_take_next(counts, i as int);
            }
            self.visit_mut_module_item(&mut module.body[i]);
            i = i + 1;
        }
        proof {
            assert(counts.take(module.body.len() as int) == counts);
            assert(module@.body =~= rewrite_items(
                old(self).bindings(),
                old(self).alias(),
                old(module)@.body,
            ));
        }
    }

    /// Whether some binding of the module was found in an import declaration.
    pub fn has_esm_import(&self) -> (r: bool)
        ensures
            r == has_esm_binding(self.bindings()),
    {
        let mut i: usize = 0;
        while i < self.react_imports.len()
            invariant
                i <= self.react_imports.len(),
                forall|j: int|
                    0 <= j < i ==> (#[trigger] self.bindings()[j]).module_type != ModuleType::Esm,
            decreases self.react_imports.len() - i,
        {
            match self.react_imports[i].module_type {
                ModuleType::Esm => {
                    assert(self.bindings()[i as int].module_type == ModuleType::Esm);
                    return true;
                },
                ModuleType::Cjs => {},
            }
            i = i + 1;
        }
        false
    }

    /// Starts the pass over `module`: forgets what an earlier pass left and,
    /// unless the file is denied, collects the React bindings. The result says
    /// whether the rewriter has anything to look for.
    pub fn start_module(&mut self, module: &Module, denied: bool) -> (rewrite: bool)
        ensures
            rewrite == (!denied && module_bindings(module@).len() > 0),
            final(self).filename == old(self).filename,
            final(self).interop_ident == old(self).interop_ident,
            final(self).bindings() == if denied {
                Seq::empty()
            } else {
                module_bindings(module@)
            },
            final(self).replaced_create_element_cnt == 0,
    {
        self.react_imports = Vec::new();
        self.replaced_create_element_cnt = 0;
        if denied {
            return false;
        }
        let mut collector = ReactCollector::default();
        collector.visit_mut_module(module);
        self.react_imports = collector.react_imports;
        self.react_imports.len() > 0
    }

    /// The form of the shim binding that the finished pass calls for: none
    /// where no call was replaced.
    pub fn shim_to_insert(&self) -> (form: Option<ModuleType>)
        ensures
            form == if self.replaced_create_element_cnt > 0 {
                Some(shim_form(self.bindings()))
            } else {
                None
            },
    {
        if self.replaced_create_element_cnt > 0 {
            if self.has_esm_import() {
                Some(ModuleType::Esm)
            } else {
                Some(ModuleType::Cjs)
            }
        } else {
            None
        }
    }

    /// Transforms `module`, given whether its file is denied.
    ///
    /// Afterwards the transform holds the bindings, the alias and the count of
    /// this module, whatever it held before.
    pub fn transform_module(&mut self, module: &mut Module, denied: bool)
        ensures
            final(module)@ == transform(denied, old(module)@),
            final(self).filename == old(self).filename,
            final(self).bindings() == if denied {
                Seq::empty()
            } else {
                module_bindings(old(module)@)
            },
            final(self).alias() == if denied || module_bindings(old(module)@).len() == 0 {
                old(self).alias()
            } else {
                module_alias(old(module)@)
            },
            final(self).replaced_create_element_cnt == if denied || module_bindings(
                old(module)@,
            ).len() == 0 {
                0
            } else {
                saturated(replacements(module_bindings(old(module)@), old(module)@) as int)
            },
    {
        if !self.start_module(module, denied) {
            return ;
        }
        let ghost bindings = self.bindings();
        let names = names_of_module(module);
        self.interop_ident = pick_alias(&names);
        self.visit_mut_module_items(module);
        match self.shim_to_insert() {
            Some(ModuleType::Esm) => {
                let shim = self.get_import_create_element_and_check_css_interop();
                module.body.insert(0, shim);
                assert(module@.body =~= seq![shim@] + rewrite_items(
                    bindings,
                    self.alias(),
                    old(module)@.body,
                ));
            },
            Some(ModuleType::Cjs) => {
                let shim = self.get_require_create_element_and_check_css_interop();
                module.body.insert(0, shim);
                assert(module@.body =~= seq![shim@] + rewrite_items(
                    bindings,
                    self.alias(),
                    old(module)@.body,
                ));
            },
            None => {
                proof {
                    lemma_items_without_replacement(bindings, self.alias(), old(module)@.body);
                }
            },
        }
    }

    /// Transforms `module`: unless its file is denied, every qualifying call
    /// is replaced by a call of the shim and, where any was, the shim binding
    /// becomes the first item.
    pub fn visit_mut_module(&mut self, module: &mut Module)
        ensures
            final(module)@ == transform(old(self).denied(), old(module)@),
            final(self).filename == old(self).filename,
            final(self).bindings() == if old(self).denied() {
                Seq::empty()
            } else {
                module_bindings(old(module)@)
            },
            final(self).alias() == if old(self).denied() || module_bindings(old(module)@).len()
                == 0 {
                old(self).alias()
            } else {
                module_alias(old(module)@)
            },
            final(self).replaced_create_element_cnt == if old(self).denied() || module_bindings(
                old(module)@,
            ).len() == 0 {
                0
            } else {
                saturated(replacements(module_bindings(old(module)@), old(module)@) as int)
            },
    {
        let denied = self.is_denied_file();
        self.transform_module(module, denied);
    }
}

} // verus!
