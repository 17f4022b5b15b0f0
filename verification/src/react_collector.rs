//! Finds the names under which a module holds React or its `createElement`.
//!
//! Only the top-level items of the module are read: import declarations from
//! `"react"`, and variable declarations whose one declarator is initialised
//! with `require("react")`, bare or inside `_interopRequireDefault(..)`.

use vstd::prelude::*;
use crate::ast::{
    Callee, Expr, Ident, ImportSpecifier, Module, ModuleExportName, ModuleItem, ObjectPatProp, Pat,
    PropName, props_model, VarDecl,
};
use crate::constants::{CREATE_ELEMENT, INTEROP_REQUIRE_DEFAULT, REACT_PACKAGE, REQUIRE};
use crate::model::{
    CalleeView, ExprView, IdentView, ImportSpecifierView, ModuleExportNameView, ModuleItemView,
    ModuleView, ObjectPatPropView, PatView, PropNameView, VarDeclView,
};
use crate::text::same_text;

verus! {

/// The syntactic form in which a binding was found.
#[derive(Clone, Copy, Debug, PartialEq, Eq, Structural)]
pub enum ModuleType {
    Esm,
    Cjs,
}

/// What a binding stands for: the React module object, or its
/// `createElement` function.
#[derive(Clone, Copy, Debug, PartialEq, Eq, Structural)]
pub enum ImportTarget {
    Base,
    CreateElement,
}

/// A local name of the module that denotes React or `createElement`.
#[derive(Debug, PartialEq, Eq)]
pub struct ReactImport {
    pub module_type: ModuleType,
    pub target: ImportTarget,
    pub ident: Ident,
}

/// The model of a [`ReactImport`].
pub struct ReactImportView {
    pub module_type: ModuleType,
    pub target: ImportTarget,
    pub ident: IdentView,
}

impl View for ReactImport {
    type V = ReactImportView;

    open spec fn view(&self) -> ReactImportView {
        ReactImportView { module_type: self.module_type, target: self.target, ident: self.ident@ }
    }
}

/// The models of a list of bindings, one by one.
pub open spec fn imports_view(imports: Seq<ReactImport>) -> Seq<ReactImportView> {
    imports.map_values(|i: ReactImport| i@)
}

/// A binding found in an import declaration.
pub open spec fn esm_import(ident: IdentView, target: ImportTarget) -> ReactImportView {
    ReactImportView { module_type: ModuleType::Esm, target, ident }
}

/// A binding found in a `require` declaration.
pub open spec fn cjs_import(ident: IdentView, target: ImportTarget) -> ReactImportView {
    ReactImportView { module_type: ModuleType::Cjs, target, ident }
}

/// `source` where `e` is `require(source, ..)` with a string literal first.
pub open spec fn require_source(e: ExprView) -> Option<Seq<char>> {
    match e {
        ExprView::Call(call) => match call.callee {
            CalleeView::Expr(callee) => match *callee {
                ExprView::Ident(id) => if id.sym == REQUIRE@ && call.args.len() > 0 {
                    match call.args[0] {
                        ExprView::Str(value) => Some(value),
                        _ => None,
                    }
                } else {
                    None
                },
                _ => None,
            },
            _ => None,
        },
        _ => None,
    }
}

/// `source` where `e` is `_interopRequireDefault(require(source, ..), ..)`.
pub open spec fn interop_require_default_source(e: ExprView) -> Option<Seq<char>> {
    match e {
        ExprView::Call(call) => match call.callee {
            CalleeView::Expr(callee) => match *callee {
                ExprView::Ident(id) => if id.sym == INTEROP_REQUIRE_DEFAULT@ && call.args.len() > 0 {
                    require_source(call.args[0])
                } else {
                    None
                },
                _ => None,
            },
            _ => None,
        },
        _ => None,
    }
}

/// Whether `e` loads React: `require("react")`, bare or wrapped in the
/// interop helper.
pub open spec fn is_react_require(e: ExprView) -> bool {
    match require_source(e) {
        Some(source) => source == REACT_PACKAGE@,
        None => interop_require_default_source(e) == Some(REACT_PACKAGE@),
    }
}

/// Whether a property key names `createElement`, as an identifier or as a
/// string literal.
pub open spec fn key_is_create_element(key: PropNameView) -> bool {
    match key {
        PropNameView::Ident(id) => id.sym == CREATE_ELEMENT@,
        PropNameView::Str(value) => value == CREATE_ELEMENT@,
        _ => false,
    }
}

/// The local name that one property of an object pattern gives to
/// `createElement`, if it gives one: `{ createElement }` or
/// `{ createElement: local }`.
pub open spec fn prop_binding(prop: ObjectPatPropView) -> Option<IdentView> {
    match prop {
        ObjectPatPropView::Assign { key, .. } => if key.sym == CREATE_ELEMENT@ {
            Some(key)
        } else {
            None
        },
        ObjectPatPropView::KeyValue { key, value } => match *value {
            PatView::Ident(local) => if key_is_create_element(key) {
                Some(local)
            } else {
                None
            },
            _ => None,
        },
        ObjectPatPropView::Rest(_) => None,
    }
}

/// The binding of the first property that gives one; later ones are not read.
pub open spec fn first_prop_binding(props: Seq<ObjectPatPropView>) -> Option<IdentView>
    decreases props.len(),
{
    if props.len() == 0 {
        None
    } else {
        match prop_binding(props[0]) {
            Some(local) => Some(local),
            None => first_prop_binding(props.drop_first()),
        }
    }
}

/// The bindings that the pattern of a declarator makes where its initialiser
/// loads React: the name itself for a plain identifier, the first
/// `createElement` property for an object pattern.
pub open spec fn pattern_bindings(name: PatView) -> Seq<ReactImportView> {
    match name {
        PatView::Ident(id) => seq![cjs_import(id, ImportTarget::Base)],
        PatView::Object { optional, props } => match first_prop_binding(props) {
            Some(local) => if optional {
                Seq::empty()
            } else {
                seq![cjs_import(local, ImportTarget::CreateElement)]
            },
            None => Seq::empty(),
        },
        PatView::Other(_) => Seq::empty(),
    }
}

/// Whether a variable declaration is one that the collector reads: not an
/// ambient one, with exactly one declarator, initialised by loading React.
pub open spec fn loads_react(decl: VarDeclView) -> bool {
    &&& decl.decls.len() == 1
    &&& !decl.declare
    &&& decl.decls[0].init matches Some(init)
    &&& is_react_require(init)
}

/// The bindings that a top-level variable declaration contributes.
pub open spec fn var_decl_bindings(decl: VarDeclView) -> Seq<ReactImportView> {
    if loads_react(decl) {
        pattern_bindings(decl.decls[0].name)
    } else {
        Seq::empty()
    }
}

/// The exported name that a named specifier imports.
pub open spec fn imported_name(local: IdentView, imported: Option<ModuleExportNameView>) -> Seq<
    char,
> {
    match imported {
        Some(ModuleExportNameView::Ident(id)) => id.sym,
        Some(ModuleExportNameView::Str(value)) => value,
        None => local.sym,
    }
}

/// The bindings that one specifier of an import from React contributes: none
/// or one.
pub open spec fn specifier_bindings(specifier: ImportSpecifierView) -> Seq<ReactImportView> {
    match specifier {
        ImportSpecifierView::Default { local } => seq![esm_import(local, ImportTarget::Base)],
        ImportSpecifierView::Namespace { local } => seq![esm_import(local, ImportTarget::Base)],
        ImportSpecifierView::Named { local, imported } => if imported_name(local, imported)
            == CREATE_ELEMENT@ {
            seq![esm_import(local, ImportTarget::CreateElement)]
        } else {
            Seq::empty()
        },
    }
}

/// The bindings of the specifiers of an import from React, in source order.
pub open spec fn import_specifiers_bindings(specifiers: Seq<ImportSpecifierView>) -> Seq<
    ReactImportView,
>
    decreases specifiers.len(),
{
    if specifiers.len() == 0 {
        Seq::empty()
    } else {
        import_specifiers_bindings(specifiers.drop_last()) + specifier_bindings(specifiers.last())
    }
}

/// The bindings that one top-level item contributes.
pub open spec fn item_bindings(item: ModuleItemView) -> Seq<ReactImportView> {
    match item {
        ModuleItemView::Var(decl) => var_decl_bindings(decl),
        ModuleItemView::Import(decl) => if !decl.type_only && decl.src == REACT_PACKAGE@ {
            import_specifiers_bindings(decl.specifiers)
        } else {
            Seq::empty()
        },
        ModuleItemView::Other(_) => Seq::empty(),
    }
}

/// The bindings of a list of top-level items, in source order.
pub open spec fn items_bindings(items: Seq<ModuleItemView>) -> Seq<ReactImportView>
    decreases items.len(),
{
    if items.len() == 0 {
        Seq::empty()
    } else {
        items_bindings(items.drop_last()) + item_bindings(items.last())
    }
}

/// The React bindings of a module, in source order, duplicates kept.
pub open spec fn module_bindings(module: ModuleView) -> Seq<ReactImportView> {
    items_bindings(module.body)
}

impl ReactImport {
    /// A binding found in an import declaration.
    pub fn esm(ident: Ident, target: ImportTarget) -> (import: Self)
        ensures
            import@ == esm_import(ident@, target),
    {
        ReactImport { module_type: ModuleType::Esm, target, ident }
    }

    /// A binding found in a `require` declaration.
    pub fn cjs(ident: Ident, target: ImportTarget) -> (import: Self)
        ensures
            import@ == cjs_import(ident@, target),
    {
        ReactImport { module_type: ModuleType::Cjs, target, ident }
    }
}

/// Gathers the React bindings of the modules it visits.
pub struct ReactCollector {
    pub react_imports: Vec<ReactImport>,
}

impl Default for ReactCollector {
    fn default() -> (collector: Self)
        ensures
            collector.react_imports@.len() == 0,
    {
        ReactCollector { react_imports: Vec::new() }
    }
}

impl ReactCollector {
    /// The bindings gathered so far.
    pub open spec fn bindings(&self) -> Seq<ReactImportView> {
        imports_view(self.react_imports@)
    }

    /// Whether `str` is the module specifier of React.
    pub fn is_react(&self, str: &str) -> (r: bool)
        ensures
            r == (str@ == REACT_PACKAGE@),
    {
        same_text(str, REACT_PACKAGE)
    }

    /// Whether `str` is the name of the element factory.
    pub fn is_create_element(&self, str: &str) -> (r: bool)
        ensures
            r == (str@ == CREATE_ELEMENT@),
    {
        same_text(str, CREATE_ELEMENT)
    }

    /// Whether `expr` loads React through `require`.
    pub fn is_react_require_expr(&self, expr: &Expr) -> (r: bool)
        ensures
            r == is_react_require(expr@),
    {
        match self.get_require_source(expr) {
            Some(source) => same_text(source.as_str(), REACT_PACKAGE),
            None => match self.get_interop_require_default_source(expr) {
                Some(source) => same_text(source.as_str(), REACT_PACKAGE),
                None => false,
            },
        }
    }

    /// Get `source` in `require(source)`.
    pub fn get_require_source(&self, expr: &Expr) -> (source: Option<String>)
        ensures
            match source {
                Some(s) => require_source(expr@) == Some(s@),
                None => require_source(expr@) is None,
            },
    {
        proof {
            reveal_with_fuel(Expr::model, 2);
        }
        if let Expr::Call(call) = expr {
            if let Callee::Expr(callee) = &call.callee {
                if let Expr::Ident(id) = &**callee {
                    if same_text(id.sym.as_str(), REQUIRE) && call.args.len() > 0 {
                        assert(call@.args[0] == call.args[0]@);
                        if let Expr::Str(value) = &call.args[0] {
                            return Some(value.clone());
                        }
                    }
                }
            }
        }
        None
    }

    /// Get `source` in `_interopRequireDefault(require(source))`.
    pub fn get_interop_require_default_source(&self, expr: &Expr) -> (source: Option<String>)
        ensures
            match source {
                Some(s) => interop_require_default_source(expr@) == Some(s@),
                None => interop_require_default_source(expr@) is None,
            },
    {
        proof {
            reveal_with_fuel(Expr::model, 2);
        }
        if let Expr::Call(call) = expr {
            if let Callee::Expr(callee) = &call.callee {
                if let Expr::Ident(id) = &**callee {
                    if same_text(id.sym.as_str(), INTEROP_REQUIRE_DEFAULT) && call.args.len() > 0 {
                        return self.get_require_source(&call.args[0]);
                    }
                }
            }
        }
        None
    }

    /// The local name that `prop` gives to `createElement`, if it gives one.
    fn binding_of_prop(&self, prop: &ObjectPatProp) -> (local: Option<Ident>)
        ensures
            match local {
                Some(id) => prop_binding(prop@) == Some(id@),
                None => prop_binding(prop@) is None,
            },
    {
        match prop {
            ObjectPatProp::Assign { key, value: _ } => {
                if self.is_create_element(key.sym.as_str()) {
                    Some(key.clone())
                } else {
                    None
                }
            },
            ObjectPatProp::KeyValue { key, value } => {
                if let Pat::Ident(local) = &**value {
                    let named = match key {
                        PropName::Ident(id) => self.is_create_element(id.sym.as_str()),
                        PropName::Str(text) => self.is_create_element(text.as_str()),
                        _ => false,
                    };
                    if named {
                        Some(local.clone())
                    } else {
                        None
                    }
                } else {
                    None
                }
            },
            ObjectPatProp::Rest(_) => None,
        }
    }

    /// The local name that the first property with one gives to
    /// `createElement`; the properties after it are not read.
    fn first_binding_of_props(&self, props: &Vec<ObjectPatProp>) -> (local: Option<Ident>)
        ensures
            match local {
                Some(id) => first_prop_binding(props_model(props@)) == Some(id@),
                None => first_prop_binding(props_model(props@)) is None,
            },
    {
        let ghost all = props_model(props@);
        let mut i: usize = 0;
        assert(all.skip(0) == all);
        while i < props.len()
            invariant
                i <= props.len(),
                all == props_model(props@),
                first_prop_binding(all) == first_prop_binding(all.skip(i as int)),
            decreases props.len() - i,
        {
            proof {
                assert(all.skip(i as int)[0] == props[i as int]@);
                assert(all.skip(i as int).drop_first() == all.skip(i + 1));
            }
            if let Some(local) = self.binding_of_prop(&props[i]) {
                return Some(local);
            }
            i = i + 1;
        }
        None
    }

    /// Collect React from variable declare statements.
    pub fn collect_from_var_decl(&mut self, var_decl: &VarDecl)
        ensures
            final(self).bindings() == old(self).bindings() + var_decl_bindings(var_decl@),
    {
        if var_decl.decls.len() != 1 || var_decl.declare {
            return ;
        }
        let declarator = &var_decl.decls[0];
        let loads_react = match &declarator.init {
            Some(init) => self.is_react_require_expr(init),
            None => false,
        };
        if !loads_react {
            return ;
        }
        let ghost before = self.bindings();
        match &declarator.name {
            // `const React = require('react')`
            Pat::Ident(id) => {
                self.react_imports.push(ReactImport::cjs(id.clone(), ImportTarget::Base));
                assert(self.bindings() == before.push(cjs_import(id@, ImportTarget::Base)));
            },
            // `const { createElement } = require('react')`
            // `const { createElement: c } = require('react')`
            Pat::Object { optional, props } => {
                if !*optional {
                    if let Some(local) = self.first_binding_of_props(props) {
                        self.react_imports.push(
                            ReactImport::cjs(local, ImportTarget::CreateElement),
                        );
                        assert(self.bindings() == before.push(
                            cjs_import(local@, ImportTarget::CreateElement),
                        ));
                    }
                }
            },
            Pat::Other(_) => {},
        }
    }

    /// The binding that `specifier` of an import from React makes, if any.
    fn binding_of_specifier(&self, specifier: &ImportSpecifier) -> (import: Option<ReactImport>)
        ensures
            match import {
                Some(i) => specifier_bindings(specifier@) == seq![i@],
                None => specifier_bindings(specifier@) == Seq::<ReactImportView>::empty(),
            },
    {
        match specifier {
            ImportSpecifier::Default { local } => Some(
                ReactImport::esm(local.clone(), ImportTarget::Base),
            ),
            ImportSpecifier::Namespace { local } => Some(
                ReactImport::esm(local.clone(), ImportTarget::Base),
            ),
            ImportSpecifier::Named { local, imported } => {
                let named = match imported {
                    Some(ModuleExportName::Ident(id)) => self.is_create_element(id.sym.as_str()),
                    Some(ModuleExportName::Str(text)) => self.is_create_element(text.as_str()),
                    None => self.is_create_element(local.sym.as_str()),
                };
                if named {
                    Some(ReactImport::esm(local.clone(), ImportTarget::CreateElement))
                } else {
                    None
                }
            },
        }
    }

    /// Collect React from import statements.
    pub fn collect_from_import_specifiers(&mut self, specifiers: &Vec<ImportSpecifier>)
        ensures
            final(self).bindings() == old(self).bindings() + import_specifiers_bindings(
                specifiers@.map_values(|s: ImportSpecifier| s@),
            ),
    {
        let ghost all = specifiers@.map_values(|s: ImportSpecifier| s@);
        let mut i: usize = 0;
        while i < specifiers.len()
            invariant
                i <= specifiers.len(),
                all == specifiers@.map_values(|s: ImportSpecifier| s@),
                self.bindings() == old(self).bindings() + import_specifiers_bindings(
                    all.take(i as int),
                ),
            decreases specifiers.len() - i,
        {
            proof {
                assert(all.take(i + 1).drop_last() == all.take(i as int));
                assert(all.take(i + 1).last() == specifiers[i as int]@);
            }
            if let Some(import) = self.binding_of_specifier(&specifiers[i]) {
                let ghost before = self.bindings();
                self.react_imports.push(import);
                assert(self.bindings() == before.push(import@));
            }
            i = i + 1;
        }
        assert(all.take(specifiers.len() as int) == all);
    }

    /// Collect React from one top-level item.
    fn collect_from_item(&mut self, item: &ModuleItem)
        ensures
            final(self).bindings() == old(self).bindings() + item_bindings(item@),
    {
        match item {
            ModuleItem::Var(var_decl) => {
                self.collect_from_var_decl(var_decl);
            },
            ModuleItem::Import(decl) => {
                if !decl.type_only && self.is_react(decl.src.as_str()) {
                    self.collect_from_import_specifiers(&decl.specifiers);
                }
            },
            ModuleItem::Other(_) => {},
        }
    }

    /// Adds the React bindings of `module` to those gathered so far, in source
    /// order.
    pub fn visit_mut_module(&mut self, module: &Module)
        ensures
            final(self).bindings() == old(self).bindings() + module_bindings(module@),
    {
        let ghost all = module@.body;
        let mut i: usize = 0;
        while i < module.body.len()
            invariant
                i <= module.body.len(),
                all == module@.body,
                self.bindings() == old(self).bindings() + items_bindings(all.take(i as int)),
            decreases module.body.len() - i,
        {
            proof {
                assert(all.take(i + 1).drop_last() == all.take(i as int));
                assert(all.take(i + 1).last() == module.body[i as int]@);
            }
            self.collect_from_item(&module.body[i]);
            i = i + 1;
        }
        assert(all.take(module.body.len() as int) == all);
    }
}

} // verus!
