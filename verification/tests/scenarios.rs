//! Whole modules through the transform.

use swc_nativewind::ast::{
    CallExpr, Callee, Expr, Ident, ImportDecl, ImportSpecifier, MemberExpr, MemberProp, Module,
    ModuleExportName, ModuleItem, ObjectPatProp, Pat, PropName, VarDecl, VarDeclarator,
};
use swc_nativewind::model::{Span, VarDeclKind};
use swc_nativewind::react_collector::{ImportTarget, ModuleType};
use swc_nativewind::visitor::nativewind;

const ALLOWED: &str = "/someFile.js";
const DENIED: &str = "/node_modules/react-native-css-interop/someFile.js";

fn id(sym: &str) -> Ident {
    Ident { sym: sym.to_string(), optional: false }
}

fn name(sym: &str) -> Expr {
    Expr::Ident(id(sym))
}

fn text(value: &str) -> Expr {
    Expr::Str(value.to_string())
}

fn other(kind: &str, children: Vec<Expr>) -> Expr {
    Expr::Other { kind: kind.to_string(), children }
}

fn null() -> Expr {
    other("null", vec![])
}

fn member(obj: Expr, prop: &str) -> Expr {
    Expr::Member(MemberExpr { obj: Box::new(obj), prop: MemberProp::Ident(id(prop)) })
}

fn call_at(lo: u32, hi: u32, callee: Expr, args: Vec<Expr>) -> Expr {
    Expr::Call(
        CallExpr { span: Span { lo, hi }, callee: Callee::Expr(Box::new(callee)), args, type_args: None },
    )
}

fn stmt(e: Expr) -> ModuleItem {
    ModuleItem::Other(other("expression statement", vec![e]))
}

fn import_from(src: &str, specifiers: Vec<ImportSpecifier>) -> ModuleItem {
    ModuleItem::Import(ImportDecl { src: src.to_string(), specifiers, type_only: false })
}

fn named(local: &str) -> ImportSpecifier {
    ImportSpecifier::Named { local: id(local), imported: None }
}

fn named_as(imported: &str, local: &str) -> ImportSpecifier {
    ImportSpecifier::Named {
        local: id(local),
        imported: Some(ModuleExportName::Ident(id(imported))),
    }
}

fn default_import(local: &str) -> ImportSpecifier {
    ImportSpecifier::Default { local: id(local) }
}

fn const_decl(pat: Pat, init: Expr) -> ModuleItem {
    ModuleItem::Var(
        VarDecl {
            kind: VarDeclKind::Const,
            declare: false,
            decls: vec![VarDeclarator { name: pat, init: Some(init) }],
        },
    )
}

fn object_pat(props: Vec<ObjectPatProp>) -> Pat {
    Pat::Object { optional: false, props }
}

fn renamed(key: &str, local: &str) -> ObjectPatProp {
    ObjectPatProp::KeyValue { key: PropName::Ident(id(key)), value: Box::new(Pat::Ident(id(local))) }
}

fn require(source: &str) -> Expr {
    call_at(0, 0, name("require"), vec![text(source)])
}

fn esm_shim(alias: &str) -> ModuleItem {
    import_from(
        "react-native-css-interop",
        vec![named_as("createElementAndCheckCssInterop", alias)],
    )
}

fn cjs_shim(alias: &str) -> ModuleItem {
    const_decl(
        object_pat(vec![renamed("createElementAndCheckCssInterop", alias)]),
        require("react-native-css-interop"),
    )
}

fn transformed(filename: &str, body: Vec<ModuleItem>) -> Module {
    let mut module = Module { body };
    nativewind(filename.to_string()).visit_mut_module(&mut module);
    module
}

fn class_name_props(value: &str) -> Expr {
    other("object", vec![other("property", vec![name("className"), text(value)])])
}

#[test]
fn esm_named_import_one_call() {
    let output = transformed(
        ALLOWED,
        vec![
            import_from("react", vec![named("createElement")]),
            stmt(call_at(40, 66, name("createElement"), vec![text("div"), null()])),
        ],
    );
    let expected = Module {
        body: vec![
            esm_shim("__c"),
            import_from("react", vec![named("createElement")]),
            stmt(call_at(40, 66, name("__c"), vec![text("div"), null()])),
        ],
    };
    assert_eq!(output, expected);
}

#[test]
fn esm_default_import_member_call() {
    let output = transformed(
        ALLOWED,
        vec![
            import_from("react", vec![default_import("React")]),
            stmt(
                call_at(
                    27,
                    71,
                    member(name("React"), "createElement"),
                    vec![text("div"), class_name_props("a")],
                ),
            ),
        ],
    );
    let expected = Module {
        body: vec![
            esm_shim("__c"),
            import_from("react", vec![default_import("React")]),
            stmt(call_at(27, 71, name("__c"), vec![text("div"), class_name_props("a")])),
        ],
    };
    assert_eq!(output, expected);
}

#[test]
fn cjs_require_with_destructuring_and_rename() {
    let output = transformed(
        ALLOWED,
        vec![
            const_decl(object_pat(vec![renamed("createElement", "h")]), require("react")),
            stmt(call_at(48, 52, name("h"), vec![name("A")])),
        ],
    );
    let expected = Module {
        body: vec![
            cjs_shim("__c"),
            const_decl(object_pat(vec![renamed("createElement", "h")]), require("react")),
            stmt(call_at(48, 52, name("__c"), vec![name("A")])),
        ],
    };
    assert_eq!(output, expected);
}

#[test]
fn babel_interop_default_with_nested_member() {
    let interop = call_at(14, 55, name("_interopRequireDefault"), vec![require("react")]);
    let again = call_at(14, 55, name("_interopRequireDefault"), vec![require("react")]);
    let output = transformed(
        ALLOWED,
        vec![
            const_decl(Pat::Ident(id("React")), interop),
            stmt(
                call_at(
                    57,
                    87,
                    member(member(name("React"), "default"), "createElement"),
                    vec![name("C")],
                ),
            ),
        ],
    );
    let expected = Module {
        body: vec![
            cjs_shim("__c"),
            const_decl(Pat::Ident(id("React")), again),
            stmt(call_at(57, 87, name("__c"), vec![name("C")])),
        ],
    };
    assert_eq!(output, expected);
}

#[test]
fn mixed_esm_and_cjs_prefers_esm() {
    let output = transformed(
        ALLOWED,
        vec![
            import_from("react", vec![default_import("React")]),
            const_decl(object_pat(vec![renamed("createElement", "h")]), require("react")),
            stmt(call_at(1, 2, member(name("React"), "createElement"), vec![name("A")])),
            stmt(call_at(3, 4, name("h"), vec![name("B")])),
        ],
    );
    let expected = Module {
        body: vec![
            esm_shim("__c"),
            import_from("react", vec![default_import("React")]),
            const_decl(object_pat(vec![renamed("createElement", "h")]), require("react")),
            stmt(call_at(1, 2, name("__c"), vec![name("A")])),
            stmt(call_at(3, 4, name("__c"), vec![name("B")])),
        ],
    };
    assert_eq!(output, expected);
}

#[test]
fn mixed_cjs_before_esm_still_prefers_esm() {
    let mut module = Module {
        body: vec![
            const_decl(Pat::Ident(id("R")), require("react")),
            import_from("react", vec![named_as("createElement", "h")]),
            stmt(call_at(3, 4, name("h"), vec![name("B")])),
        ],
    };
    let mut visitor = nativewind(ALLOWED.to_string());
    visitor.visit_mut_module(&mut module);
    assert_eq!(module.body[0], esm_shim("__c"));
    assert_eq!(visitor.react_imports.len(), 2);
    assert_eq!(visitor.react_imports[0].module_type, ModuleType::Cjs);
    assert_eq!(visitor.react_imports[0].target, ImportTarget::Base);
    assert_eq!(visitor.react_imports[0].ident, id("R"));
    assert_eq!(visitor.react_imports[1].module_type, ModuleType::Esm);
    assert_eq!(visitor.react_imports[1].target, ImportTarget::CreateElement);
    assert_eq!(visitor.react_imports[1].ident, id("h"));
    assert_eq!(visitor.replaced_create_element_cnt, 1);
}

fn react_usage() -> Vec<ModuleItem> {
    vec![
        import_from("react", vec![default_import("React"), named("createElement")]),
        stmt(call_at(1, 2, member(name("React"), "createElement"), vec![name("A")])),
        stmt(call_at(3, 4, name("createElement"), vec![name("B")])),
    ]
}

#[test]
fn denied_filename_leaves_module_unchanged() {
    let output =
        transformed("/node_modules/react-native-css-interop/index.js", react_usage());
    assert_eq!(output, Module { body: react_usage() });
    let output = transformed(DENIED, react_usage());
    assert_eq!(output, Module { body: react_usage() });
}

#[test]
fn denied_filename_resets_the_state() {
    let mut module = Module { body: react_usage() };
    let mut visitor = nativewind(DENIED.to_string());
    visitor.visit_mut_module(&mut module);
    assert!(visitor.is_denied_file());
    assert_eq!(visitor.react_imports.len(), 0);
    assert_eq!(visitor.replaced_create_element_cnt, 0);
    assert_eq!(visitor.interop_ident, id("__c"));
}

#[test]
fn allowed_filename_rewrites_the_same_module() {
    let output = transformed(ALLOWED, react_usage());
    let expected = Module {
        body: vec![
            esm_shim("__c"),
            import_from("react", vec![default_import("React"), named("createElement")]),
            stmt(call_at(1, 2, name("__c"), vec![name("A")])),
            stmt(call_at(3, 4, name("__c"), vec![name("B")])),
        ],
    };
    assert_eq!(output, expected);
}
