//! The bindings that the collector finds, form by form.

use swc_nativewind::ast::{
    CallExpr, Callee, Expr, Ident, ImportDecl, ImportSpecifier, MemberExpr, MemberProp, Module,
    ModuleExportName, ModuleItem, ObjectPatProp, Pat, PropName, VarDecl, VarDeclarator,
};
use swc_nativewind::model::{Span, VarDeclKind};
use swc_nativewind::react_collector::{ImportTarget, ModuleType, ReactCollector, ReactImport};

fn id(sym: &str) -> Ident {
    Ident { sym: sym.to_string(), optional: false }
}

fn name(sym: &str) -> Expr {
    Expr::Ident(id(sym))
}

fn text(value: &str) -> Expr {
    Expr::Str(value.to_string())
}

fn call(callee: Expr, args: Vec<Expr>) -> Expr {
    Expr::Call(
        CallExpr {
            span: Span { lo: 0, hi: 0 },
            callee: Callee::Expr(Box::new(callee)),
            args,
            type_args: None,
        },
    )
}

fn require(source: &str) -> Expr {
    call(name("require"), vec![text(source)])
}

fn interop(inner: Expr) -> Expr {
    call(name("_interopRequireDefault"), vec![inner])
}

fn var_decl(declare: bool, decls: Vec<VarDeclarator>) -> VarDecl {
    VarDecl { kind: VarDeclKind::Const, declare, decls }
}

fn declarator(pat: Pat, init: Expr) -> VarDeclarator {
    VarDeclarator { name: pat, init: Some(init) }
}

fn object_pat(props: Vec<ObjectPatProp>) -> Pat {
    Pat::Object { optional: false, props }
}

fn shorthand(key: &str) -> ObjectPatProp {
    ObjectPatProp::Assign { key: id(key), value: None }
}

fn renamed(key: &str, local: &str) -> ObjectPatProp {
    ObjectPatProp::KeyValue { key: PropName::Ident(id(key)), value: Box::new(Pat::Ident(id(local))) }
}

fn renamed_str(key: &str, local: &str) -> ObjectPatProp {
    ObjectPatProp::KeyValue {
        key: PropName::Str(key.to_string()),
        value: Box::new(Pat::Ident(id(local))),
    }
}

fn binding(module_type: ModuleType, target: ImportTarget, local: &str) -> ReactImport {
    ReactImport { module_type, target, ident: id(local) }
}

fn cjs_base(local: &str) -> ReactImport {
    binding(ModuleType::Cjs, ImportTarget::Base, local)
}

fn cjs_factory(local: &str) -> ReactImport {
    binding(ModuleType::Cjs, ImportTarget::CreateElement, local)
}

fn esm_base(local: &str) -> ReactImport {
    binding(ModuleType::Esm, ImportTarget::Base, local)
}

fn esm_factory(local: &str) -> ReactImport {
    binding(ModuleType::Esm, ImportTarget::CreateElement, local)
}

fn from_var_decl(decl: VarDecl) -> Vec<ReactImport> {
    let mut collector = ReactCollector::default();
    collector.collect_from_var_decl(&decl);
    collector.react_imports
}

fn from_specifiers(specifiers: Vec<ImportSpecifier>) -> Vec<ReactImport> {
    let mut collector = ReactCollector::default();
    collector.collect_from_import_specifiers(&specifiers);
    collector.react_imports
}

fn from_module(body: Vec<ModuleItem>) -> Vec<ReactImport> {
    let mut collector = ReactCollector::default();
    collector.visit_mut_module(&Module { body });
    collector.react_imports
}

fn import_from(src: &str, type_only: bool, specifiers: Vec<ImportSpecifier>) -> ModuleItem {
    ModuleItem::Import(ImportDecl { src: src.to_string(), specifiers, type_only })
}

#[test]
fn default_collector_is_empty() {
    assert!(ReactCollector::default().react_imports.is_empty());
}

#[test]
fn constructors_set_the_module_type() {
    assert_eq!(ReactImport::esm(id("React"), ImportTarget::Base), esm_base("React"));
    assert_eq!(ReactImport::cjs(id("h"), ImportTarget::CreateElement), cjs_factory("h"));
}

#[test]
fn package_and_factory_names_are_exact() {
    let collector = ReactCollector::default();
    assert!(collector.is_react("react"));
    assert!(!collector.is_react("React"));
    assert!(!collector.is_react("react-native"));
    assert!(!collector.is_react(""));
    assert!(collector.is_create_element("createElement"));
    assert!(!collector.is_create_element("createelement"));
    assert!(!collector.is_create_element("createElements"));
}

#[test]
fn require_source_is_the_first_string_argument() {
    let collector = ReactCollector::default();
    assert_eq!(collector.get_require_source(&require("react")), Some("react".to_string()));
    assert_eq!(collector.get_require_source(&require("./local")), Some("./local".to_string()));
    assert_eq!(
        collector.get_require_source(&call(name("require"), vec![text("react"), name("x")])),
        Some("react".to_string())
    );
    assert_eq!(collector.get_require_source(&call(name("require"), vec![])), None);
    assert_eq!(collector.get_require_source(&call(name("require"), vec![name("react")])), None);
    assert_eq!(collector.get_require_source(&call(name("load"), vec![text("react")])), None);
    assert_eq!(collector.get_require_source(&name("require")), None);
    assert_eq!(collector.get_require_source(&text("react")), None);
}

#[test]
fn spread_argument_is_no_require_source() {
    let collector = ReactCollector::default();
    let spread = call(name("require"), vec![Expr::Spread(Box::new(text("react")))]);
    assert_eq!(collector.get_require_source(&spread), None);
    assert!(!collector.is_react_require_expr(&spread));
}

#[test]
fn member_callee_is_no_require() {
    let collector = ReactCollector::default();
    let callee = Expr::Member(
        MemberExpr { obj: Box::new(name("module")), prop: MemberProp::Ident(id("require")) },
    );
    assert_eq!(collector.get_require_source(&call(callee, vec![text("react")])), None);
}

#[test]
fn interop_source_is_the_source_of_the_inner_require() {
    let collector = ReactCollector::default();
    assert_eq!(
        collector.get_interop_require_default_source(&interop(require("react"))),
        Some("react".to_string())
    );
    assert_eq!(collector.get_interop_require_default_source(&require("react")), None);
    assert_eq!(collector.get_interop_require_default_source(&interop(text("react"))), None);
    assert_eq!(
        collector.get_interop_require_default_source(&call(
            name("_interopRequireDefault"),
            vec![]
        )),
        None
    );
    assert_eq!(
        collector.get_interop_require_default_source(&interop(interop(require("react")))),
        None
    );
}

#[test]
fn react_require_is_bare_or_wrapped() {
    let collector = ReactCollector::default();
    assert!(collector.is_react_require_expr(&require("react")));
    assert!(collector.is_react_require_expr(&interop(require("react"))));
    assert!(!collector.is_react_require_expr(&require("preact")));
    assert!(!collector.is_react_require_expr(&interop(require("react-native"))));
    assert!(!collector.is_react_require_expr(&call(name("_interopRequireWildcard"), vec![require("react")])));
    assert!(!collector.is_react_require_expr(&name("React")));
}

#[test]
fn plain_identifier_binds_the_module_object() {
    let found = from_var_decl(
        var_decl(false, vec![declarator(Pat::Ident(id("React")), require("react"))]),
    );
    assert_eq!(found, vec![cjs_base("React")]);
    let found = from_var_decl(
        var_decl(false, vec![declarator(Pat::Ident(id("_react")), interop(require("react")))]),
    );
    assert_eq!(found, vec![cjs_base("_react")]);
}

#[test]
fn shorthand_property_binds_create_element() {
    let found = from_var_decl(
        var_decl(
            false,
            vec![declarator(object_pat(vec![shorthand("createElement")]), require("react"))],
        ),
    );
    assert_eq!(found, vec![cjs_factory("createElement")]);
}

#[test]
fn shorthand_with_default_value_binds_create_element() {
    let prop = ObjectPatProp::Assign { key: id("createElement"), value: Some(name("fallback")) };
    let found =
        from_var_decl(var_decl(false, vec![declarator(object_pat(vec![prop]), require("react"))]));
    assert_eq!(found, vec![cjs_factory("createElement")]);
}

#[test]
fn renamed_property_binds_its_local_name() {
    let found = from_var_decl(
        var_decl(
            false,
            vec![declarator(object_pat(vec![renamed("createElement", "c")]), require("react"))],
        ),
    );
    assert_eq!(found, vec![cjs_factory("c")]);
    let found = from_var_decl(
        var_decl(
            false,
            vec![
                declarator(
                    object_pat(vec![renamed_str("createElement", "c")]),
                    interop(require("react")),
                ),
            ],
        ),
    );
    assert_eq!(found, vec![cjs_factory("c")]);
}

#[test]
fn other_properties_are_skipped() {
    let found = from_var_decl(
        var_decl(
            false,
            vec![
                declarator(
                    object_pat(
                        vec![
                            shorthand("useState"),
                            renamed("useEffect", "effect"),
                            renamed("createElement", "h"),
                        ],
                    ),
                    require("react"),
                ),
            ],
        ),
    );
    assert_eq!(found, vec![cjs_factory("h")]);
    let found = from_var_decl(
        var_decl(
            false,
            vec![declarator(object_pat(vec![shorthand("useState")]), require("react"))],
        ),
    );
    assert_eq!(found, vec![]);
}

#[test]
fn only_the_first_matching_property_is_taken() {
    let found = from_var_decl(
        var_decl(
            false,
            vec![
                declarator(
                    object_pat(
                        vec![
                            renamed("createElement", "first"),
                            renamed("createElement", "second"),
                            shorthand("createElement"),
                        ],
                    ),
                    require("react"),
                ),
            ],
        ),
    );
    assert_eq!(found, vec![cjs_factory("first")]);
}

#[test]
fn computed_nested_and_rest_properties_never_match() {
    let computed = ObjectPatProp::KeyValue {
        key: PropName::Computed(text("createElement")),
        value: Box::new(Pat::Ident(id("c"))),
    };
    let numeric = ObjectPatProp::KeyValue {
        key: PropName::Num("0".to_string()),
        value: Box::new(Pat::Ident(id("c"))),
    };
    let nested = ObjectPatProp::KeyValue {
        key: PropName::Ident(id("createElement")),
        value: Box::new(object_pat(vec![shorthand("createElement")])),
    };
    let rest = ObjectPatProp::Rest(Box::new(Pat::Ident(id("createElement"))));
    let found = from_var_decl(
        var_decl(
            false,
            vec![declarator(object_pat(vec![computed, numeric, nested, rest]), require("react"))],
        ),
    );
    assert_eq!(found, vec![]);
}

#[test]
fn nested_pattern_is_skipped_and_the_scan_goes_on() {
    let nested = ObjectPatProp::KeyValue {
        key: PropName::Ident(id("createElement")),
        value: Box::new(Pat::Other(name("x"))),
    };
    let found = from_var_decl(
        var_decl(
            false,
            vec![
                declarator(object_pat(vec![nested, renamed("createElement", "h")]), require("react")),
            ],
        ),
    );
    assert_eq!(found, vec![cjs_factory("h")]);
}

#[test]
fn optional_object_pattern_is_skipped() {
    let pat = Pat::Object { optional: true, props: vec![shorthand("createElement")] };
    let found = from_var_decl(var_decl(false, vec![declarator(pat, require("react"))]));
    assert_eq!(found, vec![]);
}

#[test]
fn other_patterns_are_skipped() {
    let pat = Pat::Other(Expr::Other { kind: "array pattern".to_string(), children: vec![name("React")] });
    let found = from_var_decl(var_decl(false, vec![declarator(pat, require("react"))]));
    assert_eq!(found, vec![]);
}

#[test]
fn declarations_that_are_not_read() {
    let two = var_decl(
        false,
        vec![
            declarator(Pat::Ident(id("React")), require("react")),
            declarator(Pat::Ident(id("x")), name("y")),
        ],
    );
    assert_eq!(from_var_decl(two), vec![]);
    assert_eq!(from_var_decl(var_decl(false, vec![])), vec![]);
    let ambient = var_decl(true, vec![declarator(Pat::Ident(id("React")), require("react"))]);
    assert_eq!(from_var_decl(ambient), vec![]);
    let bare = var_decl(false, vec![VarDeclarator { name: Pat::Ident(id("React")), init: None }]);
    assert_eq!(from_var_decl(bare), vec![]);
    let elsewhere = var_decl(false, vec![declarator(Pat::Ident(id("React")), require("preact"))]);
    assert_eq!(from_var_decl(elsewhere), vec![]);
    let alias = var_decl(
        false,
        vec![
            declarator(
                Pat::Ident(id("c")),
                Expr::Member(
                    MemberExpr {
                        obj: Box::new(name("React")),
                        prop: MemberProp::Ident(id("createElement")),
                    },
                ),
            ),
        ],
    );
    assert_eq!(from_var_decl(alias), vec![]);
}

#[test]
fn import_specifiers_in_source_order() {
    let found = from_specifiers(
        vec![
            ImportSpecifier::Default { local: id("React") },
            ImportSpecifier::Named { local: id("useState"), imported: None },
            ImportSpecifier::Named { local: id("createElement"), imported: None },
            ImportSpecifier::Named {
                local: id("h"),
                imported: Some(ModuleExportName::Ident(id("createElement"))),
            },
        ],
    );
    assert_eq!(found, vec![esm_base("React"), esm_factory("createElement"), esm_factory("h")]);
    let found = from_specifiers(vec![ImportSpecifier::Namespace { local: id("R") }]);
    assert_eq!(found, vec![esm_base("R")]);
    assert_eq!(from_specifiers(vec![]), vec![]);
}

#[test]
fn named_specifier_goes_by_the_imported_name() {
    let found = from_specifiers(
        vec![
            ImportSpecifier::Named {
                local: id("createElement"),
                imported: Some(ModuleExportName::Ident(id("cloneElement"))),
            },
            ImportSpecifier::Named {
                local: id("make"),
                imported: Some(ModuleExportName::Str("createElement".to_string())),
            },
        ],
    );
    assert_eq!(found, vec![esm_factory("make")]);
}

#[test]
fn collector_adds_to_what_it_holds() {
    let mut collector = ReactCollector::default();
    collector.collect_from_import_specifiers(&vec![ImportSpecifier::Default { local: id("A") }]);
    collector.collect_from_var_decl(
        &var_decl(false, vec![declarator(Pat::Ident(id("B")), require("react"))]),
    );
    collector.collect_from_import_specifiers(&vec![ImportSpecifier::Default { local: id("A") }]);
    assert_eq!(collector.react_imports, vec![esm_base("A"), cjs_base("B"), esm_base("A")]);
}

#[test]
fn module_pass_reads_top_level_items_in_order() {
    let found = from_module(
        vec![
            ModuleItem::Var(var_decl(false, vec![declarator(Pat::Ident(id("R")), require("react"))])),
            import_from("react", false, vec![ImportSpecifier::Default { local: id("React") }]),
            import_from("react", true, vec![ImportSpecifier::Default { local: id("Types") }]),
            import_from("preact", false, vec![ImportSpecifier::Default { local: id("Preact") }]),
            import_from("react", false, vec![]),
            ModuleItem::Other(
                Expr::Other {
                    kind: "function".to_string(),
                    children: vec![
                        Expr::Other {
                            kind: "variable declaration".to_string(),
                            children: vec![name("Inner"), require("react")],
                        },
                    ],
                },
            ),
            import_from(
                "react",
                false,
                vec![
                    ImportSpecifier::Named { local: id("createElement"), imported: None },
                    ImportSpecifier::Namespace { local: id("All") },
                ],
            ),
        ],
    );
    assert_eq!(
        found,
        vec![cjs_base("R"), esm_base("React"), esm_factory("createElement"), esm_base("All")]
    );
    assert_eq!(from_module(vec![]), vec![]);
}
