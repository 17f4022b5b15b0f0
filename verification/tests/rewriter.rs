//! Which calls the rewriter replaces, and by what.

use swc_nativewind::ast::{
    CallExpr, Callee, Expr, Ident, ImportDecl, ImportSpecifier, MemberExpr, MemberProp, Module,
    ModuleExportName, ModuleItem, ObjectPatProp, Pat, PropName, VarDecl, VarDeclarator,
};
use swc_nativewind::model::{Span, VarDeclKind};
use swc_nativewind::react_collector::{ImportTarget, ModuleType, ReactImport};
use swc_nativewind::visitor::{nativewind, NativeWindVisitor};

fn id(sym: &str) -> Ident {
    Ident { sym: sym.to_string(), optional: false }
}

fn name(sym: &str) -> Expr {
    Expr::Ident(id(sym))
}

fn text(value: &str) -> Expr {
    Expr::Str(value.to_string())
}

fn other(kind: &str, children: Vec<Expr>) -> Expr {
    Expr::Other { kind: kind.to_string(), children }
}

fn member_expr(obj: Expr, prop: &str) -> MemberExpr {
    MemberExpr { obj: Box::new(obj), prop: MemberProp::Ident(id(prop)) }
}

fn member(obj: Expr, prop: &str) -> Expr {
    Expr::Member(member_expr(obj, prop))
}

fn call_expr(lo: u32, hi: u32, callee: Expr, args: Vec<Expr>) -> CallExpr {
    CallExpr { span: Span { lo, hi }, callee: Callee::Expr(Box::new(callee)), args, type_args: None }
}

fn call(callee: Expr, args: Vec<Expr>) -> Expr {
    Expr::Call(call_expr(5, 9, callee, args))
}

fn binding(module_type: ModuleType, target: ImportTarget, local: &str) -> ReactImport {
    ReactImport { module_type, target, ident: id(local) }
}

/// A transform that knows `React` and `R` as the module object and
/// `createElement` and `h` as the factory.
fn visitor() -> NativeWindVisitor {
    let mut visitor = nativewind("/app/index.js".to_string());
    visitor.react_imports = vec![
        binding(ModuleType::Esm, ImportTarget::Base, "React"),
        binding(ModuleType::Cjs, ImportTarget::CreateElement, "h"),
        binding(ModuleType::Cjs, ImportTarget::Base, "R"),
        binding(ModuleType::Esm, ImportTarget::CreateElement, "createElement"),
    ];
    visitor
}

fn rewritten(e: Expr) -> (Expr, usize) {
    let mut visitor = visitor();
    let mut e = e;
    visitor.visit_mut_expr(&mut e);
    (e, visitor.replaced_create_element_cnt)
}

fn shim_call(args: Vec<Expr>) -> Expr {
    call(name("__c"), args)
}

#[test]
fn names_bound_to_the_module_object() {
    let visitor = visitor();
    assert!(visitor.is_react("React"));
    assert!(visitor.is_react("R"));
    assert!(!visitor.is_react("h"));
    assert!(!visitor.is_react("createElement"));
    assert!(!visitor.is_react("react"));
    assert!(!nativewind("/a.js".to_string()).is_react("React"));
}

#[test]
fn names_bound_to_the_factory() {
    let visitor = visitor();
    assert!(visitor.is_create_element("h"));
    assert!(visitor.is_create_element("createElement"));
    assert!(!visitor.is_create_element("React"));
    assert!(!visitor.is_create_element("R"));
    assert!(!visitor.is_create_element("H"));
    assert!(!nativewind("/a.js".to_string()).is_create_element("createElement"));
}

#[test]
fn member_shapes_with_the_factory_name() {
    let visitor = visitor();
    assert!(visitor.is_react_create_element_member_expr(
        &member_expr(name("React"), "createElement"),
        true
    ));
    assert!(visitor.is_react_create_element_member_expr(
        &member_expr(member(name("R"), "default"), "createElement"),
        true
    ));
    assert!(!visitor.is_react_create_element_member_expr(
        &member_expr(name("React"), "cloneElement"),
        true
    ));
    assert!(!visitor.is_react_create_element_member_expr(
        &member_expr(name("Preact"), "createElement"),
        true
    ));
    assert!(!visitor.is_react_create_element_member_expr(
        &member_expr(name("h"), "createElement"),
        true
    ));
    assert!(!visitor.is_react_create_element_member_expr(
        &member_expr(member(name("React"), "other"), "createElement"),
        true
    ));
    assert!(!visitor.is_react_create_element_member_expr(
        &member_expr(member(member(name("React"), "default"), "default"), "createElement"),
        true
    ));
    assert!(!visitor.is_react_create_element_member_expr(
        &member_expr(member(name("React"), "createElement"), "createElement"),
        true
    ));
    assert!(!visitor.is_react_create_element_member_expr(
        &member_expr(text("React"), "createElement"),
        true
    ));
}

#[test]
fn member_shapes_with_the_default_hop() {
    let visitor = visitor();
    assert!(visitor.is_react_create_element_member_expr(&member_expr(name("React"), "default"), false));
    assert!(!visitor.is_react_create_element_member_expr(
        &member_expr(name("React"), "createElement"),
        false
    ));
    assert!(!visitor.is_react_create_element_member_expr(&member_expr(name("x"), "default"), false));
    assert!(!visitor.is_react_create_element_member_expr(
        &member_expr(member(name("React"), "default"), "default"),
        false
    ));
}

#[test]
fn computed_and_private_properties_do_not_match() {
    let visitor = visitor();
    let computed = MemberExpr {
        obj: Box::new(name("React")),
        prop: MemberProp::Computed(Box::new(text("createElement"))),
    };
    assert!(!visitor.is_react_create_element_member_expr(&computed, true));
    let private = MemberExpr {
        obj: Box::new(name("React")),
        prop: MemberProp::PrivateName("createElement".to_string()),
    };
    assert!(!visitor.is_react_create_element_member_expr(&private, true));
    let (out, count) = rewritten(call(Expr::Member(computed), vec![name("A")]));
    assert_eq!(count, 0);
    assert_eq!(
        out,
        call(
            Expr::Member(
                MemberExpr {
                    obj: Box::new(name("React")),
                    prop: MemberProp::Computed(Box::new(text("createElement"))),
                },
            ),
            vec![name("A")]
        )
    );
}

#[test]
fn qualifying_calls() {
    let visitor = visitor();
    assert!(visitor.qualifies(&call_expr(0, 1, name("h"), vec![])));
    assert!(visitor.qualifies(&call_expr(0, 1, name("createElement"), vec![name("A")])));
    assert!(visitor.qualifies(&call_expr(0, 1, member(name("React"), "createElement"), vec![])));
    assert!(visitor.qualifies(&call_expr(
        0,
        1,
        member(member(name("React"), "default"), "createElement"),
        vec![]
    )));
    assert!(!visitor.qualifies(&call_expr(0, 1, name("React"), vec![])));
    assert!(!visitor.qualifies(&call_expr(0, 1, name("render"), vec![])));
    assert!(!visitor.qualifies(&call_expr(0, 1, member(name("React"), "default"), vec![])));
    assert!(!visitor.qualifies(&call_expr(0, 1, call(name("h"), vec![]), vec![])));
    assert!(!visitor.qualifies(&call_expr(0, 1, other("paren", vec![name("h")]), vec![])));
    let on_super = CallExpr {
        span: Span { lo: 0, hi: 1 },
        callee: Callee::Super,
        args: vec![],
        type_args: None,
    };
    assert!(!visitor.qualifies(&on_super));
    let dynamic_import = CallExpr {
        span: Span { lo: 0, hi: 1 },
        callee: Callee::Import,
        args: vec![text("react")],
        type_args: None,
    };
    assert!(!visitor.qualifies(&dynamic_import));
}

#[test]
fn type_arguments_disqualify() {
    let visitor = visitor();
    let mut typed = call_expr(0, 1, name("h"), vec![name("A")]);
    typed.type_args = Some(1);
    assert!(!visitor.qualifies(&typed));
    typed.type_args = Some(3);
    assert!(!visitor.qualifies(&typed));
    let (out, count) = rewritten(Expr::Call(typed));
    assert_eq!(count, 0);
    let mut same = call_expr(0, 1, name("h"), vec![name("A")]);
    same.type_args = Some(3);
    assert_eq!(out, Expr::Call(same));
}

#[test]
fn empty_type_argument_list_is_cleared() {
    let mut empty = call_expr(3, 8, name("h"), vec![name("A")]);
    empty.type_args = Some(0);
    assert!(visitor().qualifies(&empty));
    let (out, count) = rewritten(Expr::Call(empty));
    assert_eq!(count, 1);
    assert_eq!(out, Expr::Call(call_expr(3, 8, name("__c"), vec![name("A")])));
}

#[test]
fn optional_identifier_does_not_qualify() {
    let callee = Expr::Ident(Ident { sym: "h".to_string(), optional: true });
    assert!(!visitor().qualifies(&call_expr(0, 1, callee, vec![])));
}

#[test]
fn interop_call_keeps_arguments_and_position() {
    let visitor = visitor();
    let mut orig = call_expr(17, 42, member(name("React"), "createElement"), vec![
        text("div"),
        Expr::Spread(Box::new(name("rest"))),
        call(name("h"), vec![name("B")]),
    ]);
    orig.type_args = Some(0);
    let made = visitor.get_create_element_interop_call_expr(orig);
    assert_eq!(made.span, Span { lo: 17, hi: 42 });
    assert_eq!(made.callee, Callee::Expr(Box::new(name("__c"))));
    assert_eq!(made.type_args, None);
    assert_eq!(
        made.args,
        vec![text("div"), Expr::Spread(Box::new(name("rest"))), call(name("h"), vec![name("B")])]
    );
}

#[test]
fn call_is_replaced_in_place() {
    let mut visitor = visitor();
    let mut target = call_expr(10, 30, name("createElement"), vec![text("div"), other("null", vec![])]);
    visitor.visit_mut_call_expr(&mut target);
    assert_eq!(target, call_expr(10, 30, name("__c"), vec![text("div"), other("null", vec![])]));
    assert_eq!(visitor.replaced_create_element_cnt, 1);
    let mut untouched = call_expr(10, 30, name("render"), vec![text("div")]);
    visitor.visit_mut_call_expr(&mut untouched);
    assert_eq!(untouched, call_expr(10, 30, name("render"), vec![text("div")]));
    assert_eq!(visitor.replaced_create_element_cnt, 1);
}

#[test]
fn nested_calls_are_all_replaced() {
    let (out, count) = rewritten(
        call(name("createElement"), vec![
            name("A"),
            other("null", vec![]),
            call(name("createElement"), vec![name("B")]),
        ]),
    );
    assert_eq!(count, 2);
    assert_eq!(
        out,
        shim_call(vec![name("A"), other("null", vec![]), shim_call(vec![name("B")])])
    );
}

#[test]
fn calls_inside_other_calls_are_replaced() {
    let (out, count) = rewritten(
        call(name("render"), vec![
            call(member(name("React"), "createElement"), vec![name("A")]),
            Expr::Spread(Box::new(call(name("h"), vec![name("B")]))),
        ]),
    );
    assert_eq!(count, 2);
    assert_eq!(
        out,
        call(name("render"), vec![
            shim_call(vec![name("A")]),
            Expr::Spread(Box::new(shim_call(vec![name("B")]))),
        ])
    );
}

#[test]
fn calls_in_callee_position_are_replaced() {
    let (out, count) = rewritten(call(call(name("h"), vec![name("A")]), vec![name("x")]));
    assert_eq!(count, 1);
    assert_eq!(out, call(shim_call(vec![name("A")]), vec![name("x")]));
    let (out, count) = rewritten(
        call(member(call(name("h"), vec![name("A")]), "createElement"), vec![]),
    );
    assert_eq!(count, 1);
    assert_eq!(out, call(member(shim_call(vec![name("A")]), "createElement"), vec![]));
}

#[test]
fn calls_inside_member_accesses_are_replaced() {
    let computed = Expr::Member(
        MemberExpr {
            obj: Box::new(call(name("h"), vec![name("A")])),
            prop: MemberProp::Computed(Box::new(call(name("h"), vec![name("B")]))),
        },
    );
    let (out, count) = rewritten(computed);
    assert_eq!(count, 2);
    assert_eq!(
        out,
        Expr::Member(
            MemberExpr {
                obj: Box::new(shim_call(vec![name("A")])),
                prop: MemberProp::Computed(Box::new(shim_call(vec![name("B")]))),
            },
        )
    );
}

#[test]
fn constructs_that_are_no_plain_call_are_left() {
    let optional_chain = other("optional call", vec![member(name("React"), "createElement"), name("A")]);
    let (out, count) = rewritten(optional_chain);
    assert_eq!(count, 0);
    assert_eq!(
        out,
        other("optional call", vec![member(name("React"), "createElement"), name("A")])
    );
    let construction = other("new", vec![member(name("React"), "createElement"), name("A")]);
    let (out, count) = rewritten(construction);
    assert_eq!(count, 0);
    assert_eq!(out, other("new", vec![member(name("React"), "createElement"), name("A")]));
}

#[test]
fn calls_below_other_constructs_are_replaced() {
    let body = other("function", vec![
        name("App"),
        other("return", vec![
            other("new", vec![name("Wrapper"), call(name("h"), vec![name("A")])]),
        ]),
    ]);
    let (out, count) = rewritten(body);
    assert_eq!(count, 1);
    assert_eq!(
        out,
        other("function", vec![
            name("App"),
            other("return", vec![other("new", vec![name("Wrapper"), shim_call(vec![name("A")])])]),
        ])
    );
}

#[test]
fn leaves_are_left() {
    assert_eq!(rewritten(name("h")), (name("h"), 0));
    assert_eq!(rewritten(text("createElement")), (text("createElement"), 0));
    assert_eq!(
        rewritten(member(name("React"), "createElement")),
        (member(name("React"), "createElement"), 0)
    );
}

#[test]
fn calls_inside_patterns_are_replaced() {
    let mut visitor = visitor();
    let mut pat = Pat::Object {
        optional: false,
        props: vec![
            ObjectPatProp::Assign { key: id("a"), value: Some(call(name("h"), vec![name("A")])) },
            ObjectPatProp::Assign { key: id("b"), value: None },
            ObjectPatProp::KeyValue {
                key: PropName::Computed(call(name("h"), vec![name("B")])),
                value: Box::new(
                    Pat::Object {
                        optional: false,
                        props: vec![
                            ObjectPatProp::Rest(Box::new(Pat::Other(call(name("h"), vec![name("C")])))),
                        ],
                    },
                ),
            },
            ObjectPatProp::KeyValue { key: PropName::Ident(id("h")), value: Box::new(Pat::Ident(id("h"))) },
        ],
    };
    visitor.visit_mut_pat(&mut pat);
    assert_eq!(visitor.replaced_create_element_cnt, 3);
    assert_eq!(
        pat,
        Pat::Object {
            optional: false,
            props: vec![
                ObjectPatProp::Assign { key: id("a"), value: Some(shim_call(vec![name("A")])) },
                ObjectPatProp::Assign { key: id("b"), value: None },
                ObjectPatProp::KeyValue {
                    key: PropName::Computed(shim_call(vec![name("B")])),
                    value: Box::new(
                        Pat::Object {
                            optional: false,
                            props: vec![
                                ObjectPatProp::Rest(Box::new(Pat::Other(shim_call(vec![name("C")])))),
                            ],
                        },
                    ),
                },
                ObjectPatProp::KeyValue {
                    key: PropName::Ident(id("h")),
                    value: Box::new(Pat::Ident(id("h"))),
                },
            ],
        }
    );
}

#[test]
fn calls_inside_declarations_are_replaced() {
    let mut visitor = visitor();
    let mut decl = VarDecl {
        kind: VarDeclKind::Let,
        declare: false,
        decls: vec![
            VarDeclarator { name: Pat::Ident(id("a")), init: Some(call(name("h"), vec![name("A")])) },
            VarDeclarator { name: Pat::Ident(id("b")), init: None },
            VarDeclarator {
                name: Pat::Other(other("array pattern", vec![call(name("h"), vec![])])),
                init: Some(name("c")),
            },
        ],
    };
    visitor.visit_mut_var_decl(&mut decl);
    assert_eq!(visitor.replaced_create_element_cnt, 2);
    assert_eq!(
        decl,
        VarDecl {
            kind: VarDeclKind::Let,
            declare: false,
            decls: vec![
                VarDeclarator { name: Pat::Ident(id("a")), init: Some(shim_call(vec![name("A")])) },
                VarDeclarator { name: Pat::Ident(id("b")), init: None },
                VarDeclarator {
                    name: Pat::Other(other("array pattern", vec![shim_call(vec![])])),
                    init: Some(name("c")),
                },
            ],
        }
    );
}

#[test]
fn rewriter_pass_inserts_nothing() {
    let mut visitor = visitor();
    let mut module = Module {
        body: vec![
            ModuleItem::Import(
                ImportDecl {
                    src: "react".to_string(),
                    specifiers: vec![ImportSpecifier::Default { local: id("React") }],
                    type_only: false,
                },
            ),
            ModuleItem::Other(call(name("h"), vec![name("A")])),
            ModuleItem::Var(
                VarDecl {
                    kind: VarDeclKind::Const,
                    declare: false,
                    decls: vec![
                        VarDeclarator {
                            name: Pat::Ident(id("x")),
                            init: Some(call(member(name("R"), "createElement"), vec![])),
                        },
                    ],
                },
            ),
        ],
    };
    visitor.visit_mut_module_items(&mut module);
    assert_eq!(visitor.replaced_create_element_cnt, 2);
    assert_eq!(module.body.len(), 3);
    assert_eq!(module.body[1], ModuleItem::Other(shim_call(vec![name("A")])));
    let mut item = ModuleItem::Other(call(name("h"), vec![]));
    visitor.visit_mut_module_item(&mut item);
    assert_eq!(item, ModuleItem::Other(shim_call(vec![])));
    assert_eq!(visitor.replaced_create_element_cnt, 3);
}

#[test]
fn counter_stops_at_the_largest_value() {
    let mut visitor = visitor();
    visitor.replaced_create_element_cnt = usize::MAX - 1;
    let mut e = other("block", vec![
        call(name("h"), vec![]),
        call(name("h"), vec![]),
        call(name("h"), vec![]),
    ]);
    visitor.visit_mut_expr(&mut e);
    assert_eq!(visitor.replaced_create_element_cnt, usize::MAX);
    assert_eq!(e, other("block", vec![shim_call(vec![]), shim_call(vec![]), shim_call(vec![])]));
}

#[test]
fn visitor_keeps_its_setup_while_rewriting() {
    let mut visitor = visitor();
    let mut e = call(name("h"), vec![call(name("h"), vec![])]);
    visitor.visit_mut_expr(&mut e);
    assert_eq!(visitor.filename, Some("/app/index.js".to_string()));
    assert_eq!(visitor.interop_ident, id("__c"));
    assert_eq!(visitor.react_imports.len(), 4);
    let mut list = vec![call(name("h"), vec![]), name("x")];
    visitor.visit_mut_exprs(&mut list);
    assert_eq!(list, vec![shim_call(vec![]), name("x")]);
    let mut absent: Option<Expr> = None;
    visitor.visit_mut_opt_expr(&mut absent);
    assert_eq!(absent, None);
    assert_eq!(visitor.replaced_create_element_cnt, 3);
}

#[test]
fn shim_binding_as_an_import() {
    let shim = visitor().get_import_create_element_and_check_css_interop();
    assert_eq!(
        shim,
        ModuleItem::Import(
            ImportDecl {
                src: "react-native-css-interop".to_string(),
                specifiers: vec![
                    ImportSpecifier::Named {
                        local: id("__c"),
                        imported: Some(ModuleExportName::Ident(id("createElementAndCheckCssInterop"))),
                    },
                ],
                type_only: false,
            },
        )
    );
}

#[test]
fn shim_binding_as_a_require_declaration() {
    let mut visitor = visitor();
    visitor.interop_ident = id("__c_");
    let shim = visitor.get_require_create_element_and_check_css_interop();
    assert_eq!(
        shim,
        ModuleItem::Var(
            VarDecl {
                kind: VarDeclKind::Const,
                declare: false,
                decls: vec![
                    VarDeclarator {
                        name: Pat::Object {
                            optional: false,
                            props: vec![
                                ObjectPatProp::KeyValue {
                                    key: PropName::Ident(id("createElementAndCheckCssInterop")),
                                    value: Box::new(Pat::Ident(id("__c_"))),
                                },
                            ],
                        },
                        init: Some(
                            Expr::Call(
                                CallExpr {
                                    span: Span { lo: 0, hi: 0 },
                                    callee: Callee::Expr(Box::new(name("require"))),
                                    args: vec![text("react-native-css-interop")],
                                    type_args: None,
                                },
                            ),
                        ),
                    },
                ],
            },
        )
    );
}

#[test]
fn shim_form_follows_the_bindings() {
    let mut visitor = nativewind("/a.js".to_string());
    assert!(!visitor.has_esm_import());
    assert_eq!(visitor.shim_to_insert(), None);
    visitor.count_replacement();
    assert_eq!(visitor.shim_to_insert(), Some(ModuleType::Cjs));
    visitor.react_imports = vec![
        binding(ModuleType::Cjs, ImportTarget::Base, "R"),
        binding(ModuleType::Cjs, ImportTarget::CreateElement, "h"),
    ];
    assert!(!visitor.has_esm_import());
    assert_eq!(visitor.shim_to_insert(), Some(ModuleType::Cjs));
    visitor.react_imports.push(binding(ModuleType::Esm, ImportTarget::Base, "React"));
    assert!(visitor.has_esm_import());
    assert_eq!(visitor.shim_to_insert(), Some(ModuleType::Esm));
    visitor.replaced_create_element_cnt = 0;
    assert_eq!(visitor.shim_to_insert(), None);
}

#[test]
fn span_of_no_place() {
    assert_eq!(Span::dummy(), Span { lo: 0, hi: 0 });
}
