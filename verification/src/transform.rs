//! What the transform does to a module, stated on the model.

use vstd::prelude::*;
use crate::constants::{
    CREATE_ELEMENT_AND_CHECK_CSS_INTEROP, REACT_NATIVE_CSS_INTEROP_PACKAGE, REQUIRE,
};
use crate::hygiene::module_alias;
use crate::model::{
    CalleeView, CallExprView, dummy_span, ExprView, IdentView, ImportDeclView, ImportSpecifierView,
    ModuleExportNameView, ModuleItemView, ModuleView, ObjectPatPropView, PatView, plain_ident,
    PropNameView, VarDeclaratorView, VarDeclKind, VarDeclView,
};
use crate::react_collector::{module_bindings, ModuleType, ReactImportView};
use crate::rewrite::{replacements, rewrite_items};

verus! {

/// Whether some binding was found in an import declaration.
pub open spec fn has_esm_binding(bindings: Seq<ReactImportView>) -> bool {
    exists|i: int| 0 <= i < bindings.len() && (#[trigger] bindings[i]).module_type == ModuleType::Esm
}

/// The form of the shim binding: an import where any binding was found in an
/// import declaration, else a `require` declaration.
pub open spec fn shim_form(bindings: Seq<ReactImportView>) -> ModuleType {
    if has_esm_binding(bindings) {
        ModuleType::Esm
    } else {
        ModuleType::Cjs
    }
}

/// `import { createElementAndCheckCssInterop as alias } from "react-native-css-interop";`
pub open spec fn esm_shim(alias: IdentView) -> ModuleItemView {
    ModuleItemView::Import(
        ImportDeclView {
            src: REACT_NATIVE_CSS_INTEROP_PACKAGE@,
            specifiers: seq![
                ImportSpecifierView::Named {
                    local: alias,
                    imported: Some(
                        ModuleExportNameView::Ident(
                            plain_ident(CREATE_ELEMENT_AND_CHECK_CSS_INTEROP@),
                        ),
                    ),
                },
            ],
            type_only: false,
        },
    )
}

/// `require("react-native-css-interop")`
pub open spec fn shim_require() -> ExprView {
    ExprView::Call(
        CallExprView {
            span: dummy_span(),
            callee: CalleeView::Expr(Box::new(ExprView::Ident(plain_ident(REQUIRE@)))),
            args: seq![ExprView::Str(REACT_NATIVE_CSS_INTEROP_PACKAGE@)],
            type_args: None,
        },
    )
}

/// `const { createElementAndCheckCssInterop: alias } = require("react-native-css-interop");`
pub open spec fn cjs_shim(alias: IdentView) -> ModuleItemView {
    ModuleItemView::Var(
        VarDeclView {
            kind: VarDeclKind::Const,
            declare: false,
            decls: seq![
                VarDeclaratorView {
                    name: PatView::Object {
                        optional: false,
                        props: seq![
                            ObjectPatPropView::KeyValue {
                                key: PropNameView::Ident(
                                    plain_ident(CREATE_ELEMENT_AND_CHECK_CSS_INTEROP@),
                                ),
                                value: Box::new(PatView::Ident(alias)),
                            },
                        ],
                    },
                    init: Some(shim_require()),
                },
            ],
        },
    )
}

/// The shim binding in the given form.
pub open spec fn shim(form: ModuleType, alias: IdentView) -> ModuleItemView {
    match form {
        ModuleType::Esm => esm_shim(alias),
        ModuleType::Cjs => cjs_shim(alias),
    }
}

/// The module that the transform returns for `module`, given whether its file
/// is denied.
///
/// A denied module, one without React bindings and one in which no call
/// qualifies stay as they are. In any other, every qualifying call is
/// replaced and the shim binding becomes the first item.
pub open spec fn transform(denied: bool, module: ModuleView) -> ModuleView {
    let bindings = module_bindings(module);
    if denied || bindings.len() == 0 || replacements(bindings, module) == 0 {
        module
    } else {
        let alias = module_alias(module);
        ModuleView {
            body: seq![shim(shim_form(bindings), alias)] + rewrite_items(
                bindings,
                alias,
                module.body,
            ),
        }
    }
}

} // verus!
