//! Names that the transform recognises or emits, spelled exactly as they
//! appear in source text.

use vstd::prelude::*;

verus! {

/// Regular expression for files that belong to React or to the styling
/// packages themselves: a path component equal to one of the four package
/// names, with a `/` or `\` on both sides.
pub const DENIED_FILE_REGEX: &'static str =
    r".*[\/\\](?:react|react-native|react-native-web|react-native-css-interop)[\/\\]";

/// CommonJS loader function.
pub const REQUIRE: &'static str = "require";

/// Helper that Babel wraps around `require` for default imports.
pub const INTEROP_REQUIRE_DEFAULT: &'static str = "_interopRequireDefault";

/// Property under which the interop helper exposes the module object.
pub const DEFAULT: &'static str = "default";

/// Module specifier of React.
pub const REACT_PACKAGE: &'static str = "react";

/// Name of React's element factory.
pub const CREATE_ELEMENT: &'static str = "createElement";

/// Module specifier of the package that supplies the shim.
pub const REACT_NATIVE_CSS_INTEROP_PACKAGE: &'static str = "react-native-css-interop";

/// Name under which the shim is exported.
pub const CREATE_ELEMENT_AND_CHECK_CSS_INTEROP: &'static str = "createElementAndCheckCssInterop";

/// Conventional local name of the shim; underscores are appended to it until
/// it is unused in the module at hand.
pub const INTEROP_ALIAS: &'static str = "__c";

/// Text appended to the alias while it collides with a name of the module.
pub const ALIAS_PADDING: &'static str = "_";

} // verus!
