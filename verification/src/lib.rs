//! Rewrites calls of React's `createElement` into calls of the CSS interop
//! shim of `react-native-css-interop`, on a syntax tree of the module.
//!
//! A pass over a module has three parts. [`react_collector`] finds the names
//! under which the module holds React or `createElement`. The rewriter in
//! [`visitor`] replaces every call of `createElement` through one of these
//! names by a call of the shim. Where any call was replaced, the binding of
//! the shim becomes the first item of the module. Modules in the files of React
//! and of the styling packages themselves are left alone.
//!
//! [`transform`] and [`rewrite`] say on the model of [`model`] what a pass
//! returns; [`laws`] holds what follows for every module.

pub mod ast;
pub mod constants;
pub mod denial;
pub mod hygiene;
pub mod laws;
pub mod model;
pub mod react_collector;
pub mod rewrite;
pub mod rewrite_laws;
pub mod seqs;
pub mod text;
pub mod transform;
pub mod visitor;

pub use crate::react_collector::{ImportTarget, ModuleType, ReactCollector, ReactImport};
pub use crate::visitor::{nativewind, NativeWindVisitor};
