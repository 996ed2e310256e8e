//! The named export specifier dependency of an ES module (`export { a as b }`),
//! the per-module export usage table it reads, and the two code generation
//! paths it drives: a standalone exports definer fragment, or a binding
//! registered into a concatenation scope.
pub mod dependency;
pub mod exports_info;
pub mod exports_spec;
pub mod export_specifier;
pub mod template;
