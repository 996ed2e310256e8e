//! What a dependency declares about the exports of its module.
use vstd::prelude::*;

verus! {

/// One entry of an explicit export list.
#[derive(Debug)]
pub enum ExportNameOrSpec {
    /// A plain export name.
    String(String),
    /// An export name with its own settings.
    ExportSpec(ExportSpec),
}

/// An export name with its own settings.
#[derive(Debug)]
pub struct ExportSpec {
    pub name: String,
    pub can_mangle: Option<bool>,
    pub terminal_binding: Option<bool>,
}

/// The exports a dependency contributes.
#[derive(Debug)]
pub enum ExportsOfExportsSpec {
    /// An explicit, ordered list.
    Array(Vec<ExportNameOrSpec>),
    /// The module is known to have no exports.
    NoExports,
    /// The exports are dynamic or unknown.
    UnknownExports,
}

/// A re-export target: the dependency that leads to it.
#[derive(Clone, Copy, Debug, PartialEq, Eq, Hash, Structural)]
pub struct ExportsFrom {
    pub dependency: crate::dependency::DependencyId,
}

/// What a dependency declares about the exports of its module.
#[derive(Debug)]
pub struct ExportsSpec {
    pub exports: ExportsOfExportsSpec,
    /// Breaks ties between dependencies that declare the same name: the
    /// higher wins.
    pub priority: Option<u8>,
    pub can_mangle: Option<bool>,
    /// A terminal binding ends the walk along re-export chains.
    pub terminal_binding: Option<bool>,
    pub from: Option<ExportsFrom>,
    pub dependencies: Option<Vec<crate::dependency::DependencyId>>,
    pub hide_export: Option<Vec<String>>,
    pub exclude_exports: Option<Vec<String>>,
}

/// The name an entry of an export list declares.
pub open spec fn entry_name(e: ExportNameOrSpec) -> Seq<char> {
    match e {
        ExportNameOrSpec::String(s) => s@,
        ExportNameOrSpec::ExportSpec(spec) => spec.name@,
    }
}

/// The names an explicit export list declares, in order; `None` where the
/// exports are not given as a list.
pub open spec fn declared_names(e: ExportsOfExportsSpec) -> Option<Seq<Seq<char>>> {
    match e {
        ExportsOfExportsSpec::Array(v) => Some(v@.map_values(|x: ExportNameOrSpec| entry_name(x))),
        _ => None,
    }
}

} // verus!
