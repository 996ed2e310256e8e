//! Code generation state: the exports definer fragments of a module and the
//! optional concatenation scope.
use vstd::prelude::*;
use crate::exports_info::{ExportInfoView, ExportsInfo, RuntimeSpec};

verus! {

/// A list of (name, binding) pairs, viewed as text.
pub open spec fn pairs_view(v: Seq<(String, String)>) -> Seq<(Seq<char>, Seq<char>)> {
    v.map_values(|p: (String, String)| (p.0@, p.1@))
}

/// Pairs of (exported name, local binding) for the exports object of one
/// module; the renderer merges all fragments of a module into one definer call.
#[derive(Debug)]
pub struct ESMExportInitFragment {
    pub exports_argument: String,
    pub exports: Vec<(String, String)>,
}

/// What a fragment holds: the exports object binding and its pairs.
pub struct FragmentView {
    pub exports_argument: Seq<char>,
    pub exports: Seq<(Seq<char>, Seq<char>)>,
}

impl View for ESMExportInitFragment {
    type V = FragmentView;

    open spec fn view(&self) -> FragmentView {
        FragmentView { exports_argument: self.exports_argument@, exports: pairs_view(self.exports@) }
    }
}

impl ESMExportInitFragment {
    pub fn new(exports_argument: String, exports: Vec<(String, String)>) -> (r: ESMExportInitFragment)
        ensures
            r@ == (FragmentView { exports_argument: exports_argument@, exports: pairs_view(exports@) }),
    {
        ESMExportInitFragment { exports_argument, exports }
    }
}

/// The rename table of one concatenation-aware code generation pass: each
/// export name with the local binding that stands for it.
#[derive(Debug)]
pub struct ConcatenationScope {
    pub exports: Vec<(String, String)>,
}

impl View for ConcatenationScope {
    type V = Seq<(Seq<char>, Seq<char>)>;

    open spec fn view(&self) -> Seq<(Seq<char>, Seq<char>)> {
        pairs_view(self.exports@)
    }
}

impl ConcatenationScope {
    pub fn new() -> (r: ConcatenationScope)
        ensures
            r@ == Seq::<(Seq<char>, Seq<char>)>::empty(),
    {
        ConcatenationScope { exports: Vec::new() }
    }

    /// Records that `export_name` is the local binding `symbol`.
    pub fn register_export(&mut self, export_name: String, symbol: String)
        ensures
            final(self)@ == old(self)@.push((export_name@, symbol@)),
    {
        self.exports.push((export_name, symbol));
        assert(final(self)@ =~= old(self)@.push((export_name@, symbol@)));
    }
}

/// What code generation for one module under one runtime sees and fills.
#[derive(Debug)]
pub struct TemplateContext {
    pub runtime: Option<RuntimeSpec>,
    /// The identifier of the module's exports object.
    pub exports_argument: String,
    /// The module's export usage, frozen for code generation.
    pub exports_info: ExportsInfo,
    pub init_fragments: Vec<ESMExportInitFragment>,
    /// Present only in a concatenation-aware pass.
    pub concatenation_scope: Option<ConcatenationScope>,
}

/// What a template context holds.
pub struct TemplateContextView {
    pub runtime: Option<RuntimeSpec>,
    pub exports_argument: Seq<char>,
    pub exports_info: Seq<ExportInfoView>,
    pub init_fragments: Seq<FragmentView>,
    pub concatenation_scope: Option<Seq<(Seq<char>, Seq<char>)>>,
}

impl View for TemplateContext {
    type V = TemplateContextView;

    open spec fn view(&self) -> TemplateContextView {
        TemplateContextView {
            runtime: self.runtime,
            exports_argument: self.exports_argument@,
            exports_info: self.exports_info@,
            init_fragments: self.init_fragments@.map_values(|f: ESMExportInitFragment| f@),
            concatenation_scope: match self.concatenation_scope {
                Some(s) => Some(s@),
                None => None,
            },
        }
    }
}

} // verus!
