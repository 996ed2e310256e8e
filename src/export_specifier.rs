//! The dependency for one specifier of `export { local as exported }`.
use vstd::prelude::*;
use crate::dependency::{
    AffectType, ConnectionState, DependencyCategory, DependencyId, DependencyLocation,
    DependencyType, location_text,
};
use crate::exports_info::{
    first_applicable, used_name_of, RuntimeSpec, UsageState,
};
use crate::exports_spec::{
    declared_names, ExportNameOrSpec, ExportsOfExportsSpec, ExportsSpec,
};
use crate::template::{ESMExportInitFragment, FragmentView, TemplateContext, TemplateContextView};

verus! {

/// Exports the local binding `value` under the name `name`.
#[derive(Debug, Clone)]
pub struct ESMExportSpecifierDependency {
    pub id: DependencyId,
    pub range: DependencyLocation,
    pub name: String,
    pub value: String,
}

/// The context after code generation for an export of local binding `value`
/// under `name`: inside a concatenation scope the pair is registered there;
/// otherwise, where the export is used, one fragment pairs its final name
/// (the first candidate) with the binding; where it is unused nothing changes.
pub open spec fn apply_result(
    name: Seq<char>,
    value: Seq<char>,
    c: TemplateContextView,
) -> TemplateContextView {
    match c.concatenation_scope {
        Some(s) => TemplateContextView {
            runtime: c.runtime,
            exports_argument: c.exports_argument,
            exports_info: c.exports_info,
            init_fragments: c.init_fragments,
            concatenation_scope: Some(s.push((name, value))),
        },
        None => match used_name_of(c.exports_info, c.runtime, name) {
            None => c,
            Some(u) => TemplateContextView {
                runtime: c.runtime,
                exports_argument: c.exports_argument,
                exports_info: c.exports_info,
                init_fragments: c.init_fragments.push(
                    FragmentView { exports_argument: c.exports_argument, exports: seq![(u[0], value)] },
                ),
                concatenation_scope: None,
            },
        },
    }
}

impl ESMExportSpecifierDependency {
    pub fn new(name: String, value: String, range: DependencyLocation, id: DependencyId) -> (r:
        ESMExportSpecifierDependency)
        ensures
            r.name@ == name@,
            r.value@ == value@,
            r.range == range,
            r.id == id,
    {
        ESMExportSpecifierDependency { id, range, name, value }
    }

    /// Exactly the one exported name, with priority 1 and a terminal binding.
    pub fn get_exports(&self) -> (r: Option<ExportsSpec>)
        ensures
            r matches Some(spec) && declared_names(spec.exports) == Some(seq![self.name@])
                && spec.priority == Some(1u8) && spec.can_mangle.is_none()
                && spec.terminal_binding == Some(true) && spec.from.is_none()
                && spec.dependencies.is_none() && spec.hide_export.is_none()
                && spec.exclude_exports.is_none(),
    {
        let exports = vec![ExportNameOrSpec::String(self.name.clone())];
        let r = ExportsSpec {
            exports: ExportsOfExportsSpec::Array(exports),
            priority: Some(1),
            can_mangle: None,
            terminal_binding: Some(true),
            from: None,
            dependencies: None,
            hide_export: None,
            exclude_exports: None,
        };
        assert(declared_names(r.exports).unwrap() =~= seq![self.name@]);
        Some(r)
    }

    /// Re-exporting a binding that is already bound never requires evaluation.
    pub fn get_module_evaluation_side_effects_state(&self) -> (r: ConnectionState)
        ensures
            r == ConnectionState::Bool(false),
    {
        ConnectionState::Bool(false)
    }

    /// The edge never changes what the referencing module observes.
    pub fn could_affect_referencing_module(&self) -> (r: AffectType)
        ensures
            r == AffectType::False,
    {
        AffectType::False
    }

    /// Emits the export: into the concatenation scope where one is active,
    /// else as a definer fragment under its final name, or not at all where
    /// it is unused under the context's runtime.
    pub fn apply(&self, ctx: &mut TemplateContext)
        requires
            old(ctx).exports_info.wf(),
        ensures
            final(ctx)@ == apply_result(self.name@, self.value@, old(ctx)@),
    {
        match &mut ctx.concatenation_scope {
            Some(scope) => {
                scope.register_export(self.name.clone(), self.value.clone());
                return;
            },
            None => {},
        }
        let used = ctx.exports_info.get_used_name(ctx.runtime, &self.name);
        match used {
            Some(u) => {
                let m = u.first();
                let fragment = ESMExportInitFragment::new(
                    ctx.exports_argument.clone(),
                    vec![(m, self.value.clone())],
                );
                assert(fragment@.exports =~= seq![(u@[0], self.value@)]);
                ctx.init_fragments.push(fragment);
                assert(ctx@.init_fragments =~= old(ctx)@.init_fragments.push(fragment@));
            },
            None => {},
        }
    }

    pub fn loc(&self) -> (r: Option<String>)
        ensures
            r matches Some(t) && t@ == location_text(self.range),
    {
        Some(self.range.to_text())
    }

    pub fn dependency_id(&self) -> (r: Option<DependencyId>)
        ensures
            r == Some(self.id),
    {
        Some(self.id)
    }

    pub fn id(&self) -> (r: &DependencyId)
        ensures
            *r == self.id,
    {
        &self.id
    }

    pub fn category(&self) -> (r: DependencyCategory)
        ensures
            r == DependencyCategory::Esm,
    {
        DependencyCategory::Esm
    }

    pub fn dependency_type(&self) -> (r: DependencyType)
        ensures
            r == DependencyType::EsmExportSpecifier,
    {
        DependencyType::EsmExportSpecifier
    }

    /// Adds nothing to the hash: name, binding and location already enter
    /// the module's own hash.
    pub fn update_hash<H: core::hash::Hasher>(
        &self,
        hasher: &mut H,
        _runtime: Option<RuntimeSpec>,
    )
        ensures
            *final(hasher) == *old(hasher),
    {
    }
}

/// Where no concatenation scope is active and the usage table marks the
/// export `name` unused under the context's runtime, code generation adds no
/// fragment and changes nothing.
pub proof fn lemma_unused_export_emits_nothing(
    name: Seq<char>,
    value: Seq<char>,
    c: TemplateContextView,
    i: int,
)
    requires
        c.concatenation_scope.is_none(),
        first_applicable(c.exports_info, name, c.runtime, 0) == Some(i),
        c.exports_info[i].usage == UsageState::Unused,
    ensures
        apply_result(name, value, c).init_fragments == c.init_fragments,
        apply_result(name, value, c) == c,
{
}

/// Where no concatenation scope is active and the usage table marks the
/// export `name` used with final name `m` under the context's runtime, code
/// generation adds exactly one fragment, holding the one pair (`m`, `value`),
/// and still has no concatenation scope.
pub proof fn lemma_used_export_emits_one_pair(
    name: Seq<char>,
    value: Seq<char>,
    m: Seq<char>,
    c: TemplateContextView,
    i: int,
)
    requires
        c.concatenation_scope.is_none(),
        first_applicable(c.exports_info, name, c.runtime, 0) == Some(i),
        c.exports_info[i].usage == UsageState::Used,
        match c.exports_info[i].used_name {
            Some(u) => u.len() > 0 && u[0] == m,
            None => m == name,
        },
    ensures
        apply_result(name, value, c).init_fragments == c.init_fragments.push(
            FragmentView { exports_argument: c.exports_argument, exports: seq![(m, value)] },
        ),
        apply_result(name, value, c).concatenation_scope.is_none(),
{
}

/// Where a concatenation scope is active, code generation registers exactly
/// the pair (`name`, `value`) in it and adds no fragment, whatever the usage
/// table says.
pub proof fn lemma_concatenation_registers_binding(
    name: Seq<char>,
    value: Seq<char>,
    c: TemplateContextView,
    s: Seq<(Seq<char>, Seq<char>)>,
)
    requires
        c.concatenation_scope == Some(s),
    ensures
        apply_result(name, value, c).concatenation_scope == Some(s.push((name, value))),
        apply_result(name, value, c).init_fragments == c.init_fragments,
{
}

/// Code generation is deterministic: two dependencies with the same name and
/// binding, applied to contexts that hold the same, yield contexts that hold
/// the same.
pub proof fn lemma_apply_deterministic(
    d1: ESMExportSpecifierDependency,
    d2: ESMExportSpecifierDependency,
    c1: TemplateContextView,
    c2: TemplateContextView,
)
    requires
        d1.name@ == d2.name@,
        d1.value@ == d2.value@,
        c1 == c2,
    ensures
        apply_result(d1.name@, d1.value@, c1) == apply_result(d2.name@, d2.value@, c2),
{
}

} // verus!
