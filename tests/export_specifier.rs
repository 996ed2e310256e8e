use esm_export_specifier::dependency::{
    AffectType, ConnectionState, DependencyCategory, DependencyId, DependencyIdGenerator,
    DependencyLocation, DependencyType,
};
use esm_export_specifier::export_specifier::ESMExportSpecifierDependency;
use esm_export_specifier::exports_info::{
    ExportInfo, ExportsInfo, RuntimeSpec, UsageState, UsedName,
};
use esm_export_specifier::exports_spec::{
    ExportNameOrSpec, ExportSpec, ExportsOfExportsSpec, ExportsSpec,
};
use esm_export_specifier::template::{ConcatenationScope, TemplateContext};
use std::hash::Hasher;

const R1: RuntimeSpec = RuntimeSpec { id: 1 };
const R2: RuntimeSpec = RuntimeSpec { id: 2 };

fn location() -> DependencyLocation {
    DependencyLocation { start_line: 1, start_column: 9, end_line: 1, end_column: 15 }
}

fn dep_b_a1() -> ESMExportSpecifierDependency {
    ESMExportSpecifierDependency::new(
        "b".to_string(),
        "a_1".to_string(),
        location(),
        DependencyId { id: 7 },
    )
}

fn entry(
    name: &str,
    runtime: Option<RuntimeSpec>,
    usage: UsageState,
    used_name: Option<UsedName>,
) -> ExportInfo {
    ExportInfo {
        name: name.to_string(),
        runtime,
        usage,
        used_name,
        provided: true,
        priority: 0,
        terminal_binding: false,
        provider: None,
    }
}

fn context(runtime: Option<RuntimeSpec>, exports: Vec<ExportInfo>) -> TemplateContext {
    TemplateContext {
        runtime,
        exports_argument: "__webpack_exports__".to_string(),
        exports_info: ExportsInfo { exports },
        init_fragments: Vec::new(),
        concatenation_scope: None,
    }
}

fn b_by_runtime() -> Vec<ExportInfo> {
    vec![
        entry("b", Some(R1), UsageState::Unused, None),
        entry("b", Some(R2), UsageState::Used, Some(UsedName::Str("b".to_string()))),
    ]
}

fn fragment_pairs(ctx: &TemplateContext) -> Vec<(String, Vec<(String, String)>)> {
    ctx.init_fragments
        .iter()
        .map(|f| (f.exports_argument.clone(), f.exports.clone()))
        .collect()
}

fn pair(a: &str, b: &str) -> (String, String) {
    (a.to_string(), b.to_string())
}

#[test]
fn get_exports_declares_exactly_the_name() {
    let dep = dep_b_a1();
    let spec = dep.get_exports().expect("exports are known");
    match &spec.exports {
        ExportsOfExportsSpec::Array(v) => {
            assert_eq!(v.len(), 1);
            match &v[0] {
                ExportNameOrSpec::String(s) => assert_eq!(s, "b"),
                other => panic!("unexpected entry {:?}", other),
            }
        }
        other => panic!("unexpected exports {:?}", other),
    }
    assert_eq!(spec.priority, Some(1));
    assert_eq!(spec.terminal_binding, Some(true));
    assert_eq!(spec.can_mangle, None);
    assert!(spec.from.is_none());
    assert!(spec.dependencies.is_none());
    assert!(spec.hide_export.is_none());
    assert!(spec.exclude_exports.is_none());
}

#[test]
fn side_effects_state_is_false() {
    assert_eq!(dep_b_a1().get_module_evaluation_side_effects_state(), ConnectionState::Bool(false));
}

#[test]
fn never_affects_referencing_module() {
    assert_eq!(dep_b_a1().could_affect_referencing_module(), AffectType::False);
}

#[test]
fn classification_and_identity() {
    let dep = dep_b_a1();
    assert_eq!(dep.category(), DependencyCategory::Esm);
    assert_eq!(dep.dependency_type(), DependencyType::EsmExportSpecifier);
    assert_eq!(dep.dependency_id(), Some(DependencyId { id: 7 }));
    assert_eq!(*dep.id(), DependencyId { id: 7 });
    assert_eq!(dep.name, "b");
    assert_eq!(dep.value, "a_1");
}

#[test]
fn loc_on_one_line() {
    assert_eq!(dep_b_a1().loc(), Some("1:9-15".to_string()));
}

#[test]
fn loc_across_lines() {
    let dep = ESMExportSpecifierDependency::new(
        "x".to_string(),
        "y".to_string(),
        DependencyLocation { start_line: 12, start_column: 0, end_line: 130, end_column: 4 },
        DependencyId { id: 0 },
    );
    assert_eq!(dep.loc(), Some("12:0-130:4".to_string()));
}

#[test]
fn loc_largest_numbers() {
    let l = DependencyLocation {
        start_line: u32::MAX,
        start_column: 10,
        end_line: u32::MAX,
        end_column: u32::MAX,
    };
    assert_eq!(l.to_text(), "4294967295:10-4294967295");
}

#[test]
fn scenario_unused_under_first_runtime() {
    let mut ctx = context(Some(R1), b_by_runtime());
    dep_b_a1().apply(&mut ctx);
    assert!(ctx.init_fragments.is_empty());
    assert!(ctx.concatenation_scope.is_none());
}

#[test]
fn scenario_used_under_second_runtime() {
    let mut ctx = context(Some(R2), b_by_runtime());
    dep_b_a1().apply(&mut ctx);
    assert_eq!(
        fragment_pairs(&ctx),
        vec![("__webpack_exports__".to_string(), vec![pair("b", "a_1")])]
    );
    assert!(ctx.concatenation_scope.is_none());
}

#[test]
fn scenario_concatenated_registers_binding() {
    for runtime in [Some(R1), Some(R2), None] {
        let mut ctx = context(runtime, b_by_runtime());
        ctx.concatenation_scope = Some(ConcatenationScope::new());
        dep_b_a1().apply(&mut ctx);
        assert!(ctx.init_fragments.is_empty());
        let scope = ctx.concatenation_scope.expect("scope stays");
        assert_eq!(scope.exports, vec![pair("b", "a_1")]);
    }
}

#[test]
fn mangled_name_is_emitted() {
    let exports = vec![entry("b", None, UsageState::Used, Some(UsedName::Str("q".to_string())))];
    let mut ctx = context(Some(R1), exports);
    dep_b_a1().apply(&mut ctx);
    assert_eq!(
        fragment_pairs(&ctx),
        vec![("__webpack_exports__".to_string(), vec![pair("q", "a_1")])]
    );
}

#[test]
fn first_candidate_is_taken() {
    let candidates = UsedName::Vec(vec!["c".to_string(), "b".to_string()]);
    let exports = vec![entry("b", Some(R1), UsageState::OnlyPropertiesUsed, Some(candidates))];
    let mut ctx = context(Some(R1), exports);
    dep_b_a1().apply(&mut ctx);
    assert_eq!(
        fragment_pairs(&ctx),
        vec![("__webpack_exports__".to_string(), vec![pair("c", "a_1")])]
    );
}

#[test]
fn unrecorded_export_keeps_its_name() {
    let exports = vec![entry("other", None, UsageState::Unused, None)];
    let mut ctx = context(Some(R1), exports);
    dep_b_a1().apply(&mut ctx);
    assert_eq!(
        fragment_pairs(&ctx),
        vec![("__webpack_exports__".to_string(), vec![pair("b", "a_1")])]
    );
}

#[test]
fn entry_of_other_runtime_does_not_apply() {
    let exports = vec![entry("b", Some(R2), UsageState::Unused, None)];
    let mut ctx = context(Some(R1), exports);
    dep_b_a1().apply(&mut ctx);
    assert_eq!(fragment_pairs(&ctx).len(), 1);
    let mut ctx = context(None, vec![entry("b", Some(R2), UsageState::Unused, None)]);
    dep_b_a1().apply(&mut ctx);
    assert_eq!(fragment_pairs(&ctx).len(), 1);
}

#[test]
fn runtime_less_entry_applies_everywhere() {
    for runtime in [Some(R1), Some(R2), None] {
        let mut ctx = context(runtime, vec![entry("b", None, UsageState::Unused, None)]);
        dep_b_a1().apply(&mut ctx);
        assert!(ctx.init_fragments.is_empty());
    }
}

#[test]
fn first_applicable_entry_wins() {
    let exports = vec![
        entry("b", None, UsageState::Used, Some(UsedName::Str("first".to_string()))),
        entry("b", Some(R1), UsageState::Unused, None),
    ];
    let mut ctx = context(Some(R1), exports);
    dep_b_a1().apply(&mut ctx);
    assert_eq!(
        fragment_pairs(&ctx),
        vec![("__webpack_exports__".to_string(), vec![pair("first", "a_1")])]
    );
}

#[test]
fn fragments_accumulate_per_dependency() {
    let mut ctx = context(Some(R2), b_by_runtime());
    dep_b_a1().apply(&mut ctx);
    let other = ESMExportSpecifierDependency::new(
        "c".to_string(),
        "c_2".to_string(),
        location(),
        DependencyId { id: 8 },
    );
    other.apply(&mut ctx);
    assert_eq!(
        fragment_pairs(&ctx),
        vec![
            ("__webpack_exports__".to_string(), vec![pair("b", "a_1")]),
            ("__webpack_exports__".to_string(), vec![pair("c", "c_2")]),
        ]
    );
}

#[test]
fn apply_is_deterministic() {
    let mut first = context(Some(R2), b_by_runtime());
    let mut second = context(Some(R2), b_by_runtime());
    dep_b_a1().apply(&mut first);
    dep_b_a1().apply(&mut second);
    assert_eq!(fragment_pairs(&first), fragment_pairs(&second));
    let mut third = context(Some(R1), b_by_runtime());
    let mut fourth = context(Some(R1), b_by_runtime());
    dep_b_a1().apply(&mut third);
    dep_b_a1().apply(&mut fourth);
    assert_eq!(fragment_pairs(&third), fragment_pairs(&fourth));
}

#[test]
fn update_hash_leaves_hasher_unchanged() {
    let mut hasher = std::collections::hash_map::DefaultHasher::new();
    hasher.write(b"module");
    let before = hasher.finish();
    dep_b_a1().update_hash(&mut hasher, Some(R1));
    dep_b_a1().update_hash(&mut hasher, None);
    assert_eq!(hasher.finish(), before);
}

#[test]
fn get_used_name_looks_up_table() {
    let info = ExportsInfo { exports: b_by_runtime() };
    assert!(info.get_used_name(Some(R1), &"b".to_string()).is_none());
    match info.get_used_name(Some(R2), &"b".to_string()) {
        Some(UsedName::Str(s)) => assert_eq!(s, "b"),
        other => panic!("unexpected {:?}", other),
    }
    match ExportsInfo::new().get_used_name(None, &"z".to_string()) {
        Some(u) => assert_eq!(u.first(), "z"),
        None => panic!("unrecorded export is kept"),
    }
}

#[test]
fn connection_states_combine() {
    let t = ConnectionState::Bool(true);
    let f = ConnectionState::Bool(false);
    let m = ConnectionState::Maybe;
    assert_eq!(f.or(f), f);
    assert_eq!(f.or(t), t);
    assert_eq!(m.or(t), t);
    assert_eq!(f.or(m), m);
    assert_eq!(m.or(f), m);
    assert!(!f.is_required());
    assert!(t.is_required());
    assert!(m.is_required());
}

#[test]
fn ids_are_fresh_and_increasing() {
    let mut ids = DependencyIdGenerator::new();
    assert_eq!(ids.fresh(), Some(DependencyId { id: 0 }));
    assert_eq!(ids.fresh(), Some(DependencyId { id: 1 }));
    let mut last = DependencyIdGenerator { next: u32::MAX - 1 };
    assert_eq!(last.fresh(), Some(DependencyId { id: u32::MAX - 1 }));
    assert_eq!(last.fresh(), None);
    assert_eq!(last.next, u32::MAX);
}

#[test]
fn set_usage_appends_then_updates() {
    let mut info = ExportsInfo::new();
    let b = "b".to_string();
    assert!(info.set_usage(&b, Some(R1), UsageState::Unknown));
    assert_eq!(info.exports.len(), 1);
    assert_eq!(info.exports[0].name, "b");
    assert_eq!(info.exports[0].runtime, Some(R1));
    assert!(!info.exports[0].provided);
    assert!(!info.set_usage(&b, Some(R1), UsageState::Unknown));
    assert!(info.set_usage(&b, Some(R1), UsageState::Unused));
    assert_eq!(info.exports[0].usage, UsageState::Unused);
    assert!(info.get_used_name(Some(R1), &b).is_none());
    assert!(info.set_usage(&b, Some(R2), UsageState::Used));
    assert_eq!(info.exports.len(), 2);
    assert!(info.get_used_name(Some(R2), &b).is_some());
}

#[test]
fn set_usage_keeps_final_classification() {
    let mut info = ExportsInfo { exports: b_by_runtime() };
    let b = "b".to_string();
    assert!(!info.set_usage(&b, Some(R1), UsageState::Used));
    assert_eq!(info.exports[0].usage, UsageState::Unused);
    assert!(!info.set_usage(&b, Some(R2), UsageState::Unused));
    assert_eq!(info.exports[1].usage, UsageState::Used);
    assert_eq!(info.exports.len(), 2);
}

#[test]
fn set_usage_runtime_less_entry_is_its_own_key() {
    let mut info = ExportsInfo { exports: b_by_runtime() };
    let b = "b".to_string();
    assert!(info.set_usage(&b, None, UsageState::OnlyPropertiesUsed));
    assert_eq!(info.exports.len(), 3);
    assert_eq!(info.exports[2].runtime, None);
    assert_eq!(info.exports[2].usage, UsageState::OnlyPropertiesUsed);
}

fn list_spec(names: Vec<ExportNameOrSpec>, priority: Option<u8>) -> ExportsSpec {
    ExportsSpec {
        exports: ExportsOfExportsSpec::Array(names),
        priority,
        can_mangle: None,
        terminal_binding: None,
        from: None,
        dependencies: None,
        hide_export: None,
        exclude_exports: None,
    }
}

#[test]
fn specifier_exports_are_provided() {
    let dep = dep_b_a1();
    let mut info = ExportsInfo::new();
    info.provide_exports(&dep.get_exports().expect("exports are known"), dep.id);
    assert_eq!(info.exports.len(), 1);
    let e = &info.exports[0];
    assert_eq!(e.name, "b");
    assert_eq!(e.runtime, None);
    assert_eq!(e.usage, UsageState::Unknown);
    assert!(e.provided);
    assert_eq!(e.priority, 1);
    assert!(e.terminal_binding);
    assert_eq!(e.provider, Some(DependencyId { id: 7 }));
}

#[test]
fn equal_priority_keeps_earlier_declaration() {
    let first = dep_b_a1();
    let second = ESMExportSpecifierDependency::new(
        "b".to_string(),
        "other".to_string(),
        location(),
        DependencyId { id: 9 },
    );
    let mut info = ExportsInfo::new();
    info.provide_exports(&first.get_exports().expect("exports are known"), first.id);
    info.provide_exports(&second.get_exports().expect("exports are known"), second.id);
    assert_eq!(info.exports.len(), 1);
    assert_eq!(info.exports[0].provider, Some(DependencyId { id: 7 }));
}

#[test]
fn higher_priority_wins_lower_loses() {
    let mut info = ExportsInfo::new();
    let low = list_spec(vec![ExportNameOrSpec::String("b".to_string())], None);
    info.provide_exports(&low, DependencyId { id: 1 });
    assert_eq!(info.exports[0].priority, 0);
    assert!(!info.exports[0].terminal_binding);
    let dep = dep_b_a1();
    info.provide_exports(&dep.get_exports().expect("exports are known"), dep.id);
    assert_eq!(info.exports.len(), 1);
    assert_eq!(info.exports[0].priority, 1);
    assert!(info.exports[0].terminal_binding);
    assert_eq!(info.exports[0].provider, Some(DependencyId { id: 7 }));
    info.provide_exports(&low, DependencyId { id: 2 });
    assert_eq!(info.exports[0].provider, Some(DependencyId { id: 7 }));
}

#[test]
fn names_are_unioned_in_order() {
    let mut info = ExportsInfo::new();
    let names = vec![
        ExportNameOrSpec::String("x".to_string()),
        ExportNameOrSpec::ExportSpec(ExportSpec {
            name: "y".to_string(),
            can_mangle: None,
            terminal_binding: Some(true),
        }),
        ExportNameOrSpec::String("x".to_string()),
    ];
    info.provide_exports(&list_spec(names, Some(2)), DependencyId { id: 3 });
    assert_eq!(info.exports.len(), 2);
    assert_eq!(info.exports[0].name, "x");
    assert!(!info.exports[0].terminal_binding);
    assert_eq!(info.exports[1].name, "y");
    assert!(info.exports[1].terminal_binding);
    assert_eq!(info.exports[1].priority, 2);
}

#[test]
fn unknown_or_no_exports_declare_nothing() {
    let mut info = ExportsInfo { exports: b_by_runtime() };
    let mut spec = list_spec(Vec::new(), Some(5));
    spec.exports = ExportsOfExportsSpec::NoExports;
    info.provide_exports(&spec, DependencyId { id: 4 });
    spec.exports = ExportsOfExportsSpec::UnknownExports;
    info.provide_exports(&spec, DependencyId { id: 4 });
    assert_eq!(info.exports.len(), 2);
    assert!(info.exports.iter().all(|e| e.provider.is_none()));
}

#[test]
fn provision_keeps_usage_and_final_name() {
    let mut info = ExportsInfo {
        exports: vec![entry("b", None, UsageState::Used, Some(UsedName::Str("q".to_string())))],
    };
    let dep = dep_b_a1();
    info.provide_exports(&dep.get_exports().expect("exports are known"), dep.id);
    assert_eq!(info.exports[0].usage, UsageState::Used);
    assert_eq!(info.get_used_name(Some(R1), &"b".to_string()).map(|u| u.first()), Some("q".to_string()));
}
