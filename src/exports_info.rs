//! Per-module export usage: for each export name and runtime, whether the
//! export is used and under which final name it is emitted.
use vstd::prelude::*;
use crate::dependency::DependencyId;
use crate::exports_spec::{entry_name, ExportNameOrSpec, ExportsOfExportsSpec, ExportsSpec};

verus! {

/// One build target, or an interned set of them.
#[derive(Clone, Copy, Debug, PartialEq, Eq, Hash, Structural)]
pub struct RuntimeSpec {
    pub id: u32,
}

/// Usage classification of one export under one runtime.
#[derive(Clone, Copy, Debug, PartialEq, Eq, Hash, Structural)]
pub enum UsageState {
    Unknown,
    Used,
    Unused,
    OnlyPropertiesUsed,
}

/// Whether a classification is final for a resolution pass.
pub open spec fn is_final_usage(u: UsageState) -> bool {
    u == UsageState::Used || u == UsageState::Unused
}

/// The final name of an export: one name, or the candidates that merged
/// re-export paths produced.
#[derive(Debug)]
pub enum UsedName {
    Str(String),
    Vec(Vec<String>),
}

impl View for UsedName {
    type V = Seq<Seq<char>>;

    /// The candidate names, in order.
    open spec fn view(&self) -> Seq<Seq<char>> {
        match self {
            UsedName::Str(s) => seq![s@],
            UsedName::Vec(v) => v@.map_values(|x: String| x@),
        }
    }
}

impl UsedName {
    /// A used name offers at least one candidate.
    pub open spec fn wf(&self) -> bool {
        self@.len() > 0
    }

    /// A copy with the same candidates.
    pub fn clone_name(&self) -> (r: UsedName)
        ensures
            r@ == self@,
    {
        match self {
            UsedName::Str(s) => UsedName::Str(s.clone()),
            UsedName::Vec(v) => {
                let mut out: Vec<String> = Vec::new();
                let mut i: usize = 0;
                while i < v.len()
                    invariant
                        i <= v@.len(),
                        out@.len() == i,
                        forall|j: int| 0 <= j < i ==> #[trigger] out@[j]@ == v@[j]@,
                    decreases v@.len() - i,
                {
                    out.push(v[i].clone());
                    i = i + 1;
                }
                assert(out@.map_values(|x: String| x@) =~= v@.map_values(|x: String| x@));
                UsedName::Vec(out)
            },
        }
    }

    /// The name emitted for the export: the first candidate, taken as it is
    /// even when several were merged.
    pub fn first(&self) -> (r: String)
        requires
            self.wf(),
        ensures
            r@ == self@[0],
    {
        match self {
            UsedName::Str(s) => s.clone(),
            UsedName::Vec(v) => v[0].clone(),
        }
    }
}

impl ExportInfo {
    /// A recorded final name offers a candidate.
    pub open spec fn wf(&self) -> bool {
        match self.used_name {
            Some(u) => u.wf(),
            None => true,
        }
    }
}

/// Usage of one export under one runtime, or under every runtime where
/// `runtime` is `None`.
#[derive(Debug)]
pub struct ExportInfo {
    pub name: String,
    pub runtime: Option<RuntimeSpec>,
    pub usage: UsageState,
    /// The final name, where it differs from `name`.
    pub used_name: Option<UsedName>,
    pub provided: bool,
    /// The priority of the declaration that provides the export.
    pub priority: u8,
    /// The declaration fixes the export's source.
    pub terminal_binding: bool,
    /// The dependency that provides the export.
    pub provider: Option<DependencyId>,
}

/// What an entry of the table records.
pub struct ExportInfoView {
    pub name: Seq<char>,
    pub runtime: Option<RuntimeSpec>,
    pub usage: UsageState,
    pub used_name: Option<Seq<Seq<char>>>,
    pub provided: bool,
    pub priority: u8,
    pub terminal_binding: bool,
    pub provider: Option<DependencyId>,
}

impl View for ExportInfo {
    type V = ExportInfoView;

    open spec fn view(&self) -> ExportInfoView {
        ExportInfoView {
            name: self.name@,
            runtime: self.runtime,
            usage: self.usage,
            used_name: match self.used_name {
                Some(u) => Some(u@),
                None => None,
            },
            provided: self.provided,
            priority: self.priority,
            terminal_binding: self.terminal_binding,
            provider: self.provider,
        }
    }
}

/// Whether an entry speaks of `name` under `runtime`: a runtime-less entry
/// speaks of every runtime.
pub open spec fn applies(e: ExportInfoView, name: Seq<char>, runtime: Option<RuntimeSpec>) -> bool {
    e.name == name && (e.runtime.is_none() || e.runtime == runtime)
}

/// The index of the first entry from `i` on that speaks of `name` under
/// `runtime`.
pub open spec fn first_applicable(
    t: Seq<ExportInfoView>,
    name: Seq<char>,
    runtime: Option<RuntimeSpec>,
    i: int,
) -> Option<int>
    decreases t.len() - i,
{
    if i < 0 || i >= t.len() {
        None
    } else if applies(t[i], name, runtime) {
        Some(i)
    } else {
        first_applicable(t, name, runtime, i + 1)
    }
}

/// The candidates for the final name of `name` under `runtime`, or `None`
/// where the export is unused there. An export the table does not record is
/// kept under its own name, as is a recorded one with no final name of its own.
pub open spec fn used_name_of(
    t: Seq<ExportInfoView>,
    runtime: Option<RuntimeSpec>,
    name: Seq<char>,
) -> Option<Seq<Seq<char>>> {
    match first_applicable(t, name, runtime, 0) {
        None => Some(seq![name]),
        Some(i) => if t[i].usage == UsageState::Unused {
            None
        } else {
            match t[i].used_name {
                Some(u) => Some(u),
                None => Some(seq![name]),
            }
        },
    }
}

/// The index of the first entry from `i` on that records `name` under
/// exactly `runtime`.
pub open spec fn exact_index(
    t: Seq<ExportInfoView>,
    name: Seq<char>,
    runtime: Option<RuntimeSpec>,
    i: int,
) -> Option<int>
    decreases t.len() - i,
{
    if i < 0 || i >= t.len() {
        None
    } else if t[i].name == name && t[i].runtime == runtime {
        Some(i)
    } else {
        exact_index(t, name, runtime, i + 1)
    }
}

/// The table after recording `usage` for `name` under exactly `runtime`: an
/// existing entry takes the new usage unless its classification is already
/// final; a missing one is appended, not provided and with no final name of
/// its own.
pub open spec fn with_usage(
    t: Seq<ExportInfoView>,
    name: Seq<char>,
    runtime: Option<RuntimeSpec>,
    usage: UsageState,
) -> Seq<ExportInfoView> {
    match exact_index(t, name, runtime, 0) {
        Some(i) => if is_final_usage(t[i].usage) {
            t
        } else {
            t.update(
                i,
                ExportInfoView {
                    name: t[i].name,
                    runtime: t[i].runtime,
                    usage,
                    used_name: t[i].used_name,
                    provided: t[i].provided,
                    priority: t[i].priority,
                    terminal_binding: t[i].terminal_binding,
                    provider: t[i].provider,
                },
            )
        },
        None => t.push(
            ExportInfoView {
                name,
                runtime,
                usage,
                used_name: None,
                provided: false,
                priority: 0,
                terminal_binding: false,
                provider: None,
            },
        ),
    }
}

/// The table after dependency `dep` declares `name` for every runtime with
/// `priority`: an entry already provided at an equal or higher priority is
/// kept, as the earlier declaration; otherwise the declaration provides the
/// export, and a missing entry is appended with unknown usage.
pub open spec fn with_provided(
    t: Seq<ExportInfoView>,
    name: Seq<char>,
    priority: u8,
    terminal_binding: bool,
    dep: DependencyId,
) -> Seq<ExportInfoView> {
    match exact_index(t, name, None, 0) {
        Some(i) => if t[i].provided && t[i].priority >= priority {
            t
        } else {
            t.update(
                i,
                ExportInfoView {
                    name: t[i].name,
                    runtime: t[i].runtime,
                    usage: t[i].usage,
                    used_name: t[i].used_name,
                    provided: true,
                    priority,
                    terminal_binding,
                    provider: Some(dep),
                },
            )
        },
        None => t.push(
            ExportInfoView {
                name,
                runtime: None,
                usage: UsageState::Unknown,
                used_name: None,
                provided: true,
                priority,
                terminal_binding,
                provider: Some(dep),
            },
        ),
    }
}

/// Whether an entry of an export list fixes its export's source: its own
/// setting where it has one, else the list's.
pub open spec fn entry_terminal(e: ExportNameOrSpec, default: bool) -> bool {
    match e {
        ExportNameOrSpec::ExportSpec(spec) => match spec.terminal_binding {
            Some(b) => b,
            None => default,
        },
        ExportNameOrSpec::String(_) => default,
    }
}

/// The table after the entries of an export list are declared one after
/// the other.
pub open spec fn with_provided_all(
    t: Seq<ExportInfoView>,
    entries: Seq<ExportNameOrSpec>,
    priority: u8,
    terminal_binding: bool,
    dep: DependencyId,
) -> Seq<ExportInfoView>
    decreases entries.len(),
{
    if entries.len() == 0 {
        t
    } else {
        let e = entries.last();
        with_provided(
            with_provided_all(t, entries.drop_last(), priority, terminal_binding, dep),
            entry_name(e),
            priority,
            entry_terminal(e, terminal_binding),
            dep,
        )
    }
}

/// The table after dependency `dep` declares what `spec` lists: each name
/// of an explicit list is provided in order; a list of no or unknown
/// exports declares no name. A missing priority counts as 0, a missing
/// terminal flag as false.
pub open spec fn with_exports_spec(
    t: Seq<ExportInfoView>,
    spec: ExportsSpec,
    dep: DependencyId,
) -> Seq<ExportInfoView> {
    match spec.exports {
        ExportsOfExportsSpec::Array(v) => with_provided_all(
            t,
            v@,
            match spec.priority {
                Some(p) => p,
                None => 0,
            },
            spec.terminal_binding == Some(true),
            dep,
        ),
        _ => t,
    }
}

/// The usage table of one module.
#[derive(Debug)]
pub struct ExportsInfo {
    pub exports: Vec<ExportInfo>,
}

impl View for ExportsInfo {
    type V = Seq<ExportInfoView>;

    open spec fn view(&self) -> Seq<ExportInfoView> {
        self.exports@.map_values(|e: ExportInfo| e@)
    }
}

impl ExportsInfo {
    /// Every recorded final name offers a candidate.
    pub open spec fn wf(&self) -> bool {
        forall|i: int| 0 <= i < self.exports@.len() ==> (#[trigger] self.exports@[i]).wf()
    }

    pub fn new() -> (r: ExportsInfo)
        ensures
            r@ == Seq::<ExportInfoView>::empty(),
            r.wf(),
    {
        ExportsInfo { exports: Vec::new() }
    }

    /// The final name of `name` under `runtime`, or `None` where the export
    /// is unused there.
    pub fn get_used_name(&self, runtime: Option<RuntimeSpec>, name: &String) -> (r: Option<
        UsedName,
    >)
        requires
            self.wf(),
        ensures
            match r {
                Some(u) => used_name_of(self@, runtime, name@) == Some(u@) && u.wf(),
                None => used_name_of(self@, runtime, name@).is_none(),
            },
    {
        let mut i: usize = 0;
        while i < self.exports.len()
            invariant
                self.wf(),
                i <= self.exports@.len(),
                first_applicable(self@, name@, runtime, 0) == first_applicable(
                    self@,
                    name@,
                    runtime,
                    i as int,
                ),
            decreases self.exports@.len() - i,
        {
            let e = &self.exports[i];
            assert(e@ == self@[i as int]);
            let same_runtime = match e.runtime {
                None => true,
                Some(rt) => match runtime {
                    Some(q) => rt.id == q.id,
                    None => false,
                },
            };
            if same_runtime && e.name == *name {
                assert(applies(self@[i as int], name@, runtime));
                assert(first_applicable(self@, name@, runtime, i as int) == Some(i as int));
                if e.usage == UsageState::Unused {
                    return None;
                }
                return match &e.used_name {
                    Some(u) => {
                        assert(self.exports@[i as int].used_name == Some(*u));
                        assert(self@[i as int].used_name == Some(u@));
                        assert(self.exports@[i as int].wf());
                        Some(u.clone_name())
                    },
                    None => Some(UsedName::Str(name.clone())),
                };
            }
            i = i + 1;
        }
        Some(UsedName::Str(name.clone()))
    }

    /// Records `usage` for `name` under exactly `runtime`; a classification
    /// that is already final (used or unused) is kept. Returns whether the
    /// table changed.
    pub fn set_usage(&mut self, name: &String, runtime: Option<RuntimeSpec>, usage: UsageState) -> (changed: bool)
        requires
            old(self).wf(),
        ensures
            final(self).wf(),
            final(self)@ == with_usage(old(self)@, name@, runtime, usage),
            changed == (final(self)@ != old(self)@),
    {
        let ghost before = self@;
        match self.find_exact(name, runtime) {
            Some(i) => {
                proof {
                    lemma_exact_index_found(self@, name@, runtime, 0);
                }
                let current = self.exports[i].usage;
                if current == UsageState::Used || current == UsageState::Unused {
                    return false;
                }
                assert(self.exports@[i as int].wf());
                self.exports[i].usage = usage;
                assert(self@ =~= with_usage(before, name@, runtime, usage));
                assert(self.exports@[i as int].wf());
                if current != usage {
                    assert(self@[i as int].usage != before[i as int].usage);
                } else {
                    assert(self@ =~= before);
                }
                return current != usage;
            },
            None => {},
        }
        self.exports.push(
            ExportInfo {
                name: name.clone(),
                runtime,
                usage,
                used_name: None,
                provided: false,
                priority: 0,
                terminal_binding: false,
                provider: None,
            },
        );
        assert(self@ =~= with_usage(before, name@, runtime, usage));
        assert(self@.len() != before.len());
        true
    }

    /// Finds the entry that records `name` under exactly `runtime`.
    fn find_exact(&self, name: &String, runtime: Option<RuntimeSpec>) -> (r: Option<usize>)
        ensures
            match r {
                Some(i) => exact_index(self@, name@, runtime, 0) == Some(i as int),
                None => exact_index(self@, name@, runtime, 0).is_none(),
            },
    {
        let mut i: usize = 0;
        while i < self.exports.len()
            invariant
                i <= self.exports@.len(),
                exact_index(self@, name@, runtime, 0) == exact_index(self@, name@, runtime, i as int),
            decreases self.exports@.len() - i,
        {
            let same_runtime = match (self.exports[i].runtime, runtime) {
                (None, None) => true,
                (Some(a), Some(b)) => a.id == b.id,
                _ => false,
            };
            if same_runtime && self.exports[i].name == *name {
                assert(self.exports@[i as int]@ == self@[i as int]);
                return Some(i);
            }
            i = i + 1;
        }
        None
    }

    /// Records that dependency `dep` provides `name` for every runtime with
    /// `priority`, unless an earlier declaration of at least that priority
    /// already does.
    pub fn provide(&mut self, name: &String, priority: u8, terminal_binding: bool, dep: DependencyId)
        requires
            old(self).wf(),
        ensures
            final(self).wf(),
            final(self)@ == with_provided(old(self)@, name@, priority, terminal_binding, dep),
    {
        let ghost before = self@;
        match self.find_exact(name, None) {
            Some(i) => {
                proof {
                    lemma_exact_index_found(self@, name@, None, 0);
                }
                if self.exports[i].provided && self.exports[i].priority >= priority {
                    return;
                }
                assert(self.exports@[i as int].wf());
                self.exports[i].provided = true;
                self.exports[i].priority = priority;
                self.exports[i].terminal_binding = terminal_binding;
                self.exports[i].provider = Some(dep);
                assert(self@ =~= with_provided(before, name@, priority, terminal_binding, dep));
                assert(self.exports@[i as int].wf());
            },
            None => {
                self.exports.push(
                    ExportInfo {
                        name: name.clone(),
                        runtime: None,
                        usage: UsageState::Unknown,
                        used_name: None,
                        provided: true,
                        priority,
                        terminal_binding,
                        provider: Some(dep),
                    },
                );
                assert(self@ =~= with_provided(before, name@, priority, terminal_binding, dep));
            },
        }
    }

    /// Folds what dependency `dep` declares into the table.
    pub fn provide_exports(&mut self, spec: &ExportsSpec, dep: DependencyId)
        requires
            old(self).wf(),
        ensures
            final(self).wf(),
            final(self)@ == with_exports_spec(old(self)@, *spec, dep),
    {
        let priority: u8 = match spec.priority {
            Some(p) => p,
            None => 0,
        };
        let terminal = match spec.terminal_binding {
            Some(b) => b,
            None => false,
        };
        match &spec.exports {
            ExportsOfExportsSpec::Array(v) => {
                let ghost start = self@;
                let mut k: usize = 0;
                while k < v.len()
                    invariant
                        self.wf(),
                        k <= v@.len(),
                        self@ == with_provided_all(start, v@.take(k as int), priority, terminal, dep),
                    decreases v@.len() - k,
                {
                    let (name, entry_term) = match &v[k] {
                        ExportNameOrSpec::String(s) => (s, terminal),
                        ExportNameOrSpec::ExportSpec(es) => (
                            &es.name,
                            match es.terminal_binding {
                                Some(b) => b,
                                None => terminal,
                            },
                        ),
                    };
                    self.provide(name, priority, entry_term, dep);
                    assert(v@.take(k + 1).drop_last() =~= v@.take(k as int));
                    k = k + 1;
                }
                assert(v@.take(v@.len() as int) =~= v@);
            },
            _ => {},
        }
    }

}

/// Where `exact_index` finds an entry, it lies at or after `i` and records
/// `name` under exactly `runtime`.
pub proof fn lemma_exact_index_found(
    t: Seq<ExportInfoView>,
    name: Seq<char>,
    runtime: Option<RuntimeSpec>,
    i: int,
)
    ensures
        exact_index(t, name, runtime, i) matches Some(k) ==> 0 <= i <= k < t.len()
            && t[k].name == name && t[k].runtime == runtime,
    decreases t.len() - i,
{
    if 0 <= i < t.len() && !(t[i].name == name && t[i].runtime == runtime) {
        lemma_exact_index_found(t, name, runtime, i + 1);
    }
}

/// Recording a usage never changes a final classification, and never removes
/// an entry.
pub proof fn lemma_final_usage_kept(
    t: Seq<ExportInfoView>,
    name: Seq<char>,
    runtime: Option<RuntimeSpec>,
    usage: UsageState,
    j: int,
)
    requires
        0 <= j < t.len(),
        is_final_usage(t[j].usage),
    ensures
        with_usage(t, name, runtime, usage).len() >= t.len(),
        with_usage(t, name, runtime, usage)[j] == t[j],
{
    lemma_exact_index_found(t, name, runtime, 0);
}

} // verus!
