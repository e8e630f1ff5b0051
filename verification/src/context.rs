//! The policy aggregator and the application protocol.
//!
//! A [`SafetyContext`] accumulates rule sets, merging their grants under the
//! conflict rules modelled in [`crate::policy`] and [`crate::path_rights`].
//! [`SafetyContext::finalize`] hands the merged table to the enforcement
//! compiler and yields an immutable [`CompiledPolicy`], which can then be
//! installed into the kernel for the calling thread or for every thread of
//! the process. Installation is irreversible: once applied, the policy can
//! only be narrowed further, never widened.

use vstd::prelude::*;

use std::collections::BTreeMap;

use crate::error::ExtraSafeError;
use crate::landlock_sys::{
    ll_add_path_rule, ll_create, ll_path_fd, ll_restrict_self, ll_ruleset_base, path_fd_path,
    ruleset_grants,
};
use crate::path_rights::{
    contains_path, entry_rights_prefix, merge_paths, path_entries_wf, path_rights_set,
    union_rights, LandlockRule, LandlockRuleView, PathAccess, PathEntry, PathEntryView,
    PathOutcome,
};
use crate::policy::{
    admission_count, contains_syscall, grant_of, grant_wf, index_of_syscall,
    lemma_wf_after_cond_push, lemma_wf_after_cond_update, merge_conditionals, merge_ruleset,
    merge_simples, policy_wf, EntryView, Grant, GrantView, MergeOutcome, PolicyEntry,
};
use crate::rule::{ConditionalRule, RuleView, SeccompArgumentFilter};
use crate::rulemap::{rule_entries_wf, RuleEntryView, RuleMapEntry};
use crate::ruleset::RuleSet;
use crate::seccomp_sys::{
    compiled_of, condition_of, rule_of, sc_apply_filter, sc_apply_filter_all_threads, sc_compile,
    sc_condition, sc_error_from_backend, sc_rule, vec_rules_view,
};
use crate::syscall::SyscallId;

verus! {

/// Errno returned for a denied syscall: permission denied.
pub const DENY_ERRNO: u32 = 1;

/// Mathematical image of a [`SafetyContext`] or a [`CompiledPolicy`].
pub struct ContextView {
    /// The per-syscall grants, in first-grant order.
    pub policy: Seq<EntryView>,
    /// The merged per-path grants, in first-grant order.
    pub paths: Seq<PathEntryView>,
}

/// The view of a policy-entry table.
pub open spec fn policy_view_of(entries: Seq<PolicyEntry>) -> Seq<EntryView> {
    entries.map_values(|e: PolicyEntry| e@)
}

/// The view of a path-entry table.
pub open spec fn paths_view_of(entries: Seq<PathEntry>) -> Seq<PathEntryView> {
    entries.map_values(|e: PathEntry| e@)
}

/// The compiled rule list one grant is handed to the enforcement compiler
/// as: nothing for an unconditional grant (matching on the syscall number
/// alone), and one compiled rule per merged admission otherwise.
pub open spec fn compiled_rules_of_grant(g: GrantView) -> Seq<seccompiler::SeccompRule> {
    match g {
        GrantView::Simple { .. } => Seq::empty(),
        GrantView::Conditional { rules, .. } => rules.map_values(
            |rv: RuleView| rule_of(rv.filters.map_values(|f: SeccompArgumentFilter| condition_of(f))),
        ),
    }
}

/// The whole rule map the enforcement compiler is handed: per policy row,
/// its syscall number keyed to the row's compiled rule list.
pub open spec fn policy_rule_map(p: Seq<EntryView>) -> Map<i64, Seq<seccompiler::SeccompRule>>
    decreases p.len(),
{
    if p.len() == 0 {
        Map::empty()
    } else {
        policy_rule_map(p.drop_last()).insert(
            p.last().syscall.nr as i64,
            compiled_rules_of_grant(p.last().grant),
        )
    }
}

/// The policy aggregator: accumulates rule sets into one merged policy.
///
/// Created empty, grown by [`SafetyContext::enable`], consumed exactly once
/// by [`SafetyContext::finalize`] or one of the apply entry points.
#[derive(Debug)]
pub struct SafetyContext {
    entries: Vec<PolicyEntry>,
    path_entries: Vec<PathEntry>,
}

impl View for SafetyContext {
    type V = ContextView;

    closed spec fn view(&self) -> ContextView {
        ContextView {
            policy: policy_view_of(self.entries@),
            paths: paths_view_of(self.path_entries@),
        }
    }
}

/// Find the row holding a grant for `s`, if any.
fn find_entry(entries: &Vec<PolicyEntry>, s: SyscallId) -> (r: Option<usize>)
    ensures
        match r {
            Some(idx) => idx < entries@.len() && policy_view_of(entries@)[idx as int].syscall == s,
            None => !contains_syscall(policy_view_of(entries@), s),
        },
{
    let mut i: usize = 0;
    while i < entries.len()
        invariant
            i <= entries.len(),
            forall|j: int| 0 <= j < i ==> (#[trigger] policy_view_of(entries@)[j]).syscall != s,
        decreases entries.len() - i,
    {
        if entries[i].syscall == s {
            assert(policy_view_of(entries@)[i as int].syscall == s);
            return Some(i);
        }
        i = i + 1;
    }
    None
}

/// Find the merged grant naming `path`, if any.
fn find_path_entry(entries: &Vec<PathEntry>, path: &String) -> (r: Option<usize>)
    ensures
        match r {
            Some(idx) => idx < entries@.len() && paths_view_of(entries@)[idx as int].path == path@,
            None => !contains_path(paths_view_of(entries@), path@),
        },
{
    let mut i: usize = 0;
    while i < entries.len()
        invariant
            i <= entries.len(),
            forall|j: int| 0 <= j < i ==> (#[trigger] paths_view_of(entries@)[j]).path != path@,
        decreases entries.len() - i,
    {
        if entries[i].path == *path {
            assert(paths_view_of(entries@)[i as int].path == path@);
            return Some(i);
        }
        i = i + 1;
    }
    None
}

/// Whether `v` holds the right `x`.
fn contains_right(v: &Vec<PathAccess>, x: PathAccess) -> (r: bool)
    ensures
        r == v@.contains(x),
{
    let mut i: usize = 0;
    while i < v.len()
        invariant
            i <= v.len(),
            forall|j: int| 0 <= j < i ==> v@[j] != x,
        decreases v.len() - i,
    {
        if v[i] == x {
            return true;
        }
        i = i + 1;
    }
    false
}

/// Extend `a` with whatever rights of `b` it lacks, in order.
#[verifier::loop_isolation(false)]
fn union_rights_exec(a: &mut Vec<PathAccess>, b: Vec<PathAccess>)
    ensures
        final(a)@ == union_rights(old(a)@, b@),
{
    let ghost a0 = a@;
    let ghost b0 = b@;
    let mut i: usize = 0;
    assert(b0.skip(0) =~= b0);
    while i < b.len()
        invariant
            i <= b.len(),
            union_rights(a0, b0) == union_rights(a@, b0.skip(i as int)),
        decreases b.len() - i,
    {
        let ghost a_pre = a@;
        let x = b[i];
        assert(b0.skip(i as int)[0] == x);
        if !contains_right(a, x) {
            a.push(x);
        }
        assert(b0.skip(i as int).drop_first() =~= b0.skip(i as int + 1));
        i = i + 1;
    }
    assert(b0.skip(b0.len() as int) =~= Seq::<PathAccess>::empty());
}

impl SafetyContext {
    /// Whether the aggregator's tables are well-formed: distinct syscalls,
    /// well-formed grants, distinct paths.
    pub open spec fn wf(&self) -> bool {
        &&& policy_wf(self@.policy)
        &&& path_entries_wf(self@.paths)
    }

    /// A new aggregator with nothing enabled.
    pub fn new() -> (r: SafetyContext)
        ensures
            r@.policy == Seq::<EntryView>::empty(),
            r@.paths == Seq::<PathEntryView>::empty(),
            r.wf(),
    {
        let r = SafetyContext { entries: Vec::new(), path_entries: Vec::new() };
        assert(r@.policy =~= Seq::<EntryView>::empty());
        assert(r@.paths =~= Seq::<PathEntryView>::empty());
        r
    }

    /// Merge one rule set into the policy.
    ///
    /// Its unconditional grants are merged first, then its conditional
    /// grants, then its path grants, each in declaration order, stopping at
    /// the first conflict; the outcome is exactly the one modelled by
    /// [`merge_ruleset`] and [`merge_paths`]. On conflict the error names the
    /// syscall or path and both rule sets involved, and the aggregator is
    /// dropped.
    #[verifier::loop_isolation(false)]
    pub fn enable<R: RuleSet>(self, ruleset: R) -> (r: Result<SafetyContext, ExtraSafeError>)
        requires
            self.wf(),
        ensures
            match merge_ruleset(
                self@.policy,
                ruleset.spec_simple_rules(),
                ruleset.spec_conditional_rules(),
                ruleset.spec_name(),
            ) {
                MergeOutcome::Conflict { syscall, conditional_owner, simple_owner } => {
                    &&& r matches Err(ExtraSafeError::ConditionalNoEffectError(s, a, b))
                    &&& s == syscall
                    &&& a@ == conditional_owner
                    &&& b@ == simple_owner
                },
                MergeOutcome::Merged(p2) => match merge_paths(
                    self@.paths,
                    ruleset.spec_landlock_rules(),
                    ruleset.spec_name(),
                ) {
                    PathOutcome::Conflict { path, first_owner, second_owner } => {
                        &&& r matches Err(ExtraSafeError::DuplicatePath(p, a, b))
                        &&& p@ == path
                        &&& a@ == first_owner
                        &&& b@ == second_owner
                    },
                    PathOutcome::Merged(ps2) => {
                        &&& r matches Ok(c)
                        &&& c@.policy == p2
                        &&& c@.paths == ps2
                        &&& c.wf()
                    },
                },
            },
    {
        let name: &'static str = ruleset.name();
        let owner_string: String = name.to_owned();
        let simple: Vec<SyscallId> = ruleset.simple_rules();
        let cond = ruleset.conditional_rules();
        let paths: Vec<LandlockRule> = ruleset.landlock_rules();

        let mut entries = self.entries;
        let mut path_entries = self.path_entries;

        let ghost p0 = policy_view_of(entries@);
        let ghost owner = name@;
        let ghost simple0 = simple@;

        // Unconditional grants.
        let mut i: usize = 0;
        assert(simple0.skip(0) =~= simple0);
        while i < simple.len()
            invariant
                i <= simple.len(),
                policy_wf(policy_view_of(entries@)),
                simple@ == simple0,
                name@ == owner,
                merge_simples(p0, simple0, owner) == merge_simples(
                    policy_view_of(entries@),
                    simple0.skip(i as int),
                    owner,
                ),
            decreases simple.len() - i,
        {
            let ghost pv = policy_view_of(entries@);
            let s = simple[i];
            assert(simple0.skip(i as int)[0] == s);
            match find_entry(&entries, s) {
                Some(idx) => {
                    proof {
                        assert(contains_syscall(pv, s));
                        let j = index_of_syscall(pv, s);
                        assert(pv[j].syscall == s && pv[idx as int].syscall == s);
                        assert(j == idx);
                        assert(grant_of(pv, s) == pv[idx as int].grant);
                    }
                    match &entries[idx].grant {
                        Grant::Simple { .. } => {
                            // Both rule sets agree the syscall is allowed:
                            // idempotent union, nothing to do.
                        },
                        Grant::Conditional { owners, .. } => {
                            let cond_owner = owners[0].clone();
                            return Err(
                                ExtraSafeError::ConditionalNoEffectError(
                                    s,
                                    cond_owner,
                                    owner_string.clone(),
                                ),
                            );
                        },
                    }
                },
                None => {
                    entries.push(
                        PolicyEntry { syscall: s, grant: Grant::Simple { owner: owner_string.clone() } },
                    );
                    proof {
                        assert(policy_view_of(entries@) =~= pv.push(
                            EntryView { syscall: s, grant: GrantView::Simple { owner } },
                        ));
                    }
                },
            }
            assert(simple0.skip(i as int).drop_first() =~= simple0.skip(i as int + 1));
            i = i + 1;
        }
        assert(simple0.skip(simple0.len() as int) =~= Seq::<SyscallId>::empty());
        let ghost q0 = policy_view_of(entries@);
        assert(merge_simples(p0, simple0, owner) == MergeOutcome::Merged(q0));

        // Conditional grants.
        let ghost cond0 = cond@;
        let mut centries: Vec<RuleMapEntry> = cond.into_entries();
        while centries.len() > 0
            invariant
                policy_wf(policy_view_of(entries@)),
                rule_entries_wf(centries@.map_values(|e: RuleMapEntry| e@)),
                name@ == owner,
                merge_conditionals(q0, cond0, owner) == merge_conditionals(
                    policy_view_of(entries@),
                    centries@.map_values(|e: RuleMapEntry| e@),
                    owner,
                ),
            decreases centries.len(),
        {
            let ghost pv = policy_view_of(entries@);
            let ghost cvs = centries@.map_values(|e: RuleMapEntry| e@);
            let e = centries.remove(0);
            proof {
                assert(cvs[0] == e@);
                assert(centries@.map_values(|x: RuleMapEntry| x@) =~= cvs.drop_first());
            }
            match find_entry(&entries, e.syscall) {
                Some(idx) => {
                    proof {
                        assert(contains_syscall(pv, e.syscall));
                        let j = index_of_syscall(pv, e.syscall);
                        assert(pv[j].syscall == e.syscall && pv[idx as int].syscall == e.syscall);
                        assert(j == idx);
                        assert(grant_of(pv, e.syscall) == pv[idx as int].grant);
                    }
                    let ghost ev = e@;
                    let ghost old_grant = pv[idx as int].grant;
                    let old_entry = entries.remove(idx);
                    assert(old_entry@ == pv[idx as int]);
                    match old_entry.grant {
                        Grant::Simple { owner: simple_owner } => {
                            return Err(
                                ExtraSafeError::ConditionalNoEffectError(
                                    e.syscall,
                                    owner_string.clone(),
                                    simple_owner,
                                ),
                            );
                        },
                        Grant::Conditional { owners, rules } => {
                            let ghost old_owners_v = owners@.map_values(|o: String| o@);
                            let ghost old_rules_v = rules@.map_values(
                                |r: ConditionalRule| r@,
                            );
                            proof {
                                assert(old_grant == GrantView::Conditional {
                                    owners: old_owners_v,
                                    rules: old_rules_v,
                                });
                            }
                            let mut owners = owners;
                            let mut rules = rules;
                            let mut fresh: Vec<ConditionalRule> = e.rules;
                            owners.push(owner_string.clone());
                            rules.append(&mut fresh);
                            proof {
                                assert(owners@.map_values(|o: String| o@) =~= old_owners_v.push(
                                    owner,
                                ));
                                assert(rules@.map_values(|r: ConditionalRule| r@) =~= old_rules_v
                                    + ev.rules);
                            }
                            let new_entry = PolicyEntry {
                                syscall: e.syscall,
                                grant: Grant::Conditional { owners, rules },
                            };
                            entries.insert(idx, new_entry);
                            proof {
                                assert(RuleEntryView { syscall: pv[idx as int].syscall, rules: ev.rules }
                                    == cvs[0]);
                                lemma_wf_after_cond_update(
                                    pv,
                                    idx as int,
                                    old_owners_v,
                                    old_rules_v,
                                    ev.rules,
                                    owner,
                                );
                                assert(policy_view_of(entries@) =~= pv.update(
                                    idx as int,
                                    EntryView {
                                        syscall: ev.syscall,
                                        grant: GrantView::Conditional {
                                            owners: old_owners_v.push(owner),
                                            rules: old_rules_v + ev.rules,
                                        },
                                    },
                                ));
                            }
                        },
                    }
                },
                None => {
                    let mut owners: Vec<String> = Vec::new();
                    owners.push(owner_string.clone());
                    entries.push(
                        PolicyEntry {
                            syscall: e.syscall,
                            grant: Grant::Conditional { owners, rules: e.rules },
                        },
                    );
                    proof {
                        assert(owners@.map_values(|o: String| o@) =~= seq![owner]);
                        assert(RuleEntryView { syscall: e@.syscall, rules: e@.rules } == cvs[0]);
                        lemma_wf_after_cond_push(pv, e@.syscall, e@.rules, owner);
                        assert(policy_view_of(entries@) =~= pv.push(
                            EntryView {
                                syscall: e@.syscall,
                                grant: GrantView::Conditional { owners: seq![owner], rules: e@.rules },
                            },
                        ));
                    }
                },
            }
        }
        assert(centries@.map_values(|e: RuleMapEntry| e@) =~= Seq::<RuleEntryView>::empty());
        let ghost q1 = policy_view_of(entries@);
        assert(merge_conditionals(q0, cond0, owner) == MergeOutcome::Merged(q1));

        // Path grants.
        let ghost paths0_ctx = paths_view_of(path_entries@);
        let ghost lrs0 = paths@.map_values(|l: LandlockRule| l@);
        let mut lrules = paths;
        while lrules.len() > 0
            invariant
                path_entries_wf(paths_view_of(path_entries@)),
                name@ == owner,
                merge_paths(paths0_ctx, lrs0, owner) == merge_paths(
                    paths_view_of(path_entries@),
                    lrules@.map_values(|l: LandlockRule| l@),
                    owner,
                ),
            decreases lrules.len(),
        {
            let ghost psv = paths_view_of(path_entries@);
            let ghost lvs = lrules@.map_values(|l: LandlockRule| l@);
            let l = lrules.remove(0);
            proof {
                assert(lvs[0] == l@);
                assert(lrules@.map_values(|x: LandlockRule| x@) =~= lvs.drop_first());
            }
            match find_path_entry(&path_entries, &l.path) {
                Some(idx) => {
                    proof {
                        assert(contains_path(psv, l@.path));
                        let j = crate::path_rights::index_of_path(psv, l@.path);
                        assert(psv[j].path == l@.path && psv[idx as int].path == l@.path);
                        assert(j == idx);
                    }
                    let same_owner = path_entries[idx].owner == owner_string;
                    if same_owner {
                        let old_entry = path_entries.remove(idx);
                        let mut rights = old_entry.rights;
                        union_rights_exec(&mut rights, l.rights);
                        let new_entry = PathEntry {
                            path: old_entry.path,
                            rights,
                            owner: old_entry.owner,
                        };
                        path_entries.insert(idx, new_entry);
                        proof {
                            assert(paths_view_of(path_entries@) =~= psv.update(
                                idx as int,
                                PathEntryView {
                                    path: psv[idx as int].path,
                                    rights: union_rights(psv[idx as int].rights, l@.rights),
                                    owner: psv[idx as int].owner,
                                },
                            ));
                        }
                    } else {
                        let first = path_entries[idx].owner.clone();
                        return Err(ExtraSafeError::DuplicatePath(l.path, first, owner_string.clone()));
                    }
                },
                None => {
                    path_entries.push(
                        PathEntry { path: l.path, rights: l.rights, owner: owner_string.clone() },
                    );
                    proof {
                        assert(paths_view_of(path_entries@) =~= psv.push(
                            PathEntryView { path: l@.path, rights: l@.rights, owner },
                        ));
                    }
                },
            }
        }
        assert(lrules@.map_values(|l: LandlockRule| l@) =~= Seq::<LandlockRuleView>::empty());

        Ok(SafetyContext { entries, path_entries })
    }

    /// How many syscalls hold a grant.
    pub fn grant_count(&self) -> (r: usize)
        ensures
            r == self@.policy.len(),
    {
        self.entries.len()
    }

    /// How many paths hold a merged path grant.
    pub fn path_grant_count(&self) -> (r: usize)
        ensures
            r == self@.paths.len(),
    {
        self.path_entries.len()
    }

    /// The number of merged alternative admissions behind the conditional
    /// grant for `s`, or `None` when `s` has no grant or an unconditional
    /// one.
    pub fn conditional_rule_count(&self, s: SyscallId) -> (r: Option<usize>)
        requires
            self.wf(),
        ensures
            match r {
                Some(n) => {
                    &&& contains_syscall(self@.policy, s)
                    &&& grant_of(self@.policy, s) matches GrantView::Conditional { rules, .. }
                        && n == rules.len()
                },
                None => !contains_syscall(self@.policy, s) || grant_of(self@.policy, s)
                    is Simple,
            },
    {
        let ghost pv = policy_view_of(self.entries@);
        match find_entry(&self.entries, s) {
            Some(idx) => {
                proof {
                    assert(contains_syscall(pv, s));
                    let j = index_of_syscall(pv, s);
                    assert(pv[j].syscall == s && pv[idx as int].syscall == s);
                    assert(j == idx);
                    assert(grant_of(pv, s) == pv[idx as int].grant);
                }
                match &self.entries[idx].grant {
                    Grant::Simple { .. } => None,
                    Grant::Conditional { rules, .. } => Some(rules.len()),
                }
            },
            None => None,
        }
    }

    /// Compile the merged policy into an installable artifact.
    ///
    /// Fails with [`ExtraSafeError::NoRulesEnabled`] exactly when nothing was
    /// merged: an empty policy is a configuration mistake, not an intentional
    /// total lockdown. Whenever any syscall grant was merged, the enforcement
    /// compiler is handed the whole table — one entry per granted syscall,
    /// with one compiled rule per merged admission — and a refusal of the
    /// compiler is propagated as [`ExtraSafeError::SeccompError`]. On success
    /// the compiled policy carries the very grants of the aggregator, and it
    /// holds a filter program exactly when a syscall grant exists.
    #[verifier::loop_isolation(false)]
    pub fn finalize(self) -> (r: Result<CompiledPolicy, ExtraSafeError>)
        requires
            self.wf(),
        ensures
            (self@.policy.len() == 0 && self@.paths.len() == 0) <==> (r matches Err(e) && e
                matches ExtraSafeError::NoRulesEnabled),
            r matches Ok(c) ==> {
                &&& c@.policy == self@.policy
                &&& c@.paths == self@.paths
                &&& path_entries_wf(c@.paths)
                &&& c.has_program() <==> self@.policy.len() > 0
                &&& self@.policy.len() > 0 ==> (compiled_of(
                    policy_rule_map(self@.policy),
                    DENY_ERRNO,
                ) matches Ok(prog) && c.spec_program() == Option::Some(prog))
                &&& self@.policy.len() == 0 ==> c.spec_program() is None
            },
            r matches Err(e) ==> (e matches ExtraSafeError::NoRulesEnabled || e
                matches ExtraSafeError::SeccompError(_)),
            (r matches Err(e) && e matches ExtraSafeError::SeccompError(_)) ==> (
            self@.policy.len() > 0 && compiled_of(policy_rule_map(self@.policy), DENY_ERRNO)
                is Err),
            self@.policy.len() > 0 ==> ((r is Ok) <==> compiled_of(
                policy_rule_map(self@.policy),
                DENY_ERRNO,
            ) is Ok),
    {
        broadcast use vstd::laws_cmp::group_laws_cmp;

        let entries = self.entries;
        let path_entries = self.path_entries;
        let ghost pol = policy_view_of(entries@);
        proof {
            assert(pol == self@.policy);
        }

        if entries.len() == 0 && path_entries.len() == 0 {
            return Err(ExtraSafeError::NoRulesEnabled);
        }

        let program: Option<Vec<seccompiler::sock_filter>> = if entries.len() == 0 {
            None
        } else {
            assert(pol.len() > 0);
            let mut map: BTreeMap<i64, Vec<seccompiler::SeccompRule>> = BTreeMap::new();
            let mut rows = entries;
            let mut done: usize = 0;
            assert(vec_rules_view(map@) =~= policy_rule_map(pol.take(0)));
            while rows.len() > 0
                invariant
                    done + rows@.len() == pol.len(),
                    policy_view_of(rows@) == pol.skip(done as int),
                    vec_rules_view(map@) == policy_rule_map(pol.take(done as int)),
                    forall|i: int|
                        0 <= i < done ==> {
                            &&& #[trigger] map@.contains_key(pol[i].syscall.nr as i64)
                            &&& map@[pol[i].syscall.nr as i64]@.len() == admission_count(
                                pol[i].grant,
                            )
                        },
                    forall|k: i64| #[trigger]
                        map@.contains_key(k) ==> exists|i: int|
                            0 <= i < done && pol[i].syscall.nr as i64 == k,
                decreases rows.len(),
            {
                let ghost pv = policy_view_of(rows@);
                let row = rows.remove(0);
                proof {
                    assert(pv[0] == row@);
                    assert(pol[done as int] == row@);
                    assert(grant_wf(row@.syscall, row@.grant));
                    assert(row@.syscall.nr < crate::syscall::SYSCALL_NR_LIMIT);
                    assert(policy_view_of(rows@) =~= pv.drop_first());
                    assert(policy_view_of(rows@) =~= pol.skip(done as int + 1));
                }
                let nr: i64 = row.syscall.id() as i64;
                let ghost gview = row.grant@;
                let ghost gsyscall = row@.syscall;
                let sc_rules: Vec<seccompiler::SeccompRule> = match row.grant {
                    Grant::Simple { .. } => Vec::new(),
                    Grant::Conditional { owners, rules } => {
                        proof {
                            let rv = rules@.map_values(|r: ConditionalRule| r@);
                            assert(gview == GrantView::Conditional {
                                owners: owners@.map_values(|o: String| o@),
                                rules: rv,
                            });
                            let entry_v = RuleEntryView { syscall: gsyscall, rules: rv };
                            assert(crate::rulemap::rule_entry_wf(entry_v));
                            assert forall|k: int| 0 <= k < rules@.len() implies {
                                &&& (#[trigger] rules@[k])@.filters.len() >= 1
                                &&& crate::rule::rule_wf(rules@[k]@)
                            } by {
                                assert(entry_v.rules[k] == rules@[k]@);
                                assert(entry_v.rules[k].syscall == entry_v.syscall
                                    && entry_v.rules[k].filters.len() >= 1
                                    && crate::rule::rule_wf(entry_v.rules[k]));
                            }
                            assert(admission_count(gview) == rules@.len());
                        }
                        let ghost rv = rules@.map_values(|r: ConditionalRule| r@);
                        let ghost expected = rv.map_values(
                            |x: RuleView| rule_of(
                                x.filters.map_values(|f: SeccompArgumentFilter| condition_of(f)),
                            ),
                        );
                        let ghost rule_total = rules@.len();
                        let mut out: Vec<seccompiler::SeccompRule> = Vec::new();
                        let mut rest = rules;
                        while rest.len() > 0
                            invariant
                                out@.len() + rest@.len() == rule_total,
                                out@ == expected.take(out@.len() as int),
                                rest@.map_values(|x: ConditionalRule| x@) == rv.skip(
                                    out@.len() as int,
                                ),
                                forall|k: int|
                                    0 <= k < rest@.len() ==> {
                                        &&& (#[trigger] rest@[k])@.filters.len() >= 1
                                        &&& crate::rule::rule_wf(rest@[k]@)
                                    },
                            decreases rest.len(),
                        {
                            let ghost n = out@.len() as int;
                            let ghost rem_v = rest@.map_values(|x: ConditionalRule| x@);
                            let rule = rest.remove(0);
                            proof {
                                assert(rem_v == rv.skip(n));
                                assert(rem_v[0] == rule@);
                                assert(rv.skip(n)[0] == rv[n]);
                                assert(rv[n] == rule@);
                                assert(rest@.map_values(|x: ConditionalRule| x@)
                                    =~= rem_v.drop_first());
                                assert(rem_v.drop_first() =~= rv.skip(n + 1));
                            }
                            let mut conds: Vec<seccompiler::SeccompCondition> = Vec::new();
                            let mut k: usize = 0;
                            while k < rule.argument_filters.len()
                                invariant
                                    conds@.len() == k,
                                    k <= rule.argument_filters.len(),
                                    crate::rule::rule_wf(rule@),
                                    conds@ == rule@.filters.take(k as int).map_values(
                                        |f: SeccompArgumentFilter| condition_of(f),
                                    ),
                                decreases rule.argument_filters.len() - k,
                            {
                                let f = rule.argument_filters[k];
                                assert(f.wf());
                                conds.push(sc_condition(&f));
                                proof {
                                    assert(rule@.filters.take(k + 1) =~= rule@.filters.take(
                                        k as int,
                                    ).push(rule@.filters[k as int]));
                                    assert(conds@ =~= rule@.filters.take(k + 1).map_values(
                                        |f: SeccompArgumentFilter| condition_of(f),
                                    ));
                                }
                                k = k + 1;
                            }
                            proof {
                                assert(rule@.filters.take(rule@.filters.len() as int)
                                    =~= rule@.filters);
                                assert(conds@ == rule@.filters.map_values(
                                    |f: SeccompArgumentFilter| condition_of(f),
                                ));
                            }
                            out.push(sc_rule(conds));
                            proof {
                                assert(expected[n] == rule_of(rule@.filters.map_values(
                                    |f: SeccompArgumentFilter| condition_of(f),
                                )));
                                assert(out@ =~= expected.take(n + 1));
                            }
                        }
                        proof {
                            assert(expected.take(expected.len() as int) =~= expected);
                            assert(out@ == expected);
                            assert(compiled_rules_of_grant(gview) == expected);
                        }
                        assert(out@.len() == admission_count(gview));
                        out
                    },
                };
                assert(sc_rules@.len() == admission_count(pol[done as int].grant));
                assert(sc_rules@ == compiled_rules_of_grant(pol[done as int].grant));
                let ghost map_pre = map@;
                let ghost sc_rules_v = sc_rules@;
                map.insert(nr, sc_rules);
                proof {
                    assert(map@ == map_pre.insert(nr, sc_rules));
                    assert(vec_rules_view(map@) =~= vec_rules_view(map_pre).insert(
                        nr,
                        sc_rules_v,
                    ));
                    assert(pol.take(done as int + 1).drop_last() =~= pol.take(done as int));
                    assert(pol.take(done as int + 1).last() == pol[done as int]);
                    assert(policy_rule_map(pol.take(done as int + 1)) == policy_rule_map(
                        pol.take(done as int),
                    ).insert(nr, compiled_rules_of_grant(pol[done as int].grant)));
                    assert(vec_rules_view(map@) == policy_rule_map(pol.take(done as int + 1)));
                    assert forall|i: int| 0 <= i < done + 1 implies {
                        &&& #[trigger] map@.contains_key(pol[i].syscall.nr as i64)
                        &&& map@[pol[i].syscall.nr as i64]@.len() == admission_count(pol[i].grant)
                    } by {
                        if i < done {
                            assert(pol[i].syscall != pol[done as int].syscall);
                            assert(pol[i].syscall.nr != pol[done as int].syscall.nr);
                            assert(pol[i].syscall.nr as i64 != nr);
                            assert(map_pre.contains_key(pol[i].syscall.nr as i64));
                        }
                    }
                    assert forall|k: i64| #[trigger] map@.contains_key(k) implies exists|i: int|
                        0 <= i < done + 1 && pol[i].syscall.nr as i64 == k by {
                        if k != nr {
                            assert(map_pre.contains_key(k));
                        }
                    }
                }
                done = done + 1;
            }
            proof {
                assert(done == pol.len());
                assert(pol.take(pol.len() as int) =~= pol);
                assert(vec_rules_view(map@) == policy_rule_map(pol));
                assert forall|k: i64| map@.dom().contains(k) implies 0 <= k
                    < 0x1_0000_0000i64 by {
                    assert(map@.contains_key(k));
                    let i = choose|i: int| 0 <= i < done && pol[i].syscall.nr as i64 == k;
                    assert(pol[i].syscall.nr < crate::syscall::SYSCALL_NR_LIMIT);
                }
            }
            match sc_compile(map, DENY_ERRNO) {
                Ok(prog) => {
                    assert(compiled_of(policy_rule_map(pol), DENY_ERRNO) matches Ok(q) && q
                        == prog@);
                    Some(prog)
                },
                Err(e) => {
                    assert(compiled_of(policy_rule_map(pol), DENY_ERRNO) is Err);
                    return Err(ExtraSafeError::SeccompError(sc_error_from_backend(e)));
                },
            }
        };

        let r = CompiledPolicy { program, path_entries, policy: Ghost(pol) };
        proof {
            assert(r.has_program() <==> pol.len() > 0);
        }
        Ok(r)
    }

    /// Compile the merged policy and install it for the calling thread only.
    ///
    /// The path-rights ruleset, if any, is installed first, then the syscall
    /// filter; afterwards every syscall of this thread outside the allow-list
    /// fails with permission denied. Requires no special privilege and cannot
    /// be undone.
    pub fn apply_to_current_thread(self) -> (r: Result<(), ExtraSafeError>)
        requires
            self.wf(),
        ensures
            (self@.policy.len() == 0 && self@.paths.len() == 0) <==> (r matches Err(e) && e
                matches ExtraSafeError::NoRulesEnabled),
            r matches Err(e) ==> (e matches ExtraSafeError::NoRulesEnabled || e
                matches ExtraSafeError::SeccompError(_) || e
                matches ExtraSafeError::PathDoesNotExist(_) || e
                matches ExtraSafeError::LandlockError(_)),
    {
        match self.finalize() {
            Ok(compiled) => {
                let r = compiled.apply_to_current_thread();
                proof {
                    assert(!(r matches Err(e) && e matches ExtraSafeError::NoRulesEnabled));
                }
                r
            },
            Err(e) => Err(e),
        }
    }

    /// Compile the merged policy and install it for every thread of the
    /// process, using the kernel's thread-group synchronization.
    ///
    /// Fails fast with [`ExtraSafeError::LandlockNoThreadSync`], before
    /// anything is compiled or installed, whenever a path-rights policy is
    /// pending: that mechanism has no thread-synchronization primitive, and
    /// applying it to one thread only would silently under-enforce.
    pub fn apply_to_all_threads(self) -> (r: Result<(), ExtraSafeError>)
        requires
            self.wf(),
        ensures
            self@.paths.len() > 0 <==> (r matches Err(e) && e
                matches ExtraSafeError::LandlockNoThreadSync),
            (self@.policy.len() == 0 && self@.paths.len() == 0) <==> (r matches Err(e) && e
                matches ExtraSafeError::NoRulesEnabled),
            r matches Err(e) ==> (e matches ExtraSafeError::LandlockNoThreadSync || e
                matches ExtraSafeError::NoRulesEnabled || e
                matches ExtraSafeError::SeccompError(_)),
    {
        if self.path_entries.len() > 0 {
            return Err(ExtraSafeError::LandlockNoThreadSync);
        }
        assert(self@.paths.len() == 0);
        match self.finalize() {
            Ok(compiled) => {
                let r = compiled.apply_to_all_threads();
                proof {
                    assert(!(r matches Err(e) && e matches ExtraSafeError::LandlockNoThreadSync));
                }
                r
            },
            Err(e) => Err(e),
        }
    }
}

/// An immutable, compiled policy, ready for installation.
///
/// Holds the compiled syscall-filter program (if any syscall grants were
/// made) and the merged path grants; owns no further rule-set references.
pub struct CompiledPolicy {
    program: Option<Vec<seccompiler::sock_filter>>,
    path_entries: Vec<PathEntry>,
    policy: Ghost<Seq<EntryView>>,
}

impl View for CompiledPolicy {
    type V = ContextView;

    closed spec fn view(&self) -> ContextView {
        ContextView { policy: self.policy@, paths: paths_view_of(self.path_entries@) }
    }
}

impl CompiledPolicy {
    /// Whether the policy holds a compiled, non-empty syscall-filter
    /// program: the case exactly when a syscall grant was merged.
    pub closed spec fn has_program(&self) -> bool {
        match self.program {
            Option::Some(p) => p@.len() > 0,
            Option::None => false,
        }
    }

    /// The compiled filter program the policy carries, instruction by
    /// instruction, if any syscall grant was merged.
    pub closed spec fn spec_program(&self) -> Option<Seq<seccompiler::sock_filter>> {
        match self.program {
            Option::Some(p) => Option::Some(p@),
            Option::None => Option::None,
        }
    }

    /// Install the policy for the calling thread only: the path-rights
    /// ruleset first, then the syscall filter. Afterwards every syscall of
    /// this thread outside the allow-list fails with permission denied, and
    /// filesystem operations are confined to the granted paths. Irreversible.
    #[verifier::loop_isolation(false)]
    pub fn apply_to_current_thread(self) -> (r: Result<(), ExtraSafeError>)
        ensures
            r matches Err(e) ==> (e matches ExtraSafeError::SeccompError(_) || e
                matches ExtraSafeError::PathDoesNotExist(_) || e
                matches ExtraSafeError::LandlockError(_)),
    {
        let program = self.program;
        let path_entries = self.path_entries;
        let ghost psv = paths_view_of(path_entries@);

        if path_entries.len() > 0 {
            let base = match ll_ruleset_base() {
                Ok(b) => b,
                Err(e) => {
                    return Err(ExtraSafeError::LandlockError(e));
                },
            };
            let mut rc = match ll_create(base) {
                Ok(c) => c,
                Err(e) => {
                    return Err(ExtraSafeError::LandlockError(e));
                },
            };
            assert(path_rights_set(psv.take(0)) =~= Set::<(Seq<char>, PathAccess)>::empty());
            let mut i: usize = 0;
            while i < path_entries.len()
                invariant
                    i <= path_entries.len(),
                    ruleset_grants(rc) == path_rights_set(psv.take(i as int)),
                decreases path_entries.len() - i,
            {
                let ghost e = psv[i as int];
                proof {
                    assert(entry_rights_prefix(e, 0) =~= Set::<(Seq<char>, PathAccess)>::empty());
                    assert(path_rights_set(psv.take(i as int)).union(entry_rights_prefix(e, 0))
                        =~= path_rights_set(psv.take(i as int)));
                }
                let mut j: usize = 0;
                while j < path_entries[i].rights.len()
                    invariant
                        i < path_entries.len(),
                        j <= path_entries@[i as int].rights@.len(),
                        ruleset_grants(rc) == path_rights_set(psv.take(i as int)).union(
                            entry_rights_prefix(e, j as int),
                        ),
                    decreases path_entries@[i as int].rights@.len() - j,
                {
                    let fd = match ll_path_fd(&path_entries[i].path) {
                        Ok(fd) => fd,
                        Err(er) => {
                            return Err(ExtraSafeError::PathDoesNotExist(er));
                        },
                    };
                    let right = path_entries[i].rights[j];
                    assert(right == e.rights[j as int] && path_fd_path(fd) == e.path);
                    rc = match ll_add_path_rule(rc, fd, right) {
                        Ok(next) => next,
                        Err(er) => {
                            return Err(ExtraSafeError::LandlockError(er));
                        },
                    };
                    proof {
                        assert forall|pr: (Seq<char>, PathAccess)|
                            entry_rights_prefix(e, j as int + 1).contains(pr)
                                <==> entry_rights_prefix(e, j as int).contains(pr) || pr == (
                            e.path,
                            e.rights[j as int],
                        ) by {
                            if entry_rights_prefix(e, j as int + 1).contains(pr) {
                                let k = choose|k: int|
                                    0 <= k < j as int + 1 && #[trigger] e.rights[k] == pr.1;
                                if k < j as int {
                                    assert(entry_rights_prefix(e, j as int).contains(pr));
                                }
                            }
                            if entry_rights_prefix(e, j as int).contains(pr) {
                                let k = choose|k: int|
                                    0 <= k < j as int && #[trigger] e.rights[k] == pr.1;
                                assert(entry_rights_prefix(e, j as int + 1).contains(pr));
                            }
                            if pr == (e.path, e.rights[j as int]) {
                                assert(e.rights[j as int] == pr.1);
                                assert(entry_rights_prefix(e, j as int + 1).contains(pr));
                            }
                        }
                        assert(path_rights_set(psv.take(i as int)).union(
                            entry_rights_prefix(e, j as int + 1),
                        ) =~= path_rights_set(psv.take(i as int)).union(
                            entry_rights_prefix(e, j as int),
                        ).insert((e.path, e.rights[j as int])));
                    }
                    j = j + 1;
                }
                proof {
                    let full = entry_rights_prefix(e, e.rights.len() as int);
                    assert forall|pr: (Seq<char>, PathAccess)|
                        path_rights_set(psv.take(i as int + 1)).contains(pr)
                            <==> path_rights_set(psv.take(i as int)).union(full).contains(pr) by {
                        if path_rights_set(psv.take(i as int + 1)).contains(pr) {
                            let (a, b) = choose|a: int, b: int|
                                0 <= a < psv.take(i as int + 1).len() && 0 <= b < psv.take(
                                    i as int + 1,
                                )[a].rights.len() && psv.take(i as int + 1)[a].path == pr.0 && #[trigger] psv.take(
                                    i as int + 1,
                                )[a].rights[b] == pr.1;
                            if a < i as int {
                                assert(psv.take(i as int)[a] == psv.take(i as int + 1)[a]);
                                assert(psv.take(i as int)[a].rights[b] == pr.1);
                                assert(path_rights_set(psv.take(i as int)).contains(pr));
                            } else {
                                assert(psv.take(i as int + 1)[a] == e);
                                assert(e.rights[b] == pr.1);
                                assert(full.contains(pr));
                            }
                        }
                        if path_rights_set(psv.take(i as int)).contains(pr) {
                            let (a, b) = choose|a: int, b: int|
                                0 <= a < psv.take(i as int).len() && 0 <= b < psv.take(
                                    i as int,
                                )[a].rights.len() && psv.take(i as int)[a].path == pr.0 && #[trigger] psv.take(
                                    i as int,
                                )[a].rights[b] == pr.1;
                            assert(psv.take(i as int + 1)[a] == psv.take(i as int)[a]);
                            assert(psv.take(i as int + 1)[a].rights[b] == pr.1);
                            assert(path_rights_set(psv.take(i as int + 1)).contains(pr));
                        }
                        if full.contains(pr) {
                            let k = choose|k: int|
                                0 <= k < e.rights.len() && #[trigger] e.rights[k] == pr.1;
                            assert(psv.take(i as int + 1)[i as int] == e);
                            assert(psv.take(i as int + 1)[i as int].rights[k] == pr.1);
                            assert(path_rights_set(psv.take(i as int + 1)).contains(pr));
                        }
                    }
                    assert(path_rights_set(psv.take(i as int + 1)) =~= path_rights_set(
                        psv.take(i as int),
                    ).union(full));
                }
                i = i + 1;
            }
            // The built ruleset holds exactly the table's path grants.
            assert(psv.take(psv.len() as int) =~= psv);
            assert(ruleset_grants(rc) == path_rights_set(psv));
            match ll_restrict_self(rc) {
                Ok(_) => {},
                Err(e) => {
                    return Err(ExtraSafeError::LandlockError(e));
                },
            }
        }

        match program {
            Some(prog) => match sc_apply_filter(&prog) {
                Ok(_) => Ok(()),
                Err(e) => Err(ExtraSafeError::SeccompError(e)),
            },
            None => Ok(()),
        }
    }

    /// Install the syscall filter for every thread of the process.
    ///
    /// Fails with [`ExtraSafeError::LandlockNoThreadSync`], before any kernel
    /// call, if the policy carries path grants: the path-rights mechanism has
    /// no thread-synchronization primitive.
    pub fn apply_to_all_threads(self) -> (r: Result<(), ExtraSafeError>)
        ensures
            self@.paths.len() > 0 <==> (r matches Err(e) && e
                matches ExtraSafeError::LandlockNoThreadSync),
            r matches Err(e) ==> (e matches ExtraSafeError::LandlockNoThreadSync || e
                matches ExtraSafeError::SeccompError(_)),
    {
        if self.path_entries.len() > 0 {
            return Err(ExtraSafeError::LandlockNoThreadSync);
        }
        match self.program {
            Some(prog) => match sc_apply_filter_all_threads(&prog) {
                Ok(_) => Ok(()),
                Err(e) => Err(ExtraSafeError::SeccompError(e)),
            },
            None => Ok(()),
        }
    }
}

} // verus!
