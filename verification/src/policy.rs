//! The merged per-syscall policy and its merge rules.
//!
//! Per syscall, the aggregator holds one grant: *unconditional* (always
//! allowed, tagged with the granting rule set's name) or *conditional* (the
//! granting rule sets' names and the merged list of alternative admissions).
//! The spec functions here are the mathematical model of the merge that
//! [`crate::SafetyContext::enable`] performs, including its conflict rules.

use vstd::prelude::*;

use crate::rule::{RuleView, ConditionalRule};
use crate::rulemap::{rule_entry_wf, RuleEntryView};
use crate::syscall::{SyscallId, SYSCALL_NR_LIMIT};

verus! {

/// Mathematical image of one per-syscall grant.
pub enum GrantView {
    /// The syscall is always allowed.
    Simple {
        /// Name of the rule set that granted it.
        owner: Seq<char>,
    },
    /// The syscall is allowed under any of the carried admissions.
    Conditional {
        /// Names of every rule set that contributed admissions.
        owners: Seq<Seq<char>>,
        /// The merged alternative admissions (logical OR).
        rules: Seq<RuleView>,
    },
}

/// One per-syscall grant held by the aggregator.
#[derive(Debug)]
pub enum Grant {
    /// The syscall is always allowed.
    Simple {
        /// Name of the rule set that granted it.
        owner: String,
    },
    /// The syscall is allowed under any of the carried admissions.
    Conditional {
        /// Names of every rule set that contributed admissions.
        owners: Vec<String>,
        /// The merged alternative admissions (logical OR).
        rules: Vec<ConditionalRule>,
    },
}

impl View for Grant {
    type V = GrantView;

    open spec fn view(&self) -> GrantView {
        match self {
            Grant::Simple { owner } => GrantView::Simple { owner: owner@ },
            Grant::Conditional { owners, rules } => GrantView::Conditional {
                owners: owners@.map_values(|o: String| o@),
                rules: rules@.map_values(|r: ConditionalRule| r@),
            },
        }
    }
}

/// Mathematical image of one row of the policy table.
pub struct EntryView {
    /// The syscall the grant is about.
    pub syscall: SyscallId,
    /// The grant.
    pub grant: GrantView,
}

/// One row of the policy table.
#[derive(Debug)]
pub struct PolicyEntry {
    /// The syscall the grant is about.
    pub syscall: SyscallId,
    /// The grant.
    pub grant: Grant,
}

impl View for PolicyEntry {
    type V = EntryView;

    open spec fn view(&self) -> EntryView {
        EntryView { syscall: self.syscall, grant: self.grant@ }
    }
}

/// Whether the table holds a grant for `s`.
pub open spec fn contains_syscall(p: Seq<EntryView>, s: SyscallId) -> bool {
    exists|i: int| 0 <= i < p.len() && (#[trigger] p[i]).syscall == s
}

/// The index of the grant for `s`.
pub open spec fn index_of_syscall(p: Seq<EntryView>, s: SyscallId) -> int {
    choose|i: int| 0 <= i < p.len() && (#[trigger] p[i]).syscall == s
}

/// The grant for `s`.
pub open spec fn grant_of(p: Seq<EntryView>, s: SyscallId) -> GrantView {
    p[index_of_syscall(p, s)].grant
}

/// Well-formedness of one grant: a conditional grant records at least one
/// owner and at least one admission, each targeting the grant's own syscall.
pub open spec fn grant_wf(s: SyscallId, g: GrantView) -> bool {
    match g {
        GrantView::Simple { .. } => true,
        GrantView::Conditional { owners, rules } => {
            &&& owners.len() >= 1
            &&& rule_entry_wf(RuleEntryView { syscall: s, rules })
        },
    }
}

/// Well-formedness of the policy table: distinct syscalls that a filter can
/// speak about, and well-formed grants.
pub open spec fn policy_wf(p: Seq<EntryView>) -> bool {
    &&& forall|i: int, j: int|
        0 <= i < p.len() && 0 <= j < p.len() && i != j ==> (#[trigger] p[i]).syscall != (
        #[trigger] p[j]).syscall
    &&& forall|i: int| 0 <= i < p.len() ==> (#[trigger] p[i]).syscall.nr < SYSCALL_NR_LIMIT
    &&& forall|i: int| 0 <= i < p.len() ==> grant_wf((#[trigger] p[i]).syscall, p[i].grant)
}

/// How many alternative admissions a grant carries: none for an
/// unconditional grant.
pub open spec fn admission_count(g: GrantView) -> nat {
    match g {
        GrantView::Simple { .. } => 0,
        GrantView::Conditional { rules, .. } => rules.len(),
    }
}

/// Outcome of merging one rule set into the policy table.
pub enum MergeOutcome {
    /// The merge succeeded; the merged table.
    Merged(Seq<EntryView>),
    /// An unconditional and a conditional grant collided.
    Conflict {
        /// The syscall granted both ways.
        syscall: SyscallId,
        /// Name of the rule set granting it conditionally.
        conditional_owner: Seq<char>,
        /// Name of the rule set granting it unconditionally.
        simple_owner: Seq<char>,
    },
}

/// Merge one unconditional grant for `s` by the rule set named `owner`:
/// a fresh syscall is appended; an existing unconditional grant is left as it
/// is (idempotent union); an existing conditional grant is a conflict, since
/// the unconditional grant would erase its argument-level restrictions.
pub open spec fn add_simple(p: Seq<EntryView>, s: SyscallId, owner: Seq<char>) -> MergeOutcome {
    if contains_syscall(p, s) {
        match grant_of(p, s) {
            GrantView::Simple { .. } => MergeOutcome::Merged(p),
            GrantView::Conditional { owners, .. } => MergeOutcome::Conflict {
                syscall: s,
                conditional_owner: owners[0],
                simple_owner: owner,
            },
        }
    } else {
        MergeOutcome::Merged(p.push(EntryView { syscall: s, grant: GrantView::Simple { owner } }))
    }
}

/// Merge one conditional grant for `s` by the rule set named `owner`:
/// a fresh syscall is appended; an existing conditional grant unions the
/// admission lists (OR semantics) and records the new owner; an existing
/// unconditional grant is a conflict, symmetric to [`add_simple`], so that
/// registration order never changes which combinations are accepted.
pub open spec fn add_conditional(
    p: Seq<EntryView>,
    s: SyscallId,
    rules: Seq<RuleView>,
    owner: Seq<char>,
) -> MergeOutcome {
    if contains_syscall(p, s) {
        match grant_of(p, s) {
            GrantView::Simple { owner: simple_owner } => MergeOutcome::Conflict {
                syscall: s,
                conditional_owner: owner,
                simple_owner,
            },
            GrantView::Conditional { owners, rules: old_rules } => MergeOutcome::Merged(
                p.update(
                    index_of_syscall(p, s),
                    EntryView {
                        syscall: s,
                        grant: GrantView::Conditional {
                            owners: owners.push(owner),
                            rules: old_rules + rules,
                        },
                    },
                ),
            ),
        }
    } else {
        MergeOutcome::Merged(
            p.push(
                EntryView {
                    syscall: s,
                    grant: GrantView::Conditional { owners: seq![owner], rules },
                },
            ),
        )
    }
}

/// A table stays well-formed when a fresh syscall's conditional grant is
/// appended.
pub proof fn lemma_wf_after_cond_push(
    p: Seq<EntryView>,
    s: SyscallId,
    rules: Seq<RuleView>,
    owner: Seq<char>,
)
    requires
        policy_wf(p),
        !contains_syscall(p, s),
        rule_entry_wf(RuleEntryView { syscall: s, rules }),
    ensures
        policy_wf(
            p.push(
                EntryView { syscall: s, grant: GrantView::Conditional { owners: seq![owner], rules } },
            ),
        ),
{
    let p2 = p.push(
        EntryView { syscall: s, grant: GrantView::Conditional { owners: seq![owner], rules } },
    );
    assert forall|i: int, j: int|
        0 <= i < p2.len() && 0 <= j < p2.len() && i != j implies (#[trigger] p2[i]).syscall != (
    #[trigger] p2[j]).syscall by {
        if i < p.len() && j < p.len() {
            assert(p2[i] == p[i] && p2[j] == p[j]);
        } else if i < p.len() {
            assert(p2[i] == p[i] && p[i].syscall != s);
        } else {
            assert(p2[j] == p[j] && p[j].syscall != s);
        }
    }
    assert forall|i: int| 0 <= i < p2.len() implies (#[trigger] p2[i]).syscall.nr
        < SYSCALL_NR_LIMIT by {
        if i < p.len() {
            assert(p2[i] == p[i]);
        } else {
            assert(p2[i].syscall == s);
        }
    }
    assert forall|i: int| 0 <= i < p2.len() implies grant_wf(
        (#[trigger] p2[i]).syscall,
        p2[i].grant,
    ) by {
        if i < p.len() {
            assert(p2[i] == p[i]);
        } else {
            assert(p2[i].grant == GrantView::Conditional { owners: seq![owner], rules });
        }
    }
}

/// A table stays well-formed when an existing conditional grant takes in one
/// more owner and more admissions for the same syscall.
pub proof fn lemma_wf_after_cond_update(
    p: Seq<EntryView>,
    idx: int,
    old_owners: Seq<Seq<char>>,
    old_rules: Seq<RuleView>,
    rules2: Seq<RuleView>,
    owner: Seq<char>,
)
    requires
        policy_wf(p),
        0 <= idx < p.len(),
        p[idx].grant == (GrantView::Conditional { owners: old_owners, rules: old_rules }),
        rule_entry_wf(RuleEntryView { syscall: p[idx].syscall, rules: rules2 }),
    ensures
        policy_wf(
            p.update(
                idx,
                EntryView {
                    syscall: p[idx].syscall,
                    grant: GrantView::Conditional {
                        owners: old_owners.push(owner),
                        rules: old_rules + rules2,
                    },
                },
            ),
        ),
{
    let s = p[idx].syscall;
    let merged = old_rules + rules2;
    let p2 = p.update(
        idx,
        EntryView {
            syscall: s,
            grant: GrantView::Conditional { owners: old_owners.push(owner), rules: merged },
        },
    );
    assert(grant_wf(s, p[idx].grant));
    let old_entry_v = RuleEntryView { syscall: s, rules: old_rules };
    let new_entry_v = RuleEntryView { syscall: s, rules: rules2 };
    assert(rule_entry_wf(old_entry_v));
    assert forall|k: int| 0 <= k < merged.len() implies {
        &&& (#[trigger] merged[k]).syscall == s
        &&& merged[k].filters.len() >= 1
        &&& crate::rule::rule_wf(merged[k])
    } by {
        if k < old_rules.len() {
            assert(merged[k] == old_entry_v.rules[k]);
        } else {
            assert(merged[k] == new_entry_v.rules[k - old_rules.len()]);
        }
    }
    assert(rule_entry_wf(RuleEntryView { syscall: s, rules: merged }));
    assert forall|i: int, j: int|
        0 <= i < p2.len() && 0 <= j < p2.len() && i != j implies (#[trigger] p2[i]).syscall != (
    #[trigger] p2[j]).syscall by {
        assert(p2[i].syscall == p[i].syscall && p2[j].syscall == p[j].syscall);
    }
    assert forall|i: int| 0 <= i < p2.len() implies (#[trigger] p2[i]).syscall.nr
        < SYSCALL_NR_LIMIT by {
        assert(p2[i].syscall == p[i].syscall);
    }
    assert forall|i: int| 0 <= i < p2.len() implies grant_wf(
        (#[trigger] p2[i]).syscall,
        p2[i].grant,
    ) by {
        if i != idx {
            assert(p2[i] == p[i]);
        }
    }
}

/// Merge a rule set's unconditional grants, in declaration order, stopping at
/// the first conflict.
pub open spec fn merge_simples(p: Seq<EntryView>, ss: Seq<SyscallId>, owner: Seq<char>) -> MergeOutcome
    decreases ss.len(),
{
    if ss.len() == 0 {
        MergeOutcome::Merged(p)
    } else {
        match add_simple(p, ss[0], owner) {
            MergeOutcome::Merged(p2) => merge_simples(p2, ss.drop_first(), owner),
            c => c,
        }
    }
}

/// Merge a rule set's conditional grants, in declaration order, stopping at
/// the first conflict.
pub open spec fn merge_conditionals(
    p: Seq<EntryView>,
    es: Seq<RuleEntryView>,
    owner: Seq<char>,
) -> MergeOutcome
    decreases es.len(),
{
    if es.len() == 0 {
        MergeOutcome::Merged(p)
    } else {
        match add_conditional(p, es[0].syscall, es[0].rules, owner) {
            MergeOutcome::Merged(p2) => merge_conditionals(p2, es.drop_first(), owner),
            c => c,
        }
    }
}

/// Merge one whole rule set: its unconditional grants first, then its
/// conditional grants, stopping at the first conflict.
pub open spec fn merge_ruleset(
    p: Seq<EntryView>,
    simple: Seq<SyscallId>,
    cond: Seq<RuleEntryView>,
    owner: Seq<char>,
) -> MergeOutcome {
    match merge_simples(p, simple, owner) {
        MergeOutcome::Merged(p2) => merge_conditionals(p2, cond, owner),
        c => c,
    }
}

} // verus!
