//! Laws of policy composition, stated and proved once for all rule sets.

use vstd::prelude::*;

use crate::path_rights::{
    add_path, contains_path, index_of_path, merge_paths, union_rights, LandlockRuleView,
    PathAccess, PathEntryView, PathOutcome,
};
use crate::policy::{
    add_conditional, add_simple, contains_syscall, grant_of, index_of_syscall, merge_conditionals,
    merge_ruleset, merge_simples, EntryView, GrantView, MergeOutcome,
};
use crate::rule::RuleView;
use crate::rulemap::RuleEntryView;
use crate::syscall::SyscallId;

verus! {

/// Merging unconditional grants into a table holding only unconditional
/// grants always succeeds; the result again holds only unconditional grants,
/// covers a syscall exactly when the table or the grants covered it, and —
/// when every grant of the table already carried this owner — every grant
/// of the result carries it too.
pub proof fn lemma_merge_simples_total(p: Seq<EntryView>, ss: Seq<SyscallId>, owner: Seq<char>)
    requires
        forall|i: int| 0 <= i < p.len() ==> (#[trigger] p[i]).grant is Simple,
    ensures
        merge_simples(p, ss, owner) matches MergeOutcome::Merged(p2) && {
            &&& forall|i: int| 0 <= i < p2.len() ==> (#[trigger] p2[i]).grant is Simple
            &&& forall|s: SyscallId|
                #[trigger] contains_syscall(p2, s) <==> contains_syscall(p, s) || ss.contains(s)
            &&& (forall|i: int|
                0 <= i < p.len() ==> (#[trigger] p[i]).grant == (GrantView::Simple { owner }))
                ==> (forall|i: int|
                0 <= i < p2.len() ==> (#[trigger] p2[i]).grant == (GrantView::Simple { owner }))
        },
    decreases ss.len(),
{
    if ss.len() == 0 {
        assert(merge_simples(p, ss, owner) == MergeOutcome::Merged(p));
        assert forall|s: SyscallId| #[trigger]
            contains_syscall(p, s) <==> contains_syscall(p, s) || ss.contains(s) by {
            if ss.contains(s) {
                let i = choose|i: int| 0 <= i < ss.len() && ss[i] == s;
                assert(false);
            }
        }
    } else {
        let s0 = ss[0];
        let tail = ss.drop_first();
        if contains_syscall(p, s0) {
            let j = index_of_syscall(p, s0);
            assert(p[j].grant is Simple);
            assert(add_simple(p, s0, owner) == MergeOutcome::Merged(p));
            lemma_merge_simples_total(p, tail, owner);
            let r = merge_simples(p, tail, owner);
            assert(merge_simples(p, ss, owner) == r);
            let p2 = r->Merged_0;
            assert forall|s: SyscallId| #[trigger]
                contains_syscall(p2, s) <==> contains_syscall(p, s) || ss.contains(s) by {
                if ss.contains(s) {
                    let i = choose|i: int| 0 <= i < ss.len() && ss[i] == s;
                    if i == 0 {
                        assert(contains_syscall(p, s));
                    } else {
                        assert(tail[i - 1] == s);
                        assert(tail.contains(s));
                    }
                }
                if tail.contains(s) {
                    let i = choose|i: int| 0 <= i < tail.len() && tail[i] == s;
                    assert(ss[i + 1] == s);
                    assert(ss.contains(s));
                }
                if s == s0 {
                    assert(ss.contains(s));
                }
            }
        } else {
            let e = EntryView { syscall: s0, grant: GrantView::Simple { owner } };
            let p1 = p.push(e);
            assert(add_simple(p, s0, owner) == MergeOutcome::Merged(p1));
            assert forall|i: int| 0 <= i < p1.len() implies (#[trigger] p1[i]).grant
                is Simple by {
                if i < p.len() {
                    assert(p1[i] == p[i]);
                }
            }
            if forall|t: int| 0 <= t < p.len() ==> (#[trigger] p[t]).grant == (GrantView::Simple {
                owner,
            }) {
                assert forall|t: int| 0 <= t < p1.len() implies (#[trigger] p1[t]).grant == (
                GrantView::Simple { owner }) by {
                    if t < p.len() {
                        assert(p1[t] == p[t]);
                    }
                }
            }
            lemma_merge_simples_total(p1, tail, owner);
            let r = merge_simples(p1, tail, owner);
            assert(merge_simples(p, ss, owner) == r);
            let p2 = r->Merged_0;
            assert forall|s: SyscallId| #[trigger]
                contains_syscall(p2, s) <==> contains_syscall(p, s) || ss.contains(s) by {
                assert(contains_syscall(p2, s) <==> contains_syscall(p1, s) || tail.contains(s));
                if contains_syscall(p1, s) {
                    let i = index_of_syscall(p1, s);
                    if i < p.len() {
                        assert(p[i].syscall == s);
                        assert(contains_syscall(p, s));
                    } else {
                        assert(s == s0);
                        assert(ss.contains(s));
                    }
                }
                if contains_syscall(p, s) {
                    let i = index_of_syscall(p, s);
                    assert(p1[i].syscall == s);
                    assert(contains_syscall(p1, s));
                }
                if s == s0 {
                    assert(p1[p.len() as int].syscall == s);
                    assert(contains_syscall(p1, s));
                }
                if ss.contains(s) {
                    let i = choose|i: int| 0 <= i < ss.len() && ss[i] == s;
                    if i == 0 {
                        assert(contains_syscall(p1, s));
                    } else {
                        assert(tail[i - 1] == s);
                        assert(tail.contains(s));
                    }
                }
                if tail.contains(s) {
                    let i = choose|i: int| 0 <= i < tail.len() && tail[i] == s;
                    assert(ss[i + 1] == s);
                    assert(ss.contains(s));
                }
            }
        }
    }
}

/// Law: two rule sets granting syscalls only unconditionally never conflict,
/// even when they grant the same syscall — enabling one after the other
/// succeeds and the merged policy covers exactly the union of their
/// syscalls (idempotent union).
pub proof fn lemma_unconditional_union(
    ss1: Seq<SyscallId>,
    o1: Seq<char>,
    ss2: Seq<SyscallId>,
    o2: Seq<char>,
)
    ensures
        merge_ruleset(Seq::empty(), ss1, Seq::empty(), o1) matches MergeOutcome::Merged(p1) && {
            merge_ruleset(p1, ss2, Seq::empty(), o2) matches MergeOutcome::Merged(p2)
                && (forall|s: SyscallId|
                #[trigger] contains_syscall(p2, s) <==> ss1.contains(s) || ss2.contains(s))
        },
{
    let p0 = Seq::<EntryView>::empty();
    assert forall|s: SyscallId| !(#[trigger] contains_syscall(p0, s)) by {
        if contains_syscall(p0, s) {
            let i = index_of_syscall(p0, s);
            assert(false);
        }
    }
    lemma_merge_simples_total(p0, ss1, o1);
    let p1 = merge_simples(p0, ss1, o1)->Merged_0;
    assert(merge_conditionals(p1, Seq::empty(), o1) == MergeOutcome::Merged(p1));
    assert(merge_ruleset(p0, ss1, Seq::empty(), o1) == MergeOutcome::Merged(p1));
    lemma_merge_simples_total(p1, ss2, o2);
    let p2 = merge_simples(p1, ss2, o2)->Merged_0;
    assert(merge_conditionals(p2, Seq::empty(), o2) == MergeOutcome::Merged(p2));
    assert(merge_ruleset(p1, ss2, Seq::empty(), o2) == MergeOutcome::Merged(p2));
}

/// Walking any list of unconditional grants that names `s` over a table in
/// which `s` alone holds a conditional grant stops at `s` with the conflict,
/// reporting the conditional grant's first owner and the walker's name.
pub proof fn lemma_merge_simples_conflicts(
    p: Seq<EntryView>,
    ss: Seq<SyscallId>,
    pn: Seq<char>,
    s: SyscallId,
    qowners: Seq<Seq<char>>,
    qrules: Seq<RuleView>,
)
    requires
        ss.contains(s),
        qowners.len() >= 1,
        exists|i: int|
            0 <= i < p.len() && (#[trigger] p[i]).syscall == s && p[i].grant == (
            GrantView::Conditional { owners: qowners, rules: qrules }),
        forall|i: int|
            0 <= i < p.len() && (#[trigger] p[i]).syscall != s ==> p[i].grant is Simple,
        forall|i: int, j: int|
            0 <= i < p.len() && 0 <= j < p.len() && i != j ==> (#[trigger] p[i]).syscall != (
            #[trigger] p[j]).syscall,
    ensures
        merge_simples(p, ss, pn) == (MergeOutcome::Conflict {
            syscall: s,
            conditional_owner: qowners[0],
            simple_owner: pn,
        }),
    decreases ss.len(),
{
    let s0 = ss[0];
    let w = choose|i: int|
        0 <= i < p.len() && (#[trigger] p[i]).syscall == s && p[i].grant == (
        GrantView::Conditional { owners: qowners, rules: qrules });
    if s0 == s {
        assert(contains_syscall(p, s));
        let j = index_of_syscall(p, s);
        assert(p[j].syscall == s && p[w].syscall == s);
        assert(j == w);
        assert(grant_of(p, s) == (GrantView::Conditional { owners: qowners, rules: qrules }));
        assert(add_simple(p, s0, pn) == (MergeOutcome::Conflict {
            syscall: s,
            conditional_owner: qowners[0],
            simple_owner: pn,
        }));
    } else {
        let tail = ss.drop_first();
        let k = choose|k: int| 0 <= k < ss.len() && ss[k] == s;
        assert(k != 0);
        assert(tail[k - 1] == s);
        assert(tail.contains(s));
        if contains_syscall(p, s0) {
            let j = index_of_syscall(p, s0);
            assert(p[j].syscall == s0 && p[j].syscall != s);
            assert(p[j].grant is Simple);
            assert(add_simple(p, s0, pn) == MergeOutcome::Merged(p));
            lemma_merge_simples_conflicts(p, tail, pn, s, qowners, qrules);
        } else {
            let e = EntryView { syscall: s0, grant: GrantView::Simple { owner: pn } };
            let p2 = p.push(e);
            assert(add_simple(p, s0, pn) == MergeOutcome::Merged(p2));
            assert(p2[w].syscall == s && p2[w].grant == (GrantView::Conditional {
                owners: qowners,
                rules: qrules,
            }));
            assert forall|i: int|
                0 <= i < p2.len() && (#[trigger] p2[i]).syscall != s implies p2[i].grant
                is Simple by {
                if i < p.len() {
                    assert(p2[i] == p[i]);
                }
            }
            assert forall|i: int, j: int|
                0 <= i < p2.len() && 0 <= j < p2.len() && i != j implies (
            #[trigger] p2[i]).syscall != (#[trigger] p2[j]).syscall by {
                if i < p.len() && j < p.len() {
                    assert(p2[i] == p[i] && p2[j] == p[j]);
                } else if i < p.len() {
                    assert(p2[i] == p[i] && p[i].syscall != s0);
                } else if j < p.len() {
                    assert(p2[j] == p[j] && p[j].syscall != s0);
                }
            }
            lemma_merge_simples_conflicts(p2, tail, pn, s, qowners, qrules);
        }
    }
}

/// Law: an unconditional and a conditional grant for the same syscall
/// conflict in either enabling order, whatever else the unconditional rule
/// set grants, and the conflict is reported identically: the syscall, then
/// the conditional grantor's name, then the unconditional grantor's name,
/// regardless of which was enabled first.
pub proof fn lemma_conflict_symmetric(
    ss: Seq<SyscallId>,
    s: SyscallId,
    rules: Seq<RuleView>,
    pn: Seq<char>,
    qn: Seq<char>,
)
    requires
        ss.contains(s),
    ensures
        merge_ruleset(Seq::empty(), ss, Seq::empty(), pn) matches MergeOutcome::Merged(p1)
            && merge_ruleset(p1, Seq::empty(), seq![RuleEntryView { syscall: s, rules }], qn)
            == (MergeOutcome::Conflict { syscall: s, conditional_owner: qn, simple_owner: pn }),
        merge_ruleset(Seq::empty(), Seq::empty(), seq![RuleEntryView { syscall: s, rules }], qn)
            matches MergeOutcome::Merged(q1) && merge_ruleset(q1, ss, Seq::empty(), pn) == (
        MergeOutcome::Conflict { syscall: s, conditional_owner: qn, simple_owner: pn }),
{
    let p0 = Seq::<EntryView>::empty();
    assert forall|x: SyscallId| !(#[trigger] contains_syscall(p0, x)) by {
        if contains_syscall(p0, x) {
            let i = index_of_syscall(p0, x);
            assert(false);
        }
    }
    let entry = RuleEntryView { syscall: s, rules };

    // First order: the unconditional rule set merges whole; the conditional
    // grant then collides on `s`.
    lemma_merge_simples_total(p0, ss, pn);
    let p1 = merge_simples(p0, ss, pn)->Merged_0;
    assert(merge_conditionals(p1, Seq::empty(), pn) == MergeOutcome::Merged(p1));
    assert(merge_ruleset(p0, ss, Seq::empty(), pn) == MergeOutcome::Merged(p1));
    assert(contains_syscall(p1, s));
    let j1 = index_of_syscall(p1, s);
    assert(p1[j1].grant == (GrantView::Simple { owner: pn }));
    assert(grant_of(p1, s) == (GrantView::Simple { owner: pn }));
    assert(add_conditional(p1, s, rules, qn) == (MergeOutcome::Conflict {
        syscall: s,
        conditional_owner: qn,
        simple_owner: pn,
    }));
    assert(merge_simples(p1, Seq::empty(), qn) == MergeOutcome::Merged(p1));
    assert(merge_conditionals(p1, seq![entry], qn) == (MergeOutcome::Conflict {
        syscall: s,
        conditional_owner: qn,
        simple_owner: pn,
    }));
    assert(merge_ruleset(p1, Seq::empty(), seq![entry], qn) == (MergeOutcome::Conflict {
        syscall: s,
        conditional_owner: qn,
        simple_owner: pn,
    }));

    // Second order: the conditional grant lands alone; the unconditional walk
    // stops at `s` with the identical report.
    let e2 = EntryView {
        syscall: s,
        grant: GrantView::Conditional { owners: seq![qn], rules },
    };
    let q1 = p0.push(e2);
    assert(add_conditional(p0, s, rules, qn) == MergeOutcome::Merged(q1));
    assert(seq![entry].drop_first() =~= Seq::<RuleEntryView>::empty());
    assert(merge_conditionals(q1, Seq::empty(), qn) == MergeOutcome::Merged(q1));
    assert(merge_conditionals(p0, seq![entry], qn) == MergeOutcome::Merged(q1));
    assert(merge_simples(p0, Seq::empty(), qn) == MergeOutcome::Merged(p0));
    assert(merge_ruleset(p0, Seq::empty(), seq![entry], qn) == MergeOutcome::Merged(q1));

    assert(q1[0].syscall == s && q1[0].grant == (GrantView::Conditional {
        owners: seq![qn],
        rules,
    }));
    assert(seq![qn][0] == qn);
    lemma_merge_simples_conflicts(q1, ss, pn, s, seq![qn], rules);
    assert(merge_ruleset(q1, ss, Seq::empty(), pn) == (MergeOutcome::Conflict {
        syscall: s,
        conditional_owner: qn,
        simple_owner: pn,
    }));
}

/// Law: conditional grants for one syscall from two rule sets merge without
/// conflict; the merged grant records both names and carries the
/// concatenation of both admission lists, so a call matching either rule
/// set's conditions is permitted (OR semantics).
pub proof fn lemma_conditional_or_union(
    s: SyscallId,
    rules1: Seq<RuleView>,
    o1: Seq<char>,
    rules2: Seq<RuleView>,
    o2: Seq<char>,
)
    ensures
        merge_ruleset(
            Seq::empty(),
            Seq::empty(),
            seq![RuleEntryView { syscall: s, rules: rules1 }],
            o1,
        ) matches MergeOutcome::Merged(q1) && {
            merge_ruleset(q1, Seq::empty(), seq![RuleEntryView { syscall: s, rules: rules2 }], o2)
                matches MergeOutcome::Merged(q2) && contains_syscall(q2, s) && grant_of(q2, s) == (
            GrantView::Conditional { owners: seq![o1, o2], rules: rules1 + rules2 })
        },
{
    let p0 = Seq::<EntryView>::empty();
    assert forall|x: SyscallId| !(#[trigger] contains_syscall(p0, x)) by {
        if contains_syscall(p0, x) {
            let i = index_of_syscall(p0, x);
            assert(false);
        }
    }
    let entry1 = RuleEntryView { syscall: s, rules: rules1 };
    let entry2 = RuleEntryView { syscall: s, rules: rules2 };

    let e1 = EntryView {
        syscall: s,
        grant: GrantView::Conditional { owners: seq![o1], rules: rules1 },
    };
    let q1 = p0.push(e1);
    assert(add_conditional(p0, s, rules1, o1) == MergeOutcome::Merged(q1));
    assert(seq![entry1].drop_first() =~= Seq::<RuleEntryView>::empty());
    assert(merge_conditionals(q1, Seq::empty(), o1) == MergeOutcome::Merged(q1));
    assert(merge_conditionals(p0, seq![entry1], o1) == MergeOutcome::Merged(q1));
    assert(merge_simples(p0, Seq::empty(), o1) == MergeOutcome::Merged(p0));
    assert(merge_ruleset(p0, Seq::empty(), seq![entry1], o1) == MergeOutcome::Merged(q1));

    assert(q1[0].syscall == s);
    assert(contains_syscall(q1, s));
    let j = index_of_syscall(q1, s);
    assert(j == 0);
    assert(grant_of(q1, s) == (GrantView::Conditional { owners: seq![o1], rules: rules1 }));
    let merged_entry = EntryView {
        syscall: s,
        grant: GrantView::Conditional { owners: seq![o1].push(o2), rules: rules1 + rules2 },
    };
    let q2 = q1.update(0, merged_entry);
    assert(add_conditional(q1, s, rules2, o2) == MergeOutcome::Merged(q2));
    assert(seq![entry2].drop_first() =~= Seq::<RuleEntryView>::empty());
    assert(merge_conditionals(q2, Seq::empty(), o2) == MergeOutcome::Merged(q2));
    assert(merge_conditionals(q1, seq![entry2], o2) == MergeOutcome::Merged(q2));
    assert(merge_simples(q1, Seq::empty(), o2) == MergeOutcome::Merged(q1));
    assert(merge_ruleset(q1, Seq::empty(), seq![entry2], o2) == MergeOutcome::Merged(q2));

    assert(q2[0].syscall == s);
    assert(contains_syscall(q2, s));
    let j2 = index_of_syscall(q2, s);
    assert(j2 == 0);
    assert(seq![o1].push(o2) =~= seq![o1, o2]);
    assert(grant_of(q2, s) == (GrantView::Conditional { owners: seq![o1, o2], rules: rules1
        + rules2 }));
}

/// Law: registering the identical path from two different rule sets is
/// rejected, naming the path and both rule sets; the same rule set
/// re-registering the same path succeeds and unions the rights.
pub proof fn lemma_duplicate_path(
    path: Seq<char>,
    r1: Seq<PathAccess>,
    o1: Seq<char>,
    r2: Seq<PathAccess>,
    o2: Seq<char>,
)
    ensures
        merge_paths(Seq::empty(), seq![LandlockRuleView { path, rights: r1 }], o1)
            matches PathOutcome::Merged(ps1) && {
            &&& o1 != o2 ==> merge_paths(ps1, seq![LandlockRuleView { path, rights: r2 }], o2)
                == (PathOutcome::Conflict { path, first_owner: o1, second_owner: o2 })
            &&& o1 == o2 ==> (merge_paths(ps1, seq![LandlockRuleView { path, rights: r2 }], o2)
                matches PathOutcome::Merged(ps2) && ps2 =~= seq![
                PathEntryView { path, rights: union_rights(r1, r2), owner: o1 },
            ])
        },
{
    let ps0 = Seq::<PathEntryView>::empty();
    assert forall|q: Seq<char>| !(#[trigger] contains_path(ps0, q)) by {
        if contains_path(ps0, q) {
            let i = index_of_path(ps0, q);
            assert(false);
        }
    }
    let lr1 = LandlockRuleView { path, rights: r1 };
    let lr2 = LandlockRuleView { path, rights: r2 };
    let e1 = PathEntryView { path, rights: r1, owner: o1 };
    let ps1 = ps0.push(e1);
    assert(add_path(ps0, lr1, o1) == PathOutcome::Merged(ps1));
    assert(seq![lr1].drop_first() =~= Seq::<LandlockRuleView>::empty());
    assert(merge_paths(ps1, Seq::empty(), o1) == PathOutcome::Merged(ps1));
    assert(merge_paths(ps0, seq![lr1], o1) == PathOutcome::Merged(ps1));

    assert(ps1[0].path == path);
    assert(contains_path(ps1, path));
    let j = index_of_path(ps1, path);
    assert(j == 0);
    if o1 != o2 {
        assert(add_path(ps1, lr2, o2) == (PathOutcome::Conflict {
            path,
            first_owner: o1,
            second_owner: o2,
        }));
        assert(merge_paths(ps1, seq![lr2], o2) == (PathOutcome::Conflict {
            path,
            first_owner: o1,
            second_owner: o2,
        }));
    } else {
        let e2 = PathEntryView { path, rights: union_rights(r1, r2), owner: o1 };
        let ps2 = ps1.update(0, e2);
        assert(add_path(ps1, lr2, o2) == PathOutcome::Merged(ps2));
        assert(seq![lr2].drop_first() =~= Seq::<LandlockRuleView>::empty());
        assert(merge_paths(ps2, Seq::empty(), o2) == PathOutcome::Merged(ps2));
        assert(merge_paths(ps1, seq![lr2], o2) == PathOutcome::Merged(ps2));
        assert(ps2 =~= seq![e2]);
    }
}

/// Re-registering rights the table already holds changes nothing: the union
/// of a rights set with any selection from itself is the set itself.
pub proof fn lemma_union_rights_identical(a: Seq<PathAccess>, b: Seq<PathAccess>)
    requires
        forall|i: int| 0 <= i < b.len() ==> a.contains(#[trigger] b[i]),
    ensures
        union_rights(a, b) == a,
    decreases b.len(),
{
    if b.len() == 0 {
    } else {
        assert(a.contains(b[0]));
        let tail = b.drop_first();
        assert forall|i: int| 0 <= i < tail.len() implies a.contains(#[trigger] tail[i]) by {
            assert(tail[i] == b[i + 1]);
        }
        lemma_union_rights_identical(a, tail);
    }
}

} // verus!
