//! An ad-hoc rule set whose grants are given as data.
//!
//! Useful when no built-in catalogue fits: the caller names the rule set and
//! lists its unconditional grants, conditional grants and path grants
//! directly.

use vstd::prelude::*;

use crate::path_rights::{LandlockRule, LandlockRuleView, PathAccess};
use crate::rule::ConditionalRule;
use crate::rulemap::{rule_entries_wf, rule_entry_wf, RuleEntryView, RuleMap, RuleMapEntry};
use crate::ruleset::RuleSet;
use crate::syscall::{syscall_ids_in_range, SyscallId, SYSCALL_NR_LIMIT};

verus! {

/// Mathematical image of a [`CustomRuleset`].
pub struct CustomRulesetView {
    /// The diagnostic name.
    pub name: Seq<char>,
    /// The unconditional grants, in declaration order.
    pub simple: Seq<SyscallId>,
    /// The conditional grants, in declaration order.
    pub conditional: Seq<RuleEntryView>,
    /// The path grants, in declaration order.
    pub paths: Seq<LandlockRuleView>,
}

/// A rule set assembled from explicit grants.
#[derive(Debug)]
pub struct CustomRuleset {
    name: &'static str,
    simple: Vec<SyscallId>,
    conditional: Vec<RuleMapEntry>,
    paths: Vec<LandlockRule>,
}

impl View for CustomRuleset {
    type V = CustomRulesetView;

    closed spec fn view(&self) -> CustomRulesetView {
        CustomRulesetView {
            name: self.name@,
            simple: self.simple@,
            conditional: self.conditional@.map_values(|e: RuleMapEntry| e@),
            paths: self.paths@.map_values(|l: LandlockRule| l@),
        }
    }
}

impl CustomRuleset {
    /// The declared grants are always well-formed: every unconditional
    /// grant names a compilable syscall; no syscall is bound conditionally
    /// twice, and every rule targets its binding's syscall with at least one
    /// condition over a valid argument index.
    #[verifier::type_invariant]
    spec fn inv(self) -> bool {
        &&& syscall_ids_in_range(self@.simple)
        &&& rule_entries_wf(self@.conditional)
    }

    /// An empty rule set carrying only its diagnostic name.
    pub fn new(name: &'static str) -> (r: CustomRuleset)
        ensures
            r@.name == name@,
            r@.simple == Seq::<SyscallId>::empty(),
            r@.conditional == Seq::<RuleEntryView>::empty(),
            r@.paths == Seq::<LandlockRuleView>::empty(),
    {
        let r = CustomRuleset {
            name,
            simple: Vec::new(),
            conditional: Vec::new(),
            paths: Vec::new(),
        };
        proof {
            assert(r@.conditional =~= Seq::<RuleEntryView>::empty());
            assert(r@.paths =~= Seq::<LandlockRuleView>::empty());
        }
        r
    }

    /// Grant one syscall unconditionally; it must name a syscall a filter
    /// can speak about.
    pub fn allow_syscall(self, syscall: SyscallId) -> (r: CustomRuleset)
        requires
            syscall.nr < SYSCALL_NR_LIMIT,
        ensures
            r@ == (CustomRulesetView { simple: self@.simple.push(syscall), ..self@ }),
    {
        proof {
            use_type_invariant(&self);
        }
        let mut simple = self.simple;
        simple.push(syscall);
        let r = CustomRuleset {
            name: self.name,
            simple,
            conditional: self.conditional,
            paths: self.paths,
        };
        proof {
            assert(r@ == (CustomRulesetView { simple: self@.simple.push(syscall), ..self@ }));
        }
        r
    }

    /// Grant one syscall conditionally, under the given alternative
    /// admissions. The syscall must not have been granted conditionally
    /// before; every rule must target it and carry at least one condition.
    pub fn allow_conditional(self, syscall: SyscallId, rules: Vec<ConditionalRule>) -> (r:
        CustomRuleset)
        requires
            !exists|i: int|
                0 <= i < self@.conditional.len() && (#[trigger] self@.conditional[i]).syscall
                    == syscall,
            rule_entry_wf(
                RuleEntryView { syscall, rules: rules@.map_values(|x: ConditionalRule| x@) },
            ),
        ensures
            r@ == (CustomRulesetView {
                conditional: self@.conditional.push(
                    RuleEntryView {
                        syscall,
                        rules: rules@.map_values(|x: ConditionalRule| x@),
                    },
                ),
                ..self@
            }),
    {
        proof {
            use_type_invariant(&self);
        }
        let ghost new_entry = RuleEntryView {
            syscall,
            rules: rules@.map_values(|x: ConditionalRule| x@),
        };
        let ghost c = self@.conditional.push(new_entry);
        proof {
            assert forall|i: int, j: int|
                0 <= i < c.len() && 0 <= j < c.len() && i != j implies (#[trigger] c[i]).syscall
                != (#[trigger] c[j]).syscall by {
                if i < self@.conditional.len() && j < self@.conditional.len() {
                    assert(c[i] == self@.conditional[i] && c[j] == self@.conditional[j]);
                } else if i < self@.conditional.len() {
                    assert(c[i] == self@.conditional[i] && c[j].syscall == syscall);
                } else {
                    assert(c[j] == self@.conditional[j] && c[i].syscall == syscall);
                }
            }
            assert forall|i: int| 0 <= i < c.len() implies rule_entry_wf(#[trigger] c[i]) by {
                if i < self@.conditional.len() {
                    assert(c[i] == self@.conditional[i]);
                }
            }
        }
        let mut conditional = self.conditional;
        conditional.push(RuleMapEntry { syscall, rules });
        assert(conditional@.map_values(|e: RuleMapEntry| e@) =~= c);
        let r = CustomRuleset { name: self.name, simple: self.simple, conditional, paths: self.paths };
        proof {
            assert(r@.conditional == c);
            assert(r@ == (CustomRulesetView { conditional: c, ..self@ }));
        }
        r
    }

    /// Grant `rights` beneath `path` through the path-rights layer.
    pub fn allow_path(self, path: String, rights: Vec<PathAccess>) -> (r: CustomRuleset)
        ensures
            r@ == (CustomRulesetView {
                paths: self@.paths.push(LandlockRuleView { path: path@, rights: rights@ }),
                ..self@
            }),
    {
        proof {
            use_type_invariant(&self);
        }
        let mut paths = self.paths;
        paths.push(LandlockRule::new(path, rights));
        let r = CustomRuleset { name: self.name, simple: self.simple, conditional: self.conditional, paths };
        proof {
            assert(r@.paths =~= self@.paths.push(
                LandlockRuleView { path: path@, rights: rights@ },
            ));
            assert(r@ == (CustomRulesetView {
                paths: self@.paths.push(LandlockRuleView { path: path@, rights: rights@ }),
                ..self@
            }));
        }
        r
    }
}

impl RuleSet for CustomRuleset {
    open spec fn spec_simple_rules(&self) -> Seq<SyscallId> {
        self@.simple
    }

    open spec fn spec_conditional_rules(&self) -> Seq<RuleEntryView> {
        self@.conditional
    }

    open spec fn spec_landlock_rules(&self) -> Seq<LandlockRuleView> {
        self@.paths
    }

    open spec fn spec_name(&self) -> Seq<char> {
        self@.name
    }

    fn simple_rules(&self) -> (r: Vec<SyscallId>) {
        proof {
            use_type_invariant(self);
        }
        let mut v: Vec<SyscallId> = Vec::new();
        let mut i: usize = 0;
        while i < self.simple.len()
            invariant
                i <= self.simple.len(),
                v@ == self.simple@.take(i as int),
            decreases self.simple.len() - i,
        {
            v.push(self.simple[i]);
            assert(self.simple@.take(i + 1) == self.simple@.take(i as int).push(
                self.simple@[i as int],
            ));
            i = i + 1;
        }
        assert(v@ == self.simple@);
        v
    }

    #[verifier::loop_isolation(false)]
    fn conditional_rules(&self) -> (r: RuleMap) {
        proof {
            use_type_invariant(self);
        }
        let mut m = RuleMap::new();
        assert(m@ =~= Seq::<RuleEntryView>::empty());
        let mut i: usize = 0;
        while i < self.conditional.len()
            invariant
                i <= self.conditional.len(),
                m@ == self@.conditional.take(i as int),
                rule_entries_wf(m@),
            decreases self.conditional.len() - i,
        {
            let entry = &self.conditional[i];
            let mut rules: Vec<ConditionalRule> = Vec::new();
            let mut j: usize = 0;
            while j < entry.rules.len()
                invariant
                    j <= entry.rules.len(),
                    rules@.map_values(|x: ConditionalRule| x@) =~= entry.rules@.map_values(
                        |x: ConditionalRule| x@,
                    ).take(j as int),
                decreases entry.rules.len() - j,
            {
                rules.push(entry.rules[j].clone());
                assert(rules@.map_values(|x: ConditionalRule| x@) =~= entry.rules@.map_values(
                    |x: ConditionalRule| x@,
                ).take(j as int + 1));
                j = j + 1;
            }
            proof {
                assert(entry.rules@.map_values(|x: ConditionalRule| x@).take(
                    entry.rules@.len() as int,
                ) =~= entry.rules@.map_values(|x: ConditionalRule| x@));
                assert(rules@.map_values(|x: ConditionalRule| x@) == entry@.rules);
                assert(self@.conditional[i as int] == entry@);
                assert(rule_entry_wf(entry@));
                if m.spec_contains_key(entry.syscall) {
                    let k = choose|k: int|
                        0 <= k < m@.len() && (#[trigger] m@[k]).syscall == entry.syscall;
                    assert(self@.conditional[k].syscall == self@.conditional[i as int].syscall);
                    assert(false);
                }
            }
            m.insert(entry.syscall, rules);
            assert(m@ =~= self@.conditional.take(i as int + 1));
            i = i + 1;
        }
        assert(self@.conditional.take(self@.conditional.len() as int) =~= self@.conditional);
        m
    }

    fn landlock_rules(&self) -> (r: Vec<LandlockRule>) {
        let mut v: Vec<LandlockRule> = Vec::new();
        let mut i: usize = 0;
        while i < self.paths.len()
            invariant
                i <= self.paths.len(),
                v@.len() == i,
                forall|k: int| 0 <= k < i ==> (#[trigger] v@[k])@ == self.paths@[k]@,
            decreases self.paths.len() - i,
        {
            v.push(self.paths[i].clone());
            i = i + 1;
        }
        proof {
            assert forall|k: int| 0 <= k < v@.len() implies v@.map_values(
                |l: LandlockRule| l@,
            )[k] == self@.paths[k] by {
                assert((v@[k])@ == self.paths@[k]@);
            }
            assert(v@.map_values(|l: LandlockRule| l@) =~= self@.paths);
        }
        v
    }

    fn name(&self) -> (r: &'static str) {
        self.name
    }
}

} // verus!
