//! A small verified mapping from syscalls to lists of conditional rules.
//!
//! Capability providers hand their conditional grants over as a [`RuleMap`]:
//! per syscall, the list of alternative argument-level admissions.

use vstd::prelude::*;

use crate::rule::{rule_wf, RuleView, ConditionalRule};
use crate::syscall::{SyscallId, SYSCALL_NR_LIMIT};

verus! {

/// Mathematical image of one [`RuleMap`] binding.
pub struct RuleEntryView {
    /// The syscall the rules admit.
    pub syscall: SyscallId,
    /// The alternative admissions for that syscall.
    pub rules: Seq<RuleView>,
}

/// One binding: a syscall and its alternative conditional admissions.
#[derive(Debug)]
pub struct RuleMapEntry {
    /// The syscall the rules admit.
    pub syscall: SyscallId,
    /// The alternative admissions for that syscall.
    pub rules: Vec<ConditionalRule>,
}

impl View for RuleMapEntry {
    type V = RuleEntryView;

    open spec fn view(&self) -> RuleEntryView {
        RuleEntryView {
            syscall: self.syscall,
            rules: self.rules@.map_values(|r: ConditionalRule| r@),
        }
    }
}

/// The binding targets a syscall a filter can speak about, and every rule
/// of it targets the binding's own syscall, carries at least one condition,
/// and is well-formed.
pub open spec fn rule_entry_wf(e: RuleEntryView) -> bool {
    &&& e.syscall.nr < SYSCALL_NR_LIMIT
    &&& forall|i: int| 0 <= i < e.rules.len() ==> {
        &&& (#[trigger] e.rules[i]).syscall == e.syscall
        &&& e.rules[i].filters.len() >= 1
        &&& rule_wf(e.rules[i])
    }
}

/// Well-formedness of a whole conditional-rule table: distinct syscalls,
/// well-formed bindings.
pub open spec fn rule_entries_wf(es: Seq<RuleEntryView>) -> bool {
    &&& forall|i: int, j: int|
        0 <= i < es.len() && 0 <= j < es.len() && i != j ==> (#[trigger] es[i]).syscall != (
        #[trigger] es[j]).syscall
    &&& forall|i: int| 0 <= i < es.len() ==> rule_entry_wf(#[trigger] es[i])
}

/// A mapping from syscall to its list of conditional rules.
///
/// Bindings are kept in insertion order; no syscall is bound twice.
#[derive(Debug)]
pub struct RuleMap {
    entries: Vec<RuleMapEntry>,
}

impl View for RuleMap {
    type V = Seq<RuleEntryView>;

    closed spec fn view(&self) -> Seq<RuleEntryView> {
        self.entries@.map_values(|e: RuleMapEntry| e@)
    }
}

impl RuleMap {
    /// Whether a binding for `s` is present.
    pub open spec fn spec_contains_key(&self, s: SyscallId) -> bool {
        exists|i: int| 0 <= i < self@.len() && (#[trigger] self@[i]).syscall == s
    }

    /// The empty mapping.
    pub fn new() -> (r: RuleMap)
        ensures
            r@ == Seq::<RuleEntryView>::empty(),
            rule_entries_wf(r@),
    {
        let r = RuleMap { entries: Vec::new() };
        assert(r@ =~= Seq::<RuleEntryView>::empty());
        r
    }

    /// Bind a syscall, not bound before, to its list of conditional rules.
    ///
    /// Every rule must target `syscall` itself and carry at least one
    /// condition over a valid argument index.
    pub fn insert(&mut self, syscall: SyscallId, rules: Vec<ConditionalRule>)
        requires
            rule_entries_wf(old(self)@),
            !old(self).spec_contains_key(syscall),
            rule_entry_wf(
                RuleEntryView { syscall, rules: rules@.map_values(|r: ConditionalRule| r@) },
            ),
        ensures
            final(self)@ == old(self)@.push(
                RuleEntryView { syscall, rules: rules@.map_values(|r: ConditionalRule| r@) },
            ),
            rule_entries_wf(final(self)@),
    {
        let entry = RuleMapEntry { syscall, rules };
        self.entries.push(entry);
        assert(self@ =~= old(self)@.push(
            RuleEntryView { syscall, rules: rules@.map_values(|r: ConditionalRule| r@) },
        ));
    }

    /// How many syscalls are bound.
    pub fn len(&self) -> (r: usize)
        ensures
            r == self@.len(),
    {
        self.entries.len()
    }

    /// Whether no syscall is bound.
    pub fn is_empty(&self) -> (r: bool)
        ensures
            r == (self@.len() == 0),
    {
        self.entries.len() == 0
    }

    /// Whether a binding for `s` is present.
    pub fn contains_key(&self, s: &SyscallId) -> (r: bool)
        ensures
            r == self.spec_contains_key(*s),
    {
        let mut i: usize = 0;
        while i < self.entries.len()
            invariant
                i <= self.entries.len(),
                forall|j: int| 0 <= j < i ==> (#[trigger] self@[j]).syscall != *s,
            decreases self.entries.len() - i,
        {
            if self.entries[i].syscall == *s {
                assert(self@[i as int].syscall == *s);
                return true;
            }
            i = i + 1;
        }
        false
    }

    /// Surrender the bindings, in insertion order.
    pub fn into_entries(self) -> (r: Vec<RuleMapEntry>)
        ensures
            r@.map_values(|e: RuleMapEntry| e@) == self@,
    {
        self.entries
    }
}

} // verus!
