//! The condition model: argument-level predicates and conditional rules.
//!
//! A [`SeccompArgumentFilter`] is a predicate over one syscall argument.
//! A [`ConditionalRule`] targets one syscall and carries a conjunction of such
//! predicates: the syscall is admitted by the rule only when every predicate
//! holds. Several rules for the same syscall are alternatives (logical OR).

use vstd::prelude::*;

use crate::syscall::SyscallId;

verus! {

/// Comparison performed between a syscall argument and an operand.
#[derive(Clone, Copy, Debug, PartialEq, Eq, Structural)]
pub enum SeccompComparator {
    /// The argument equals the operand.
    Equal,
    /// The argument differs from the operand.
    NotEqual,
    /// The argument is strictly greater than the operand.
    Greater,
    /// The argument is greater than or equal to the operand.
    GreaterOrEqual,
    /// The argument is strictly less than the operand.
    Less,
    /// The argument is less than or equal to the operand.
    LessOrEqual,
    /// The argument, masked with the carried mask, equals the masked operand.
    MaskedEqual(u64),
}

/// A predicate over one syscall argument.
#[derive(Clone, Copy, Debug, PartialEq, Eq, Structural)]
pub struct SeccompArgumentFilter {
    /// Index of the inspected argument; a syscall has at most six.
    pub arg_idx: u8,
    /// The comparison to perform.
    pub comparator: SeccompComparator,
    /// The operand compared against.
    pub value: u64,
}

impl SeccompArgumentFilter {
    /// Whether the filter inspects an argument index that exists.
    pub open spec fn wf(self) -> bool {
        self.arg_idx < 6
    }

    /// Build a predicate over one syscall argument.
    pub fn new(arg_idx: u8, comparator: SeccompComparator, value: u64) -> (r: SeccompArgumentFilter)
        requires
            arg_idx < 6,
        ensures
            r == (SeccompArgumentFilter { arg_idx, comparator, value }),
    {
        SeccompArgumentFilter { arg_idx, comparator, value }
    }
}

/// Mathematical image of a [`ConditionalRule`].
pub struct RuleView {
    /// The syscall the rule admits.
    pub syscall: SyscallId,
    /// The conjunction of argument predicates.
    pub filters: Seq<SeccompArgumentFilter>,
}

/// Whether every predicate of the rule is well-formed.
pub open spec fn rule_wf(r: RuleView) -> bool {
    forall|i: int| 0 <= i < r.filters.len() ==> (#[trigger] r.filters[i]).wf()
}

/// A conditional admission: one syscall, admitted when all carried argument
/// predicates hold.
#[derive(Debug)]
pub struct ConditionalRule {
    /// The syscall the rule admits.
    pub syscall: SyscallId,
    /// The conjunction of argument predicates; all must hold.
    pub argument_filters: Vec<SeccompArgumentFilter>,
}

impl View for ConditionalRule {
    type V = RuleView;

    open spec fn view(&self) -> RuleView {
        RuleView { syscall: self.syscall, filters: self.argument_filters@ }
    }
}

impl ConditionalRule {
    /// A rule for `syscall` with no conditions yet.
    pub fn new(syscall: SyscallId) -> (r: ConditionalRule)
        ensures
            r@.syscall == syscall,
            r@.filters == Seq::<SeccompArgumentFilter>::empty(),
    {
        ConditionalRule { syscall, argument_filters: Vec::new() }
    }

    /// Add one more condition to the conjunction.
    pub fn and_condition(self, filter: SeccompArgumentFilter) -> (r: ConditionalRule)
        ensures
            r@.syscall == self@.syscall,
            r@.filters == self@.filters.push(filter),
    {
        let mut argument_filters = self.argument_filters;
        argument_filters.push(filter);
        ConditionalRule { syscall: self.syscall, argument_filters }
    }
}

impl Clone for ConditionalRule {
    /// Cloning preserves the rule's mathematical image.
    fn clone(&self) -> (r: Self)
        ensures
            r@ == self@,
    {
        let mut filters: Vec<SeccompArgumentFilter> = Vec::new();
        let mut i: usize = 0;
        while i < self.argument_filters.len()
            invariant
                i <= self.argument_filters.len(),
                filters@ == self.argument_filters@.take(i as int),
            decreases self.argument_filters.len() - i,
        {
            filters.push(self.argument_filters[i]);
            assert(self.argument_filters@.take(i + 1) == self.argument_filters@.take(i as int).push(
                self.argument_filters@[i as int],
            ));
            i = i + 1;
        }
        assert(filters@ == self.argument_filters@);
        ConditionalRule { syscall: self.syscall, argument_filters: filters }
    }
}

} // verus!
