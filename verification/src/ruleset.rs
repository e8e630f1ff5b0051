//! The capability-provider interface and the explicit-acknowledgment wrapper.

use vstd::prelude::*;

use crate::path_rights::{LandlockRule, LandlockRuleView};
use crate::rulemap::{rule_entries_wf, RuleEntryView, RuleMap};
use crate::syscall::{syscall_ids_in_range, SyscallId};

verus! {

/// A reusable capability declaration.
///
/// A rule set exposes three pure queries: the syscalls it permits
/// unconditionally, the mapping from syscall to argument-level conditional
/// admissions, and the path grants of the path-rights layer. Its name is used
/// only for diagnostics. Rule sets are merged into one policy by
/// [`crate::SafetyContext::enable`].
pub trait RuleSet {
    /// The syscalls permitted unconditionally, in declaration order.
    spec fn spec_simple_rules(&self) -> Seq<SyscallId>;

    /// The conditional grants: per syscall, its alternative admissions.
    spec fn spec_conditional_rules(&self) -> Seq<RuleEntryView>;

    /// The declared path grants.
    spec fn spec_landlock_rules(&self) -> Seq<LandlockRuleView>;

    /// The diagnostic name.
    spec fn spec_name(&self) -> Seq<char>;

    /// The syscalls permitted unconditionally; each one names a syscall a
    /// filter can speak about.
    fn simple_rules(&self) -> (r: Vec<SyscallId>)
        ensures
            r@ == self.spec_simple_rules(),
            syscall_ids_in_range(r@),
    ;

    /// The conditional grants: per syscall, the alternative argument-level
    /// admissions under which it is additionally permitted.
    fn conditional_rules(&self) -> (r: RuleMap)
        ensures
            r@ == self.spec_conditional_rules(),
            rule_entries_wf(r@),
    ;

    /// The declared path grants of the path-rights layer.
    fn landlock_rules(&self) -> (r: Vec<LandlockRule>)
        ensures
            r@.map_values(|l: LandlockRule| l@) == self.spec_landlock_rules(),
    ;

    /// The rule set's diagnostic name.
    fn name(&self) -> (r: &'static str)
        ensures
            r@ == self.spec_name(),
    ;
}

impl<T: RuleSet + ?Sized> RuleSet for &T {
    open spec fn spec_simple_rules(&self) -> Seq<SyscallId> {
        (**self).spec_simple_rules()
    }

    open spec fn spec_conditional_rules(&self) -> Seq<RuleEntryView> {
        (**self).spec_conditional_rules()
    }

    open spec fn spec_landlock_rules(&self) -> Seq<LandlockRuleView> {
        (**self).spec_landlock_rules()
    }

    open spec fn spec_name(&self) -> Seq<char> {
        (**self).spec_name()
    }

    fn simple_rules(&self) -> (r: Vec<SyscallId>) {
        (**self).simple_rules()
    }

    fn conditional_rules(&self) -> (r: RuleMap) {
        (**self).conditional_rules()
    }

    fn landlock_rules(&self) -> (r: Vec<LandlockRule>) {
        (**self).landlock_rules()
    }

    fn name(&self) -> (r: &'static str) {
        (**self).name()
    }
}

/// A wrapper that forces the caller to acknowledge a dangerous grant.
///
/// Methods that return an inherently dangerous capability wrap it in
/// [`YesReally`]; the value is unusable until the caller visibly opts in by
/// calling [`YesReally::yes_really`].
#[must_use]
pub struct YesReally<T> {
    inner: T,
}

impl<T> YesReally<T> {
    /// The wrapped value.
    pub closed spec fn spec_inner(&self) -> T {
        self.inner
    }

    /// Confirm the dangerous grant and take the wrapped value.
    pub fn yes_really(self) -> (r: T)
        ensures
            r == self.spec_inner(),
    {
        self.inner
    }

    /// Wrap a value so that using it requires explicit acknowledgment.
    pub fn new(inner: T) -> (r: YesReally<T>)
        ensures
            r.spec_inner() == inner,
    {
        YesReally { inner }
    }
}

} // verus!
