//! Allow anonymous pipes.

use vstd::prelude::*;

use crate::path_rights::{LandlockRule, LandlockRuleView};
use crate::rulemap::{RuleEntryView, RuleMap};
use crate::ruleset::RuleSet;
use crate::syscall::{syscall_ids_in_range, SyscallId, SYS_PIPE, SYS_PIPE2};

verus! {

/// Allow the `pipe` syscalls to create anonymous pipes for inter-process
/// communication.
#[derive(Clone, Copy, Debug, Default, Eq, Hash, PartialEq, PartialOrd)]
#[must_use]
pub struct Pipes;

impl RuleSet for Pipes {
    open spec fn spec_simple_rules(&self) -> Seq<SyscallId> {
        seq![SyscallId { nr: SYS_PIPE }, SyscallId { nr: SYS_PIPE2 }]
    }

    open spec fn spec_conditional_rules(&self) -> Seq<RuleEntryView> {
        Seq::empty()
    }

    open spec fn spec_landlock_rules(&self) -> Seq<LandlockRuleView> {
        Seq::empty()
    }

    open spec fn spec_name(&self) -> Seq<char> {
        "Pipes"@
    }

    fn simple_rules(&self) -> (r: Vec<SyscallId>) {
        let mut v: Vec<SyscallId> = Vec::new();
        v.push(SyscallId::new(SYS_PIPE));
        v.push(SyscallId::new(SYS_PIPE2));
        assert(v@ =~= self.spec_simple_rules());
        assert(syscall_ids_in_range(v@));
        v
    }

    fn conditional_rules(&self) -> (r: RuleMap) {
        let r = RuleMap::new();
        assert(r@ =~= self.spec_conditional_rules());
        r
    }

    fn landlock_rules(&self) -> (r: Vec<LandlockRule>) {
        let v: Vec<LandlockRule> = Vec::new();
        assert(v@.map_values(|l: LandlockRule| l@) =~= self.spec_landlock_rules());
        v
    }

    fn name(&self) -> (r: &'static str) {
        "Pipes"
    }
}

} // verus!
