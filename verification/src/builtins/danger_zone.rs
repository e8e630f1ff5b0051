//! Rule sets whose grants weaken the sandbox noticeably.

use vstd::prelude::*;

use crate::builtins::{add_syscall, insert_syscall};
use crate::path_rights::{LandlockRule, LandlockRuleView};
use crate::rulemap::{RuleEntryView, RuleMap};
use crate::ruleset::RuleSet;
use crate::syscall::{
    sorted_by_nr, syscall_ids_in_range, SyscallId, SYS_CLONE, SYS_CLONE3, SYS_EXECVE, SYS_FORK, SYS_VFORK, SYS_WAIT4,
};

verus! {

/// Allow creating new threads.
#[derive(Debug, Eq, Hash, PartialEq, PartialOrd)]
#[must_use]
pub struct Threads {
    /// A set of permitted syscalls, added by builder methods.
    syscalls: Vec<SyscallId>,
}

impl View for Threads {
    type V = Seq<SyscallId>;

    closed spec fn view(&self) -> Seq<SyscallId> {
        self.syscalls@
    }
}

impl Threads {
    /// Builder methods keep the syscall list strictly ascending by number,
    /// so it is sorted, duplicate-free, and names only compilable syscalls.
    #[verifier::type_invariant]
    spec fn inv(self) -> bool {
        &&& sorted_by_nr(self@)
        &&& syscall_ids_in_range(self@)
    }

    /// Construct a new rule, which allows nothing.
    pub fn nothing() -> (r: Threads)
        ensures
            r@ == Seq::<SyscallId>::empty(),
    {
        Threads { syscalls: Vec::new() }
    }

    /// Allow creating new threads with the `clone` syscalls.
    pub fn allow_create(self) -> (r: Threads)
        ensures
            r@ == add_syscall(add_syscall(self@, SYS_CLONE), SYS_CLONE3),
    {
        proof {
            use_type_invariant(&self);
        }
        let mut syscalls = self.syscalls;
        insert_syscall(&mut syscalls, SYS_CLONE);
        insert_syscall(&mut syscalls, SYS_CLONE3);
        Threads { syscalls }
    }
}

impl RuleSet for Threads {
    open spec fn spec_simple_rules(&self) -> Seq<SyscallId> {
        self@
    }

    open spec fn spec_conditional_rules(&self) -> Seq<RuleEntryView> {
        Seq::empty()
    }

    open spec fn spec_landlock_rules(&self) -> Seq<LandlockRuleView> {
        Seq::empty()
    }

    open spec fn spec_name(&self) -> Seq<char> {
        "Threads"@
    }

    fn simple_rules(&self) -> (r: Vec<SyscallId>)
        ensures
            sorted_by_nr(r@),
    {
        proof {
            use_type_invariant(self);
        }
        let mut v: Vec<SyscallId> = Vec::new();
        let mut i: usize = 0;
        while i < self.syscalls.len()
            invariant
                i <= self.syscalls.len(),
                v@ == self.syscalls@.take(i as int),
            decreases self.syscalls.len() - i,
        {
            v.push(self.syscalls[i]);
            assert(self.syscalls@.take(i + 1) == self.syscalls@.take(i as int).push(
                self.syscalls@[i as int],
            ));
            i = i + 1;
        }
        assert(v@ == self.syscalls@);
        v
    }

    fn conditional_rules(&self) -> (r: RuleMap) {
        let r = RuleMap::new();
        assert(r@ =~= self.spec_conditional_rules());
        r
    }

    fn landlock_rules(&self) -> (r: Vec<LandlockRule>) {
        let v: Vec<LandlockRule> = Vec::new();
        assert(v@.map_values(|l: LandlockRule| l@) =~= self.spec_landlock_rules());
        v
    }

    fn name(&self) -> (r: &'static str) {
        "Threads"
    }
}

/// Allow forking and executing new processes.
#[derive(Clone, Copy, Debug, Default, Eq, Hash, PartialEq, PartialOrd)]
#[must_use]
pub struct ForkAndExec;

impl RuleSet for ForkAndExec {
    open spec fn spec_simple_rules(&self) -> Seq<SyscallId> {
        seq![
            SyscallId { nr: SYS_FORK },
            SyscallId { nr: SYS_VFORK },
            SyscallId { nr: SYS_CLONE },
            SyscallId { nr: SYS_CLONE3 },
            SyscallId { nr: SYS_EXECVE },
            SyscallId { nr: SYS_WAIT4 },
        ]
    }

    open spec fn spec_conditional_rules(&self) -> Seq<RuleEntryView> {
        Seq::empty()
    }

    open spec fn spec_landlock_rules(&self) -> Seq<LandlockRuleView> {
        Seq::empty()
    }

    open spec fn spec_name(&self) -> Seq<char> {
        "ForkAndExec"@
    }

    fn simple_rules(&self) -> (r: Vec<SyscallId>) {
        let mut v: Vec<SyscallId> = Vec::new();
        v.push(SyscallId::new(SYS_FORK));
        v.push(SyscallId::new(SYS_VFORK));
        v.push(SyscallId::new(SYS_CLONE));
        v.push(SyscallId::new(SYS_CLONE3));
        v.push(SyscallId::new(SYS_EXECVE));
        v.push(SyscallId::new(SYS_WAIT4));
        assert(v@ =~= self.spec_simple_rules());
        assert(syscall_ids_in_range(v@));
        v
    }

    fn conditional_rules(&self) -> (r: RuleMap) {
        let r = RuleMap::new();
        assert(r@ =~= self.spec_conditional_rules());
        r
    }

    fn landlock_rules(&self) -> (r: Vec<LandlockRule>) {
        let v: Vec<LandlockRule> = Vec::new();
        assert(v@.map_values(|l: LandlockRule| l@) =~= self.spec_landlock_rules());
        v
    }

    fn name(&self) -> (r: &'static str) {
        "ForkAndExec"
    }
}

} // verus!
