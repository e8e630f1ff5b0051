//! The basic capabilities every ordinary program needs.

use vstd::prelude::*;

use crate::path_rights::{LandlockRule, LandlockRuleView};
use crate::rulemap::{RuleEntryView, RuleMap};
use crate::ruleset::RuleSet;
use crate::syscall::{
    syscall_ids_in_range, SyscallId, SYS_BRK, SYS_CLOCK_GETTIME, SYS_CLOSE, SYS_EXIT, SYS_EXIT_GROUP, SYS_FSTAT,
    SYS_FUTEX, SYS_GETPID, SYS_GETRANDOM, SYS_GETTID, SYS_IOCTL, SYS_LSEEK, SYS_MADVISE, SYS_MMAP,
    SYS_MPROTECT, SYS_MUNMAP, SYS_READ, SYS_RSEQ, SYS_RT_SIGACTION, SYS_RT_SIGPROCMASK,
    SYS_RT_SIGRETURN, SYS_SCHED_GETAFFINITY, SYS_SIGALTSTACK, SYS_WRITE, SYS_WRITEV,
};

verus! {

/// Allow the basic set of syscalls a conventional program needs to run at
/// all: memory management, thread synchronization, signal handling, writing
/// to already-open file descriptors, and exiting.
#[derive(Clone, Copy, Debug, Default, Eq, Hash, PartialEq, PartialOrd)]
#[must_use]
pub struct BasicRuleset;

/// The basic syscall set, as numbers in declaration order.
pub open spec fn basic_syscall_nrs() -> Seq<u64> {
    seq![
        SYS_READ,
        SYS_WRITE,
        SYS_WRITEV,
        SYS_CLOSE,
        SYS_FSTAT,
        SYS_LSEEK,
        SYS_MMAP,
        SYS_MPROTECT,
        SYS_MUNMAP,
        SYS_MADVISE,
        SYS_BRK,
        SYS_RT_SIGACTION,
        SYS_RT_SIGPROCMASK,
        SYS_RT_SIGRETURN,
        SYS_SIGALTSTACK,
        SYS_IOCTL,
        SYS_FUTEX,
        SYS_SCHED_GETAFFINITY,
        SYS_GETPID,
        SYS_GETTID,
        SYS_GETRANDOM,
        SYS_CLOCK_GETTIME,
        SYS_RSEQ,
        SYS_EXIT,
        SYS_EXIT_GROUP,
    ]
}

impl RuleSet for BasicRuleset {
    open spec fn spec_simple_rules(&self) -> Seq<SyscallId> {
        basic_syscall_nrs().map_values(|nr: u64| SyscallId { nr })
    }

    open spec fn spec_conditional_rules(&self) -> Seq<RuleEntryView> {
        Seq::empty()
    }

    open spec fn spec_landlock_rules(&self) -> Seq<LandlockRuleView> {
        Seq::empty()
    }

    open spec fn spec_name(&self) -> Seq<char> {
        "BasicRuleset"@
    }

    fn simple_rules(&self) -> (r: Vec<SyscallId>) {
        let mut v: Vec<SyscallId> = Vec::new();
        v.push(SyscallId::new(SYS_READ));
        v.push(SyscallId::new(SYS_WRITE));
        v.push(SyscallId::new(SYS_WRITEV));
        v.push(SyscallId::new(SYS_CLOSE));
        v.push(SyscallId::new(SYS_FSTAT));
        v.push(SyscallId::new(SYS_LSEEK));
        v.push(SyscallId::new(SYS_MMAP));
        v.push(SyscallId::new(SYS_MPROTECT));
        v.push(SyscallId::new(SYS_MUNMAP));
        v.push(SyscallId::new(SYS_MADVISE));
        v.push(SyscallId::new(SYS_BRK));
        v.push(SyscallId::new(SYS_RT_SIGACTION));
        v.push(SyscallId::new(SYS_RT_SIGPROCMASK));
        v.push(SyscallId::new(SYS_RT_SIGRETURN));
        v.push(SyscallId::new(SYS_SIGALTSTACK));
        v.push(SyscallId::new(SYS_IOCTL));
        v.push(SyscallId::new(SYS_FUTEX));
        v.push(SyscallId::new(SYS_SCHED_GETAFFINITY));
        v.push(SyscallId::new(SYS_GETPID));
        v.push(SyscallId::new(SYS_GETTID));
        v.push(SyscallId::new(SYS_GETRANDOM));
        v.push(SyscallId::new(SYS_CLOCK_GETTIME));
        v.push(SyscallId::new(SYS_RSEQ));
        v.push(SyscallId::new(SYS_EXIT));
        v.push(SyscallId::new(SYS_EXIT_GROUP));
        assert(v@ =~= self.spec_simple_rules());
        assert(syscall_ids_in_range(v@));
        v
    }

    fn conditional_rules(&self) -> (r: RuleMap) {
        let r = RuleMap::new();
        assert(r@ =~= self.spec_conditional_rules());
        r
    }

    fn landlock_rules(&self) -> (r: Vec<LandlockRule>) {
        let v: Vec<LandlockRule> = Vec::new();
        assert(v@.map_values(|l: LandlockRule| l@) =~= self.spec_landlock_rules());
        v
    }

    fn name(&self) -> (r: &'static str) {
        "BasicRuleset"
    }
}

} // verus!
