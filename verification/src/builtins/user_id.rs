//! Allow various user ID related syscalls.

use vstd::prelude::*;

use crate::builtins::{add_syscall, insert_syscall};
use crate::path_rights::{LandlockRule, LandlockRuleView};
use crate::rulemap::{RuleEntryView, RuleMap};
use crate::ruleset::{RuleSet, YesReally};
use crate::syscall::{sorted_by_nr, syscall_ids_in_range, 
    SyscallId, SYS_GETEUID, SYS_GETRESUID, SYS_GETUID, SYS_SETFSUID, SYS_SETRESUID, SYS_SETREUID,
    SYS_SETUID,
};

verus! {

/// Allow querying and modifying user IDs.
#[derive(Debug, Eq, Hash, Ord, PartialEq, PartialOrd)]
#[must_use]
pub struct UserId {
    /// A set of permitted syscalls, added by various constructors and methods.
    syscalls: Vec<SyscallId>,
}

impl View for UserId {
    type V = Seq<SyscallId>;

    closed spec fn view(&self) -> Seq<SyscallId> {
        self.syscalls@
    }
}

/// The set after additionally allowing user ID modification.
pub open spec fn user_id_set(s: Seq<SyscallId>) -> Seq<SyscallId> {
    add_syscall(
        add_syscall(add_syscall(add_syscall(s, SYS_SETFSUID), SYS_SETRESUID), SYS_SETREUID),
        SYS_SETUID,
    )
}

/// The set after additionally allowing user ID queries.
pub open spec fn user_id_get(s: Seq<SyscallId>) -> Seq<SyscallId> {
    add_syscall(add_syscall(add_syscall(s, SYS_GETEUID), SYS_GETRESUID), SYS_GETUID)
}

impl UserId {
    /// Builder methods keep the syscall list strictly ascending by number,
    /// so it is sorted, duplicate-free, and names only compilable syscalls.
    #[verifier::type_invariant]
    spec fn inv(self) -> bool {
        &&& sorted_by_nr(self@)
        &&& syscall_ids_in_range(self@)
    }

    /// The empty syscall set.
    pub open spec fn nothing_view() -> Seq<SyscallId> {
        Seq::empty()
    }

    /// Construct a new rule, which allows everything:
    /// querying and modifying user IDs without restriction.
    pub fn everything() -> (r: YesReally<UserId>)
        ensures
            r.spec_inner()@ == user_id_get(user_id_set(UserId::nothing_view())),
    {
        UserId::nothing().allow_everything()
    }

    /// Construct a new rule, which allows querying user IDs without
    /// restriction.
    pub fn get() -> (r: UserId)
        ensures
            r@ == user_id_get(UserId::nothing_view()),
    {
        UserId::nothing().allow_get()
    }

    /// Construct a new rule, which allows nothing.
    pub fn nothing() -> (r: UserId)
        ensures
            r@ == UserId::nothing_view(),
    {
        UserId { syscalls: Vec::new() }
    }

    /// Construct a new rule, which allows modifying user IDs without
    /// restriction.
    pub fn set() -> (r: YesReally<UserId>)
        ensures
            r.spec_inner()@ == user_id_set(UserId::nothing_view()),
    {
        UserId::nothing().allow_set()
    }

    /// Allow modifying and querying user IDs without restriction.
    pub fn allow_everything(self) -> (r: YesReally<UserId>)
        ensures
            r.spec_inner()@ == user_id_get(user_id_set(self@)),
    {
        YesReally::new(self.allow_set().yes_really().allow_get())
    }

    /// Allow modifying user IDs without restriction.
    pub fn allow_set(self) -> (r: YesReally<UserId>)
        ensures
            r.spec_inner()@ == user_id_set(self@),
    {
        YesReally::new(
            self.allow_setfsuid().yes_really().allow_setresuid().yes_really().allow_setreuid()
                .yes_really().allow_setuid().yes_really(),
        )
    }

    /// Allow modifying the user ID used for filesystem checks.
    pub fn allow_setfsuid(self) -> (r: YesReally<UserId>)
        ensures
            r.spec_inner()@ == add_syscall(self@, SYS_SETFSUID),
    {
        proof {
            use_type_invariant(&self);
        }
        let mut syscalls = self.syscalls;
        insert_syscall(&mut syscalls, SYS_SETFSUID);
        YesReally::new(UserId { syscalls })
    }

    /// Allow modifying the real, effective and saved user ID.
    pub fn allow_setresuid(self) -> (r: YesReally<UserId>)
        ensures
            r.spec_inner()@ == add_syscall(self@, SYS_SETRESUID),
    {
        proof {
            use_type_invariant(&self);
        }
        let mut syscalls = self.syscalls;
        insert_syscall(&mut syscalls, SYS_SETRESUID);
        YesReally::new(UserId { syscalls })
    }

    /// Allow modifying the real and/or effective user ID.
    pub fn allow_setreuid(self) -> (r: YesReally<UserId>)
        ensures
            r.spec_inner()@ == add_syscall(self@, SYS_SETREUID),
    {
        proof {
            use_type_invariant(&self);
        }
        let mut syscalls = self.syscalls;
        insert_syscall(&mut syscalls, SYS_SETREUID);
        YesReally::new(UserId { syscalls })
    }

    /// Allow modifying the real user ID.
    pub fn allow_setuid(self) -> (r: YesReally<UserId>)
        ensures
            r.spec_inner()@ == add_syscall(self@, SYS_SETUID),
    {
        proof {
            use_type_invariant(&self);
        }
        let mut syscalls = self.syscalls;
        insert_syscall(&mut syscalls, SYS_SETUID);
        YesReally::new(UserId { syscalls })
    }

    /// Allow querying user IDs without restriction.
    pub fn allow_get(self) -> (r: UserId)
        ensures
            r@ == user_id_get(self@),
    {
        self.allow_geteuid().allow_getresuid().allow_getuid()
    }

    /// Allow querying the effective user ID.
    pub fn allow_geteuid(self) -> (r: UserId)
        ensures
            r@ == add_syscall(self@, SYS_GETEUID),
    {
        proof {
            use_type_invariant(&self);
        }
        let mut syscalls = self.syscalls;
        insert_syscall(&mut syscalls, SYS_GETEUID);
        UserId { syscalls }
    }

    /// Allow querying the real, effective and saved user ID.
    pub fn allow_getresuid(self) -> (r: UserId)
        ensures
            r@ == add_syscall(self@, SYS_GETRESUID),
    {
        proof {
            use_type_invariant(&self);
        }
        let mut syscalls = self.syscalls;
        insert_syscall(&mut syscalls, SYS_GETRESUID);
        UserId { syscalls }
    }

    /// Allow querying the real user ID.
    pub fn allow_getuid(self) -> (r: UserId)
        ensures
            r@ == add_syscall(self@, SYS_GETUID),
    {
        proof {
            use_type_invariant(&self);
        }
        let mut syscalls = self.syscalls;
        insert_syscall(&mut syscalls, SYS_GETUID);
        UserId { syscalls }
    }
}

impl RuleSet for UserId {
    open spec fn spec_simple_rules(&self) -> Seq<SyscallId> {
        self@
    }

    open spec fn spec_conditional_rules(&self) -> Seq<RuleEntryView> {
        Seq::empty()
    }

    open spec fn spec_landlock_rules(&self) -> Seq<LandlockRuleView> {
        Seq::empty()
    }

    open spec fn spec_name(&self) -> Seq<char> {
        "UserId"@
    }

    fn simple_rules(&self) -> (r: Vec<SyscallId>)
        ensures
            sorted_by_nr(r@),
    {
        proof {
            use_type_invariant(self);
        }
        let mut v: Vec<SyscallId> = Vec::new();
        let mut i: usize = 0;
        while i < self.syscalls.len()
            invariant
                i <= self.syscalls.len(),
                v@ == self.syscalls@.take(i as int),
            decreases self.syscalls.len() - i,
        {
            v.push(self.syscalls[i]);
            assert(self.syscalls@.take(i + 1) == self.syscalls@.take(i as int).push(
                self.syscalls@[i as int],
            ));
            i = i + 1;
        }
        assert(v@ == self.syscalls@);
        v
    }

    fn conditional_rules(&self) -> (r: RuleMap) {
        let r = RuleMap::new();
        assert(r@ =~= self.spec_conditional_rules());
        r
    }

    fn landlock_rules(&self) -> (r: Vec<LandlockRule>) {
        let v: Vec<LandlockRule> = Vec::new();
        assert(v@.map_values(|l: LandlockRule| l@) =~= self.spec_landlock_rules());
        v
    }

    fn name(&self) -> (r: &'static str) {
        "UserId"
    }
}

} // verus!
