//! Allow various time related syscalls.

use vstd::prelude::*;

use crate::builtins::{add_syscall, insert_syscall};
use crate::path_rights::{LandlockRule, LandlockRuleView};
use crate::rulemap::{RuleEntryView, RuleMap};
use crate::ruleset::{RuleSet, YesReally};
use crate::syscall::{sorted_by_nr, syscall_ids_in_range, 
    SyscallId, SYS_ADJTIMEX, SYS_CLOCK_ADJTIME, SYS_CLOCK_GETRES, SYS_CLOCK_GETTIME,
    SYS_CLOCK_NANOSLEEP, SYS_CLOCK_SETTIME, SYS_GETTIMEOFDAY, SYS_NANOSLEEP, SYS_SETTIMEOFDAY,
    SYS_TIME,
};

verus! {

/// Allow querying and modifying time as well as sleeping.
#[derive(Debug, Eq, Hash, PartialEq, PartialOrd)]
#[must_use]
pub struct Time {
    /// A set of permitted syscalls, added by various constructors and methods.
    syscalls: Vec<SyscallId>,
}

impl View for Time {
    type V = Seq<SyscallId>;

    closed spec fn view(&self) -> Seq<SyscallId> {
        self.syscalls@
    }
}

impl Time {
    /// Builder methods keep the syscall list strictly ascending by number,
    /// so it is sorted, duplicate-free, and names only compilable syscalls.
    #[verifier::type_invariant]
    spec fn inv(self) -> bool {
        &&& sorted_by_nr(self@)
        &&& syscall_ids_in_range(self@)
    }

    /// Construct a new rule, which allows everything:
    /// querying and modifying time as well as sleeping without restriction.
    pub fn everything() -> (r: YesReally<Time>)
        ensures
            r.spec_inner()@ == time_query_and_sleep(time_modify(Time::nothing_view())),
    {
        Time::nothing().allow_everything()
    }

    /// Construct a new rule, which allows modifying time without restriction.
    pub fn modify() -> (r: YesReally<Time>)
        ensures
            r.spec_inner()@ == time_modify(Time::nothing_view()),
    {
        Time::nothing().allow_modify()
    }

    /// Construct a new rule, which allows nothing.
    pub fn nothing() -> (r: Time)
        ensures
            r@ == Time::nothing_view(),
    {
        Time { syscalls: Vec::new() }
    }

    /// Construct a new rule, which allows querying time without restriction.
    pub fn query() -> (r: Time)
        ensures
            r@ == time_query(Time::nothing_view()),
    {
        Time::nothing().allow_query()
    }

    /// Construct a new rule, which allows querying and modifying time without
    /// restriction.
    pub fn query_and_modify() -> (r: YesReally<Time>)
        ensures
            r.spec_inner()@ == time_modify(time_query(Time::nothing_view())),
    {
        YesReally::new(Time::nothing().allow_query().allow_modify().yes_really())
    }

    /// Construct a new rule, which allows querying time as well as sleeping
    /// without restriction.
    pub fn query_and_sleep() -> (r: Time)
        ensures
            r@ == time_query_and_sleep(Time::nothing_view()),
    {
        Time::nothing().allow_query_and_sleep()
    }

    /// Construct a new rule, which allows sleeping without restriction.
    pub fn sleep() -> (r: Time)
        ensures
            r@ == time_sleep(Time::nothing_view()),
    {
        Time::nothing().allow_sleep()
    }

    /// The empty syscall set.
    pub open spec fn nothing_view() -> Seq<SyscallId> {
        Seq::empty()
    }

    /// Allow querying and modifying time as well as sleeping without
    /// restriction.
    pub fn allow_everything(self) -> (r: YesReally<Time>)
        ensures
            r.spec_inner()@ == time_query_and_sleep(time_modify(self@)),
    {
        YesReally::new(self.allow_modify().yes_really().allow_query_and_sleep())
    }

    /// Allow modifying time without restriction.
    pub fn allow_modify(self) -> (r: YesReally<Time>)
        ensures
            r.spec_inner()@ == time_modify(self@),
    {
        YesReally::new(
            self.allow_adjtimex().yes_really().allow_clock_adjtime().yes_really()
                .allow_clock_settime().yes_really().allow_settimeofday().yes_really(),
        )
    }

    /// Allow the `adjtimex` syscall to tune a kernel clock.
    pub fn allow_adjtimex(self) -> (r: YesReally<Time>)
        ensures
            r.spec_inner()@ == add_syscall(self@, SYS_ADJTIMEX),
    {
        proof {
            use_type_invariant(&self);
        }
        let mut syscalls = self.syscalls;
        insert_syscall(&mut syscalls, SYS_ADJTIMEX);
        YesReally::new(Time { syscalls })
    }

    /// Allow the `clock_adjtime` syscall to tune a kernel clock.
    pub fn allow_clock_adjtime(self) -> (r: YesReally<Time>)
        ensures
            r.spec_inner()@ == add_syscall(self@, SYS_CLOCK_ADJTIME),
    {
        proof {
            use_type_invariant(&self);
        }
        let mut syscalls = self.syscalls;
        insert_syscall(&mut syscalls, SYS_CLOCK_ADJTIME);
        YesReally::new(Time { syscalls })
    }

    /// Allow the `clock_settime` syscall to set the time of a clock.
    pub fn allow_clock_settime(self) -> (r: YesReally<Time>)
        ensures
            r.spec_inner()@ == add_syscall(self@, SYS_CLOCK_SETTIME),
    {
        proof {
            use_type_invariant(&self);
        }
        let mut syscalls = self.syscalls;
        insert_syscall(&mut syscalls, SYS_CLOCK_SETTIME);
        YesReally::new(Time { syscalls })
    }

    /// Allow the `settimeofday` syscall to set the time.
    pub fn allow_settimeofday(self) -> (r: YesReally<Time>)
        ensures
            r.spec_inner()@ == add_syscall(self@, SYS_SETTIMEOFDAY),
    {
        proof {
            use_type_invariant(&self);
        }
        let mut syscalls = self.syscalls;
        insert_syscall(&mut syscalls, SYS_SETTIMEOFDAY);
        YesReally::new(Time { syscalls })
    }

    /// Allow querying time and sleeping without restriction.
    pub fn allow_query_and_sleep(self) -> (r: Time)
        ensures
            r@ == time_query_and_sleep(self@),
    {
        self.allow_query().allow_sleep()
    }

    /// Allow querying time without restriction.
    pub fn allow_query(self) -> (r: Time)
        ensures
            r@ == time_query(self@),
    {
        self.allow_gettime().allow_gettimeofday().allow_time()
    }

    /// Allow getting clock resolution and time. On most 64 bit systems the
    /// C library computes the time in userspace without any syscall, so this
    /// is rarely needed.
    pub fn allow_gettime(self) -> (r: Time)
        ensures
            r@ == add_syscall(add_syscall(self@, SYS_CLOCK_GETRES), SYS_CLOCK_GETTIME),
    {
        self.allow_clock_getres().allow_clock_gettime()
    }

    /// Allow the `clock_getres` syscall to get the clock resolution.
    pub fn allow_clock_getres(self) -> (r: Time)
        ensures
            r@ == add_syscall(self@, SYS_CLOCK_GETRES),
    {
        proof {
            use_type_invariant(&self);
        }
        let mut syscalls = self.syscalls;
        insert_syscall(&mut syscalls, SYS_CLOCK_GETRES);
        Time { syscalls }
    }

    /// Allow the `clock_gettime` syscall to get the time of a clock.
    pub fn allow_clock_gettime(self) -> (r: Time)
        ensures
            r@ == add_syscall(self@, SYS_CLOCK_GETTIME),
    {
        proof {
            use_type_invariant(&self);
        }
        let mut syscalls = self.syscalls;
        insert_syscall(&mut syscalls, SYS_CLOCK_GETTIME);
        Time { syscalls }
    }

    /// Allow the `gettimeofday` syscall to get the time.
    pub fn allow_gettimeofday(self) -> (r: Time)
        ensures
            r@ == add_syscall(self@, SYS_GETTIMEOFDAY),
    {
        proof {
            use_type_invariant(&self);
        }
        let mut syscalls = self.syscalls;
        insert_syscall(&mut syscalls, SYS_GETTIMEOFDAY);
        Time { syscalls }
    }

    /// Allow the `time` syscall to get the time in seconds.
    pub fn allow_time(self) -> (r: Time)
        ensures
            r@ == add_syscall(self@, SYS_TIME),
    {
        proof {
            use_type_invariant(&self);
        }
        let mut syscalls = self.syscalls;
        insert_syscall(&mut syscalls, SYS_TIME);
        Time { syscalls }
    }

    /// Allow sleeping without restriction.
    pub fn allow_sleep(self) -> (r: Time)
        ensures
            r@ == time_sleep(self@),
    {
        self.allow_clock_nanosleep().allow_nanosleep()
    }

    /// Allow the `clock_nanosleep` syscall.
    pub fn allow_clock_nanosleep(self) -> (r: Time)
        ensures
            r@ == add_syscall(self@, SYS_CLOCK_NANOSLEEP),
    {
        proof {
            use_type_invariant(&self);
        }
        let mut syscalls = self.syscalls;
        insert_syscall(&mut syscalls, SYS_CLOCK_NANOSLEEP);
        Time { syscalls }
    }

    /// Allow the `nanosleep` syscall.
    pub fn allow_nanosleep(self) -> (r: Time)
        ensures
            r@ == add_syscall(self@, SYS_NANOSLEEP),
    {
        proof {
            use_type_invariant(&self);
        }
        let mut syscalls = self.syscalls;
        insert_syscall(&mut syscalls, SYS_NANOSLEEP);
        Time { syscalls }
    }
}

/// The set after additionally allowing time modification.
pub open spec fn time_modify(s: Seq<SyscallId>) -> Seq<SyscallId> {
    add_syscall(
        add_syscall(add_syscall(add_syscall(s, SYS_ADJTIMEX), SYS_CLOCK_ADJTIME), SYS_CLOCK_SETTIME),
        SYS_SETTIMEOFDAY,
    )
}

/// The set after additionally allowing time queries.
pub open spec fn time_query(s: Seq<SyscallId>) -> Seq<SyscallId> {
    add_syscall(
        add_syscall(add_syscall(add_syscall(s, SYS_CLOCK_GETRES), SYS_CLOCK_GETTIME), SYS_GETTIMEOFDAY),
        SYS_TIME,
    )
}

/// The set after additionally allowing sleeping.
pub open spec fn time_sleep(s: Seq<SyscallId>) -> Seq<SyscallId> {
    add_syscall(add_syscall(s, SYS_CLOCK_NANOSLEEP), SYS_NANOSLEEP)
}

/// The set after additionally allowing time queries and sleeping.
pub open spec fn time_query_and_sleep(s: Seq<SyscallId>) -> Seq<SyscallId> {
    time_sleep(time_query(s))
}

impl RuleSet for Time {
    open spec fn spec_simple_rules(&self) -> Seq<SyscallId> {
        self@
    }

    open spec fn spec_conditional_rules(&self) -> Seq<RuleEntryView> {
        Seq::empty()
    }

    open spec fn spec_landlock_rules(&self) -> Seq<LandlockRuleView> {
        Seq::empty()
    }

    open spec fn spec_name(&self) -> Seq<char> {
        "Time"@
    }

    fn simple_rules(&self) -> (r: Vec<SyscallId>)
        ensures
            sorted_by_nr(r@),
    {
        proof {
            use_type_invariant(self);
        }
        let mut v: Vec<SyscallId> = Vec::new();
        let mut i: usize = 0;
        while i < self.syscalls.len()
            invariant
                i <= self.syscalls.len(),
                v@ == self.syscalls@.take(i as int),
            decreases self.syscalls.len() - i,
        {
            v.push(self.syscalls[i]);
            assert(self.syscalls@.take(i + 1) == self.syscalls@.take(i as int).push(
                self.syscalls@[i as int],
            ));
            i = i + 1;
        }
        assert(v@ == self.syscalls@);
        v
    }

    fn conditional_rules(&self) -> (r: RuleMap) {
        let r = RuleMap::new();
        assert(r@ =~= self.spec_conditional_rules());
        r
    }

    fn landlock_rules(&self) -> (r: Vec<LandlockRule>) {
        let v: Vec<LandlockRule> = Vec::new();
        assert(v@.map_values(|l: LandlockRule| l@) =~= self.spec_landlock_rules());
        v
    }

    fn name(&self) -> (r: &'static str) {
        "Time"
    }
}

} // verus!
