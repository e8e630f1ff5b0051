//! The built-in rule sets expose exactly their documented grants.

use extrasafe::{Kill, Netlink, RuleSet, SocketPair, SyscallId, Time, Truncate, UserId};
use syscalls::Sysno;

fn id(s: Sysno) -> SyscallId {
    SyscallId::new(s as u64)
}

#[test]
fn kill_name() {
    assert_eq!(Kill.name(), "Kill");
}

#[test]
fn kill_simple_rules() {
    let rules = Kill.simple_rules();
    assert_eq!(rules.len(), 1);
    assert!(rules.contains(&id(Sysno::kill)));
}

#[test]
fn kill_conditional_rules() {
    assert!(Kill.conditional_rules().is_empty());
}

#[test]
fn netlink_name() {
    assert_eq!(Netlink.name(), "Netlink");
}

#[test]
fn netlink_simple_rules() {
    let rules = Netlink.simple_rules();
    assert!(rules.is_empty());
}

#[test]
fn netlink_conditional_rules() {
    let rules = Netlink.conditional_rules();
    assert_eq!(rules.len(), 1);
    assert!(rules.contains_key(&id(Sysno::socket)));
}

#[test]
fn socket_pair_name() {
    assert_eq!(SocketPair.name(), "SocketPair");
}

#[test]
fn socket_pair_simple_rules() {
    let rules = SocketPair.simple_rules();
    assert_eq!(rules.len(), 1);
    assert!(rules.contains(&id(Sysno::socketpair)));
}

#[test]
fn socket_pair_conditional_rules() {
    assert!(SocketPair.conditional_rules().is_empty());
}

#[test]
fn truncate_name() {
    assert_eq!(Truncate.name(), "Truncate");
}

#[test]
fn truncate_simple_rules() {
    let rules = Truncate.simple_rules();
    assert_eq!(rules.len(), 2);
    assert!(rules.contains(&id(Sysno::truncate)));
    assert!(rules.contains(&id(Sysno::ftruncate)));
}

#[test]
fn truncate_conditional_rules() {
    assert!(Truncate.conditional_rules().is_empty());
}

#[test]
fn time_everything() {
    let rules = Time::everything().yes_really();
    assert_eq!(rules.name(), "Time");
    assert!(rules.conditional_rules().is_empty());

    let simple_rules = rules.simple_rules();
    assert_eq!(simple_rules.len(), 10);
    assert!(simple_rules.contains(&id(Sysno::adjtimex)));
    assert!(simple_rules.contains(&id(Sysno::clock_adjtime)));
    assert!(simple_rules.contains(&id(Sysno::clock_getres)));
    assert!(simple_rules.contains(&id(Sysno::clock_gettime)));
    assert!(simple_rules.contains(&id(Sysno::clock_nanosleep)));
    assert!(simple_rules.contains(&id(Sysno::clock_settime)));
    assert!(simple_rules.contains(&id(Sysno::gettimeofday)));
    assert!(simple_rules.contains(&id(Sysno::nanosleep)));
    assert!(simple_rules.contains(&id(Sysno::settimeofday)));
    assert!(simple_rules.contains(&id(Sysno::time)));
}

#[test]
fn modify() {
    let rules = Time::modify().yes_really();
    assert_eq!(rules.name(), "Time");
    assert!(rules.conditional_rules().is_empty());

    let simple_rules = rules.simple_rules();
    assert_eq!(simple_rules.len(), 4);
    assert!(simple_rules.contains(&id(Sysno::adjtimex)));
    assert!(simple_rules.contains(&id(Sysno::clock_adjtime)));
    assert!(simple_rules.contains(&id(Sysno::clock_settime)));
    assert!(simple_rules.contains(&id(Sysno::settimeofday)));
}

#[test]
fn time_nothing() {
    let rules = Time::nothing();
    assert_eq!(rules.name(), "Time");
    assert!(rules.conditional_rules().is_empty());

    let simple_rules = rules.simple_rules();
    assert!(simple_rules.is_empty());
}

#[test]
fn query() {
    let rules = Time::query();
    assert_eq!(rules.name(), "Time");
    assert!(rules.conditional_rules().is_empty());

    let simple_rules = rules.simple_rules();
    assert_eq!(simple_rules.len(), 4);
    assert!(simple_rules.contains(&id(Sysno::clock_getres)));
    assert!(simple_rules.contains(&id(Sysno::clock_gettime)));
    assert!(simple_rules.contains(&id(Sysno::gettimeofday)));
    assert!(simple_rules.contains(&id(Sysno::time)));
}

#[test]
fn query_and_modify() {
    let rules = Time::query_and_modify().yes_really();
    assert_eq!(rules.name(), "Time");
    assert!(rules.conditional_rules().is_empty());

    let simple_rules = rules.simple_rules();
    assert_eq!(simple_rules.len(), 8);
    assert!(simple_rules.contains(&id(Sysno::adjtimex)));
    assert!(simple_rules.contains(&id(Sysno::clock_adjtime)));
    assert!(simple_rules.contains(&id(Sysno::clock_getres)));
    assert!(simple_rules.contains(&id(Sysno::clock_gettime)));
    assert!(simple_rules.contains(&id(Sysno::clock_settime)));
    assert!(simple_rules.contains(&id(Sysno::gettimeofday)));
    assert!(simple_rules.contains(&id(Sysno::settimeofday)));
    assert!(simple_rules.contains(&id(Sysno::time)));
}

#[test]
fn query_and_sleep() {
    let rules = Time::query_and_sleep();
    assert_eq!(rules.name(), "Time");
    assert!(rules.conditional_rules().is_empty());

    let simple_rules = rules.simple_rules();
    assert_eq!(simple_rules.len(), 6);
    assert!(simple_rules.contains(&id(Sysno::clock_getres)));
    assert!(simple_rules.contains(&id(Sysno::clock_gettime)));
    assert!(simple_rules.contains(&id(Sysno::clock_nanosleep)));
    assert!(simple_rules.contains(&id(Sysno::gettimeofday)));
    assert!(simple_rules.contains(&id(Sysno::nanosleep)));
    assert!(simple_rules.contains(&id(Sysno::time)));
}

#[test]
fn sleep() {
    let rules = Time::sleep();
    assert_eq!(rules.name(), "Time");
    assert!(rules.conditional_rules().is_empty());

    let simple_rules = rules.simple_rules();
    assert_eq!(simple_rules.len(), 2);
    assert!(simple_rules.contains(&id(Sysno::clock_nanosleep)));
    assert!(simple_rules.contains(&id(Sysno::nanosleep)));
}

#[test]
fn user_id_everything() {
    let rules = UserId::everything().yes_really();
    assert_eq!(rules.name(), "UserId");
    assert!(rules.conditional_rules().is_empty());

    let simple_rules = rules.simple_rules();
    assert_eq!(simple_rules.len(), 7);
    assert!(simple_rules.contains(&id(Sysno::geteuid)));
    assert!(simple_rules.contains(&id(Sysno::getresuid)));
    assert!(simple_rules.contains(&id(Sysno::getuid)));
    assert!(simple_rules.contains(&id(Sysno::setfsuid)));
    assert!(simple_rules.contains(&id(Sysno::setresuid)));
    assert!(simple_rules.contains(&id(Sysno::setreuid)));
    assert!(simple_rules.contains(&id(Sysno::setuid)));
}

#[test]
fn get() {
    let rules = UserId::get();
    assert_eq!(rules.name(), "UserId");
    assert!(rules.conditional_rules().is_empty());

    let simple_rules = rules.simple_rules();
    assert_eq!(simple_rules.len(), 3);
    assert!(simple_rules.contains(&id(Sysno::geteuid)));
    assert!(simple_rules.contains(&id(Sysno::getresuid)));
    assert!(simple_rules.contains(&id(Sysno::getuid)));
}

#[test]
fn set() {
    let rules = UserId::set().yes_really();
    assert_eq!(rules.name(), "UserId");
    assert!(rules.conditional_rules().is_empty());

    let simple_rules = rules.simple_rules();
    assert_eq!(simple_rules.len(), 4);
    assert!(simple_rules.contains(&id(Sysno::setfsuid)));
    assert!(simple_rules.contains(&id(Sysno::setresuid)));
    assert!(simple_rules.contains(&id(Sysno::setreuid)));
    assert!(simple_rules.contains(&id(Sysno::setuid)));
}

#[test]
fn user_id_nothing() {
    let rules = UserId::nothing();
    assert_eq!(rules.name(), "UserId");
    assert!(rules.conditional_rules().is_empty());

    let simple_rules = rules.simple_rules();
    assert!(simple_rules.is_empty());
}

#[test]
fn time_rules_are_sorted_ascending() {
    let rules = Time::everything().yes_really().simple_rules();
    for w in rules.windows(2) {
        assert!(w[0].id() < w[1].id());
    }
}

#[test]
fn user_id_rules_are_sorted_ascending() {
    let rules = UserId::everything().yes_really().simple_rules();
    for w in rules.windows(2) {
        assert!(w[0].id() < w[1].id());
    }
}
