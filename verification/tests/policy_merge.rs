//! Merging rule sets into a policy: unions, conflicts and failure modes.

use extrasafe::{
    ConditionalRule, CustomRuleset, ExtraSafeError, PathAccess, SafetyContext,
    SeccompArgumentFilter, SeccompComparator, SyscallId,
};
use syscalls::Sysno;

fn id(s: Sysno) -> SyscallId {
    SyscallId::new(s as u64)
}

fn socket_rule() -> ConditionalRule {
    ConditionalRule::new(id(Sysno::socket)).and_condition(SeccompArgumentFilter::new(
        0,
        SeccompComparator::Equal,
        libc::AF_INET as u64,
    ))
}

#[test]
fn same_unconditional_syscall_from_two_rulesets_merges() {
    let a = CustomRuleset::new("RulesetA").allow_syscall(id(Sysno::kill));
    let b = CustomRuleset::new("RulesetB").allow_syscall(id(Sysno::kill));
    let ctx = SafetyContext::new().enable(a).unwrap().enable(b).unwrap();
    assert_eq!(ctx.grant_count(), 1);
}

#[test]
fn unconditional_and_conditional_conflict_in_both_orders() {
    let simple = || CustomRuleset::new("SimpleSet").allow_syscall(id(Sysno::socket));
    let cond = || CustomRuleset::new("CondSet").allow_conditional(id(Sysno::socket), vec![socket_rule()]);

    let err1 = SafetyContext::new().enable(simple()).unwrap().enable(cond()).unwrap_err();
    let err2 = SafetyContext::new().enable(cond()).unwrap().enable(simple()).unwrap_err();

    match err1 {
        ExtraSafeError::ConditionalNoEffectError(s, a, b) => {
            assert_eq!(s, id(Sysno::socket));
            assert_eq!(a, "CondSet");
            assert_eq!(b, "SimpleSet");
        },
        other => panic!("wrong error: {:?}", other),
    }
    match err2 {
        ExtraSafeError::ConditionalNoEffectError(s, a, b) => {
            assert_eq!(s, id(Sysno::socket));
            assert_eq!(a, "CondSet");
            assert_eq!(b, "SimpleSet");
        },
        other => panic!("wrong error: {:?}", other),
    }
}

#[test]
fn conditional_rules_union_under_or_semantics() {
    let a = CustomRuleset::new("CondA").allow_conditional(id(Sysno::socket), vec![socket_rule()]);
    let b = CustomRuleset::new("CondB").allow_conditional(
        id(Sysno::socket),
        vec![
            ConditionalRule::new(id(Sysno::socket)).and_condition(SeccompArgumentFilter::new(
                0,
                SeccompComparator::Equal,
                libc::AF_INET6 as u64,
            )),
        ],
    );
    let ctx = SafetyContext::new().enable(a).unwrap().enable(b).unwrap();
    assert_eq!(ctx.grant_count(), 1);
    assert_eq!(ctx.conditional_rule_count(id(Sysno::socket)), Some(2));
}

#[test]
fn finalize_with_nothing_enabled_fails() {
    let res = SafetyContext::new().finalize();
    assert!(matches!(res, Err(ExtraSafeError::NoRulesEnabled)));
}

#[test]
fn apply_with_nothing_enabled_fails() {
    let res = SafetyContext::new().apply_to_current_thread();
    assert!(matches!(res, Err(ExtraSafeError::NoRulesEnabled)));
    let res = SafetyContext::new().apply_to_all_threads();
    assert!(matches!(res, Err(ExtraSafeError::NoRulesEnabled)));
}

#[test]
fn enabling_an_empty_ruleset_then_finalize_fails() {
    let res = SafetyContext::new().enable(CustomRuleset::new("Empty")).unwrap().finalize();
    assert!(matches!(res, Err(ExtraSafeError::NoRulesEnabled)));
}

#[test]
fn duplicate_path_from_two_rulesets_fails() {
    let a = CustomRuleset::new("PathsA").allow_path("/tmp".to_string(), vec![PathAccess::ReadFile]);
    let b = CustomRuleset::new("PathsB").allow_path("/tmp".to_string(), vec![PathAccess::WriteFile]);
    let err = SafetyContext::new().enable(a).unwrap().enable(b).unwrap_err();
    match err {
        ExtraSafeError::DuplicatePath(path, first, second) => {
            assert_eq!(path, "/tmp");
            assert_eq!(first, "PathsA");
            assert_eq!(second, "PathsB");
        },
        other => panic!("wrong error: {:?}", other),
    }
}

#[test]
fn identical_path_from_same_ruleset_merges() {
    let a = CustomRuleset::new("PathsA").allow_path("/tmp".to_string(), vec![PathAccess::ReadFile]);
    let a_again = CustomRuleset::new("PathsA").allow_path(
        "/tmp".to_string(),
        vec![PathAccess::ReadFile],
    );
    let ctx = SafetyContext::new().enable(a).unwrap().enable(a_again).unwrap();
    assert_eq!(ctx.path_grant_count(), 1);
}

#[test]
fn same_ruleset_extends_its_own_path_rights() {
    let a = CustomRuleset::new("PathsA").allow_path("/tmp".to_string(), vec![PathAccess::ReadFile]);
    let more = CustomRuleset::new("PathsA").allow_path(
        "/tmp".to_string(),
        vec![PathAccess::WriteFile],
    );
    let ctx = SafetyContext::new().enable(a).unwrap().enable(more).unwrap();
    assert_eq!(ctx.path_grant_count(), 1);
}

#[test]
fn apply_to_all_threads_with_pending_path_policy_fails() {
    let a = CustomRuleset::new("PathsA")
        .allow_syscall(id(Sysno::kill))
        .allow_path("/tmp".to_string(), vec![PathAccess::ReadFile]);
    let res = SafetyContext::new().enable(a).unwrap().apply_to_all_threads();
    assert!(matches!(res, Err(ExtraSafeError::LandlockNoThreadSync)));
}

#[test]
fn missing_path_is_reported_on_application() {
    let a = CustomRuleset::new("PathsA").allow_path(
        "/this/path/does/not/exist/anywhere".to_string(),
        vec![PathAccess::ReadFile],
    );
    let res = SafetyContext::new().enable(a).unwrap().apply_to_current_thread();
    assert!(matches!(res, Err(ExtraSafeError::PathDoesNotExist(_))));
}

#[test]
fn finalize_keeps_the_merged_grants() {
    let a = CustomRuleset::new("RulesetA").allow_syscall(id(Sysno::kill));
    let compiled = SafetyContext::new().enable(a).unwrap().finalize();
    assert!(compiled.is_ok());
}

#[test]
fn oversized_filter_is_rejected_by_the_compiler() {
    // Enough conditional rules to push the compiled program past the
    // kernel's BPF instruction limit: the enforcement compiler refuses and
    // the refusal is surfaced, not retried.
    let mut rules = Vec::new();
    for i in 0..2000u64 {
        rules.push(ConditionalRule::new(id(Sysno::socket)).and_condition(
            SeccompArgumentFilter::new(0, SeccompComparator::Equal, i),
        ));
    }
    let big = CustomRuleset::new("Oversized").allow_conditional(id(Sysno::socket), rules);
    let res = SafetyContext::new().enable(big).unwrap().finalize();
    assert!(matches!(res, Err(ExtraSafeError::SeccompError(_))));
}

#[test]
fn netlink_conflicts_with_unconditional_socket_in_both_orders() {
    let p = || {
        CustomRuleset::new("P")
            .allow_syscall(id(Sysno::kill))
            .allow_syscall(id(Sysno::socket))
    };
    let err1 = SafetyContext::new().enable(p()).unwrap().enable(extrasafe::Netlink).unwrap_err();
    let err2 = SafetyContext::new().enable(extrasafe::Netlink).unwrap().enable(p()).unwrap_err();
    for err in [err1, err2] {
        match err {
            ExtraSafeError::ConditionalNoEffectError(s, a, b) => {
                assert_eq!(s, id(Sysno::socket));
                assert_eq!(a, "Netlink");
                assert_eq!(b, "P");
            },
            other => panic!("wrong error: {:?}", other),
        }
    }
}

#[test]
fn diagnostic_messages_name_the_parties() {
    let msg = ExtraSafeError::NoRulesEnabled.message();
    assert_eq!(msg, "No rules were enabled in the SafetyContext");
    let msg = ExtraSafeError::LandlockNoThreadSync.message();
    assert_eq!(msg, "Landlock does not support syncing to all threads");

    let simple = CustomRuleset::new("SimpleSet").allow_syscall(id(Sysno::socket));
    let cond = CustomRuleset::new("CondSet").allow_conditional(id(Sysno::socket), vec![socket_rule()]);
    let err = SafetyContext::new().enable(simple).unwrap().enable(cond).unwrap_err();
    let msg = err.message();
    assert!(msg.contains("CondSet"));
    assert!(msg.contains("SimpleSet"));
    assert!(msg.contains(&(Sysno::socket as u64).to_string()));

    let a = CustomRuleset::new("PathsA").allow_path("/tmp".to_string(), vec![PathAccess::ReadFile]);
    let b = CustomRuleset::new("PathsB").allow_path("/tmp".to_string(), vec![PathAccess::WriteFile]);
    let err = SafetyContext::new().enable(a).unwrap().enable(b).unwrap_err();
    let msg = err.message();
    assert!(msg.contains("/tmp"));
    assert!(msg.contains("PathsA"));
    assert!(msg.contains("PathsB"));
}
