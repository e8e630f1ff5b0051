//! Even under an installed filter, a test can still fail and report it.

use extrasafe::{BasicRuleset, SafetyContext};

#[test]
#[should_panic(expected = "should fail")]
/// Test that even if everything (besides default enabled syscalls) is denied with seccomp, tests can fail
fn seccomp_active_tests_fail() {
    let res = SafetyContext::new()
        .enable(BasicRuleset)
        .unwrap()
        .apply_to_current_thread();
    assert!(res.is_ok(), "Extrasafe failed {:?}", res.unwrap_err());

    assert!(false, "should fail");
}
