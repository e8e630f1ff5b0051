//! Applying a compiled policy to every thread of the process.

use extrasafe::{BasicRuleset, SafetyContext};

#[test]
fn apply_all_threads_without_paths_succeeds() {
    let res = SafetyContext::new().enable(BasicRuleset).unwrap().apply_to_all_threads();
    assert!(res.is_ok(), "applying to all threads failed: {:?}", res.unwrap_err());
}
