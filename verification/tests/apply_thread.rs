//! Applying a compiled policy to the current thread.

use extrasafe::{BasicRuleset, RuleSet};

#[test]
/// Test if `RuleSets` can be references.
fn ref_ruleset() -> Result<(), extrasafe::ExtraSafeError> {
    let ruleset: &dyn RuleSet = &BasicRuleset;
    extrasafe::SafetyContext::new().enable(ruleset)?.apply_to_current_thread()
}
