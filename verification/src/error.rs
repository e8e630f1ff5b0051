//! The error taxonomy.
//!
//! Every failure is a value returned to the caller; nothing is silently
//! resolved. Conflicts carry the offending syscall or path and the names of
//! both rule sets that disagree, so a rejected policy can be traced back to
//! the two capability declarations involved.

use vstd::prelude::*;

use crate::syscall::SyscallId;

verus! {

/// Whether `needle` occurs in `hay` as a contiguous run.
pub open spec fn contains_seq(hay: Seq<char>, needle: Seq<char>) -> bool {
    exists|i: int|
        0 <= i && i + needle.len() <= hay.len() && #[trigger] hay.subrange(
            i,
            i + needle.len() as int,
        ) == needle
}

/// The error type produced by [`crate::SafetyContext`].
#[derive(Debug)]
pub enum ExtraSafeError {
    /// An unconditional and a conditional grant collided on one syscall:
    /// the conditional rule, from the rule set named second, would be
    /// overridden by the unconditional rule from the rule set named third.
    /// Reported identically whichever rule set was enabled first.
    ConditionalNoEffectError(SyscallId, String, String),
    /// The enforcement compiler or the kernel installation refused.
    SeccompError(seccompiler::Error),
    /// Nothing was enabled: an empty policy is treated as a configuration
    /// mistake, not as an intentional total lockdown.
    NoRulesEnabled,
    /// Two different rule sets granted rights for the identical path: the
    /// path, the name of the rule set holding it, and the name of the rule
    /// set whose grant was rejected.
    DuplicatePath(String, String, String),
    /// A path named in a path grant does not exist or is inaccessible.
    PathDoesNotExist(landlock::PathFdError),
    /// Path-rights enforcement has no kernel thread-synchronization
    /// primitive, so it cannot be applied to all threads.
    LandlockNoThreadSync,
    /// The path-rights mechanism itself failed.
    LandlockError(landlock::RulesetError),
}

impl ExtraSafeError {
    /// Render the error as a human-readable diagnostic line: never empty,
    /// with the exact original wording for the constant cases, and naming
    /// both conflicting rule sets where two disagree.
    pub fn message(&self) -> (r: String)
        ensures
            r@.len() > 0,
            (*self) matches ExtraSafeError::NoRulesEnabled ==> r@
                == "No rules were enabled in the SafetyContext"@,
            (*self) matches ExtraSafeError::LandlockNoThreadSync ==> r@
                == "Landlock does not support syncing to all threads"@,
            (*self) matches ExtraSafeError::ConditionalNoEffectError(_, a, b) ==> (contains_seq(
                r@,
                a@,
            ) && contains_seq(r@, b@)),
            (*self) matches ExtraSafeError::DuplicatePath(_, a, b) ==> (contains_seq(r@, a@)
                && contains_seq(r@, b@)),
    {
        match self {
            ExtraSafeError::ConditionalNoEffectError(syscall, a, b) => fmt_conditional_no_effect(
                syscall.id(),
                a,
                b,
            ),
            ExtraSafeError::SeccompError(err) => fmt_seccomp_error(err),
            ExtraSafeError::NoRulesEnabled => {
                proof {
                    reveal_strlit("No rules were enabled in the SafetyContext");
                }
                "No rules were enabled in the SafetyContext".to_owned()
            },
            ExtraSafeError::DuplicatePath(path, a, b) => fmt_duplicate_path(path, a, b),
            ExtraSafeError::PathDoesNotExist(err) => fmt_path_does_not_exist(err),
            ExtraSafeError::LandlockNoThreadSync => {
                proof {
                    reveal_strlit("Landlock does not support syncing to all threads");
                }
                "Landlock does not support syncing to all threads".to_owned()
            },
            ExtraSafeError::LandlockError(err) => fmt_landlock_error(err),
        }
    }
}

impl From<seccompiler::Error> for ExtraSafeError {
    /// Wrap an enforcement-compiler error.
    fn from(value: seccompiler::Error) -> (r: Self)
        ensures
            r == ExtraSafeError::SeccompError(value),
    {
        ExtraSafeError::SeccompError(value)
    }
}

impl vstd::std_specs::convert::FromSpecImpl<seccompiler::Error> for ExtraSafeError {
    open spec fn obeys_from_spec() -> bool {
        true
    }

    open spec fn from_spec(e: seccompiler::Error) -> Self {
        ExtraSafeError::SeccompError(e)
    }
}

impl From<seccompiler::BackendError> for ExtraSafeError {
    /// Wrap a compilation error of the enforcement compiler.
    fn from(value: seccompiler::BackendError) -> (r: Self)
        ensures
            r == ExtraSafeError::SeccompError(crate::seccomp_sys::error_of_backend(value)),
    {
        ExtraSafeError::SeccompError(crate::seccomp_sys::sc_error_from_backend(value))
    }
}

impl vstd::std_specs::convert::FromSpecImpl<seccompiler::BackendError> for ExtraSafeError {
    open spec fn obeys_from_spec() -> bool {
        true
    }

    open spec fn from_spec(e: seccompiler::BackendError) -> Self {
        ExtraSafeError::SeccompError(crate::seccomp_sys::error_of_backend(e))
    }
}

/// Relies on `format!` to render the conflict diagnostic: the text is never
/// empty and carries both rule-set names verbatim.
#[verifier::external_body]
fn fmt_conditional_no_effect(nr: u64, a: &String, b: &String) -> (r: String)
    ensures
        r@.len() > 0,
        contains_seq(r@, a@),
        contains_seq(r@, b@),
{
    format!(
        "A conditional rule on syscall `{nr}` from RuleSet `{a}` would be overridden by a simple rule from RuleSet `{b}`."
    )
}

/// Relies on `format!` and `seccompiler::Error`'s `Debug` rendering: the
/// text is never empty.
#[verifier::external_body]
fn fmt_seccomp_error(err: &seccompiler::Error) -> (r: String)
    ensures
        r@.len() > 0,
{
    format!("A seccomp error occured {err:?}")
}

/// Relies on `format!` to render the duplicate-path diagnostic: the text is
/// never empty and carries both rule-set names verbatim (the path appears in
/// its escaped `Debug` form).
#[verifier::external_body]
fn fmt_duplicate_path(path: &String, a: &String, b: &String) -> (r: String)
    ensures
        r@.len() > 0,
        contains_seq(r@, a@),
        contains_seq(r@, b@),
{
    format!(
        "The same path ({path:?}) was used in two different landlock rules. Rulesets '{a}' and '{b}'"
    )
}

/// Relies on `format!` and `landlock::PathFdError`'s `Debug` rendering: the
/// text is never empty.
#[verifier::external_body]
fn fmt_path_does_not_exist(err: &landlock::PathFdError) -> (r: String)
    ensures
        r@.len() > 0,
{
    format!(
        "Path provided to extrasafe in a landlock rule does not exist or the process does not have permission to access it: {err:?}"
    )
}

/// Relies on `format!` and `landlock::RulesetError`'s `Debug` rendering:
/// the text is never empty.
#[verifier::external_body]
fn fmt_landlock_error(err: &landlock::RulesetError) -> (r: String)
    ensures
        r@.len() > 0,
{
    format!("A Landlock error occurred: {err:?}")
}

} // verus!
