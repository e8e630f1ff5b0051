//! Trusted boundary to the seccomp filter compiler and installer.
//!
//! The enforcement compiler is an external collaborator: it turns the merged
//! per-syscall policy into a kernel-loadable BPF program, and installs that
//! program for the calling thread or for the whole thread group. Every item
//! here either declares one of its types or wraps exactly the calls named in
//! its doc comment; nothing else in the crate touches the compiler directly.

use vstd::prelude::*;

use crate::rule::{SeccompArgumentFilter, SeccompComparator};

verus! {

/// An argument condition in the compiler's own representation.
#[verifier::external_type_specification]
#[verifier::external_body]
pub struct ExSeccompCondition(seccompiler::SeccompCondition);

/// A per-syscall rule in the compiler's own representation.
#[verifier::external_type_specification]
#[verifier::external_body]
pub struct ExSeccompRule(seccompiler::SeccompRule);

/// An unloaded filter in the compiler's own representation.
#[verifier::external_type_specification]
#[verifier::external_body]
pub struct ExSeccompFilter(seccompiler::SeccompFilter);

/// One BPF instruction of a compiled filter program.
#[verifier::external_type_specification]
#[verifier::external_body]
pub struct ExSockFilter(seccompiler::sock_filter);

/// The compiler's compilation error.
#[verifier::external_type_specification]
#[verifier::external_body]
pub struct ExBackendError(seccompiler::BackendError);

/// The compiler's library error, covering compilation and installation.
#[verifier::external_type_specification]
#[verifier::external_body]
pub struct ExSeccompilerError(seccompiler::Error);

/// The condition `seccompiler::SeccompCondition::new` builds from a filter:
/// a pure constructor, so a function of the filter alone.
pub uninterp spec fn condition_of(f: SeccompArgumentFilter) -> seccompiler::SeccompCondition;

/// The rule `seccompiler::SeccompRule::new` builds from a non-empty
/// condition list: a pure constructor, so a function of the list alone.
pub uninterp spec fn rule_of(conds: Seq<seccompiler::SeccompCondition>) -> seccompiler::SeccompRule;

/// What the enforcement compiler makes of a rule map and a denial errno:
/// the loadable program, or its refusal. The compilation is a pure function
/// of these two arguments (the match action and the target are fixed).
pub uninterp spec fn compiled_of(
    rules: Map<i64, Seq<seccompiler::SeccompRule>>,
    errno: u32,
) -> Result<Seq<seccompiler::sock_filter>, seccompiler::BackendError>;

/// The rule map as the compiler model speaks of it: each vector of rules
/// replaced by its mathematical sequence.
pub open spec fn vec_rules_view(
    m: Map<i64, Vec<seccompiler::SeccompRule>>,
) -> Map<i64, Seq<seccompiler::SeccompRule>> {
    m.map_values(|v: Vec<seccompiler::SeccompRule>| v@)
}

/// The library error `From<seccompiler::BackendError>` wraps a compilation
/// error into: a pure constructor, so a function of the error alone.
pub uninterp spec fn error_of_backend(e: seccompiler::BackendError) -> seccompiler::Error;

/// Relies on `seccompiler::SeccompCondition::new`, which accepts any
/// comparison whose argument index is at most five, and on the variants of
/// `seccompiler::SeccompCmpOp`, mirrored one for one by
/// [`SeccompComparator`]. Conditions compare the full 64-bit argument.
#[verifier::external_body]
pub(crate) fn sc_condition(f: &SeccompArgumentFilter) -> (r: seccompiler::SeccompCondition)
    requires
        f.wf(),
    ensures
        r == condition_of(*f),
{
    let op = match f.comparator {
        SeccompComparator::Equal => seccompiler::SeccompCmpOp::Eq,
        SeccompComparator::NotEqual => seccompiler::SeccompCmpOp::Ne,
        SeccompComparator::Greater => seccompiler::SeccompCmpOp::Gt,
        SeccompComparator::GreaterOrEqual => seccompiler::SeccompCmpOp::Ge,
        SeccompComparator::Less => seccompiler::SeccompCmpOp::Lt,
        SeccompComparator::LessOrEqual => seccompiler::SeccompCmpOp::Le,
        SeccompComparator::MaskedEqual(mask) => seccompiler::SeccompCmpOp::MaskedEq(mask),
    };
    seccompiler::SeccompCondition::new(f.arg_idx, seccompiler::SeccompCmpArgLen::Qword, op, f.value)
        .unwrap()
}

/// Relies on `seccompiler::SeccompRule::new`, which accepts any non-empty
/// list of conditions.
#[verifier::external_body]
pub(crate) fn sc_rule(conds: Vec<seccompiler::SeccompCondition>) -> (r: seccompiler::SeccompRule)
    requires
        conds@.len() >= 1,
    ensures
        r == rule_of(conds@),
{
    seccompiler::SeccompRule::new(conds).unwrap()
}

/// Relies on `seccompiler::SeccompFilter::new`, which accepts any rule map
/// whose mismatch and match actions differ (denied syscalls fail with the
/// given errno, matching ones are allowed; the target is x86_64), and on
/// `TryFrom<seccompiler::SeccompFilter> for seccompiler::BpfProgram`: the
/// black-box compilation from filter to loadable program, which fails, as
/// an error, if the program would exceed the kernel's instruction limit.
/// The compiler compares syscall numbers as 32-bit values and panics on a
/// key outside that range, so the precondition excludes such keys. A
/// compiled program always begins with the architecture-check prologue, so
/// it is never empty.
#[verifier::external_body]
pub(crate) fn sc_compile(
    rules: std::collections::BTreeMap<i64, Vec<seccompiler::SeccompRule>>,
    deny_errno: u32,
) -> (r: Result<Vec<seccompiler::sock_filter>, seccompiler::BackendError>)
    requires
        forall|k: i64| rules@.dom().contains(k) ==> 0 <= k < 0x1_0000_0000i64,
    ensures
        r matches Ok(p) ==> p@.len() > 0 && (compiled_of(vec_rules_view(rules@), deny_errno)
            matches Ok(q) && q == p@),
        r matches Err(e) ==> (compiled_of(vec_rules_view(rules@), deny_errno) matches Err(e2)
            && e2 == e),
{
    let filter = seccompiler::SeccompFilter::new(
        rules,
        seccompiler::SeccompAction::Errno(deny_errno),
        seccompiler::SeccompAction::Allow,
        seccompiler::TargetArch::x86_64,
    )
        .unwrap();
    filter.try_into()
}

/// Relies on `seccompiler::apply_filter`: installs the program as a seccomp
/// filter for the calling thread only; the kernel may refuse.
#[verifier::external_body]
pub(crate) fn sc_apply_filter(
    prog: &Vec<seccompiler::sock_filter>,
) -> Result<(), seccompiler::Error> {
    seccompiler::apply_filter(prog)
}

/// Relies on `seccompiler::apply_filter_all_threads`: installs the program
/// for every thread of the process via the kernel's thread-group
/// synchronization; the kernel may refuse.
#[verifier::external_body]
pub(crate) fn sc_apply_filter_all_threads(
    prog: &Vec<seccompiler::sock_filter>,
) -> Result<(), seccompiler::Error> {
    seccompiler::apply_filter_all_threads(prog)
}

/// Relies on `From<seccompiler::BackendError> for seccompiler::Error`.
#[verifier::external_body]
pub(crate) fn sc_error_from_backend(e: seccompiler::BackendError) -> (r: seccompiler::Error)
    ensures
        r == error_of_backend(e),
{
    seccompiler::Error::from(e)
}

} // verus!
