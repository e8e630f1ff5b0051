//! Trusted boundary to the Landlock path-rights mechanism.
//!
//! Landlock is the kernel's second, independent enforcement mechanism: a
//! ruleset of per-path access rights bound to the calling thread. Every item
//! here either declares one of the landlock crate's types or wraps exactly
//! the calls named in its doc comment; nothing else in the crate touches the
//! landlock crate directly.

use vstd::prelude::*;

use landlock::Access;
use landlock::Compatible;
use landlock::RulesetAttr;
use landlock::RulesetCreatedAttr;

use crate::path_rights::PathAccess;

verus! {

/// An unbuilt Landlock ruleset.
#[verifier::external_type_specification]
#[verifier::external_body]
pub struct ExRuleset(landlock::Ruleset);

/// A built Landlock ruleset, ready to take path rules.
#[verifier::external_type_specification]
#[verifier::external_body]
pub struct ExRulesetCreated(landlock::RulesetCreated);

/// A file descriptor opened for a path rule.
#[verifier::external_type_specification]
#[verifier::external_body]
pub struct ExPathFd(landlock::PathFd);

/// The landlock crate's ruleset error.
#[verifier::external_type_specification]
#[verifier::external_body]
pub struct ExRulesetError(landlock::RulesetError);

/// The landlock crate's path-opening error.
#[verifier::external_type_specification]
#[verifier::external_body]
pub struct ExPathFdError(landlock::PathFdError);

/// What the built ruleset holds so far: each granted pair of a path and one
/// access right beneath it.
pub uninterp spec fn ruleset_grants(rc: landlock::RulesetCreated) -> Set<(Seq<char>, PathAccess)>;

/// The path an opened path descriptor designates.
pub uninterp spec fn path_fd_path(fd: landlock::PathFd) -> Seq<char>;

/// Relies on `landlock::Ruleset::default`, which probes the running kernel,
/// on `landlock::Compatible::set_compatibility` with `HardRequirement` — a
/// kernel unable to enforce the ruleset is an error, never a silent no-op,
/// keeping the fail-closed promise — and on
/// `landlock::RulesetAttr::handle_access` with
/// `landlock::AccessFs::from_all(ABI::V1)`: every first-generation filesystem
/// access right is handled, so any of them not granted for a path is denied
/// beneath it.
#[verifier::external_body]
pub(crate) fn ll_ruleset_base() -> Result<landlock::Ruleset, landlock::RulesetError> {
    landlock::Ruleset::default().set_compatibility(landlock::CompatLevel::HardRequirement)
        .handle_access(landlock::AccessFs::from_all(landlock::ABI::V1))
}

/// Relies on `landlock::Ruleset::create`: builds the kernel object for the
/// ruleset, which holds no path rule yet.
#[verifier::external_body]
pub(crate) fn ll_create(
    rs: landlock::Ruleset,
) -> (r: Result<landlock::RulesetCreated, landlock::RulesetError>)
    ensures
        r matches Ok(rc) ==> ruleset_grants(rc) == Set::<(Seq<char>, PathAccess)>::empty(),
{
    rs.create()
}

/// Relies on `landlock::PathFd::new`: opens the given path, failing if it
/// does not exist or is inaccessible to the caller.
#[verifier::external_body]
pub(crate) fn ll_path_fd(path: &String) -> (r: Result<landlock::PathFd, landlock::PathFdError>)
    ensures
        r matches Ok(fd) ==> path_fd_path(fd) == path@,
{
    landlock::PathFd::new(path.as_str())
}

/// Relies on `landlock::PathBeneath::new` and
/// `landlock::RulesetCreatedAttr::add_rule`: grants one access right beneath
/// the opened path. The match mirrors each [`PathAccess`] to the
/// `landlock::AccessFs` right of the same meaning, one for one.
#[verifier::external_body]
pub(crate) fn ll_add_path_rule(
    rc: landlock::RulesetCreated,
    fd: landlock::PathFd,
    right: PathAccess,
) -> (r: Result<landlock::RulesetCreated, landlock::RulesetError>)
    ensures
        r matches Ok(rc2) ==> ruleset_grants(rc2) == ruleset_grants(rc).insert(
            (path_fd_path(fd), right),
        ),
{
    let access = match right {
        PathAccess::ReadFile => landlock::AccessFs::ReadFile,
        PathAccess::ReadDir => landlock::AccessFs::ReadDir,
        PathAccess::WriteFile => landlock::AccessFs::WriteFile,
        PathAccess::CreateFile => landlock::AccessFs::MakeReg,
        PathAccess::RemoveFile => landlock::AccessFs::RemoveFile,
        PathAccess::Execute => landlock::AccessFs::Execute,
    };
    rc.add_rule(landlock::PathBeneath::new(fd, access))
}

/// Relies on `landlock::RulesetCreated::restrict_self`: binds the ruleset —
/// every path rule added to it — to the calling thread. A kernel unable to
/// enforce it was already refused when the ruleset was built.
#[verifier::external_body]
pub(crate) fn ll_restrict_self(
    rc: landlock::RulesetCreated,
) -> Result<(), landlock::RulesetError> {
    rc.restrict_self().map(|_| ())
}

} // verus!
