//! The path-rights layer: per-path filesystem access grants.
//!
//! Independent of the syscall filter, a rule set may restrict filesystem
//! operations to declared paths, each with a subset of access rights. Grants
//! from several rule sets are merged: the same rule set may extend its own
//! grant for a path, but two different rule sets naming the same path are
//! rejected as ambiguous.

use vstd::prelude::*;

verus! {

/// One filesystem access right that a path grant can carry.
#[derive(Clone, Copy, Debug, Hash, PartialEq, Eq, Structural)]
pub enum PathAccess {
    /// Open a file beneath the path with read access.
    ReadFile,
    /// Open a directory beneath the path or list its content.
    ReadDir,
    /// Open a file beneath the path with write access.
    WriteFile,
    /// Create (or rename or link) a regular file beneath the path.
    CreateFile,
    /// Unlink (or rename) a file beneath the path.
    RemoveFile,
    /// Execute a file beneath the path.
    Execute,
}

/// Mathematical image of a [`LandlockRule`].
pub struct LandlockRuleView {
    /// The granted path.
    pub path: Seq<char>,
    /// The rights granted beneath it.
    pub rights: Seq<PathAccess>,
}

/// A path grant as declared by a rule set: one path and the rights granted
/// beneath it.
#[derive(Debug, Eq, Hash, PartialEq)]
pub struct LandlockRule {
    /// The granted path.
    pub path: String,
    /// The rights granted beneath it.
    pub rights: Vec<PathAccess>,
}

impl View for LandlockRule {
    type V = LandlockRuleView;

    open spec fn view(&self) -> LandlockRuleView {
        LandlockRuleView { path: self.path@, rights: self.rights@ }
    }
}

impl Clone for LandlockRule {
    /// Cloning preserves the grant's mathematical image.
    fn clone(&self) -> (r: Self)
        ensures
            r@ == self@,
    {
        let mut rights: Vec<PathAccess> = Vec::new();
        let mut i: usize = 0;
        while i < self.rights.len()
            invariant
                i <= self.rights.len(),
                rights@ == self.rights@.take(i as int),
            decreases self.rights.len() - i,
        {
            rights.push(self.rights[i]);
            assert(self.rights@.take(i + 1) == self.rights@.take(i as int).push(
                self.rights@[i as int],
            ));
            i = i + 1;
        }
        assert(rights@ == self.rights@);
        LandlockRule { path: self.path.clone(), rights }
    }
}

impl LandlockRule {
    /// Grant `rights` beneath `path`.
    pub fn new(path: String, rights: Vec<PathAccess>) -> (r: LandlockRule)
        ensures
            r@.path == path@,
            r@.rights == rights@,
    {
        LandlockRule { path, rights }
    }
}

/// Mathematical image of one merged per-path grant.
pub struct PathEntryView {
    /// The granted path.
    pub path: Seq<char>,
    /// The rights granted beneath it so far.
    pub rights: Seq<PathAccess>,
    /// Name of the rule set the grant came from.
    pub owner: Seq<char>,
}

/// One merged per-path grant held by the policy aggregator.
#[derive(Debug)]
pub struct PathEntry {
    /// The granted path.
    pub path: String,
    /// The rights granted beneath it so far.
    pub rights: Vec<PathAccess>,
    /// Name of the rule set the grant came from.
    pub owner: String,
}

impl View for PathEntry {
    type V = PathEntryView;

    open spec fn view(&self) -> PathEntryView {
        PathEntryView { path: self.path@, rights: self.rights@, owner: self.owner@ }
    }
}

/// Whether some merged grant names `path`.
pub open spec fn contains_path(ps: Seq<PathEntryView>, path: Seq<char>) -> bool {
    exists|i: int| 0 <= i < ps.len() && (#[trigger] ps[i]).path == path
}

/// The index of the merged grant naming `path`.
pub open spec fn index_of_path(ps: Seq<PathEntryView>, path: Seq<char>) -> int {
    choose|i: int| 0 <= i < ps.len() && (#[trigger] ps[i]).path == path
}

/// No two merged grants name the same path.
pub open spec fn path_entries_wf(ps: Seq<PathEntryView>) -> bool {
    forall|i: int, j: int|
        0 <= i < ps.len() && 0 <= j < ps.len() && i != j ==> (#[trigger] ps[i]).path != (
        #[trigger] ps[j]).path
}

/// Rights of `a` extended with whatever rights of `b` it lacks, in order.
pub open spec fn union_rights(a: Seq<PathAccess>, b: Seq<PathAccess>) -> Seq<PathAccess>
    decreases b.len(),
{
    if b.len() == 0 {
        a
    } else {
        union_rights(if a.contains(b[0]) { a } else { a.push(b[0]) }, b.drop_first())
    }
}

/// Every pair of a path and one access right granted beneath it that the
/// table holds.
pub open spec fn path_rights_set(ps: Seq<PathEntryView>) -> Set<(Seq<char>, PathAccess)> {
    Set::new(
        |pr: (Seq<char>, PathAccess)|
            exists|i: int, j: int|
                0 <= i < ps.len() && 0 <= j < ps[i].rights.len() && ps[i].path == pr.0
                    && #[trigger] ps[i].rights[j] == pr.1,
    )
}

/// The pairs of one entry's path with its first `j` rights.
pub open spec fn entry_rights_prefix(e: PathEntryView, j: int) -> Set<(Seq<char>, PathAccess)> {
    Set::new(
        |pr: (Seq<char>, PathAccess)|
            pr.0 == e.path && exists|k: int| 0 <= k < j && #[trigger] e.rights[k] == pr.1,
    )
}

/// Outcome of merging path grants into the aggregator.
pub enum PathOutcome {
    /// The merge succeeded; the merged per-path grants.
    Merged(Seq<PathEntryView>),
    /// Two different rule sets named the same path.
    Conflict {
        /// The path named twice.
        path: Seq<char>,
        /// Name of the rule set already holding the path.
        first_owner: Seq<char>,
        /// Name of the rule set whose grant was rejected.
        second_owner: Seq<char>,
    },
}

/// Merge one declared path grant, owned by the rule set named `owner`, into
/// the table: a fresh path is appended; the same owner extends its rights;
/// a different owner naming the same path is a conflict.
pub open spec fn add_path(ps: Seq<PathEntryView>, r: LandlockRuleView, owner: Seq<char>) -> PathOutcome {
    if contains_path(ps, r.path) {
        let i = index_of_path(ps, r.path);
        if ps[i].owner == owner {
            PathOutcome::Merged(
                ps.update(
                    i,
                    PathEntryView {
                        path: ps[i].path,
                        rights: union_rights(ps[i].rights, r.rights),
                        owner: ps[i].owner,
                    },
                ),
            )
        } else {
            PathOutcome::Conflict { path: r.path, first_owner: ps[i].owner, second_owner: owner }
        }
    } else {
        PathOutcome::Merged(
            ps.push(PathEntryView { path: r.path, rights: r.rights, owner }),
        )
    }
}

/// Merge all path grants of one rule set, in declaration order, stopping at
/// the first conflict.
pub open spec fn merge_paths(
    ps: Seq<PathEntryView>,
    rs: Seq<LandlockRuleView>,
    owner: Seq<char>,
) -> PathOutcome
    decreases rs.len(),
{
    if rs.len() == 0 {
        PathOutcome::Merged(ps)
    } else {
        match add_path(ps, rs[0], owner) {
            PathOutcome::Merged(ps2) => merge_paths(ps2, rs.drop_first(), owner),
            c => c,
        }
    }
}

} // verus!
