//! Allow file and descriptor I/O, including read-only opening and per-path
//! filesystem grants.

use vstd::prelude::*;

use crate::builtins::{add_syscall, insert_syscall};
use crate::path_rights::{LandlockRule, LandlockRuleView, PathAccess};
use crate::rule::{ConditionalRule, RuleView, SeccompArgumentFilter, SeccompComparator};
use crate::rulemap::{RuleEntryView, RuleMap};
use crate::ruleset::{RuleSet, YesReally};
use crate::syscall::{sorted_by_nr, syscall_ids_in_range, 
    SyscallId, SYS_CLOSE, SYS_FSTAT, SYS_LSEEK, SYS_OPEN, SYS_OPENAT, SYS_PREAD64, SYS_READ,
    SYS_READV, SYS_WRITE, SYS_WRITEV,
};

verus! {

/// `O_WRONLY`: open for writing only.
pub const O_WRONLY: u64 = 1;

/// `O_RDWR`: open for reading and writing.
pub const O_RDWR: u64 = 2;

/// `O_CREAT`: create the file if it does not exist.
pub const O_CREAT: u64 = 64;

/// `O_EXCL`: fail if the file already exists.
pub const O_EXCL: u64 = 128;

/// `O_TRUNC`: truncate the file on open.
pub const O_TRUNC: u64 = 512;

/// `O_APPEND`: open in append mode.
pub const O_APPEND: u64 = 1024;

/// `O_TMPFILE`: create an unnamed temporary file.
pub const O_TMPFILE: u64 = 4259840;

/// Every open flag that writes, creates or truncates. A read-only open has
/// none of these bits set.
pub const WRITECREATE_MASK: u64 = 4261571;

/// The set after additionally allowing plain reads.
pub open spec fn io_read(s: Seq<SyscallId>) -> Seq<SyscallId> {
    add_syscall(add_syscall(add_syscall(add_syscall(s, SYS_READ), SYS_PREAD64), SYS_READV), SYS_LSEEK)
}

/// The set after additionally allowing plain writes.
pub open spec fn io_write(s: Seq<SyscallId>) -> Seq<SyscallId> {
    add_syscall(add_syscall(s, SYS_WRITE), SYS_WRITEV)
}

/// The admission for a read-only open through the given syscall, inspecting
/// the flags argument at the given index.
pub open spec fn open_readonly_rule(nr: u64, flags_idx: u8) -> RuleView {
    RuleView {
        syscall: SyscallId { nr },
        filters: seq![
            SeccompArgumentFilter {
                arg_idx: flags_idx,
                comparator: SeccompComparator::MaskedEqual(WRITECREATE_MASK),
                value: 0,
            },
        ],
    }
}

/// Allow file I/O: reads, writes, metadata, closing, opening (unrestricted
/// or read-only), and per-path filesystem grants through the path-rights
/// layer.
#[derive(Debug, Eq, Hash, PartialEq)]
#[must_use]
pub struct SystemIO {
    /// The unconditionally permitted syscalls, added by builder methods.
    syscalls: Vec<SyscallId>,
    /// Whether read-only opening is permitted as a conditional grant.
    open_readonly: bool,
    /// The declared path grants.
    paths: Vec<LandlockRule>,
}

/// Mathematical image of a [`SystemIO`] builder.
pub struct SystemIOView {
    /// The unconditionally permitted syscalls.
    pub syscalls: Seq<SyscallId>,
    /// Whether read-only opening is permitted conditionally.
    pub open_readonly: bool,
    /// The declared path grants.
    pub paths: Seq<LandlockRuleView>,
}

impl View for SystemIO {
    type V = SystemIOView;

    closed spec fn view(&self) -> SystemIOView {
        SystemIOView {
            syscalls: self.syscalls@,
            open_readonly: self.open_readonly,
            paths: self.paths@.map_values(|l: LandlockRule| l@),
        }
    }
}

impl SystemIO {
    /// Builder methods keep the syscall list strictly ascending by number,
    /// so it is sorted, duplicate-free, and names only compilable syscalls.
    #[verifier::type_invariant]
    spec fn inv(self) -> bool {
        &&& sorted_by_nr(self@.syscalls)
        &&& syscall_ids_in_range(self@.syscalls)
    }

    /// Construct a new rule, which allows nothing.
    pub fn nothing() -> (r: SystemIO)
        ensures
            r@.syscalls == Seq::<SyscallId>::empty(),
            !r@.open_readonly,
            r@.paths == Seq::<LandlockRuleView>::empty(),
    {
        let r = SystemIO { syscalls: Vec::new(), open_readonly: false, paths: Vec::new() };
        proof {
            assert(r@.paths =~= Seq::<LandlockRuleView>::empty());
        }
        r
    }

    /// Allow reading from already-open file descriptors.
    pub fn allow_read(self) -> (r: SystemIO)
        ensures
            r@.syscalls == io_read(self@.syscalls),
            r@.open_readonly == self@.open_readonly,
            r@.paths == self@.paths,
    {
        proof {
            use_type_invariant(&self);
        }
        let mut syscalls = self.syscalls;
        insert_syscall(&mut syscalls, SYS_READ);
        insert_syscall(&mut syscalls, SYS_PREAD64);
        insert_syscall(&mut syscalls, SYS_READV);
        insert_syscall(&mut syscalls, SYS_LSEEK);
        SystemIO { syscalls, open_readonly: self.open_readonly, paths: self.paths }
    }

    /// Allow writing to already-open file descriptors.
    pub fn allow_write(self) -> (r: SystemIO)
        ensures
            r@.syscalls == io_write(self@.syscalls),
            r@.open_readonly == self@.open_readonly,
            r@.paths == self@.paths,
    {
        proof {
            use_type_invariant(&self);
        }
        let mut syscalls = self.syscalls;
        insert_syscall(&mut syscalls, SYS_WRITE);
        insert_syscall(&mut syscalls, SYS_WRITEV);
        SystemIO { syscalls, open_readonly: self.open_readonly, paths: self.paths }
    }

    /// Allow querying file metadata.
    pub fn allow_metadata(self) -> (r: SystemIO)
        ensures
            r@.syscalls == add_syscall(self@.syscalls, SYS_FSTAT),
            r@.open_readonly == self@.open_readonly,
            r@.paths == self@.paths,
    {
        proof {
            use_type_invariant(&self);
        }
        let mut syscalls = self.syscalls;
        insert_syscall(&mut syscalls, SYS_FSTAT);
        SystemIO { syscalls, open_readonly: self.open_readonly, paths: self.paths }
    }

    /// Allow closing file descriptors.
    pub fn allow_close(self) -> (r: SystemIO)
        ensures
            r@.syscalls == add_syscall(self@.syscalls, SYS_CLOSE),
            r@.open_readonly == self@.open_readonly,
            r@.paths == self@.paths,
    {
        proof {
            use_type_invariant(&self);
        }
        let mut syscalls = self.syscalls;
        insert_syscall(&mut syscalls, SYS_CLOSE);
        SystemIO { syscalls, open_readonly: self.open_readonly, paths: self.paths }
    }

    /// Allow opening files without any restriction on the open flags, so
    /// files can also be created, truncated and written.
    pub fn allow_open(self) -> (r: YesReally<SystemIO>)
        ensures
            r.spec_inner()@.syscalls == add_syscall(add_syscall(self@.syscalls, SYS_OPEN), SYS_OPENAT),
            r.spec_inner()@.open_readonly == self@.open_readonly,
            r.spec_inner()@.paths == self@.paths,
    {
        proof {
            use_type_invariant(&self);
        }
        let mut syscalls = self.syscalls;
        insert_syscall(&mut syscalls, SYS_OPEN);
        insert_syscall(&mut syscalls, SYS_OPENAT);
        YesReally::new(SystemIO { syscalls, open_readonly: self.open_readonly, paths: self.paths })
    }

    /// Allow opening files read-only: the open succeeds only when no
    /// writing, creating or truncating flag is set.
    pub fn allow_open_readonly(self) -> (r: SystemIO)
        ensures
            r@.syscalls == self@.syscalls,
            r@.open_readonly,
            r@.paths == self@.paths,
    {
        proof {
            use_type_invariant(&self);
        }
        SystemIO { syscalls: self.syscalls, open_readonly: true, paths: self.paths }
    }

    /// Grant reading of files and listing of directories beneath `path`.
    pub fn allow_read_path(self, path: String) -> (r: SystemIO)
        ensures
            r@.syscalls == self@.syscalls,
            r@.open_readonly == self@.open_readonly,
            r@.paths == self@.paths.push(
                LandlockRuleView {
                    path: path@,
                    rights: seq![PathAccess::ReadFile, PathAccess::ReadDir],
                },
            ),
    {
        proof {
            use_type_invariant(&self);
        }
        let mut rights: Vec<PathAccess> = Vec::new();
        rights.push(PathAccess::ReadFile);
        rights.push(PathAccess::ReadDir);
        assert(rights@ =~= seq![PathAccess::ReadFile, PathAccess::ReadDir]);
        let mut paths = self.paths;
        paths.push(LandlockRule::new(path, rights));
        let r = SystemIO { syscalls: self.syscalls, open_readonly: self.open_readonly, paths };
        proof {
            assert(r@.paths =~= self@.paths.push(
                LandlockRuleView {
                    path: path@,
                    rights: seq![PathAccess::ReadFile, PathAccess::ReadDir],
                },
            ));
        }
        r
    }

    /// Grant writing to existing files beneath `path`.
    pub fn allow_write_file(self, path: String) -> (r: SystemIO)
        ensures
            r@.syscalls == self@.syscalls,
            r@.open_readonly == self@.open_readonly,
            r@.paths == self@.paths.push(
                LandlockRuleView { path: path@, rights: seq![PathAccess::WriteFile] },
            ),
    {
        proof {
            use_type_invariant(&self);
        }
        let mut rights: Vec<PathAccess> = Vec::new();
        rights.push(PathAccess::WriteFile);
        let mut paths = self.paths;
        paths.push(LandlockRule::new(path, rights));
        let r = SystemIO { syscalls: self.syscalls, open_readonly: self.open_readonly, paths };
        proof {
            assert(r@.paths =~= self@.paths.push(
                LandlockRuleView { path: path@, rights: seq![PathAccess::WriteFile] },
            ));
        }
        r
    }

    /// Grant creating and writing regular files beneath `path`.
    pub fn allow_create_in_dir(self, path: String) -> (r: SystemIO)
        ensures
            r@.syscalls == self@.syscalls,
            r@.open_readonly == self@.open_readonly,
            r@.paths == self@.paths.push(
                LandlockRuleView {
                    path: path@,
                    rights: seq![PathAccess::CreateFile, PathAccess::WriteFile],
                },
            ),
    {
        proof {
            use_type_invariant(&self);
        }
        let mut rights: Vec<PathAccess> = Vec::new();
        rights.push(PathAccess::CreateFile);
        rights.push(PathAccess::WriteFile);
        assert(rights@ =~= seq![PathAccess::CreateFile, PathAccess::WriteFile]);
        let mut paths = self.paths;
        paths.push(LandlockRule::new(path, rights));
        let r = SystemIO { syscalls: self.syscalls, open_readonly: self.open_readonly, paths };
        proof {
            assert(r@.paths =~= self@.paths.push(
                LandlockRuleView {
                    path: path@,
                    rights: seq![PathAccess::CreateFile, PathAccess::WriteFile],
                },
            ));
        }
        r
    }

    /// Grant listing the directory beneath `path`.
    pub fn allow_list_dir(self, path: String) -> (r: SystemIO)
        ensures
            r@.syscalls == self@.syscalls,
            r@.open_readonly == self@.open_readonly,
            r@.paths == self@.paths.push(
                LandlockRuleView { path: path@, rights: seq![PathAccess::ReadDir] },
            ),
    {
        proof {
            use_type_invariant(&self);
        }
        let mut rights: Vec<PathAccess> = Vec::new();
        rights.push(PathAccess::ReadDir);
        let mut paths = self.paths;
        paths.push(LandlockRule::new(path, rights));
        let r = SystemIO { syscalls: self.syscalls, open_readonly: self.open_readonly, paths };
        proof {
            assert(r@.paths =~= self@.paths.push(
                LandlockRuleView { path: path@, rights: seq![PathAccess::ReadDir] },
            ));
        }
        r
    }
}

impl RuleSet for SystemIO {
    open spec fn spec_simple_rules(&self) -> Seq<SyscallId> {
        self@.syscalls
    }

    open spec fn spec_conditional_rules(&self) -> Seq<RuleEntryView> {
        if self@.open_readonly {
            seq![
                RuleEntryView {
                    syscall: SyscallId { nr: SYS_OPEN },
                    rules: seq![open_readonly_rule(SYS_OPEN, 1)],
                },
                RuleEntryView {
                    syscall: SyscallId { nr: SYS_OPENAT },
                    rules: seq![open_readonly_rule(SYS_OPENAT, 2)],
                },
            ]
        } else {
            Seq::empty()
        }
    }

    open spec fn spec_landlock_rules(&self) -> Seq<LandlockRuleView> {
        self@.paths
    }

    open spec fn spec_name(&self) -> Seq<char> {
        "SystemIO"@
    }

    fn simple_rules(&self) -> (r: Vec<SyscallId>)
        ensures
            sorted_by_nr(r@),
    {
        proof {
            use_type_invariant(self);
        }
        let mut v: Vec<SyscallId> = Vec::new();
        let mut i: usize = 0;
        while i < self.syscalls.len()
            invariant
                i <= self.syscalls.len(),
                v@ == self.syscalls@.take(i as int),
            decreases self.syscalls.len() - i,
        {
            v.push(self.syscalls[i]);
            assert(self.syscalls@.take(i + 1) == self.syscalls@.take(i as int).push(
                self.syscalls@[i as int],
            ));
            i = i + 1;
        }
        assert(v@ == self.syscalls@);
        v
    }

    fn conditional_rules(&self) -> (r: RuleMap) {
        let mut m = RuleMap::new();
        if self.open_readonly {
            let open_id = SyscallId::new(SYS_OPEN);
            let openat_id = SyscallId::new(SYS_OPENAT);
            let rule_open = ConditionalRule::new(open_id).and_condition(
                SeccompArgumentFilter::new(
                    1,
                    SeccompComparator::MaskedEqual(WRITECREATE_MASK),
                    0,
                ),
            );
            let rule_openat = ConditionalRule::new(openat_id).and_condition(
                SeccompArgumentFilter::new(
                    2,
                    SeccompComparator::MaskedEqual(WRITECREATE_MASK),
                    0,
                ),
            );
            proof {
                assert(rule_open@.filters =~= open_readonly_rule(SYS_OPEN, 1).filters);
                assert(rule_open@ == open_readonly_rule(SYS_OPEN, 1));
                assert(rule_openat@.filters =~= open_readonly_rule(SYS_OPENAT, 2).filters);
                assert(rule_openat@ == open_readonly_rule(SYS_OPENAT, 2));
            }
            let mut open_rules: Vec<ConditionalRule> = Vec::new();
            open_rules.push(rule_open);
            proof {
                assert(open_rules@.map_values(|r: ConditionalRule| r@) =~= seq![
                    open_readonly_rule(SYS_OPEN, 1),
                ]);
            }
            m.insert(open_id, open_rules);
            let mut openat_rules: Vec<ConditionalRule> = Vec::new();
            openat_rules.push(rule_openat);
            proof {
                assert(openat_rules@.map_values(|r: ConditionalRule| r@) =~= seq![
                    open_readonly_rule(SYS_OPENAT, 2),
                ]);
            }
            m.insert(openat_id, openat_rules);
        }
        assert(m@ =~= self.spec_conditional_rules());
        m
    }

    fn landlock_rules(&self) -> (r: Vec<LandlockRule>) {
        let mut v: Vec<LandlockRule> = Vec::new();
        let mut i: usize = 0;
        while i < self.paths.len()
            invariant
                i <= self.paths.len(),
                v@.len() == i,
                forall|k: int| 0 <= k < i ==> (#[trigger] v@[k])@ == self.paths@[k]@,
            decreases self.paths.len() - i,
        {
            v.push(self.paths[i].clone());
            i = i + 1;
        }
        proof {
            assert forall|k: int| 0 <= k < v@.len() implies v@.map_values(
                |l: LandlockRule| l@,
            )[k] == self@.paths[k] by {
                assert((v@[k])@ == self.paths@[k]@);
            }
            assert(v@.map_values(|l: LandlockRule| l@) =~= self@.paths);
        }
        v
    }

    fn name(&self) -> (r: &'static str) {
        "SystemIO"
    }
}

} // verus!
