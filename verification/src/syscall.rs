//! Syscall identifiers.
//!
//! A syscall is identified by its raw Linux syscall number. The numbers below
//! are the x86_64 Linux ABI numbers; this library targets that platform, and
//! the test suite checks each constant against the kernel's own table.

use vstd::prelude::*;

verus! {

/// One above the greatest syscall number a filter can speak about: the
/// kernel's BPF filters compare the syscall number as a 32-bit value, so a
/// policy can only be compiled for numbers below this limit.
pub const SYSCALL_NR_LIMIT: u64 = 0x1_0000_0000;

/// One Linux syscall, identified by its platform-specific number.
///
/// Used as the key of every per-syscall policy decision.
#[derive(Clone, Copy, Debug, PartialEq, Eq, Hash, PartialOrd, Ord, Structural)]
pub struct SyscallId {
    /// The raw syscall number.
    pub nr: u64,
}

impl SyscallId {
    /// Wrap a raw syscall number. Numbers at or above [`SYSCALL_NR_LIMIT`]
    /// name no Linux syscall and could not be compiled into a filter.
    pub fn new(nr: u64) -> (r: SyscallId)
        requires
            nr < SYSCALL_NR_LIMIT,
        ensures
            r.nr == nr,
    {
        SyscallId { nr }
    }

    /// The raw syscall number.
    pub fn id(&self) -> (r: u64)
        ensures
            r == self.nr,
    {
        self.nr
    }
}

/// Whether every syscall in the list can be compiled into a filter.
pub open spec fn syscall_ids_in_range(s: Seq<SyscallId>) -> bool {
    forall|i: int| 0 <= i < s.len() ==> (#[trigger] s[i]).nr < SYSCALL_NR_LIMIT
}

/// Whether the list is strictly ascending by syscall number — sorted and
/// free of duplicates.
pub open spec fn sorted_by_nr(s: Seq<SyscallId>) -> bool {
    forall|i: int, j: int| 0 <= i < j < s.len() ==> s[i].nr < s[j].nr
}

// x86_64 Linux syscall numbers used by the built-in rule sets.

pub const SYS_READ: u64 = 0;
pub const SYS_WRITE: u64 = 1;
pub const SYS_OPEN: u64 = 2;
pub const SYS_CLOSE: u64 = 3;
pub const SYS_FSTAT: u64 = 5;
pub const SYS_LSEEK: u64 = 8;
pub const SYS_MMAP: u64 = 9;
pub const SYS_MPROTECT: u64 = 10;
pub const SYS_MUNMAP: u64 = 11;
pub const SYS_BRK: u64 = 12;
pub const SYS_RT_SIGACTION: u64 = 13;
pub const SYS_RT_SIGPROCMASK: u64 = 14;
pub const SYS_RT_SIGRETURN: u64 = 15;
pub const SYS_IOCTL: u64 = 16;
pub const SYS_PREAD64: u64 = 17;
pub const SYS_READV: u64 = 19;
pub const SYS_WRITEV: u64 = 20;
pub const SYS_PIPE: u64 = 22;
pub const SYS_MADVISE: u64 = 28;
pub const SYS_NANOSLEEP: u64 = 35;
pub const SYS_GETPID: u64 = 39;
pub const SYS_SOCKET: u64 = 41;
pub const SYS_CONNECT: u64 = 42;
pub const SYS_ACCEPT: u64 = 43;
pub const SYS_RECVFROM: u64 = 45;
pub const SYS_SENDMSG: u64 = 46;
pub const SYS_RECVMSG: u64 = 47;
pub const SYS_SHUTDOWN: u64 = 48;
pub const SYS_BIND: u64 = 49;
pub const SYS_LISTEN: u64 = 50;
pub const SYS_GETSOCKNAME: u64 = 51;
pub const SYS_GETPEERNAME: u64 = 52;
pub const SYS_SOCKETPAIR: u64 = 53;
pub const SYS_SETSOCKOPT: u64 = 54;
pub const SYS_GETSOCKOPT: u64 = 55;
pub const SYS_CLONE: u64 = 56;
pub const SYS_FORK: u64 = 57;
pub const SYS_VFORK: u64 = 58;
pub const SYS_EXECVE: u64 = 59;
pub const SYS_EXIT: u64 = 60;
pub const SYS_WAIT4: u64 = 61;
pub const SYS_KILL: u64 = 62;
pub const SYS_FCNTL: u64 = 72;
pub const SYS_TRUNCATE: u64 = 76;
pub const SYS_FTRUNCATE: u64 = 77;
pub const SYS_GETTIMEOFDAY: u64 = 96;
pub const SYS_GETUID: u64 = 102;
pub const SYS_SETUID: u64 = 105;
pub const SYS_GETEUID: u64 = 107;
pub const SYS_SETREUID: u64 = 113;
pub const SYS_SETRESUID: u64 = 117;
pub const SYS_GETRESUID: u64 = 118;
pub const SYS_SETFSUID: u64 = 122;
pub const SYS_SIGALTSTACK: u64 = 131;
pub const SYS_ADJTIMEX: u64 = 159;
pub const SYS_SETTIMEOFDAY: u64 = 164;
pub const SYS_GETTID: u64 = 186;
pub const SYS_FUTEX: u64 = 202;
pub const SYS_SCHED_GETAFFINITY: u64 = 204;
pub const SYS_TIME: u64 = 201;
pub const SYS_EXIT_GROUP: u64 = 231;
pub const SYS_CLOCK_SETTIME: u64 = 227;
pub const SYS_CLOCK_GETTIME: u64 = 228;
pub const SYS_CLOCK_GETRES: u64 = 229;
pub const SYS_CLOCK_NANOSLEEP: u64 = 230;
pub const SYS_OPENAT: u64 = 257;
pub const SYS_PIPE2: u64 = 293;
pub const SYS_ACCEPT4: u64 = 288;
pub const SYS_EVENTFD2: u64 = 290;
pub const SYS_EPOLL_CREATE1: u64 = 291;
pub const SYS_CLOCK_ADJTIME: u64 = 305;
pub const SYS_GETRANDOM: u64 = 318;
pub const SYS_RSEQ: u64 = 334;
pub const SYS_CLONE3: u64 = 435;

} // verus!
