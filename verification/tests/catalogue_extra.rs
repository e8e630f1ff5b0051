//! The remaining catalogues, and the platform constants checked against the
//! kernel's own tables.

use extrasafe::builtins::network;
use extrasafe::builtins::systemio;
use extrasafe::syscall;
use extrasafe::{BasicRuleset, ForkAndExec, Networking, RuleSet, SyscallId, SystemIO, Threads};
use extrasafe::PathAccess;
use syscalls::Sysno;

fn id(s: Sysno) -> SyscallId {
    SyscallId::new(s as u64)
}

#[test]
fn syscall_numbers_match_kernel_table() {
    assert_eq!(syscall::SYS_READ, Sysno::read as u64);
    assert_eq!(syscall::SYS_WRITE, Sysno::write as u64);
    assert_eq!(syscall::SYS_OPEN, Sysno::open as u64);
    assert_eq!(syscall::SYS_CLOSE, Sysno::close as u64);
    assert_eq!(syscall::SYS_FSTAT, Sysno::fstat as u64);
    assert_eq!(syscall::SYS_LSEEK, Sysno::lseek as u64);
    assert_eq!(syscall::SYS_MMAP, Sysno::mmap as u64);
    assert_eq!(syscall::SYS_MPROTECT, Sysno::mprotect as u64);
    assert_eq!(syscall::SYS_MUNMAP, Sysno::munmap as u64);
    assert_eq!(syscall::SYS_BRK, Sysno::brk as u64);
    assert_eq!(syscall::SYS_RT_SIGACTION, Sysno::rt_sigaction as u64);
    assert_eq!(syscall::SYS_RT_SIGPROCMASK, Sysno::rt_sigprocmask as u64);
    assert_eq!(syscall::SYS_RT_SIGRETURN, Sysno::rt_sigreturn as u64);
    assert_eq!(syscall::SYS_IOCTL, Sysno::ioctl as u64);
    assert_eq!(syscall::SYS_PREAD64, Sysno::pread64 as u64);
    assert_eq!(syscall::SYS_READV, Sysno::readv as u64);
    assert_eq!(syscall::SYS_WRITEV, Sysno::writev as u64);
    assert_eq!(syscall::SYS_PIPE, Sysno::pipe as u64);
    assert_eq!(syscall::SYS_MADVISE, Sysno::madvise as u64);
    assert_eq!(syscall::SYS_NANOSLEEP, Sysno::nanosleep as u64);
    assert_eq!(syscall::SYS_GETPID, Sysno::getpid as u64);
    assert_eq!(syscall::SYS_SOCKET, Sysno::socket as u64);
    assert_eq!(syscall::SYS_CONNECT, Sysno::connect as u64);
    assert_eq!(syscall::SYS_ACCEPT, Sysno::accept as u64);
    assert_eq!(syscall::SYS_RECVFROM, Sysno::recvfrom as u64);
    assert_eq!(syscall::SYS_SENDMSG, Sysno::sendmsg as u64);
    assert_eq!(syscall::SYS_RECVMSG, Sysno::recvmsg as u64);
    assert_eq!(syscall::SYS_SHUTDOWN, Sysno::shutdown as u64);
    assert_eq!(syscall::SYS_BIND, Sysno::bind as u64);
    assert_eq!(syscall::SYS_LISTEN, Sysno::listen as u64);
    assert_eq!(syscall::SYS_GETSOCKNAME, Sysno::getsockname as u64);
    assert_eq!(syscall::SYS_GETPEERNAME, Sysno::getpeername as u64);
    assert_eq!(syscall::SYS_SOCKETPAIR, Sysno::socketpair as u64);
    assert_eq!(syscall::SYS_SETSOCKOPT, Sysno::setsockopt as u64);
    assert_eq!(syscall::SYS_GETSOCKOPT, Sysno::getsockopt as u64);
    assert_eq!(syscall::SYS_CLONE, Sysno::clone as u64);
    assert_eq!(syscall::SYS_FORK, Sysno::fork as u64);
    assert_eq!(syscall::SYS_VFORK, Sysno::vfork as u64);
    assert_eq!(syscall::SYS_EXECVE, Sysno::execve as u64);
    assert_eq!(syscall::SYS_EXIT, Sysno::exit as u64);
    assert_eq!(syscall::SYS_WAIT4, Sysno::wait4 as u64);
    assert_eq!(syscall::SYS_KILL, Sysno::kill as u64);
    assert_eq!(syscall::SYS_FCNTL, Sysno::fcntl as u64);
    assert_eq!(syscall::SYS_TRUNCATE, Sysno::truncate as u64);
    assert_eq!(syscall::SYS_FTRUNCATE, Sysno::ftruncate as u64);
    assert_eq!(syscall::SYS_GETTIMEOFDAY, Sysno::gettimeofday as u64);
    assert_eq!(syscall::SYS_GETUID, Sysno::getuid as u64);
    assert_eq!(syscall::SYS_SETUID, Sysno::setuid as u64);
    assert_eq!(syscall::SYS_GETEUID, Sysno::geteuid as u64);
    assert_eq!(syscall::SYS_SETREUID, Sysno::setreuid as u64);
    assert_eq!(syscall::SYS_SETRESUID, Sysno::setresuid as u64);
    assert_eq!(syscall::SYS_GETRESUID, Sysno::getresuid as u64);
    assert_eq!(syscall::SYS_SETFSUID, Sysno::setfsuid as u64);
    assert_eq!(syscall::SYS_SIGALTSTACK, Sysno::sigaltstack as u64);
    assert_eq!(syscall::SYS_ADJTIMEX, Sysno::adjtimex as u64);
    assert_eq!(syscall::SYS_SETTIMEOFDAY, Sysno::settimeofday as u64);
    assert_eq!(syscall::SYS_GETTID, Sysno::gettid as u64);
    assert_eq!(syscall::SYS_FUTEX, Sysno::futex as u64);
    assert_eq!(syscall::SYS_SCHED_GETAFFINITY, Sysno::sched_getaffinity as u64);
    assert_eq!(syscall::SYS_TIME, Sysno::time as u64);
    assert_eq!(syscall::SYS_EXIT_GROUP, Sysno::exit_group as u64);
    assert_eq!(syscall::SYS_CLOCK_SETTIME, Sysno::clock_settime as u64);
    assert_eq!(syscall::SYS_CLOCK_GETTIME, Sysno::clock_gettime as u64);
    assert_eq!(syscall::SYS_CLOCK_GETRES, Sysno::clock_getres as u64);
    assert_eq!(syscall::SYS_CLOCK_NANOSLEEP, Sysno::clock_nanosleep as u64);
    assert_eq!(syscall::SYS_OPENAT, Sysno::openat as u64);
    assert_eq!(syscall::SYS_PIPE2, Sysno::pipe2 as u64);
    assert_eq!(syscall::SYS_ACCEPT4, Sysno::accept4 as u64);
    assert_eq!(syscall::SYS_CLOCK_ADJTIME, Sysno::clock_adjtime as u64);
    assert_eq!(syscall::SYS_GETRANDOM, Sysno::getrandom as u64);
    assert_eq!(syscall::SYS_RSEQ, Sysno::rseq as u64);
    assert_eq!(syscall::SYS_CLONE3, Sysno::clone3 as u64);
}

#[test]
fn socket_constants_match_libc() {
    assert_eq!(network::AF_NETLINK, libc::AF_NETLINK as u64);
    assert_eq!(network::SOCK_RAW, libc::SOCK_RAW as u64);
    assert_eq!(network::AF_INET, libc::AF_INET as u64);
    assert_eq!(network::AF_INET6, libc::AF_INET6 as u64);
    assert_eq!(network::SOCK_STREAM, libc::SOCK_STREAM as u64);
}

#[test]
fn open_flag_constants_match_libc() {
    assert_eq!(systemio::O_WRONLY, libc::O_WRONLY as u64);
    assert_eq!(systemio::O_RDWR, libc::O_RDWR as u64);
    assert_eq!(systemio::O_CREAT, libc::O_CREAT as u64);
    assert_eq!(systemio::O_EXCL, libc::O_EXCL as u64);
    assert_eq!(systemio::O_TRUNC, libc::O_TRUNC as u64);
    assert_eq!(systemio::O_APPEND, libc::O_APPEND as u64);
    assert_eq!(systemio::O_TMPFILE, libc::O_TMPFILE as u64);
    let mask = libc::O_WRONLY | libc::O_RDWR | libc::O_CREAT | libc::O_EXCL | libc::O_TRUNC
        | libc::O_APPEND | libc::O_TMPFILE;
    assert_eq!(systemio::WRITECREATE_MASK, mask as u64);
}

#[test]
fn basic_ruleset_covers_program_housekeeping() {
    let rules = BasicRuleset.simple_rules();
    assert_eq!(BasicRuleset.name(), "BasicRuleset");
    assert!(BasicRuleset.conditional_rules().is_empty());
    assert!(rules.contains(&id(Sysno::write)));
    assert!(rules.contains(&id(Sysno::futex)));
    assert!(rules.contains(&id(Sysno::munmap)));
    assert!(rules.contains(&id(Sysno::sigaltstack)));
    assert!(rules.contains(&id(Sysno::exit)));
    assert!(rules.contains(&id(Sysno::exit_group)));
    assert!(!rules.contains(&id(Sysno::openat)));
    assert!(!rules.contains(&id(Sysno::socket)));
}

#[test]
fn networking_clients_but_no_servers() {
    let rules = Networking::nothing().allow_start_tcp_clients();
    assert_eq!(rules.name(), "Networking");
    let simple = rules.simple_rules();
    assert!(simple.contains(&id(Sysno::connect)));
    assert!(!simple.contains(&id(Sysno::bind)));
    assert!(!simple.contains(&id(Sysno::listen)));
    let cond = rules.conditional_rules();
    assert_eq!(cond.len(), 1);
    assert!(cond.contains_key(&id(Sysno::socket)));
}

#[test]
fn networking_servers_add_listening() {
    let rules = Networking::nothing().allow_start_tcp_clients().allow_start_tcp_servers();
    let simple = rules.simple_rules();
    assert!(simple.contains(&id(Sysno::bind)));
    assert!(simple.contains(&id(Sysno::listen)));
    assert!(simple.contains(&id(Sysno::accept4)));
    assert!(simple.contains(&id(Sysno::connect)));
}

#[test]
fn networking_nothing_is_empty() {
    let rules = Networking::nothing();
    assert!(rules.simple_rules().is_empty());
    assert!(rules.conditional_rules().is_empty());
}

#[test]
fn systemio_open_readonly_is_conditional() {
    let rules = SystemIO::nothing().allow_open_readonly();
    assert_eq!(rules.name(), "SystemIO");
    assert!(rules.simple_rules().is_empty());
    let cond = rules.conditional_rules();
    assert_eq!(cond.len(), 2);
    assert!(cond.contains_key(&id(Sysno::open)));
    assert!(cond.contains_key(&id(Sysno::openat)));
}

#[test]
fn systemio_read_set() {
    let rules = SystemIO::nothing().allow_read().allow_metadata().allow_close();
    let simple = rules.simple_rules();
    assert!(simple.contains(&id(Sysno::read)));
    assert!(simple.contains(&id(Sysno::pread64)));
    assert!(simple.contains(&id(Sysno::readv)));
    assert!(simple.contains(&id(Sysno::lseek)));
    assert!(simple.contains(&id(Sysno::fstat)));
    assert!(simple.contains(&id(Sysno::close)));
    assert!(!simple.contains(&id(Sysno::write)));
}

#[test]
fn systemio_path_grants() {
    let rules = SystemIO::nothing().allow_read_path("/etc".to_string());
    let paths = rules.landlock_rules();
    assert_eq!(paths.len(), 1);
    assert_eq!(paths[0].path, "/etc");
    assert_eq!(paths[0].rights, vec![PathAccess::ReadFile, PathAccess::ReadDir]);
}

#[test]
fn threads_and_fork_catalogues() {
    let t = Threads::nothing().allow_create();
    let simple = t.simple_rules();
    assert_eq!(t.name(), "Threads");
    assert!(simple.contains(&id(Sysno::clone)));
    assert!(simple.contains(&id(Sysno::clone3)));

    let f = ForkAndExec.simple_rules();
    assert_eq!(ForkAndExec.name(), "ForkAndExec");
    assert!(f.contains(&id(Sysno::fork)));
    assert!(f.contains(&id(Sysno::execve)));
    assert!(f.contains(&id(Sysno::wait4)));
}
