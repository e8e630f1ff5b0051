//! Kernel-enforced self-sandboxing for Linux processes.
//!
//! A process declares, through composable rule sets, which syscalls and
//! filesystem paths it intends to use, merges those declarations into one
//! coherent policy, and installs that policy irreversibly into the kernel:
//! a seccomp filter for syscalls, and a Landlock ruleset for path rights.

pub mod builtins;
pub mod custom;
pub mod error;
pub mod laws;
pub mod path_rights;
pub mod policy;
pub mod rule;
pub mod rulemap;
pub mod ruleset;
pub mod syscall;

pub mod context;
pub mod landlock_sys;
pub mod seccomp_sys;

pub use builtins::{BasicRuleset, ForkAndExec, Kill, Netlink, Networking, Pipes, SocketPair, SystemIO, Threads, Time, Truncate, UserId};
pub use context::{CompiledPolicy, SafetyContext};
pub use custom::CustomRuleset;
pub use error::ExtraSafeError;
pub use path_rights::{LandlockRule, PathAccess};
pub use ruleset::{RuleSet, YesReally};
pub use rule::{ConditionalRule, SeccompArgumentFilter, SeccompComparator};
pub use rulemap::RuleMap;
pub use syscall::SyscallId;
