//! Allow network sockets: netlink, socket pairs, and TCP networking.

use vstd::prelude::*;

use crate::builtins::{add_syscall, insert_syscall};
use crate::path_rights::{LandlockRule, LandlockRuleView};
use crate::rule::{ConditionalRule, RuleView, SeccompArgumentFilter, SeccompComparator};
use crate::rulemap::{RuleEntryView, RuleMap};
use crate::ruleset::RuleSet;
use crate::syscall::{
    sorted_by_nr, syscall_ids_in_range, SyscallId, SYS_ACCEPT, SYS_ACCEPT4, SYS_BIND, SYS_CONNECT, SYS_GETPEERNAME, SYS_GETSOCKNAME,
    SYS_GETSOCKOPT, SYS_LISTEN, SYS_RECVFROM, SYS_RECVMSG, SYS_SENDMSG, SYS_SETSOCKOPT,
    SYS_SHUTDOWN, SYS_SOCKET, SYS_SOCKETPAIR,
};

verus! {

/// The `AF_NETLINK` address family.
pub const AF_NETLINK: u64 = 16;

/// The `SOCK_RAW` socket type.
pub const SOCK_RAW: u64 = 3;

/// The `AF_INET` address family.
pub const AF_INET: u64 = 2;

/// The `AF_INET6` address family.
pub const AF_INET6: u64 = 10;

/// The `SOCK_STREAM` socket type.
pub const SOCK_STREAM: u64 = 1;

/// Mask selecting the socket-type bits of the `socket` type argument,
/// ignoring `SOCK_NONBLOCK` and `SOCK_CLOEXEC`.
pub const SOCK_TYPE_MASK: u64 = 255;

/// Allow the syscall `socket` to open a netlink socket.
#[derive(Clone, Copy, Debug, Default, Eq, Hash, PartialEq, PartialOrd)]
#[must_use]
pub struct Netlink;

/// The one admission Netlink grants: a raw netlink socket.
pub open spec fn netlink_socket_rule() -> RuleView {
    RuleView {
        syscall: SyscallId { nr: SYS_SOCKET },
        filters: seq![
            SeccompArgumentFilter {
                arg_idx: 0,
                comparator: SeccompComparator::MaskedEqual(AF_NETLINK),
                value: AF_NETLINK,
            },
            SeccompArgumentFilter {
                arg_idx: 1,
                comparator: SeccompComparator::MaskedEqual(SOCK_RAW),
                value: SOCK_RAW,
            },
        ],
    }
}

impl RuleSet for Netlink {
    open spec fn spec_simple_rules(&self) -> Seq<SyscallId> {
        Seq::empty()
    }

    open spec fn spec_conditional_rules(&self) -> Seq<RuleEntryView> {
        seq![
            RuleEntryView { syscall: SyscallId { nr: SYS_SOCKET }, rules: seq![netlink_socket_rule()] },
        ]
    }

    open spec fn spec_landlock_rules(&self) -> Seq<LandlockRuleView> {
        Seq::empty()
    }

    open spec fn spec_name(&self) -> Seq<char> {
        "Netlink"@
    }

    fn simple_rules(&self) -> (r: Vec<SyscallId>) {
        let v: Vec<SyscallId> = Vec::new();
        assert(v@ =~= self.spec_simple_rules());
        assert(syscall_ids_in_range(v@));
        v
    }

    fn conditional_rules(&self) -> (r: RuleMap) {
        let socket = SyscallId::new(SYS_SOCKET);
        let rule = ConditionalRule::new(socket).and_condition(
            SeccompArgumentFilter::new(0, SeccompComparator::MaskedEqual(AF_NETLINK), AF_NETLINK),
        ).and_condition(
            SeccompArgumentFilter::new(1, SeccompComparator::MaskedEqual(SOCK_RAW), SOCK_RAW),
        );
        proof {
            assert(rule@.filters =~= netlink_socket_rule().filters);
            assert(rule@ == netlink_socket_rule());
        }
        let mut rules: Vec<ConditionalRule> = Vec::new();
        rules.push(rule);
        let mut m = RuleMap::new();
        proof {
            assert(rules@.map_values(|r: ConditionalRule| r@) =~= seq![netlink_socket_rule()]);
        }
        m.insert(socket, rules);
        proof {
            assert(m@ =~= self.spec_conditional_rules());
        }
        m
    }

    fn landlock_rules(&self) -> (r: Vec<LandlockRule>) {
        let v: Vec<LandlockRule> = Vec::new();
        assert(v@.map_values(|l: LandlockRule| l@) =~= self.spec_landlock_rules());
        v
    }

    fn name(&self) -> (r: &'static str) {
        "Netlink"
    }
}

/// Allow the syscall `socketpair` to create a pair of connected sockets.
#[derive(Clone, Copy, Debug, Default, Eq, Hash, PartialEq, PartialOrd)]
#[must_use]
pub struct SocketPair;

impl RuleSet for SocketPair {
    open spec fn spec_simple_rules(&self) -> Seq<SyscallId> {
        seq![SyscallId { nr: SYS_SOCKETPAIR }]
    }

    open spec fn spec_conditional_rules(&self) -> Seq<RuleEntryView> {
        Seq::empty()
    }

    open spec fn spec_landlock_rules(&self) -> Seq<LandlockRuleView> {
        Seq::empty()
    }

    open spec fn spec_name(&self) -> Seq<char> {
        "SocketPair"@
    }

    fn simple_rules(&self) -> (r: Vec<SyscallId>) {
        let mut v: Vec<SyscallId> = Vec::new();
        v.push(SyscallId::new(SYS_SOCKETPAIR));
        assert(v@ =~= self.spec_simple_rules());
        assert(syscall_ids_in_range(v@));
        v
    }

    fn conditional_rules(&self) -> (r: RuleMap) {
        let r = RuleMap::new();
        assert(r@ =~= self.spec_conditional_rules());
        r
    }

    fn landlock_rules(&self) -> (r: Vec<LandlockRule>) {
        let v: Vec<LandlockRule> = Vec::new();
        assert(v@.map_values(|l: LandlockRule| l@) =~= self.spec_landlock_rules());
        v
    }

    fn name(&self) -> (r: &'static str) {
        "SocketPair"
    }
}

/// One admission for an IP stream socket of the given address family.
pub open spec fn tcp_socket_rule(family: u64) -> RuleView {
    RuleView {
        syscall: SyscallId { nr: SYS_SOCKET },
        filters: seq![
            SeccompArgumentFilter {
                arg_idx: 0,
                comparator: SeccompComparator::Equal,
                value: family,
            },
            SeccompArgumentFilter {
                arg_idx: 1,
                comparator: SeccompComparator::MaskedEqual(SOCK_TYPE_MASK),
                value: SOCK_STREAM,
            },
        ],
    }
}

/// Allow TCP networking: outbound client connections, and optionally
/// listening server sockets.
#[derive(Debug, Eq, Hash, PartialEq, PartialOrd)]
#[must_use]
pub struct Networking {
    /// The unconditionally permitted syscalls, added by builder methods.
    syscalls: Vec<SyscallId>,
    /// Whether IP stream sockets may be opened.
    tcp: bool,
}

impl View for Networking {
    type V = (Seq<SyscallId>, bool);

    closed spec fn view(&self) -> (Seq<SyscallId>, bool) {
        (self.syscalls@, self.tcp)
    }
}

impl Networking {
    /// Builder methods keep the syscall list strictly ascending by number,
    /// so it is sorted, duplicate-free, and names only compilable syscalls.
    #[verifier::type_invariant]
    spec fn inv(self) -> bool {
        &&& sorted_by_nr(self@.0)
        &&& syscall_ids_in_range(self@.0)
    }

    /// A rule set that allows no networking at all.
    pub fn nothing() -> (r: Networking)
        ensures
            r@ == (Seq::<SyscallId>::empty(), false),
    {
        let r = Networking { syscalls: Vec::new(), tcp: false };
        proof {
            assert(r@ == (Seq::<SyscallId>::empty(), false));
        }
        r
    }

    /// Allow opening IP stream sockets and issuing outbound connections:
    /// a TCP client, but no listening server socket.
    pub fn allow_start_tcp_clients(self) -> (r: Networking)
        ensures
            r@.0 == add_syscall(
                add_syscall(
                    add_syscall(
                        add_syscall(
                            add_syscall(
                                add_syscall(
                                    add_syscall(self@.0, SYS_CONNECT),
                                    SYS_GETSOCKNAME,
                                ),
                                SYS_GETPEERNAME,
                            ),
                            SYS_SETSOCKOPT,
                        ),
                        SYS_GETSOCKOPT,
                    ),
                    SYS_RECVFROM,
                ),
                SYS_SHUTDOWN,
            ),
            r@.1,
    {
        proof {
            use_type_invariant(&self);
        }
        let mut syscalls = self.syscalls;
        insert_syscall(&mut syscalls, SYS_CONNECT);
        insert_syscall(&mut syscalls, SYS_GETSOCKNAME);
        insert_syscall(&mut syscalls, SYS_GETPEERNAME);
        insert_syscall(&mut syscalls, SYS_SETSOCKOPT);
        insert_syscall(&mut syscalls, SYS_GETSOCKOPT);
        insert_syscall(&mut syscalls, SYS_RECVFROM);
        insert_syscall(&mut syscalls, SYS_SHUTDOWN);
        Networking { syscalls, tcp: true }
    }

    /// Additionally allow binding, listening and accepting: a TCP server.
    pub fn allow_start_tcp_servers(self) -> (r: Networking)
        ensures
            r@.0 == add_syscall(
                add_syscall(
                    add_syscall(
                        add_syscall(
                            add_syscall(
                                add_syscall(
                                    add_syscall(self@.0, SYS_BIND),
                                    SYS_LISTEN,
                                ),
                                SYS_ACCEPT,
                            ),
                            SYS_ACCEPT4,
                        ),
                        SYS_GETSOCKNAME,
                    ),
                    SYS_SETSOCKOPT,
                ),
                SYS_GETSOCKOPT,
            ),
            r@.1,
    {
        proof {
            use_type_invariant(&self);
        }
        let mut syscalls = self.syscalls;
        insert_syscall(&mut syscalls, SYS_BIND);
        insert_syscall(&mut syscalls, SYS_LISTEN);
        insert_syscall(&mut syscalls, SYS_ACCEPT);
        insert_syscall(&mut syscalls, SYS_ACCEPT4);
        insert_syscall(&mut syscalls, SYS_GETSOCKNAME);
        insert_syscall(&mut syscalls, SYS_SETSOCKOPT);
        insert_syscall(&mut syscalls, SYS_GETSOCKOPT);
        Networking { syscalls, tcp: true }
    }
}

impl RuleSet for Networking {
    open spec fn spec_simple_rules(&self) -> Seq<SyscallId> {
        self@.0
    }

    open spec fn spec_conditional_rules(&self) -> Seq<RuleEntryView> {
        if self@.1 {
            seq![
                RuleEntryView {
                    syscall: SyscallId { nr: SYS_SOCKET },
                    rules: seq![tcp_socket_rule(AF_INET), tcp_socket_rule(AF_INET6)],
                },
            ]
        } else {
            Seq::empty()
        }
    }

    open spec fn spec_landlock_rules(&self) -> Seq<LandlockRuleView> {
        Seq::empty()
    }

    open spec fn spec_name(&self) -> Seq<char> {
        "Networking"@
    }

    fn simple_rules(&self) -> (r: Vec<SyscallId>)
        ensures
            sorted_by_nr(r@),
    {
        proof {
            use_type_invariant(self);
        }
        let mut v: Vec<SyscallId> = Vec::new();
        let mut i: usize = 0;
        while i < self.syscalls.len()
            invariant
                i <= self.syscalls.len(),
                v@ == self.syscalls@.take(i as int),
            decreases self.syscalls.len() - i,
        {
            v.push(self.syscalls[i]);
            assert(self.syscalls@.take(i + 1) == self.syscalls@.take(i as int).push(
                self.syscalls@[i as int],
            ));
            i = i + 1;
        }
        assert(v@ == self.syscalls@);
        v
    }

    fn conditional_rules(&self) -> (r: RuleMap) {
        let mut m = RuleMap::new();
        if self.tcp {
            let socket = SyscallId::new(SYS_SOCKET);
            let rule4 = ConditionalRule::new(socket).and_condition(
                SeccompArgumentFilter::new(0, SeccompComparator::Equal, AF_INET),
            ).and_condition(
                SeccompArgumentFilter::new(
                    1,
                    SeccompComparator::MaskedEqual(SOCK_TYPE_MASK),
                    SOCK_STREAM,
                ),
            );
            let rule6 = ConditionalRule::new(socket).and_condition(
                SeccompArgumentFilter::new(0, SeccompComparator::Equal, AF_INET6),
            ).and_condition(
                SeccompArgumentFilter::new(
                    1,
                    SeccompComparator::MaskedEqual(SOCK_TYPE_MASK),
                    SOCK_STREAM,
                ),
            );
            proof {
                assert(rule4@.filters =~= tcp_socket_rule(AF_INET).filters);
                assert(rule4@ == tcp_socket_rule(AF_INET));
                assert(rule6@.filters =~= tcp_socket_rule(AF_INET6).filters);
                assert(rule6@ == tcp_socket_rule(AF_INET6));
            }
            let mut rules: Vec<ConditionalRule> = Vec::new();
            rules.push(rule4);
            rules.push(rule6);
            proof {
                assert(rules@.map_values(|r: ConditionalRule| r@) =~= seq![
                    tcp_socket_rule(AF_INET),
                    tcp_socket_rule(AF_INET6),
                ]);
            }
            m.insert(socket, rules);
        }
        assert(m@ =~= self.spec_conditional_rules());
        m
    }

    fn landlock_rules(&self) -> (r: Vec<LandlockRule>) {
        let v: Vec<LandlockRule> = Vec::new();
        assert(v@.map_values(|l: LandlockRule| l@) =~= self.spec_landlock_rules());
        v
    }

    fn name(&self) -> (r: &'static str) {
        "Networking"
    }
}

} // verus!
