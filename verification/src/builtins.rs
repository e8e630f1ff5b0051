//! Built-in rule sets: ready-made capability declarations.
//!
//! Each type here is pure data behind the [`crate::RuleSet`] interface: the
//! syscalls it permits unconditionally, its conditional grants, and its path
//! grants. The helpers in this module keep a builder's syscall list strictly
//! ascending by syscall number, so queries return a sorted, duplicate-free
//! list however the builder methods were chained.

use vstd::prelude::*;

use crate::syscall::{sorted_by_nr, syscall_ids_in_range, SyscallId, SYSCALL_NR_LIMIT};

pub mod basic;
pub mod danger_zone;
pub mod kill;
pub mod network;
pub mod pipes;
pub mod systemio;
pub mod time;
pub mod truncate;
pub mod user_id;

pub use crate::ruleset::YesReally;
pub use basic::BasicRuleset;
pub use danger_zone::{ForkAndExec, Threads};
pub use kill::Kill;
pub use network::{Netlink, Networking, SocketPair};
pub use pipes::Pipes;
pub use systemio::SystemIO;
pub use time::Time;
pub use truncate::Truncate;
pub use user_id::UserId;

verus! {

/// `s` with the syscall numbered `nr` inserted at its ascending position,
/// unless a syscall of that number is already present.
pub open spec fn add_syscall(s: Seq<SyscallId>, nr: u64) -> Seq<SyscallId>
    decreases s.len(),
{
    if s.len() == 0 {
        seq![SyscallId { nr }]
    } else if s[0].nr < nr {
        seq![s[0]] + add_syscall(s.drop_first(), nr)
    } else if s[0].nr == nr {
        s
    } else {
        seq![SyscallId { nr }] + s
    }
}

/// Inserting into an ascending list keeps it ascending; every element of
/// the result is the inserted syscall or one of the old elements.
pub proof fn lemma_add_syscall_sorted(s: Seq<SyscallId>, nr: u64)
    ensures
        forall|t: int|
            0 <= t < add_syscall(s, nr).len() ==> ((#[trigger] add_syscall(s, nr)[t]).nr == nr
                || s.contains(add_syscall(s, nr)[t])),
        sorted_by_nr(s) ==> sorted_by_nr(add_syscall(s, nr)),
    decreases s.len(),
{
    let r = add_syscall(s, nr);
    if s.len() == 0 {
        assert(r == seq![SyscallId { nr }]);
        assert(r[0].nr == nr);
    } else if s[0].nr < nr {
        let tail = s.drop_first();
        let rt = add_syscall(tail, nr);
        lemma_add_syscall_sorted(tail, nr);
        assert(r == seq![s[0]] + rt);
        assert forall|t: int| 0 <= t < r.len() implies ((#[trigger] r[t]).nr == nr || s.contains(
            r[t],
        )) by {
            if t == 0 {
                assert(r[0] == s[0]);
            } else {
                assert(r[t] == rt[t - 1]);
                if rt[t - 1].nr != nr {
                    assert(tail.contains(rt[t - 1]));
                    let k = choose|k: int| 0 <= k < tail.len() && tail[k] == rt[t - 1];
                    assert(s[k + 1] == rt[t - 1]);
                }
            }
        }
        if sorted_by_nr(s) {
            assert forall|a: int| 0 <= a < tail.len() implies (#[trigger] tail[a]).nr
                > s[0].nr by {
                assert(tail[a] == s[a + 1]);
            }
            assert(sorted_by_nr(tail));
            assert forall|a: int, b: int| 0 <= a < b < r.len() implies r[a].nr < r[b].nr by {
                if a == 0 {
                    assert(r[b] == rt[b - 1]);
                    if rt[b - 1].nr == nr {
                        assert(r[a].nr < nr);
                    } else {
                        assert(tail.contains(rt[b - 1]));
                        let k = choose|k: int| 0 <= k < tail.len() && tail[k] == rt[b - 1];
                        assert(tail[k].nr > s[0].nr);
                    }
                } else {
                    assert(r[a] == rt[a - 1] && r[b] == rt[b - 1]);
                }
            }
        }
    } else if s[0].nr == nr {
        assert(r == s);
    } else {
        assert(r == seq![SyscallId { nr }] + s);
        assert forall|t: int| 0 <= t < r.len() implies ((#[trigger] r[t]).nr == nr || s.contains(
            r[t],
        )) by {
            if t > 0 {
                assert(r[t] == s[t - 1]);
            }
        }
        if sorted_by_nr(s) {
            assert forall|a: int, b: int| 0 <= a < b < r.len() implies r[a].nr < r[b].nr by {
                if a == 0 {
                    assert(r[b] == s[b - 1]);
                    if b - 1 > 0 {
                        assert(s[b - 1].nr > s[0].nr);
                    }
                } else {
                    assert(r[a] == s[a - 1] && r[b] == s[b - 1]);
                }
            }
        }
    }
}

/// Insert the syscall numbered `nr` into the ascending list `v`, keeping it
/// ascending and duplicate-free.
#[verifier::loop_isolation(false)]
pub(crate) fn insert_syscall(v: &mut Vec<SyscallId>, nr: u64)
    requires
        nr < SYSCALL_NR_LIMIT,
    ensures
        final(v)@ == add_syscall(old(v)@, nr),
        sorted_by_nr(old(v)@) ==> sorted_by_nr(final(v)@),
        syscall_ids_in_range(old(v)@) ==> syscall_ids_in_range(final(v)@),
{
    let ghost v0 = v@;
    let id = SyscallId::new(nr);
    let mut out: Vec<SyscallId> = Vec::new();
    let mut i: usize = 0;
    assert(v0.skip(0) =~= v0);
    while i < v.len() && v[i].nr < nr
        invariant
            i <= v0.len(),
            out@ == v0.take(i as int),
            forall|t: int| 0 <= t < i ==> v0[t].nr < nr,
            add_syscall(v0, nr) == out@ + add_syscall(v0.skip(i as int), nr),
        decreases v0.len() - i,
    {
        let ghost pre = out@;
        out.push(v[i]);
        proof {
            assert(v0.take(i + 1) =~= v0.take(i as int).push(v0[i as int]));
            assert(v0.skip(i as int)[0] == v0[i as int]);
            assert(add_syscall(v0.skip(i as int), nr) == seq![v0[i as int]] + add_syscall(
                v0.skip(i as int).drop_first(),
                nr,
            ));
            assert(v0.skip(i as int).drop_first() =~= v0.skip(i as int + 1));
            assert(pre + add_syscall(v0.skip(i as int), nr) =~= out@ + add_syscall(
                v0.skip(i as int + 1),
                nr,
            ));
        }
        i = i + 1;
    }
    let ghost base = out@;
    let ghost rest = v0.skip(i as int);
    if i == v.len() {
        proof {
            assert(rest =~= Seq::<SyscallId>::empty());
            assert(add_syscall(rest, nr) == seq![id]);
        }
        out.push(id);
        assert(out@ =~= base + add_syscall(rest, nr));
    } else if v[i].nr == nr {
        proof {
            assert(rest[0] == v0[i as int]);
            assert(add_syscall(rest, nr) == rest);
        }
        let ghost i0 = i as int;
        while i < v.len()
            invariant
                i0 <= i <= v0.len(),
                out@ == base + v0.subrange(i0, i as int),
            decreases v0.len() - i,
        {
            out.push(v[i]);
            assert(v0.subrange(i0, i as int + 1) =~= v0.subrange(i0, i as int).push(
                v0[i as int],
            ));
            assert(out@ =~= base + v0.subrange(i0, i as int + 1));
            i = i + 1;
        }
        assert(v0.subrange(i0, v0.len() as int) =~= rest);
        assert(out@ =~= base + add_syscall(rest, nr));
    } else {
        proof {
            assert(rest[0] == v0[i as int]);
            assert(add_syscall(rest, nr) == seq![id] + rest);
        }
        out.push(id);
        let ghost i0 = i as int;
        while i < v.len()
            invariant
                i0 <= i <= v0.len(),
                out@ == base + seq![id] + v0.subrange(i0, i as int),
            decreases v0.len() - i,
        {
            out.push(v[i]);
            assert(v0.subrange(i0, i as int + 1) =~= v0.subrange(i0, i as int).push(
                v0[i as int],
            ));
            assert(out@ =~= base + seq![id] + v0.subrange(i0, i as int + 1));
            i = i + 1;
        }
        assert(v0.subrange(i0, v0.len() as int) =~= rest);
        assert(out@ =~= base + (seq![id] + rest));
        assert(out@ =~= base + add_syscall(rest, nr));
    }
    proof {
        assert(out@ == add_syscall(v0, nr));
        lemma_add_syscall_sorted(v0, nr);
        if syscall_ids_in_range(v0) {
            assert forall|t: int| 0 <= t < out@.len() implies (#[trigger] out@[t]).nr
                < SYSCALL_NR_LIMIT by {
                if out@[t].nr != nr {
                    assert(v0.contains(out@[t]));
                    let k = choose|k: int| 0 <= k < v0.len() && v0[k] == out@[t];
                    assert(v0[k].nr < SYSCALL_NR_LIMIT);
                }
            }
        }
    }
    *v = out;
}

} // verus!
