//! Schema migrations.
//!
//! The script set is ordered by version; a persisted ledger records
//! which versions have already been applied. Before serving, the
//! process asks this module which versions remain, applies them in the
//! order returned, and records each in the ledger. The plan is what is
//! decided here; running the scripts is the process edge's work.

use vstd::prelude::*;

verus! {

/// Strictly ascending: each version appears once and in order.
pub open spec fn strictly_ascending(s: Seq<i64>) -> bool {
    forall|i: int, j: int| 0 <= i < j < s.len() ==> s[i] < s[j]
}

/// Whether the ledger records a version as applied.
fn is_applied(applied: &Vec<i64>, v: i64) -> (r: bool)
    ensures
        r == applied@.contains(v),
{
    let n = applied.len();
    let mut i: usize = 0;
    while i < n
        invariant
            n == applied.len(),
            0 <= i <= n,
            forall|j: int| 0 <= j < i ==> applied@[j] != v,
        decreases n - i,
    {
        if applied[i] == v {
            return true;
        }
        i += 1;
    }
    false
}

/// The versions still to apply: exactly those available versions the
/// ledger does not record, in strictly ascending order — so each is
/// applied at most once, and restarts are idempotent once the ledger
/// is complete.
pub fn pending_migrations(available: &Vec<i64>, applied: &Vec<i64>) -> (r: Vec<i64>)
    requires
        strictly_ascending(available@),
    ensures
        strictly_ascending(r@),
        forall|v: i64| r@.contains(v) <==> (available@.contains(v) && !applied@.contains(v)),
{
    broadcast use vstd::seq_lib::lemma_seq_contains_after_push;

    let n = available.len();
    let mut r: Vec<i64> = Vec::new();
    let mut i: usize = 0;
    while i < n
        invariant
            n == available.len(),
            strictly_ascending(available@),
            0 <= i <= n,
            strictly_ascending(r@),
            forall|k: int|
                0 <= k < r@.len() ==> exists|j: int|
                    0 <= j < i && available@[j] == #[trigger] r@[k],
            forall|v: i64|
                r@.contains(v) <==> (exists|j: int|
                    0 <= j < i && #[trigger] available@[j] == v && !applied@.contains(v)),
        decreases n - i,
    {
        let v = available[i];
        let ghost r0 = r@;
        let pushed = !is_applied(applied, v);
        if pushed {
            proof {
                assert forall|k: int| 0 <= k < r@.len() implies r@[k] < v by {
                    let j = choose|j: int| 0 <= j < i && available@[j] == r@[k];
                    assert(available@[j] < available@[i as int]);
                }
            }
            r.push(v);
        }
        proof {
            assert forall|w: i64| #[trigger] r@.contains(w) implies (exists|j: int|
                0 <= j < i + 1 && available@[j] == w && !applied@.contains(w)) by {
                if pushed && w == v {
                    assert(available@[i as int] == w && !applied@.contains(w));
                } else {
                    assert(r0.contains(w));
                    let j = choose|j: int|
                        0 <= j < i && #[trigger] available@[j] == w && !applied@.contains(w);
                    assert(0 <= j < i + 1 && available@[j] == w && !applied@.contains(w));
                }
            }
            assert forall|w: i64|
                (exists|j: int|
                    0 <= j < i + 1 && #[trigger] available@[j] == w && !applied@.contains(
                        w,
                    )) implies r@.contains(w) by {
                let j = choose|j: int|
                    0 <= j < i + 1 && available@[j] == w && !applied@.contains(w);
                if j == i as int {
                    assert(w == v);
                    assert(r@[r@.len() - 1] == v);
                } else {
                    assert(r0.contains(w));
                    let k = choose|k: int| 0 <= k < r0.len() && r0[k] == w;
                    assert(r@[k] == w);
                }
            }
        }
        i += 1;
    }
    proof {
        assert forall|v: i64|
            r@.contains(v) <==> (available@.contains(v) && !applied@.contains(v)) by {
            if available@.contains(v) && !applied@.contains(v) {
                let j = choose|j: int| 0 <= j < available@.len() && available@[j] == v;
                assert(available@[j] == v);
            }
        }
    }
    r
}

} // verus!
