//! Presentation order of the registry: all monitors before all windows, the
//! primary monitor first among monitors, windows grouped by application name
//! with ties broken by title (a window without an application name sorts by
//! its title alone). The order is a total preorder, and the sort below
//! permutes its input into it.

use vstd::prelude::*;

use crate::targets::{CaptureTarget, TargetKind};
use crate::text::{lemma_seq_cmp_antisym, lemma_seq_cmp_trans, seq_cmp, str_cmp};

verus! {

/// Rank of a kind in presentation order: monitors first.
pub open spec fn kind_rank(k: TargetKind) -> int {
    match k {
        TargetKind::Monitor => 0,
        TargetKind::Window => 1,
    }
}

/// The key windows group by: the application name when present, else the
/// title.
pub open spec fn window_group_key(t: CaptureTarget) -> Seq<char> {
    match t.app_name {
        Some(a) => a@,
        None => t.name@,
    }
}

/// Presentation order: `a` may stand at or before `b`.
pub open spec fn target_le(a: CaptureTarget, b: CaptureTarget) -> bool {
    if kind_rank(a.kind) != kind_rank(b.kind) {
        kind_rank(a.kind) < kind_rank(b.kind)
    } else if a.kind is Monitor {
        a.is_primary || !b.is_primary
    } else {
        seq_cmp(window_group_key(a), window_group_key(b)) < 0 || (seq_cmp(
            window_group_key(a),
            window_group_key(b),
        ) == 0 && seq_cmp(a.name@, b.name@) <= 0)
    }
}

/// A sequence in presentation order.
pub open spec fn targets_sorted(s: Seq<CaptureTarget>) -> bool {
    forall|i: int, j: int| 0 <= i < j < s.len() ==> target_le(s[i], s[j])
}

/// Law: the presentation order is total — any two targets compare.
pub proof fn lemma_target_le_total(a: CaptureTarget, b: CaptureTarget)
    ensures
        target_le(a, b) || target_le(b, a),
{
    lemma_seq_cmp_antisym(window_group_key(a), window_group_key(b));
    lemma_seq_cmp_antisym(a.name@, b.name@);
}

/// Law: the presentation order is transitive.
pub proof fn lemma_target_le_trans(a: CaptureTarget, b: CaptureTarget, c: CaptureTarget)
    requires
        target_le(a, b),
        target_le(b, c),
    ensures
        target_le(a, c),
{
    lemma_seq_cmp_trans(window_group_key(a), window_group_key(b), window_group_key(c));
    lemma_seq_cmp_trans(a.name@, b.name@, c.name@);
}

/// Law: in a registry in presentation order, every monitor stands before
/// every window, and among monitors every primary one stands before every
/// non-primary one.
pub proof fn lemma_registry_order(s: Seq<CaptureTarget>)
    requires
        targets_sorted(s),
    ensures
        forall|i: int, j: int|
            0 <= i < j < s.len() && (#[trigger] s[j].kind) is Monitor ==> (#[trigger] s[i].kind)
                is Monitor,
        forall|i: int, j: int|
            0 <= i < j < s.len() && s[i].kind is Monitor && s[j].kind is Monitor
                && (#[trigger] s[j].is_primary) ==> (#[trigger] s[i].is_primary),
{
    assert forall|i: int, j: int|
        0 <= i < j < s.len() && (#[trigger] s[j].kind) is Monitor implies (#[trigger] s[i].kind)
        is Monitor by {
        assert(target_le(s[i], s[j]));
    }
    assert forall|i: int, j: int|
        0 <= i < j < s.len() && s[i].kind is Monitor && s[j].kind is Monitor && (#[trigger] s[j].is_primary) implies (
    #[trigger] s[i].is_primary) by {
        assert(target_le(s[i], s[j]));
    }
}

/// Law: when a registry in presentation order holds exactly one primary
/// monitor, that monitor stands before every other monitor.
pub proof fn lemma_primary_monitor_first(s: Seq<CaptureTarget>, k: int)
    requires
        targets_sorted(s),
        0 <= k < s.len(),
        s[k].kind is Monitor,
        s[k].is_primary,
        forall|i: int|
            0 <= i < s.len() && (#[trigger] s[i].kind) is Monitor && s[i].is_primary ==> i == k,
    ensures
        forall|i: int| 0 <= i < s.len() && (#[trigger] s[i].kind) is Monitor ==> k <= i,
{
    assert forall|i: int| 0 <= i < s.len() && (#[trigger] s[i].kind) is Monitor implies k <= i by {
        if i < k {
            assert(target_le(s[i], s[k]));
        }
    }
}

/// Decide the presentation order between two targets.
pub fn target_le_exec(a: &CaptureTarget, b: &CaptureTarget) -> (r: bool)
    ensures
        r == target_le(*a, *b),
{
    let ra: u8 = match a.kind {
        TargetKind::Monitor => 0,
        TargetKind::Window => 1,
    };
    let rb: u8 = match b.kind {
        TargetKind::Monitor => 0,
        TargetKind::Window => 1,
    };
    if ra != rb {
        return ra < rb;
    }
    match a.kind {
        TargetKind::Monitor => a.is_primary || !b.is_primary,
        TargetKind::Window => {
            let ka: &str = match &a.app_name {
                Some(n) => n.as_str(),
                None => a.name.as_str(),
            };
            let kb: &str = match &b.app_name {
                Some(n) => n.as_str(),
                None => b.name.as_str(),
            };
            let c = str_cmp(ka, kb);
            if c < 0 {
                true
            } else if c == 0 {
                str_cmp(a.name.as_str(), b.name.as_str()) <= 0
            } else {
                false
            }
        },
    }
}

/// Sort targets into presentation order. The result is a permutation of the
/// input: same elements, same multiplicities.
pub fn sort_targets(input: Vec<CaptureTarget>) -> (r: Vec<CaptureTarget>)
    ensures
        r@.to_multiset() == input@.to_multiset(),
        targets_sorted(r@),
        r@.len() == input@.len(),
{
    broadcast use vstd::seq_lib::group_to_multiset_ensures;
    broadcast use vstd::multiset::group_multiset_axioms;

    let ghost orig = input@;
    let mut rem = input;
    let mut out: Vec<CaptureTarget> = Vec::new();
    proof {
        assert(out@.to_multiset().add(rem@.to_multiset()) =~= orig.to_multiset());
    }
    while rem.len() > 0
        invariant
            out@.to_multiset().add(rem@.to_multiset()) == orig.to_multiset(),
            out@.len() + rem@.len() == orig.len(),
            targets_sorted(out@),
            forall|i: int, j: int|
                0 <= i < out@.len() && 0 <= j < rem@.len() ==> target_le(out@[i], rem@[j]),
        decreases rem@.len(),
    {
        let mut mi: usize = 0;
        let mut k: usize = 1;
        proof {
            lemma_target_le_total(rem@[0], rem@[0]);
        }
        while k < rem.len()
            invariant
                0 < rem@.len(),
                mi < k,
                k <= rem@.len(),
                forall|j: int| 0 <= j < k ==> target_le(rem@[mi as int], rem@[j]),
            decreases rem@.len() - k,
        {
            if target_le_exec(&rem[k], &rem[mi]) {
                proof {
                    assert forall|j: int| 0 <= j < k + 1 implies target_le(
                        rem@[k as int],
                        rem@[j],
                    ) by {
                        if j < k {
                            lemma_target_le_trans(rem@[k as int], rem@[mi as int], rem@[j]);
                        } else {
                            lemma_target_le_total(rem@[k as int], rem@[k as int]);
                        }
                    }
                }
                mi = k;
            } else {
                proof {
                    lemma_target_le_total(rem@[mi as int], rem@[k as int]);
                }
            }
            k = k + 1;
        }
        let ghost rem_before = rem@;
        let m = rem.remove(mi);
        proof {
            assert(rem_before[mi as int] == m);
            assert(rem_before.contains(m));
            vstd::seq_lib::to_multiset_contains(rem_before, m);
            vstd::seq_lib::to_multiset_remove(rem_before, mi as int);
            assert(rem_before.to_multiset().count(m) > 0);
        }
        let ghost out_before = out@;
        out.push(m);
        proof {
            vstd::seq_lib::to_multiset_build(out_before, m);
            assert(out@.to_multiset() =~= out_before.to_multiset().insert(m));
            assert(rem@.to_multiset() =~= rem_before.to_multiset().remove(m));
            assert(out@.to_multiset().add(rem@.to_multiset()) =~= orig.to_multiset());
            assert(targets_sorted(out@));
            assert forall|i: int, j: int|
                0 <= i < out@.len() && 0 <= j < rem@.len() implies target_le(
                out@[i],
                rem@[j],
            ) by {
                if j < mi {
                    assert(rem@[j] == rem_before[j]);
                } else {
                    assert(rem@[j] == rem_before[j + 1]);
                }
                if i < out_before.len() {
                    assert(target_le(out_before[i], rem@[j]));
                } else {
                    assert(out@[i] == m);
                    assert(target_le(rem_before[mi as int], rem@[j]));
                }
            }
        }
    }
    proof {
        assert(rem@ =~= Seq::<CaptureTarget>::empty());
        assert(out@.to_multiset().add(rem@.to_multiset()) =~= out@.to_multiset());
    }
    out
}

} // verus!
