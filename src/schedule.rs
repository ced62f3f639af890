//! The fidelity schedule and the rule that picks a checkpoint for a budget.
use crate::error::Error;
use vstd::prelude::*;

verus! {

/// Every entry is at most each later one.
pub open spec fn ascending(s: Seq<u64>) -> bool {
    forall|i: int, j: int| 0 <= i <= j < s.len() ==> s[i] <= s[j]
}

/// Every entry is at least each later one.
pub open spec fn descending(s: Seq<u64>) -> bool {
    forall|i: int, j: int| 0 <= i <= j < s.len() ==> s[i] >= s[j]
}

/// Every entry is positive.
pub open spec fn all_positive(s: Seq<u64>) -> bool {
    forall|i: int| 0 <= i < s.len() ==> s[i] > 0
}

/// A schedule that a problem accepts: non-empty, ascending, of positive costs.
pub open spec fn valid_schedule(s: Seq<u64>) -> bool {
    s.len() > 0 && ascending(s) && all_positive(s)
}

/// Some entry of `s` reaches the budget `b`.
pub open spec fn reaches(s: Seq<u64>, b: u64) -> bool {
    exists|i: int| 0 <= i < s.len() && s[i] >= b
}

/// `r` is the least entry of `s` that reaches `b`.
pub open spec fn least_reaching(s: Seq<u64>, b: u64, r: u64) -> bool {
    &&& s.contains(r)
    &&& r >= b
    &&& forall|i: int| 0 <= i < s.len() && s[i] >= b ==> r <= s[i]
}

/// `r` is the greatest entry of `s`.
pub open spec fn greatest(s: Seq<u64>, r: u64) -> bool {
    &&& s.contains(r)
    &&& forall|i: int| 0 <= i < s.len() ==> s[i] <= r
}

/// `r` is the checkpoint chosen from `s` for budget `b`: the least entry that
/// reaches `b`, or the greatest entry where none does.
pub open spec fn selected(s: Seq<u64>, b: u64, r: u64) -> bool {
    if reaches(s, b) {
        least_reaching(s, b, r)
    } else {
        greatest(s, r)
    }
}

/// What remains of the candidates `c`, held in descending order, once the
/// selection for budget `b` has run: while more than one candidate remains and
/// the smallest is below `b`, the smallest is discarded.
pub open spec fn shrink(c: Seq<u64>, b: u64) -> Seq<u64>
    decreases c.len(),
{
    if c.len() > 1 && c.last() < b {
        shrink(c.drop_last(), b)
    } else {
        c
    }
}

/// The candidates of a fresh evaluator: the schedule in descending order.
pub open spec fn candidates_of(s: Seq<u64>) -> Seq<u64> {
    s.reverse()
}

/// Shrinking keeps a non-empty descending prefix of the candidates, whose
/// last entry is the selected checkpoint.
pub proof fn lemma_shrink(c: Seq<u64>, b: u64)
    requires
        c.len() > 0,
        descending(c),
    ensures
        shrink(c, b).len() > 0,
        shrink(c, b).is_prefix_of(c),
        descending(shrink(c, b)),
        selected(c, b, shrink(c, b).last()),
    decreases c.len(),
{
    let r = shrink(c, b);
    if c.len() > 1 && c.last() < b {
        let d = c.drop_last();
        assert(descending(d));
        lemma_shrink(d, b);
        assert(r == shrink(d, b));
        assert(r.is_prefix_of(c)) by {
            assert forall|i: int| 0 <= i < r.len() implies r[i] == c[i] by {
                assert(r[i] == d[i]);
            }
        }
        assert(descending(r)) by {
            assert forall|i: int, j: int| 0 <= i <= j < r.len() implies r[i] >= r[j] by {
                assert(r[i] == c[i] && r[j] == c[j]);
            }
        }
        let x = r.last();
        if reaches(d, b) {
            assert(reaches(c, b)) by {
                let i = choose|i: int| 0 <= i < d.len() && d[i] >= b;
                assert(c[i] == d[i]);
            }
            assert(d.contains(x));
            let k = choose|k: int| 0 <= k < d.len() && d[k] == x;
            assert(c[k] == x);
            assert forall|i: int| 0 <= i < c.len() && c[i] >= b implies x <= c[i] by {
                if i < d.len() {
                    assert(d[i] == c[i]);
                }
            }
        } else {
            assert(!reaches(c, b)) by {
                if reaches(c, b) {
                    let i = choose|i: int| 0 <= i < c.len() && c[i] >= b;
                    if i < d.len() {
                        assert(d[i] == c[i]);
                    }
                }
            }
            let k = choose|k: int| 0 <= k < d.len() && d[k] == x;
            assert(c[k] == x);
            assert forall|i: int| 0 <= i < c.len() implies c[i] <= x by {
                if i < d.len() {
                    assert(d[i] == c[i]);
                } else {
                    assert(c[i] <= c[k]);
                }
            }
        }
    } else {
        assert(r == c);
        let x = c.last();
        assert(c[c.len() - 1] == x);
        if c.len() == 1 {
            if x >= b {
                assert(reaches(c, b));
            } else {
                assert(!reaches(c, b));
            }
        } else {
            assert(reaches(c, b)) by {
                assert(c[c.len() - 1] >= b);
            }
        }
    }
}

/// Picks the checkpoint for budget `budget` from the descending candidates
/// `candidates`, discarding for good each smallest candidate below the budget
/// while more than one remains. The result is the least candidate that reaches
/// the budget, or the greatest candidate where none does.
pub fn select_fidelity(candidates: &mut Vec<u64>, budget: u64) -> (r: u64)
    requires
        old(candidates).len() > 0,
        descending(old(candidates)@),
    ensures
        final(candidates)@ == shrink(old(candidates)@, budget),
        final(candidates)@.len() > 0,
        descending(final(candidates)@),
        final(candidates)@.is_prefix_of(old(candidates)@),
        r == final(candidates)@.last(),
        selected(old(candidates)@, budget, r),
{
    let ghost c0 = candidates@;
    proof {
        lemma_shrink(c0, budget);
    }
    while candidates.len() > 1 && candidates[candidates.len() - 1] < budget
        invariant
            candidates@.len() > 0,
            descending(c0),
            shrink(candidates@, budget) == shrink(c0, budget),
            candidates@.is_prefix_of(c0),
        decreases candidates.len(),
    {
        let ghost before = candidates@;
        candidates.pop();
        proof {
            assert(candidates@ == before.drop_last());
            assert(candidates@.is_prefix_of(c0)) by {
                assert forall|i: int| 0 <= i < candidates@.len() implies candidates@[i] == c0[i] by {
                    assert(candidates@[i] == before[i]);
                }
            }
        }
    }
    assert(shrink(candidates@, budget) == candidates@);
    candidates[candidates.len() - 1]
}

/// Checks a declared fidelity schedule: it must be non-empty, its entries
/// positive and in ascending order.
pub fn validate_schedule(epochs: &Vec<u64>) -> (r: Result<(), Error>)
    ensures
        r is Ok <==> valid_schedule(epochs@),
        r == Err::<(), Error>(Error::EmptySchedule) <==> epochs@.len() == 0,
        r == Err::<(), Error>(Error::ZeroCheckpoint) <==> epochs@.len() > 0 && !all_positive(
            epochs@,
        ),
        r == Err::<(), Error>(Error::UnorderedSchedule) <==> epochs@.len() > 0 && all_positive(
            epochs@,
        ) && !ascending(epochs@),
{
    if epochs.len() == 0 {
        return Err(Error::EmptySchedule);
    }
    let mut i: usize = 0;
    while i < epochs.len()
        invariant
            0 <= i <= epochs.len(),
            forall|k: int| 0 <= k < i ==> epochs@[k] > 0,
        decreases epochs.len() - i,
    {
        if epochs[i] == 0 {
            return Err(Error::ZeroCheckpoint);
        }
        i += 1;
    }
    let mut j: usize = 1;
    while j < epochs.len()
        invariant
            1 <= j <= epochs.len(),
            all_positive(epochs@),
            forall|a: int, b: int| 0 <= a <= b < j ==> epochs@[a] <= epochs@[b],
        decreases epochs.len() - j,
    {
        if epochs[j - 1] > epochs[j] {
            assert(!ascending(epochs@)) by {
                assert(epochs@[j - 1] > epochs@[j as int]);
            }
            return Err(Error::UnorderedSchedule);
        }
        j += 1;
    }
    Ok(())
}

/// The candidates of a fresh evaluator: the schedule's entries from the
/// largest down.
pub fn reversed(s: &Vec<u64>) -> (r: Vec<u64>)
    ensures
        r@ == candidates_of(s@),
{
    let mut r: Vec<u64> = Vec::new();
    let mut i: usize = s.len();
    while i > 0
        invariant
            i <= s.len(),
            r@ == s@.subrange(i as int, s@.len() as int).reverse(),
        decreases i,
    {
        i -= 1;
        r.push(s[i]);
        assert(r@ =~= s@.subrange(i as int, s@.len() as int).reverse());
    }
    assert(s@.subrange(0, s@.len() as int) =~= s@);
    r
}

/// A fresh evaluator's first selection on an ascending schedule is a clamped
/// ceiling: the least checkpoint that reaches the budget, or the largest
/// checkpoint where none reaches it.
pub proof fn lemma_first_selection_is_clamped_ceiling(s: Seq<u64>, b: u64)
    requires
        valid_schedule(s),
    ensures
        reaches(s, b) ==> least_reaching(s, b, shrink(candidates_of(s), b).last()),
        !reaches(s, b) ==> greatest(s, shrink(candidates_of(s), b).last()),
        s.len() == 1 ==> shrink(candidates_of(s), b).last() == s[0],
{
    let c = candidates_of(s);
    assert(descending(c)) by {
        assert forall|i: int, j: int| 0 <= i <= j < c.len() implies c[i] >= c[j] by {
            assert(c[i] == s[s.len() - 1 - i]);
            assert(c[j] == s[s.len() - 1 - j]);
        }
    }
    lemma_shrink(c, b);
    let x = shrink(c, b).last();
    assert forall|v: u64| c.contains(v) <==> s.contains(v) by {
        if c.contains(v) {
            let k = choose|k: int| 0 <= k < c.len() && c[k] == v;
            assert(s[s.len() - 1 - k] == v);
        }
        if s.contains(v) {
            let k = choose|k: int| 0 <= k < s.len() && s[k] == v;
            assert(c[s.len() - 1 - k] == v);
        }
    }
    assert(reaches(c, b) <==> reaches(s, b)) by {
        if reaches(c, b) {
            let k = choose|k: int| 0 <= k < c.len() && c[k] >= b;
            assert(s[s.len() - 1 - k] == c[k]);
        }
        if reaches(s, b) {
            let k = choose|k: int| 0 <= k < s.len() && s[k] >= b;
            assert(c[s.len() - 1 - k] == s[k]);
        }
    }
    if reaches(s, b) {
        assert forall|i: int| 0 <= i < s.len() && s[i] >= b implies x <= s[i] by {
            assert(c[s.len() - 1 - i] == s[i]);
        }
    } else {
        assert forall|i: int| 0 <= i < s.len() implies s[i] <= x by {
            assert(c[s.len() - 1 - i] == s[i]);
        }
    }
    if s.len() == 1 {
        assert(c[0] == s[0]);
    }
}

/// Repeated selections on one evaluator with budgets that do not grow never
/// pick a larger checkpoint, and a discarded candidate never comes back: each
/// selection leaves a prefix of what the one before it left.
pub proof fn lemma_selection_is_monotone(c: Seq<u64>, b1: u64, b2: u64)
    requires
        c.len() > 0,
        descending(c),
        b2 <= b1,
    ensures
        shrink(shrink(c, b1), b2).is_prefix_of(shrink(c, b1)),
        shrink(c, b1).is_prefix_of(c),
        shrink(shrink(c, b1), b2).last() <= shrink(c, b1).last(),
{
    lemma_shrink(c, b1);
    let c1 = shrink(c, b1);
    lemma_shrink(c1, b2);
    let c2 = shrink(c1, b2);
    lemma_shrink_stops(c, b1);
    assert(c2 == c1);
}

/// Shrinking stops at a single candidate or at one that reaches the budget.
pub proof fn lemma_shrink_stops(c: Seq<u64>, b: u64)
    ensures
        shrink(c, b).len() > 1 ==> shrink(c, b).last() >= b,
    decreases c.len(),
{
    if c.len() > 1 && c.last() < b {
        lemma_shrink_stops(c.drop_last(), b);
    }
}

} // verus!
