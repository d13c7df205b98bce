//! Positions of the set flags in a run of flags.

use vstd::prelude::*;

verus! {

/// The positions below `upto` whose flag is set, in ascending order.
pub open spec fn flagged(flags: Seq<bool>, upto: nat) -> Seq<usize>
    decreases upto,
{
    if upto == 0 {
        Seq::empty()
    } else if flags[upto - 1] {
        flagged(flags, (upto - 1) as nat).push((upto - 1) as usize)
    } else {
        flagged(flags, (upto - 1) as nat)
    }
}

/// Law: `flagged` lists exactly the flagged positions below `upto`, each once
/// and in ascending order.
pub proof fn lemma_flagged(flags: Seq<bool>, upto: nat)
    requires
        upto <= flags.len(),
        upto <= usize::MAX,
    ensures
        forall|t: int|
            0 <= t < flagged(flags, upto).len() ==> (#[trigger] flagged(flags, upto)[t]) < upto
                && flags[flagged(flags, upto)[t] as int],
        forall|s: int, t: int|
            0 <= s < t < flagged(flags, upto).len() ==> flagged(flags, upto)[s] < flagged(
                flags,
                upto,
            )[t],
        forall|i: int|
            0 <= i < upto && flags[i] ==> exists|t: int|
                0 <= t < flagged(flags, upto).len() && #[trigger] flagged(flags, upto)[t] == i,
        flagged(flags, upto).len() <= upto,
    decreases upto,
{
    if upto > 0 {
        let before = flagged(flags, (upto - 1) as nat);
        lemma_flagged(flags, (upto - 1) as nat);
        let list = flagged(flags, upto);
        assert forall|i: int| 0 <= i < upto && flags[i] implies exists|t: int|
            0 <= t < list.len() && #[trigger] list[t] == i by {
            if i == upto - 1 {
                assert(list[list.len() - 1] == i);
            } else {
                let t = choose|t: int| 0 <= t < before.len() && #[trigger] before[t] == i;
                assert(list[t] == i);
            }
        }
    }
}

/// The first position in `list` from index `t` on, or `n` when the list ends
/// before `t`.
pub open spec fn next_flagged(list: Seq<usize>, t: int, n: int) -> int {
    if 0 <= t < list.len() {
        list[t] as int
    } else {
        n
    }
}

/// No flagged position lies before the first one listed.
pub proof fn lemma_flagged_first(flags: Seq<bool>)
    requires
        flags.len() <= usize::MAX,
    ensures
        forall|j: int|
            0 <= j < flags.len() && #[trigger] flags[j] ==> j >= next_flagged(
                flagged(flags, flags.len()),
                0,
                flags.len() as int,
            ),
        flagged(flags, flags.len()).len() == 0 ==> forall|j: int|
            0 <= j < flags.len() ==> !#[trigger] flags[j],
{
    let n = flags.len();
    let list = flagged(flags, n);
    lemma_flagged(flags, n);
    assert forall|j: int| 0 <= j < n && #[trigger] flags[j] implies j >= next_flagged(
        list,
        0,
        n as int,
    ) by {
        let s = choose|s: int| 0 <= s < list.len() && #[trigger] list[s] == j;
        if s > 0 {
            assert(list[0] < list[s]);
        }
    }
}

/// Between one listed position and the next no position is flagged.
pub proof fn lemma_flagged_step(flags: Seq<bool>, t: int)
    requires
        flags.len() <= usize::MAX,
        0 <= t < flagged(flags, flags.len()).len(),
    ensures
        ({
            let n = flags.len() as int;
            let list = flagged(flags, flags.len());
            &&& list[t] < n
            &&& flags[list[t] as int]
            &&& list[t] < next_flagged(list, t + 1, n) <= n
            &&& forall|j: int|
                0 <= j < n && #[trigger] flags[j] ==> (j < next_flagged(list, t + 1, n) <==> j
                    <= list[t])
        }),
{
    let n = flags.len();
    let list = flagged(flags, n);
    lemma_flagged(flags, n);
    if t + 1 < list.len() {
        assert(list[t] < list[t + 1]);
    }
    assert forall|j: int| 0 <= j < n && #[trigger] flags[j] implies (j < next_flagged(
        list,
        t + 1,
        n as int,
    ) <==> j <= list[t]) by {
        let s = choose|s: int| 0 <= s < list.len() && #[trigger] list[s] == j;
        if s < t {
            assert(list[s] < list[t]);
        } else if s > t {
            assert(list[t] < list[s]);
            if s > t + 1 {
                assert(list[t + 1] < list[s]);
            }
        }
    }
}

/// A run of flags one of which is set lists something.
pub proof fn lemma_flagged_some(flags: Seq<bool>, upto: nat, k: int)
    requires
        0 <= k < upto,
        flags[k],
    ensures
        flagged(flags, upto).len() > 0,
    decreases upto,
{
    if k < upto - 1 {
        lemma_flagged_some(flags, (upto - 1) as nat, k);
    }
}

/// A run of flags none of which is set lists nothing.
pub proof fn lemma_flagged_none(flags: Seq<bool>, upto: nat)
    requires
        upto <= flags.len(),
        forall|j: int| 0 <= j < upto ==> !#[trigger] flags[j],
    ensures
        flagged(flags, upto) == Seq::<usize>::empty(),
    decreases upto,
{
    if upto > 0 {
        lemma_flagged_none(flags, (upto - 1) as nat);
    }
}

/// A run of flags of which exactly the one at `k0` is set lists `k0` alone.
pub proof fn lemma_flagged_single(flags: Seq<bool>, upto: nat, k0: int)
    requires
        upto <= flags.len(),
        0 <= k0 < flags.len(),
        k0 <= usize::MAX,
        forall|j: int| 0 <= j < flags.len() ==> (#[trigger] flags[j] <==> j == k0),
    ensures
        flagged(flags, upto) == if upto <= k0 {
            Seq::<usize>::empty()
        } else {
            seq![k0 as usize]
        },
    decreases upto,
{
    if upto > 0 {
        lemma_flagged_single(flags, (upto - 1) as nat, k0);
        if upto - 1 == k0 {
            assert(Seq::<usize>::empty().push(k0 as usize) =~= seq![k0 as usize]);
        }
    }
}

} // verus!
