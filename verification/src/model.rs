//! The mathematical model of a sequential chain: the stored place
//! identifiers in creation order and the time range of each transition,
//! with the step functions that growing, shrinking and timing a chain
//! perform on it, and the laws those steps obey.

use vstd::prelude::*;
use crate::time::{TimeRange, instant_range};

verus! {

/// What a sequential net looks like from outside: its place identifiers in
/// creation order and the time ranges of its transitions in creation order.
pub struct ChainModel {
    pub place_ids: Seq<int>,
    pub times: Seq<TimeRange>,
}

/// How many transitions a chain of `k` places carries.
pub open spec fn trans_of(k: nat) -> nat {
    if k == 0 {
        0
    } else {
        (k - 1) as nat
    }
}

/// The chain with no places at all.
pub open spec fn empty_chain() -> ChainModel {
    ChainModel { place_ids: Seq::empty(), times: Seq::empty() }
}

/// A well-formed chain: places and transitions strictly alternate, so `k`
/// places carry `trans_of(k)` transitions, and the identifier of each place
/// is its creation position.
pub open spec fn model_wf(m: ChainModel) -> bool {
    &&& m.times.len() == trans_of(m.place_ids.len())
    &&& (forall|i: int| 0 <= i < m.place_ids.len() ==> m.place_ids[i] == i)
}

/// The identifier of the transition at creation position `i`: transition
/// identifiers coincide with creation positions in a sequential chain.
pub open spec fn transition_id_at(m: ChainModel, i: int) -> int {
    i
}

/// One growth step: a new tail place is appended under the next free
/// identifier; from the second place on, the transition feeding it is
/// appended with the instantaneous default range.
pub open spec fn chain_grow(m: ChainModel) -> ChainModel {
    if m.place_ids.len() == 0 {
        ChainModel { place_ids: m.place_ids.push(m.place_ids.len() as int), times: m.times }
    } else {
        ChainModel {
            place_ids: m.place_ids.push(m.place_ids.len() as int),
            times: m.times.push(instant_range()),
        }
    }
}

/// `n` growth steps in order.
pub open spec fn chain_grow_n(m: ChainModel, n: nat) -> ChainModel
    decreases n,
{
    if n == 0 {
        m
    } else {
        chain_grow(chain_grow_n(m, (n - 1) as nat))
    }
}

/// One shrink step on a nonempty chain: the tail place goes, and with it
/// the transition that fed it, if there was one.
pub open spec fn chain_shrink(m: ChainModel) -> ChainModel {
    ChainModel {
        place_ids: m.place_ids.take(m.place_ids.len() - 1),
        times: m.times.take(trans_of((m.place_ids.len() - 1) as nat) as int),
    }
}

/// `n` shrink steps in order.
pub open spec fn chain_shrink_n(m: ChainModel, n: nat) -> ChainModel
    decreases n,
{
    if n == 0 {
        m
    } else {
        chain_shrink(chain_shrink_n(m, (n - 1) as nat))
    }
}

/// Overwriting the time range of the transition at position `i`.
pub open spec fn chain_set_time(m: ChainModel, i: int, r: TimeRange) -> ChainModel {
    ChainModel { place_ids: m.place_ids, times: m.times.update(i, r) }
}

/// Growing preserves well-formedness.
pub proof fn lemma_grow_wf(m: ChainModel)
    requires
        model_wf(m),
    ensures
        model_wf(chain_grow(m)),
{
}

/// Growing any number of times preserves well-formedness.
pub proof fn lemma_grow_n_wf(m: ChainModel, n: nat)
    requires
        model_wf(m),
    ensures
        model_wf(chain_grow_n(m, n)),
    decreases n,
{
    if n > 0 {
        lemma_grow_n_wf(m, (n - 1) as nat);
        lemma_grow_wf(chain_grow_n(m, (n - 1) as nat));
    }
}

/// Shrinking a nonempty chain preserves well-formedness.
pub proof fn lemma_shrink_wf(m: ChainModel)
    requires
        model_wf(m),
        m.place_ids.len() > 0,
    ensures
        model_wf(chain_shrink(m)),
{
}

/// Chain-length law: growing an empty chain `n` times yields `n` places
/// and `trans_of(n)` transitions, that is one fewer than the places except
/// on the empty chain.
pub proof fn lemma_chain_lengths(n: nat)
    ensures
        chain_grow_n(empty_chain(), n).place_ids.len() == n,
        chain_grow_n(empty_chain(), n).times.len() == trans_of(n),
    decreases n,
{
    if n > 0 {
        lemma_chain_lengths((n - 1) as nat);
    }
}

/// Identifier stability: shrinking never changes the identifier of a
/// surviving place nor the time range of a surviving transition.
pub proof fn lemma_identifier_stability(m: ChainModel)
    requires
        model_wf(m),
        m.place_ids.len() > 0,
    ensures
        forall|i: int|
            0 <= i < chain_shrink(m).place_ids.len() ==> chain_shrink(m).place_ids[i]
                == m.place_ids[i],
        forall|j: int|
            0 <= j < chain_shrink(m).times.len() ==> chain_shrink(m).times[j] == m.times[j],
{
}

/// Default-time law: every transition of a chain grown from the empty one
/// carries the instantaneous range until it is explicitly overwritten.
pub proof fn lemma_default_time(n: nat)
    ensures
        forall|j: int|
            0 <= j < chain_grow_n(empty_chain(), n).times.len() ==> chain_grow_n(
                empty_chain(),
                n,
            ).times[j] == instant_range(),
    decreases n,
{
    if n > 0 {
        lemma_default_time((n - 1) as nat);
    }
}

/// Shrinking undoes one growth step on a well-formed chain.
pub proof fn lemma_shrink_grow(m: ChainModel)
    requires
        model_wf(m),
    ensures
        chain_shrink(chain_grow(m)) == m,
{
    let g = chain_grow(m);
    assert(g.place_ids.take(g.place_ids.len() - 1) =~= m.place_ids);
    assert(g.times.take(trans_of((g.place_ids.len() - 1) as nat) as int) =~= m.times);
    assert(chain_shrink(g) =~= ChainModel { place_ids: m.place_ids, times: m.times });
    assert(m =~= ChainModel { place_ids: m.place_ids, times: m.times });
}

/// Growing `n` times is one growth step followed by `n - 1` more.
pub proof fn lemma_grow_n_shift(m: ChainModel, n: nat)
    requires
        n > 0,
    ensures
        chain_grow_n(m, n) == chain_grow_n(chain_grow(m), (n - 1) as nat),
    decreases n,
{
    if n == 1 {
        assert(chain_grow_n(m, 1) == chain_grow(chain_grow_n(m, 0)));
        assert(chain_grow_n(chain_grow(m), 0) == chain_grow(m));
    } else {
        lemma_grow_n_shift(m, (n - 1) as nat);
        assert(chain_grow_n(m, n) == chain_grow(chain_grow_n(m, (n - 1) as nat)));
        assert(chain_grow_n(chain_grow(m), (n - 1) as nat) == chain_grow(
            chain_grow_n(chain_grow(m), (n - 2) as nat),
        ));
    }
}

/// After `n` growth steps from a well-formed chain, `j <= n` shrink steps
/// land exactly `n - j` growth steps in.
pub proof fn lemma_shrink_j_of_grow_n(m: ChainModel, n: nat, j: nat)
    requires
        model_wf(m),
        j <= n,
    ensures
        chain_shrink_n(chain_grow_n(m, n), j) == chain_grow_n(m, (n - j) as nat),
    decreases j,
{
    if j > 0 {
        lemma_shrink_j_of_grow_n(m, n, (j - 1) as nat);
        let mid = chain_grow_n(m, (n - j + 1) as nat);
        lemma_grow_n_wf(m, (n - j) as nat);
        assert(mid == chain_grow(chain_grow_n(m, (n - j) as nat)));
        lemma_shrink_grow(chain_grow_n(m, (n - j) as nat));
    }
}

/// Round-trip law: `n` growth steps from the empty chain followed by `n`
/// shrink steps return it to the empty chain, and every intermediate shrink
/// step acts on a nonempty chain, so deletion succeeds each time.
pub proof fn lemma_round_trip(n: nat)
    ensures
        chain_shrink_n(chain_grow_n(empty_chain(), n), n) == empty_chain(),
        forall|j: nat|
            j < n ==> #[trigger] chain_shrink_n(
                chain_grow_n(empty_chain(), n),
                j,
            ).place_ids.len() > 0,
{
    lemma_shrink_j_of_grow_n(empty_chain(), n, n);
    assert forall|j: nat| j < n implies #[trigger] chain_shrink_n(
        chain_grow_n(empty_chain(), n),
        j,
    ).place_ids.len() > 0 by {
        lemma_shrink_j_of_grow_n(empty_chain(), n, j);
        lemma_chain_lengths((n - j) as nat);
        assert(chain_grow_n(empty_chain(), (n - j) as nat).place_ids.len() == n - j);
    }
}

/// Positional and identifier-based updates coincide: the transition at
/// creation position `i` carries identifier `i`, so overwriting its time
/// range by position or by identifier yields the same chain.
pub proof fn lemma_update_equivalence(m: ChainModel, r: TimeRange, i: int)
    requires
        model_wf(m),
        m.place_ids.len() >= 2,
        0 <= i < m.times.len(),
    ensures
        chain_set_time(m, i, r) == chain_set_time(m, transition_id_at(m, i), r),
{
}

} // verus!
