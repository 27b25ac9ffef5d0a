//! The graph collaborator: a timed Petri-net arena from the `pnets` crate,
//! seen through a small trusted surface.
//!
//! The arena stores places and transitions in indexed vectors and records
//! arcs as sorted `(id, weight)` markings on each node.  Four uninterpreted
//! functions name what the arena holds; every operation the chain logic
//! calls is a wrapper whose contract states, over those names, what the
//! `pnets` source shows.

use vstd::prelude::*;
use indexed_vec::Idx;
use crate::time::{Bound, TimeRange};

verus! {

#[verifier::external_type_specification]
#[verifier::external_body]
pub struct ExNet(pnets::timed::Net);

/// The stored identifier of each place, in creation order.
pub uninterp spec fn net_places(n: pnets::timed::Net) -> Seq<int>;

/// The time range of each transition, in creation order.
pub uninterp spec fn net_times(n: pnets::timed::Net) -> Seq<TimeRange>;

/// For each place index, its consumed-by marking: the sorted
/// `(transition index, weight)` pairs of the consume arcs leaving it.
pub uninterp spec fn net_consumed_by(n: pnets::timed::Net) -> Map<int, Seq<(int, int)>>;

/// For each transition index, its produce marking: the sorted
/// `(place index, weight)` pairs of the produce arcs leaving it.
pub uninterp spec fn net_produce(n: pnets::timed::Net) -> Map<int, Seq<(int, int)>>;

/// For each transition index, its consume marking: the sorted
/// `(place index, weight)` pairs of the consume arcs reaching it, the
/// mirror of the places' consumed-by markings.
pub uninterp spec fn net_consume(n: pnets::timed::Net) -> Map<int, Seq<(int, int)>>;

/// For each place index, its produced-by marking: the sorted
/// `(transition index, weight)` pairs of the produce arcs reaching it, the
/// mirror of the transitions' produce markings.
pub uninterp spec fn net_produced_by(n: pnets::timed::Net) -> Map<int, Seq<(int, int)>>;

/// An empty marking: a node with no arcs recorded on it.
pub open spec fn no_arcs() -> Seq<(int, int)> {
    Seq::empty()
}

/// No markings at all: the arc table of an arena without nodes.
pub open spec fn no_marking_map() -> Map<int, Seq<(int, int)>> {
    Map::empty()
}

/// Relies on `pnets::timed::Net::default`: an arena with no places, no
/// transitions and no arcs.
#[verifier::external_body]
pub(crate) fn net_new() -> (r: pnets::timed::Net)
    ensures
        net_places(r) == Seq::<int>::empty(),
        net_times(r) == Seq::<TimeRange>::empty(),
        net_consumed_by(r) == no_marking_map(),
        net_produce(r) == no_marking_map(),
        net_consume(r) == no_marking_map(),
        net_produced_by(r) == no_marking_map(),
{
    pnets::timed::Net::default()
}

/// Relies on `indexed_vec::IndexVec::len` on the arena's place vector.
#[verifier::external_body]
pub(crate) fn net_place_count(net: &pnets::timed::Net) -> (r: usize)
    ensures
        r == net_places(*net).len(),
{
    net.places.len()
}

/// Relies on `indexed_vec::IndexVec::len` on the arena's transition vector.
#[verifier::external_body]
pub(crate) fn net_transition_count(net: &pnets::timed::Net) -> (r: usize)
    ensures
        r == net_times(*net).len(),
{
    net.transitions.len()
}

/// Relies on `pnets::timed::Net::create_place`: pushes a place whose stored
/// identifier is the current transition count, with empty markings, and
/// returns its index.
#[verifier::external_body]
pub(crate) fn net_create_place(net: &mut pnets::timed::Net) -> (r: usize)
    requires
        net_places(*old(net)).len() < usize::MAX,
    ensures
        r == net_places(*old(net)).len(),
        net_places(*final(net)) == net_places(*old(net)).push(net_times(*old(net)).len() as int),
        net_times(*final(net)) == net_times(*old(net)),
        net_consumed_by(*final(net)) == net_consumed_by(*old(net)).insert(
            net_places(*old(net)).len() as int,
            no_arcs(),
        ),
        net_produce(*final(net)) == net_produce(*old(net)),
        net_consume(*final(net)) == net_consume(*old(net)),
        net_produced_by(*final(net)) == net_produced_by(*old(net)).insert(
            net_places(*old(net)).len() as int,
            no_arcs(),
        ),
{
    net.create_place().index()
}

/// Relies on `pnets::timed::Net::create_transition`: pushes a transition
/// whose stored identifier is its index, carrying the arena's default time
/// range `[0, inf)` and empty markings, and returns its index.
#[verifier::external_body]
pub(crate) fn net_create_transition(net: &mut pnets::timed::Net) -> (r: usize)
    requires
        net_times(*old(net)).len() < usize::MAX,
    ensures
        r == net_times(*old(net)).len(),
        net_places(*final(net)) == net_places(*old(net)),
        net_times(*final(net)) == net_times(*old(net)).push(
            TimeRange { start: Bound::Closed(0), end: Bound::Infinity },
        ),
        net_consumed_by(*final(net)) == net_consumed_by(*old(net)),
        net_produce(*final(net)) == net_produce(*old(net)).insert(
            net_times(*old(net)).len() as int,
            no_arcs(),
        ),
        net_consume(*final(net)) == net_consume(*old(net)).insert(
            net_times(*old(net)).len() as int,
            no_arcs(),
        ),
        net_produced_by(*final(net)) == net_produced_by(*old(net)),
{
    net.create_transition().index()
}

/// Relies on `pnets::timed::Net::add_arc` with a consume arc: the weight is
/// recorded under the transition in the place's consumed-by marking and
/// under the place in the transition's consume marking, and the call
/// returns `Ok` for every consume arc.  On a key already present the arena
/// would add the weights, which can overflow, so both touched records are
/// required to be empty; the insertion is then the singleton.
#[verifier::external_body]
pub(crate) fn net_add_consume_arc(net: &mut pnets::timed::Net, p: usize, t: usize, w: usize)
    requires
        p < net_places(*old(net)).len(),
        t < net_times(*old(net)).len(),
        net_consumed_by(*old(net))[p as int] == no_arcs(),
        net_consume(*old(net))[t as int] == no_arcs(),
    ensures
        net_places(*final(net)) == net_places(*old(net)),
        net_times(*final(net)) == net_times(*old(net)),
        net_produce(*final(net)) == net_produce(*old(net)),
        net_produced_by(*final(net)) == net_produced_by(*old(net)),
        net_consumed_by(*final(net)) == net_consumed_by(*old(net)).insert(
            p as int,
            seq![(t as int, w as int)],
        ),
        net_consume(*final(net)) == net_consume(*old(net)).insert(
            t as int,
            seq![(p as int, w as int)],
        ),
{
    let kind = pnets::arc::Kind::Consume(pnets::PlaceId::from(p), pnets::TransitionId::from(t), w);
    let _ = net.add_arc(kind);
}

/// Relies on `pnets::timed::Net::add_arc` with a produce arc: the weight is
/// recorded under the place in the transition's produce marking and under
/// the transition in the place's produced-by marking, and the call returns
/// `Ok` for every produce arc.  On a key already present the arena would
/// add the weights, which can overflow, so both touched records are
/// required to be empty; the insertion is then the singleton.
#[verifier::external_body]
pub(crate) fn net_add_produce_arc(net: &mut pnets::timed::Net, p: usize, t: usize, w: usize)
    requires
        p < net_places(*old(net)).len(),
        t < net_times(*old(net)).len(),
        net_produce(*old(net))[t as int] == no_arcs(),
        net_produced_by(*old(net))[p as int] == no_arcs(),
    ensures
        net_places(*final(net)) == net_places(*old(net)),
        net_times(*final(net)) == net_times(*old(net)),
        net_consumed_by(*final(net)) == net_consumed_by(*old(net)),
        net_consume(*final(net)) == net_consume(*old(net)),
        net_produce(*final(net)) == net_produce(*old(net)).insert(
            t as int,
            seq![(p as int, w as int)],
        ),
        net_produced_by(*final(net)) == net_produced_by(*old(net)).insert(
            p as int,
            seq![(t as int, w as int)],
        ),
{
    let kind = pnets::arc::Kind::Produce(pnets::PlaceId::from(p), pnets::TransitionId::from(t), w);
    let _ = net.add_arc(kind);
}

/// Relies on `indexed_vec::IndexVec::get` and `Place::id`: the stored
/// identifier of the last-inserted place.
#[verifier::external_body]
pub(crate) fn net_last_place_id(net: &pnets::timed::Net) -> (r: usize)
    requires
        net_places(*net).len() > 0,
    ensures
        r as int == net_places(*net).last(),
{
    net.places.iter().last().unwrap().id().index()
}

/// Relies on `indexed_vec::IndexVec::get` and `Marking::iter`: the last
/// entry of the place's sorted consumed-by marking, if any.
#[verifier::external_body]
pub(crate) fn net_last_consumer(net: &pnets::timed::Net, p: usize) -> (r: Option<usize>)
    requires
        p < net_places(*net).len(),
    ensures
        ({
            let m = net_consumed_by(*net)[p as int];
            if m.len() == 0 {
                r is None
            } else {
                r matches Some(t) && t as int == m.last().0
            }
        }),
{
    match net.places.get(pnets::PlaceId::from(p)) {
        Some(pl) => match pl.consumed_by.iter().last() {
            Some(x) => Some(x.0.index()),
            None => None,
        },
        None => None,
    }
}

/// Relies on `indexed_vec::IndexVec::get` and `Marking::iter`: the last
/// entry of the transition's sorted produce marking, if any.
#[verifier::external_body]
pub(crate) fn net_last_produced(net: &pnets::timed::Net, t: usize) -> (r: Option<usize>)
    requires
        t < net_times(*net).len(),
    ensures
        ({
            let m = net_produce(*net)[t as int];
            if m.len() == 0 {
                r is None
            } else {
                r matches Some(p) && p as int == m.last().0
            }
        }),
{
    match net.transitions.get(pnets::TransitionId::from(t)) {
        Some(tr) => match tr.produce.iter().last() {
            Some(x) => Some(x.0.index()),
            None => None,
        },
        None => None,
    }
}

/// Relies on `indexed_vec::IndexVec::get`: the time range stored on the
/// transition, read back into the library's bound type; the arena's
/// machine-word bound values always fit the library's wider type.
#[verifier::external_body]
pub(crate) fn net_time_at(net: &pnets::timed::Net, t: usize) -> (r: TimeRange)
    requires
        t < net_times(*net).len(),
    ensures
        r == net_times(*net)[t as int],
{
    let tr = &net.transitions.get(pnets::TransitionId::from(t)).unwrap().time;
    let start = match tr.start {
        pnets::timed::Bound::Open(v) => Bound::Open(v as u64),
        pnets::timed::Bound::Closed(v) => Bound::Closed(v as u64),
        pnets::timed::Bound::Infinity => Bound::Infinity,
    };
    let end = match tr.end {
        pnets::timed::Bound::Open(v) => Bound::Open(v as u64),
        pnets::timed::Bound::Closed(v) => Bound::Closed(v as u64),
        pnets::timed::Bound::Infinity => Bound::Infinity,
    };
    TimeRange { start, end }
}

/// Relies on `indexed_vec::IndexVec::get_mut`: overwrites the time range
/// stored on the transition.  The arena stores bound values as the
/// machine's word, so on a target narrower than 64 bits a bound value
/// at or above the word's ceiling would be truncated by this write.
#[verifier::external_body]
pub(crate) fn net_set_time(net: &mut pnets::timed::Net, t: usize, range: TimeRange)
    requires
        t < net_times(*old(net)).len(),
    ensures
        net_places(*final(net)) == net_places(*old(net)),
        net_times(*final(net)) == net_times(*old(net)).update(t as int, range),
        net_consumed_by(*final(net)) == net_consumed_by(*old(net)),
        net_produce(*final(net)) == net_produce(*old(net)),
        net_consume(*final(net)) == net_consume(*old(net)),
        net_produced_by(*final(net)) == net_produced_by(*old(net)),
{
    let start = match range.start {
        Bound::Open(v) => pnets::timed::Bound::Open(v as usize),
        Bound::Closed(v) => pnets::timed::Bound::Closed(v as usize),
        Bound::Infinity => pnets::timed::Bound::Infinity,
    };
    let end = match range.end {
        Bound::Open(v) => pnets::timed::Bound::Open(v as usize),
        Bound::Closed(v) => pnets::timed::Bound::Closed(v as usize),
        Bound::Infinity => pnets::timed::Bound::Infinity,
    };
    if let Some(tr) = net.transitions.get_mut(pnets::TransitionId::from(t)) {
        tr.time = pnets::timed::TimeRange { start, end };
    }
}

/// Relies on `pnets::Marking::delete`: removes the transition's entry, if
/// present, from the place's consumed-by marking and touches nothing else.
#[verifier::external_body]
pub(crate) fn net_unlink_consumer(net: &mut pnets::timed::Net, p: usize, t: usize)
    requires
        p < net_places(*old(net)).len(),
    ensures
        net_places(*final(net)) == net_places(*old(net)),
        net_times(*final(net)) == net_times(*old(net)),
        net_produce(*final(net)) == net_produce(*old(net)),
        net_consume(*final(net)) == net_consume(*old(net)),
        net_produced_by(*final(net)) == net_produced_by(*old(net)),
        ({
            let m = net_consumed_by(*old(net))[p as int];
            m.len() == 1 && m[0].0 == t as int ==> net_consumed_by(*final(net))
                == net_consumed_by(*old(net)).insert(p as int, no_arcs())
        }),
        net_consumed_by(*final(net)).dom() == net_consumed_by(*old(net)).dom(),
        (forall|q: int|
            net_consumed_by(*old(net)).dom().contains(q) && q != p as int
                ==> net_consumed_by(*final(net))[q] == net_consumed_by(*old(net))[q]),
{
    if let Some(pl) = net.places.get_mut(pnets::PlaceId::from(p)) {
        pl.consumed_by.delete(pnets::TransitionId::from(t));
    }
}

/// Relies on `indexed_vec::IndexVec::truncate` on the place vector: keeps
/// the first `n` places and their markings, drops the rest.
#[verifier::external_body]
pub(crate) fn net_truncate_places(net: &mut pnets::timed::Net, n: usize)
    requires
        n <= net_places(*old(net)).len(),
    ensures
        net_places(*final(net)) == net_places(*old(net)).take(n as int),
        net_times(*final(net)) == net_times(*old(net)),
        net_consumed_by(*final(net)) == net_consumed_by(*old(net)).restrict(
            Set::new(|i: int| 0 <= i < n as int),
        ),
        net_produce(*final(net)) == net_produce(*old(net)),
        net_consume(*final(net)) == net_consume(*old(net)),
        net_produced_by(*final(net)) == net_produced_by(*old(net)).restrict(
            Set::new(|i: int| 0 <= i < n as int),
        ),
{
    net.places.truncate(n);
}

/// Relies on `indexed_vec::IndexVec::truncate` on the transition vector:
/// keeps the first `n` transitions and their markings, drops the rest.
#[verifier::external_body]
pub(crate) fn net_truncate_transitions(net: &mut pnets::timed::Net, n: usize)
    requires
        n <= net_times(*old(net)).len(),
    ensures
        net_places(*final(net)) == net_places(*old(net)),
        net_times(*final(net)) == net_times(*old(net)).take(n as int),
        net_consumed_by(*final(net)) == net_consumed_by(*old(net)),
        net_produce(*final(net)) == net_produce(*old(net)).restrict(
            Set::new(|t: int| 0 <= t < n as int),
        ),
        net_consume(*final(net)) == net_consume(*old(net)).restrict(
            Set::new(|t: int| 0 <= t < n as int),
        ),
        net_produced_by(*final(net)) == net_produced_by(*old(net)),
{
    net.transitions.truncate(n);
}

/// Relies on `indexed_vec::IndexVec::clear` on the place vector: removes
/// every place and its markings.
#[verifier::external_body]
pub(crate) fn net_clear_places(net: &mut pnets::timed::Net)
    ensures
        net_places(*final(net)) == Seq::<int>::empty(),
        net_times(*final(net)) == net_times(*old(net)),
        net_consumed_by(*final(net)) == no_marking_map(),
        net_produce(*final(net)) == net_produce(*old(net)),
        net_consume(*final(net)) == net_consume(*old(net)),
        net_produced_by(*final(net)) == no_marking_map(),
{
    net.places.clear();
}

} // verus!
