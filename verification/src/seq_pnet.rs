//! The sequential timed Petri net: a single linear chain of places joined
//! by transitions, built over the graph collaborator.
//!
//! Every mutating operation first validates the chain state, then performs
//! exactly the arena operations that keep the chain linear.  Traversal for
//! rendering walks the consume and produce arcs; the chain order is
//! reconstructed from the arc records, never cached.

use vstd::prelude::*;
use crate::graph::{
    net_add_consume_arc, net_add_produce_arc, net_clear_places, net_consume, net_consumed_by,
    net_create_place, net_create_transition, net_last_consumer, net_last_place_id,
    net_last_produced, net_new, net_place_count, net_places, net_produce, net_produced_by,
    net_set_time, net_time_at, net_times, net_transition_count, net_truncate_places,
    net_truncate_transitions, net_unlink_consumer, no_arcs,
};
use crate::model::{
    chain_grow, chain_grow_n, chain_set_time, chain_shrink, empty_chain, model_wf, ChainModel,
};
use crate::time::{dec_text, instant_range, time_text, push_dec, TimeRange};

verus! {

/// The errors a sequential net raises; all are caller-recoverable.
#[derive(Debug, PartialEq, Eq, Structural)]
pub enum SeqPnetErr {
    /// The chain is already empty, nothing can be deleted.
    NoStates,
    /// A positional transition index lies past the last transition.
    NotEnoughTransitions,
    /// The place has no outgoing transition: it is the tail.
    NoNextPlace(usize),
    /// No place carries this identifier.
    InvalidPlace(usize),
    /// No transition carries this identifier.
    InvalidTransition(usize),
}

/// A sequential timed Petri net: places and transitions strictly alternate
/// along a single chain, and each transition carries one time range.
#[derive(Debug)]
pub struct SeqPnet {
    net: pnets::timed::Net,
}

impl View for SeqPnet {
    type V = ChainModel;

    closed spec fn view(&self) -> ChainModel {
        ChainModel { place_ids: net_places(self.net), times: net_times(self.net) }
    }
}

impl SeqPnet {
    /// Well-formedness: the model alternates correctly, every non-tail
    /// place is consumed by exactly the transition of its own position with
    /// weight one, the tail is consumed by nothing, and every transition
    /// produces exactly into the following place with weight one.
    pub closed spec fn wf(self) -> bool {
        let ps = net_places(self.net);
        let ts = net_times(self.net);
        let cb = net_consumed_by(self.net);
        let pr = net_produce(self.net);
        &&& model_wf(self@)
        &&& cb.dom() == Set::new(|i: int| 0 <= i < ps.len())
        &&& (forall|i: int| 0 <= i < ts.len() ==> cb[i] == seq![(i, 1int)])
        &&& (ps.len() > 0 ==> cb[ps.len() - 1] == no_arcs())
        &&& pr.dom() == Set::new(|t: int| 0 <= t < ts.len())
        &&& (forall|t: int| 0 <= t < ts.len() ==> pr[t] == seq![(t + 1, 1int)])
    }

    /// How many places the chain holds.
    pub fn place_count(&self) -> (r: usize)
        ensures
            r == self@.place_ids.len(),
    {
        net_place_count(&self.net)
    }

    /// How many transitions the chain holds.
    pub fn transition_count(&self) -> (r: usize)
        ensures
            r == self@.times.len(),
    {
        net_transition_count(&self.net)
    }

    /// The time range of the transition at creation position `index`, if
    /// there is one.
    pub fn time_at_index(&self, index: usize) -> (r: Option<TimeRange>)
        ensures
            index < self@.times.len() ==> r == Some(self@.times[index as int]),
            index >= self@.times.len() ==> r is None,
    {
        let nt = net_transition_count(&self.net);
        if index < nt {
            Some(net_time_at(&self.net, index))
        } else {
            None
        }
    }

    /// Appends one place to the chain.  The very first place stands alone;
    /// any later one is linked to the previous tail by a fresh transition
    /// carrying the instantaneous default range.
    pub fn create_place(&mut self)
        requires
            old(self).wf(),
            old(self)@.place_ids.len() < usize::MAX,
        ensures
            final(self).wf(),
            final(self)@ == chain_grow(old(self)@),
    {
        let k = net_place_count(&self.net);
        if k == 0 {
            let _p = net_create_place(&mut self.net);
            proof {
                assert(self@.place_ids =~= old(self)@.place_ids.push(0));
                assert(self@ =~= chain_grow(old(self)@));
                assert(net_consumed_by(self.net).dom() =~= Set::new(
                    |i: int| 0 <= i < net_places(self.net).len(),
                ));
            }
        } else {
            let last = net_last_place_id(&self.net);
            proof {
                assert(last as int == old(self)@.place_ids[k - 1]);
                assert(last == k - 1);
            }
            let t = net_create_transition(&mut self.net);
            net_set_time(&mut self.net, t, TimeRange::instant());
            let p = net_create_place(&mut self.net);
            proof {
                assert(net_consumed_by(self.net)[last as int] == no_arcs());
                assert(net_consume(self.net)[t as int] == no_arcs());
            }
            net_add_consume_arc(&mut self.net, last, t, 1);
            proof {
                assert(net_produce(self.net)[t as int] == no_arcs());
                assert(net_produced_by(self.net)[p as int] == no_arcs());
            }
            net_add_produce_arc(&mut self.net, p, t, 1);
            proof {
                assert(self@.times =~= old(self)@.times.push(instant_range()));
                assert(self@ =~= chain_grow(old(self)@));
                assert(net_consumed_by(self.net).dom() =~= Set::new(
                    |i: int| 0 <= i < net_places(self.net).len(),
                ));
                assert(net_produce(self.net).dom() =~= Set::new(
                    |q: int| 0 <= q < net_times(self.net).len(),
                ));
                assert(seq![(p as int, 1int)] =~= seq![(t as int + 1, 1int)]);
            }
        }
    }

    /// Calls `create_place` exactly `n` times, in order; every intermediate
    /// state is a valid chain.
    pub fn create_n_places(&mut self, n: usize)
        requires
            old(self).wf(),
            old(self)@.place_ids.len() + n <= usize::MAX,
        ensures
            final(self).wf(),
            final(self)@ == chain_grow_n(old(self)@, n as nat),
    {
        let mut i: usize = 0;
        while i < n
            invariant
                self.wf(),
                i <= n,
                old(self)@.place_ids.len() + n <= usize::MAX,
                self@ == chain_grow_n(old(self)@, i as nat),
                self@.place_ids.len() == old(self)@.place_ids.len() + i,
            decreases n - i,
        {
            self.create_place();
            i = i + 1;
            proof {
                assert(chain_grow_n(old(self)@, i as nat) == chain_grow(
                    chain_grow_n(old(self)@, (i - 1) as nat),
                ));
            }
        }
    }

    /// Removes the tail place; with it goes the transition that fed it, if
    /// the chain had more than one place.  Fails with `NoStates` on an
    /// empty chain, and only then.
    pub fn delete_place(&mut self) -> (r: Result<(), SeqPnetErr>)
        requires
            old(self).wf(),
        ensures
            final(self).wf(),
            old(self)@.place_ids.len() == 0 ==> r == Err::<(), SeqPnetErr>(SeqPnetErr::NoStates)
                && final(self)@ == old(self)@,
            old(self)@.place_ids.len() > 0 ==> r == Ok::<(), SeqPnetErr>(()) && final(self)@
                == chain_shrink(old(self)@),
    {
        let k = net_place_count(&self.net);
        if k == 0 {
            Err(SeqPnetErr::NoStates)
        } else {
            let nt = net_transition_count(&self.net);
            if nt == 0 {
                net_clear_places(&mut self.net);
                proof {
                    assert(self@.place_ids =~= chain_shrink(old(self)@).place_ids);
                    assert(self@.times =~= chain_shrink(old(self)@).times);
                    assert(self@ =~= chain_shrink(old(self)@));
                    assert(net_consumed_by(self.net).dom() =~= Set::new(
                        |i: int| 0 <= i < net_places(self.net).len(),
                    ));
                }
                Ok(())
            } else {
                proof {
                    assert(k >= 2);
                    assert(net_consumed_by(self.net)[k - 2] == seq![(k - 2, 1int)]);
                }
                net_unlink_consumer(&mut self.net, k - 2, nt - 1);
                net_truncate_places(&mut self.net, k - 1);
                net_truncate_transitions(&mut self.net, nt - 1);
                proof {
                    assert(self@.place_ids =~= old(self)@.place_ids.take(k - 1));
                    assert(self@.times =~= old(self)@.times.take(nt - 1));
                    assert(self@ =~= chain_shrink(old(self)@));
                    assert(net_consumed_by(self.net).dom() =~= Set::new(
                        |i: int| 0 <= i < net_places(self.net).len(),
                    ));
                    assert(net_produce(self.net).dom() =~= Set::new(
                        |q: int| 0 <= q < net_times(self.net).len(),
                    ));
                }
                Ok(())
            }
        }
    }

    /// Overwrites the time range of the transition at creation position
    /// `index`; fails with `NotEnoughTransitions` exactly when `index` lies
    /// past the last transition.
    pub fn add_transition_time_index(&mut self, range: TimeRange, index: usize) -> (r: Result<
        (),
        SeqPnetErr,
    >)
        requires
            old(self).wf(),
        ensures
            final(self).wf(),
            index < old(self)@.times.len() ==> r == Ok::<(), SeqPnetErr>(()) && final(self)@
                == chain_set_time(old(self)@, index as int, range),
            index >= old(self)@.times.len() ==> r == Err::<(), SeqPnetErr>(
                SeqPnetErr::NotEnoughTransitions,
            ) && final(self)@ == old(self)@,
    {
        let nt = net_transition_count(&self.net);
        if index < nt {
            net_set_time(&mut self.net, index, range);
            Ok(())
        } else {
            Err(SeqPnetErr::NotEnoughTransitions)
        }
    }

    /// Overwrites the time range of the transition carrying identifier
    /// `id`; fails with `InvalidTransition` exactly when no transition
    /// carries it.  Transition identifiers coincide with creation
    /// positions, so this agrees with the positional update.
    pub fn add_transition_time_id(&mut self, range: TimeRange, id: usize) -> (r: Result<
        (),
        SeqPnetErr,
    >)
        requires
            old(self).wf(),
        ensures
            final(self).wf(),
            id < old(self)@.times.len() ==> r == Ok::<(), SeqPnetErr>(()) && final(self)@
                == chain_set_time(old(self)@, id as int, range),
            id >= old(self)@.times.len() ==> r == Err::<(), SeqPnetErr>(
                SeqPnetErr::InvalidTransition(id),
            ) && final(self)@ == old(self)@,
    {
        let nt = net_transition_count(&self.net);
        if id < nt {
            net_set_time(&mut self.net, id, range);
            Ok(())
        } else {
            Err(SeqPnetErr::InvalidTransition(id))
        }
    }

    /// The transition consuming from place `curr`: the unique next hop of
    /// the chain, reconstructed from the arc records.
    fn next_transition_id(&self, curr: usize) -> (r: Result<usize, SeqPnetErr>)
        requires
            self.wf(),
        ensures
            ({
                let k = self@.place_ids.len();
                match r {
                    Ok(t) => (curr as int) < k - 1 && t == curr,
                    Err(SeqPnetErr::InvalidPlace(p)) => p == curr && curr as int >= k,
                    Err(SeqPnetErr::NoNextPlace(p)) => p == curr && k > 0 && curr as int == k - 1,
                    _ => false,
                }
            }),
    {
        let k = net_place_count(&self.net);
        if curr >= k {
            return Err(SeqPnetErr::InvalidPlace(curr));
        }
        match net_last_consumer(&self.net, curr) {
            None => Err(SeqPnetErr::NoNextPlace(curr)),
            Some(t) => {
                proof {
                    assert((curr as int) < k - 1);
                    assert(net_consumed_by(self.net)[curr as int] == seq![(curr as int, 1int)]);
                }
                Ok(t)
            },
        }
    }

    /// The place after `curr`: resolves the consuming transition, then the
    /// unique place it produces into.
    fn next_place_id(&self, curr: usize) -> (r: Result<usize, SeqPnetErr>)
        requires
            self.wf(),
        ensures
            ({
                let k = self@.place_ids.len();
                match r {
                    Ok(p) => (curr as int) < k - 1 && p == curr + 1,
                    Err(SeqPnetErr::InvalidPlace(p)) => p == curr && curr as int >= k,
                    Err(SeqPnetErr::NoNextPlace(p)) => p == curr && k > 0 && curr as int == k - 1,
                    _ => false,
                }
            }),
    {
        let next_trans = self.next_transition_id(curr)?;
        match net_last_produced(&self.net, next_trans) {
            Some(p) => Ok(p),
            None => {
                proof {
                    assert(false);
                }
                Err(SeqPnetErr::NoNextPlace(curr))
            },
        }
    }
}

impl Default for SeqPnet {
    /// The empty net: no places, no transitions, no arcs.
    fn default() -> (r: SeqPnet)
        ensures
            r.wf(),
            r@ == empty_chain(),
    {
        let r = SeqPnet { net: net_new() };
        proof {
            assert(r@ =~= empty_chain());
            assert(net_consumed_by(r.net).dom() =~= Set::new(
                |i: int| 0 <= i < net_places(r.net).len(),
            ));
            assert(net_produce(r.net).dom() =~= Set::new(
                |q: int| 0 <= q < net_times(r.net).len(),
            ));
        }
        r
    }
}

/// One rendered chain line: the place at position `i`, the interval of the
/// transition leaving it, and the place it leads to.
pub open spec fn line_text(i: int, t: TimeRange) -> Seq<char> {
    "\t"@ + dec_text(i as nat) + " --"@ + time_text(t) + "--> "@ + dec_text((i + 1) as nat)
        + "\n"@
}

/// All chain lines in order, one per transition.
pub open spec fn lines_text(times: Seq<TimeRange>) -> Seq<char>
    decreases times.len(),
{
    if times.len() == 0 {
        Seq::empty()
    } else {
        lines_text(times.drop_last()) + line_text(times.len() - 1, times.last())
    }
}

/// The full rendering of a chain: empty braces for no places, the single
/// identifier for one place, otherwise one line per transition between
/// braces.
pub open spec fn render_text(m: ChainModel) -> Seq<char> {
    if m.place_ids.len() == 0 {
        "Sequential Time Petri Net {}\n"@
    } else if m.place_ids.len() == 1 {
        "Sequential Time Petri Net { "@ + dec_text(m.place_ids.last() as nat) + " }\n"@
    } else {
        "Sequential Time Petri Net {\n"@ + lines_text(m.times) + "}\n"@
    }
}

proof fn lemma_lines_take_step(times: Seq<TimeRange>, p: int)
    requires
        0 <= p < times.len(),
    ensures
        lines_text(times.take(p + 1)) == lines_text(times.take(p)) + line_text(p, times[p]),
{
    assert(times.take(p + 1).drop_last() =~= times.take(p));
    assert(times.take(p + 1).last() == times[p]);
}

impl SeqPnet {
    /// Renders the chain, one line per transition, walking forward through
    /// the consume and produce arcs.
    pub fn render(&self) -> (r: String)
        requires
            self.wf(),
        ensures
            r@ == render_text(self@),
    {
        let k = net_place_count(&self.net);
        if k == 0 {
            String::from_str("Sequential Time Petri Net {}\n")
        } else if k == 1 {
            let id = net_last_place_id(&self.net);
            let mut out = String::from_str("Sequential Time Petri Net { ");
            push_dec(&mut out, id as u64);
            out.append(" }\n");
            proof {
                assert(id as int == self@.place_ids.last());
                assert(out@ =~= render_text(self@));
            }
            out
        } else {
            let mut out = String::from_str("Sequential Time Petri Net {\n");
            let ghost header: Seq<char> = out@;
            let mut p: usize = 0;
            while p < k
                invariant
                    self.wf(),
                    k == self@.place_ids.len(),
                    k >= 2,
                    p <= k,
                    out@ == header + lines_text(
                        self@.times.take(if p < k { p as int } else { (k - 1) as int }),
                    ),
                decreases k - p,
            {
                match net_last_consumer(&self.net, p) {
                    None => {
                        proof {
                            assert(p as int == k - 1);
                        }
                    },
                    Some(t) => {
                        proof {
                            assert((p as int) < k - 1);
                            assert(net_consumed_by(self.net)[p as int] == seq![
                                (p as int, 1int),
                            ]);
                            assert(t == p);
                        }
                        out.append("\t");
                        push_dec(&mut out, p as u64);
                        out.append(" --");
                        let tr = net_time_at(&self.net, t);
                        let interval = tr.render();
                        out.append(interval.as_str());
                        out.append("--> ");
                        let next = match net_last_produced(&self.net, t) {
                            Some(x) => x,
                            None => {
                                proof {
                                    assert(false);
                                }
                                0
                            },
                        };
                        push_dec(&mut out, next as u64);
                        out.append("\n");
                        proof {
                            assert(next as int == p as int + 1);
                            lemma_lines_take_step(self@.times, p as int);
                            assert(out@ =~= header + lines_text(self@.times.take(p as int + 1)));
                        }
                    },
                }
                p = p + 1;
            }
            proof {
                assert(self@.times.take((k - 1) as int) =~= self@.times);
            }
            out.append("}\n");
            proof {
                assert(out@ =~= render_text(self@));
            }
            out
        }
    }
}

} // verus!
