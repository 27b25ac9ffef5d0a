use seq_pnet::add;
use seq_pnet::seq_pnet::{SeqPnet, SeqPnetErr};
use seq_pnet::time::{Bound, TimeRange};

#[test]
fn make_seq_pnet() {
    let mut seq_pnet: SeqPnet = Default::default();
    seq_pnet.create_n_places(5);
    println!("{}", seq_pnet.render());
    assert_eq!(4, 4);
}

#[test]
fn add_sums() {
    assert_eq!(add(2, 2), 4);
}

#[test]
fn chain_lengths() {
    let mut net: SeqPnet = Default::default();
    assert_eq!(net.place_count(), 0);
    assert_eq!(net.transition_count(), 0);
    net.create_n_places(0);
    assert_eq!(net.place_count(), 0);
    assert_eq!(net.transition_count(), 0);
    net.create_n_places(1);
    assert_eq!(net.place_count(), 1);
    assert_eq!(net.transition_count(), 0);
    net.create_n_places(3);
    assert_eq!(net.place_count(), 4);
    assert_eq!(net.transition_count(), 3);
}

#[test]
fn default_time_is_instantaneous() {
    let mut net: SeqPnet = Default::default();
    net.create_n_places(3);
    let expected = TimeRange { start: Bound::Closed(0), end: Bound::Closed(0) };
    assert_eq!(net.time_at_index(0), Some(expected));
    assert_eq!(net.time_at_index(1), Some(expected));
    assert_eq!(net.time_at_index(2), None);
}

#[test]
fn round_trip_returns_to_empty() {
    let mut net: SeqPnet = Default::default();
    net.create_n_places(3);
    assert_eq!(net.delete_place(), Ok(()));
    assert_eq!(net.delete_place(), Ok(()));
    assert_eq!(net.delete_place(), Ok(()));
    assert_eq!(net.place_count(), 0);
    assert_eq!(net.transition_count(), 0);
    assert_eq!(net.delete_place(), Err(SeqPnetErr::NoStates));
}

#[test]
fn delete_on_empty_fails() {
    let mut net: SeqPnet = Default::default();
    assert_eq!(net.delete_place(), Err(SeqPnetErr::NoStates));
    assert_eq!(net.place_count(), 0);
}

#[test]
fn time_index_out_of_range_fails() {
    let mut net: SeqPnet = Default::default();
    net.create_n_places(3);
    let r = TimeRange { start: Bound::Closed(1), end: Bound::Closed(2) };
    assert_eq!(net.add_transition_time_index(r, 2), Err(SeqPnetErr::NotEnoughTransitions));
    assert_eq!(net.add_transition_time_index(r, 7), Err(SeqPnetErr::NotEnoughTransitions));
    assert_eq!(net.add_transition_time_index(r, 1), Ok(()));
}

#[test]
fn time_id_invalid_fails() {
    let mut net: SeqPnet = Default::default();
    net.create_n_places(2);
    let r = TimeRange { start: Bound::Open(1), end: Bound::Closed(9) };
    assert_eq!(net.add_transition_time_id(r, 1), Err(SeqPnetErr::InvalidTransition(1)));
    assert_eq!(net.add_transition_time_id(r, 0), Ok(()));
    assert_eq!(net.time_at_index(0), Some(r));
}

#[test]
fn positional_and_id_updates_agree() {
    let r = TimeRange { start: Bound::Closed(3), end: Bound::Open(8) };
    let mut by_index: SeqPnet = Default::default();
    by_index.create_n_places(4);
    assert_eq!(by_index.add_transition_time_index(r, 1), Ok(()));
    let mut by_id: SeqPnet = Default::default();
    by_id.create_n_places(4);
    assert_eq!(by_id.add_transition_time_id(r, 1), Ok(()));
    assert_eq!(by_index.time_at_index(0), by_id.time_at_index(0));
    assert_eq!(by_index.time_at_index(1), by_id.time_at_index(1));
    assert_eq!(by_index.time_at_index(2), by_id.time_at_index(2));
    assert_eq!(by_index.render(), by_id.render());
}

#[test]
fn render_empty_and_single() {
    let mut net: SeqPnet = Default::default();
    assert_eq!(net.render(), "Sequential Time Petri Net {}\n");
    net.create_place();
    assert_eq!(net.render(), "Sequential Time Petri Net { 0 }\n");
}

#[test]
fn render_scenario() {
    let mut net: SeqPnet = Default::default();
    net.create_n_places(3);
    assert_eq!(net.place_count(), 3);
    assert_eq!(net.transition_count(), 2);
    assert_eq!(
        net.render(),
        "Sequential Time Petri Net {\n\t0 --[0, 0]--> 1\n\t1 --[0, 0]--> 2\n}\n"
    );
    let r = TimeRange { start: Bound::Closed(2), end: Bound::Open(5) };
    assert_eq!(net.add_transition_time_index(r, 0), Ok(()));
    assert_eq!(
        net.render(),
        "Sequential Time Petri Net {\n\t0 --[2, 5)--> 1\n\t1 --[0, 0]--> 2\n}\n"
    );
    assert_eq!(net.delete_place(), Ok(()));
    assert_eq!(net.place_count(), 2);
    assert_eq!(net.transition_count(), 1);
    assert_eq!(net.render(), "Sequential Time Petri Net {\n\t0 --[2, 5)--> 1\n}\n");
}

#[test]
fn identifier_stability_under_deletion() {
    let mut net: SeqPnet = Default::default();
    net.create_n_places(4);
    let r = TimeRange { start: Bound::Closed(1), end: Bound::Closed(6) };
    assert_eq!(net.add_transition_time_index(r, 0), Ok(()));
    let before = net.render();
    assert_eq!(net.delete_place(), Ok(()));
    let after = net.render();
    let before_lines: Vec<&str> = before.lines().collect();
    let after_lines: Vec<&str> = after.lines().collect();
    assert_eq!(after_lines.len(), before_lines.len() - 1);
    assert_eq!(after_lines[0], before_lines[0]);
    assert_eq!(after_lines[1], before_lines[1]);
    assert_eq!(after_lines[2], before_lines[2]);
}

#[test]
fn render_bound_kinds() {
    let mut net: SeqPnet = Default::default();
    net.create_n_places(3);
    let open_inf = TimeRange { start: Bound::Open(1), end: Bound::Infinity };
    let inf_closed = TimeRange { start: Bound::Infinity, end: Bound::Closed(34) };
    assert_eq!(net.add_transition_time_index(open_inf, 0), Ok(()));
    assert_eq!(net.add_transition_time_id(inf_closed, 1), Ok(()));
    assert_eq!(
        net.render(),
        "Sequential Time Petri Net {\n\t0 --(1, inf)--> 1\n\t1 --(inf, 34]--> 2\n}\n"
    );
}

#[test]
fn grow_after_delete_keeps_chain_shape() {
    let mut net: SeqPnet = Default::default();
    net.create_n_places(2);
    assert_eq!(net.delete_place(), Ok(()));
    net.create_n_places(2);
    assert_eq!(net.place_count(), 3);
    assert_eq!(net.transition_count(), 2);
    assert_eq!(
        net.render(),
        "Sequential Time Petri Net {\n\t0 --[0, 0]--> 1\n\t1 --[0, 0]--> 2\n}\n"
    );
}
