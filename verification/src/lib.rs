use vstd::prelude::*;

pub mod graph;
pub mod model;
pub mod seq_pnet;
pub mod time;

verus! {

/// Sum of two counts; the inputs must not exceed the machine word.
pub fn add(left: usize, right: usize) -> (r: usize)
    requires
        left + right <= usize::MAX,
    ensures
        r == left + right,
{
    left + right
}

} // verus!
