//! How a new server is chosen for an address that has to move.

use rand::seq::SliceRandom;
use std::collections::HashSet;
use vstd::prelude::*;
use vstd::std_specs::iter::IteratorSpec;

verus! {

broadcast use vstd::std_specs::hash::group_hash_axioms;

/// Lists the members of a set of server identifiers, each once, in the order
/// in which the set hands them out.
pub fn server_ids(eligible: &HashSet<i32>) -> (ids: Vec<i32>)
    ensures
        ids@.to_set() == eligible@,
        ids@.no_duplicates(),
{
    let mut ids: Vec<i32> = Vec::new();
    let members = eligible.iter();
    for id in it: members
        invariant
            it.seq().unref() == members.remaining().unref(),
            ids@ == it.seq().unref().take(it.index()),
    {
        ids.push(*id);
    }
    assert(ids@ == members.remaining().unref());
    ids
}

/// The member that a walk through the set meets first, if the set has one.
pub fn first_server(eligible: &HashSet<i32>) -> (first: Option<i32>)
    ensures
        match first {
            Some(id) => eligible@.contains(id),
            None => eligible@.is_empty(),
        },
{
    let members = eligible.iter();
    for id in it: members
        invariant
            it.seq().unref() == members.remaining().unref(),
            it.index() == 0,
            members.remaining().unref().to_set() == eligible@,
    {
        assert(members.remaining().unref()[0] == *id);
        return Some(*id);
    }
    assert(members.remaining().unref().len() == 0);
    None
}

/// Draws one of `ids` at random.
///
/// Trusted: the body calls `rand::seq::SliceRandom::choose` on the slice with
/// the generator of `rand::thread_rng`. The contract repeats what `choose`
/// does for slices: nothing is drawn from an empty slice, and otherwise the
/// result is one of its elements. Which one is left open, and so is that
/// every element is equally likely. `thread_rng` panics where the operating
/// system yields no seed.
#[verifier::external_body]
pub(crate) fn choose_random(ids: &Vec<i32>) -> (selected: Option<i32>)
    ensures
        match selected {
            Some(id) => ids@.contains(id),
            None => ids@.len() == 0,
        },
{
    ids.choose(&mut rand::thread_rng()).copied()
}

} // verus!
