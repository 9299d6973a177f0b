//! Which servers may currently receive traffic.

use crate::error::ReconcileError;
use crate::resources::{get_hc_server_id, Node};
use std::collections::HashSet;
use vstd::prelude::*;

verus! {

broadcast use vstd::std_specs::hash::group_hash_axioms;

/// Whether every listed node names its server.
pub open spec fn all_identified(nodes: Seq<Node>) -> bool {
    forall|i: int| 0 <= i < nodes.len() ==> (#[trigger] nodes[i]).server_id() is Ok
}

/// Whether `error` is what the first node that names no server is rejected for.
pub open spec fn first_rejection(nodes: Seq<Node>, error: ReconcileError) -> bool {
    exists|k: int|
        {
            &&& 0 <= k < nodes.len()
            &&& (#[trigger] nodes[k]).server_id() == Err::<i32, ReconcileError>(error)
            &&& all_identified(nodes.take(k))
        }
}

/// The servers of the nodes that are not cordoned off.
pub open spec fn eligible_server_ids(nodes: Seq<Node>) -> Set<i32> {
    Set::new(
        |id: i32|
            exists|i: int|
                0 <= i < nodes.len() && !(#[trigger] nodes[i]).unschedulable() && nodes[i].server_id()
                    == Ok::<i32, ReconcileError>(id),
    )
}

/// A listing that is rejected holds a node that names no server.
pub proof fn rejection_means_unidentified(nodes: Seq<Node>, error: ReconcileError)
    requires
        first_rejection(nodes, error),
    ensures
        !all_identified(nodes),
{
    let k = choose|k: int|
        {
            &&& 0 <= k < nodes.len()
            &&& (#[trigger] nodes[k]).server_id() == Err::<i32, ReconcileError>(error)
            &&& all_identified(nodes.take(k))
        };
    assert(nodes[k].server_id() is Err);
}

/// The server of every listed node that is not cordoned off is eligible.
pub proof fn schedulable_node_is_eligible(nodes: Seq<Node>, i: int)
    requires
        0 <= i < nodes.len(),
        !nodes[i].unschedulable(),
        nodes[i].server_id() is Ok,
    ensures
        eligible_server_ids(nodes).contains(nodes[i].server_id()->Ok_0),
{
}

/// The server of a cordoned-off node is not eligible, unless a node that is
/// not cordoned off names the same server.
pub proof fn cordoned_node_is_not_eligible(nodes: Seq<Node>, i: int)
    requires
        0 <= i < nodes.len(),
        nodes[i].unschedulable(),
        nodes[i].server_id() is Ok,
        forall|j: int|
            0 <= j < nodes.len() && !(#[trigger] nodes[j]).unschedulable() ==> nodes[j].server_id()
                != nodes[i].server_id(),
    ensures
        !eligible_server_ids(nodes).contains(nodes[i].server_id()->Ok_0),
{
}

/// What one more node at the end of a listing adds: its server, unless the
/// node is cordoned off.
proof fn lemma_eligible_push(seen: Seq<Node>, node: Node)
    requires
        all_identified(seen),
        node.server_id() is Ok,
    ensures
        all_identified(seen.push(node)),
        eligible_server_ids(seen.push(node)) == if node.unschedulable() {
            eligible_server_ids(seen)
        } else {
            eligible_server_ids(seen).insert(node.server_id()->Ok_0)
        },
{
    let next = seen.push(node);
    let wanted = if node.unschedulable() {
        eligible_server_ids(seen)
    } else {
        eligible_server_ids(seen).insert(node.server_id()->Ok_0)
    };
    assert forall|id: i32| wanted.contains(id) implies eligible_server_ids(next).contains(id) by {
        if eligible_server_ids(seen).contains(id) {
            let k = choose|k: int|
                0 <= k < seen.len() && !(#[trigger] seen[k]).unschedulable() && seen[k].server_id()
                    == Ok::<i32, ReconcileError>(id);
            assert(next[k] == seen[k]);
        } else {
            assert(next[seen.len() as int] == node);
        }
    }
    assert forall|id: i32| eligible_server_ids(next).contains(id) implies wanted.contains(id) by {
        let k = choose|k: int|
            0 <= k < next.len() && !(#[trigger] next[k]).unschedulable() && next[k].server_id()
                == Ok::<i32, ReconcileError>(id);
        if k < seen.len() {
            assert(seen[k] == next[k]);
        }
    }
    assert(eligible_server_ids(next) =~= wanted);
    assert forall|k: int| 0 <= k < next.len() implies (#[trigger] next[k]).server_id() is Ok by {
        if k < seen.len() {
            assert(seen[k] == next[k]);
        }
    }
}

/// Computes the eligible server set of a node listing. Every listed node has
/// to name its server, cordoned off or not: the listing is rejected for the
/// first one that does not.
pub fn available_hc_server_ids(nodes: &Vec<Node>) -> (r: Result<HashSet<i32>, ReconcileError>)
    ensures
        r is Ok <==> all_identified(nodes@),
        match r {
            Ok(ids) => ids@ == eligible_server_ids(nodes@),
            Err(error) => first_rejection(nodes@, error),
        },
{
    let mut ids: HashSet<i32> = HashSet::new();
    let mut i: usize = 0;
    while i < nodes.len()
        invariant
            i <= nodes.len(),
            all_identified(nodes@.take(i as int)),
            ids@ == eligible_server_ids(nodes@.take(i as int)),
        decreases nodes.len() - i,
    {
        let node = &nodes[i];
        let ghost seen = nodes@.take(i as int);
        let ghost next = nodes@.take(i + 1);
        assert(next == seen.push(*node));
        match get_hc_server_id(node) {
            Err(error) => {
                proof {
                    rejection_means_unidentified(nodes@, error);
                }
                return Err(error);
            },
            Ok(id) => {
                let cordoned = match &node.spec {
                    Some(spec) => match spec.unschedulable {
                        Some(flag) => flag,
                        None => false,
                    },
                    None => false,
                };
                if !cordoned {
                    ids.insert(id);
                }
                proof {
                    lemma_eligible_push(seen, *node);
                }
            },
        }
        i += 1;
    }
    assert(nodes@.take(i as int) == nodes@);
    Ok(ids)
}

} // verus!
