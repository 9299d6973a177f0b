//! What follows when a node is cordoned off: every floating address attached
//! to its server moves to a server drawn at random from the eligible set.

use crate::error::ReconcileError;
use crate::floating_ip::{
    after_plan, lemma_after_plan, lemma_after_plan_len, lemma_moved_is_placeable, moves_into,
    names, on_server, placeable, reassign, FloatingIp, Reassignment,
};
use crate::inventory::{all_identified, available_hc_server_ids, eligible_server_ids, first_rejection};
use crate::resources::Node;
use crate::selection::{choose_random, server_ids};
use std::collections::HashSet;
use vstd::prelude::*;

verus! {

/// Whether `plan` is an answer of the node reconciler: every listed node names
/// its server, and the plan moves exactly the addresses attached to
/// `server_id`, each to an eligible server.
pub open spec fn node_plan(
    server_id: i32,
    listing: Seq<FloatingIp>,
    nodes: Seq<Node>,
    plan: Seq<Reassignment>,
) -> bool {
    &&& all_identified(nodes)
    &&& moves_into(plan, listing.filter(on_server(server_id)), eligible_server_ids(nodes))
}

/// Whether the node reconciler gives up with `error`: for the first node that
/// names no server, or else because an address has to move and no server is
/// eligible.
pub open spec fn node_failure(
    server_id: i32,
    listing: Seq<FloatingIp>,
    nodes: Seq<Node>,
    error: ReconcileError,
) -> bool {
    if all_identified(nodes) {
        &&& error == ReconcileError::NoEligibleServer
        &&& !placeable(listing.filter(on_server(server_id)), eligible_server_ids(nodes))
    } else {
        first_rejection(nodes, error)
    }
}

/// Plans the move of every address attached to `server_id`, each to a server
/// drawn on its own from `eligible`. Where such an address exists and no
/// server is eligible, there is no plan.
pub fn plan_node_reassignments(
    server_id: i32,
    floating_ips: &Vec<FloatingIp>,
    eligible: &HashSet<i32>,
) -> (r: Result<Vec<Reassignment>, ReconcileError>)
    ensures
        r is Ok <==> placeable(floating_ips@.filter(on_server(server_id)), eligible@),
        match r {
            Ok(plan) => moves_into(plan@, floating_ips@.filter(on_server(server_id)), eligible@),
            Err(error) => error == ReconcileError::NoEligibleServer,
        },
{
    let candidates = server_ids(eligible);
    let mut plan: Vec<Reassignment> = Vec::new();
    let mut i: usize = 0;
    assert(floating_ips@.take(0).filter(on_server(server_id)) == Seq::<FloatingIp>::empty()) by {
        reveal(Seq::filter);
    }
    while i < floating_ips.len()
        invariant
            i <= floating_ips.len(),
            candidates@.to_set() == eligible@,
            moves_into(plan@, floating_ips@.take(i as int).filter(on_server(server_id)), eligible@),
        decreases floating_ips.len() - i,
    {
        let floating_ip = &floating_ips[i];
        let ghost seen = floating_ips@.take(i as int);
        proof {
            assert(floating_ips@.take(i + 1) == seen.push(*floating_ip));
            Seq::lemma_filter_push(seen, *floating_ip, on_server(server_id));
        }
        let attached = match floating_ip.server {
            Some(server) => server == server_id,
            None => false,
        };
        if attached {
            let selected = choose_random(&candidates);
            match reassign(floating_ip, selected) {
                Ok(reassignment) => {
                    plan.push(reassignment);
                },
                Err(error) => {
                    proof {
                        Seq::lemma_filter_contains(floating_ips@, on_server(server_id), i as int);
                    }
                    return Err(error);
                },
            }
        }
        i += 1;
    }
    proof {
        assert(floating_ips@.take(i as int) == floating_ips@);
        lemma_moved_is_placeable(plan@, floating_ips@.filter(on_server(server_id)), eligible@);
    }
    Ok(plan)
}

/// Reconciles the provider's listing with a node that was cordoned off:
/// computes the eligible set from the node listing and plans the move of
/// every address attached to `server_id`.
pub fn reconcile_node(server_id: i32, floating_ips: &Vec<FloatingIp>, nodes: &Vec<Node>) -> (r:
    Result<Vec<Reassignment>, ReconcileError>)
    ensures
        r is Ok <==> all_identified(nodes@) && placeable(
            floating_ips@.filter(on_server(server_id)),
            eligible_server_ids(nodes@),
        ),
        match r {
            Ok(plan) => node_plan(server_id, floating_ips@, nodes@, plan@),
            Err(error) => node_failure(server_id, floating_ips@, nodes@, error),
        },
{
    match available_hc_server_ids(nodes) {
        Ok(eligible) => plan_node_reassignments(server_id, floating_ips, &eligible),
        Err(error) => Err(error),
    }
}

/// Once the provider has carried out a plan of the node reconciler, every
/// address that was attached to the cordoned-off server is attached to a
/// server of the eligible set.
pub proof fn orphaned_addresses_end_on_eligible_servers(
    server_id: i32,
    listing: Seq<FloatingIp>,
    nodes: Seq<Node>,
    plan: Seq<Reassignment>,
    i: int,
)
    requires
        node_plan(server_id, listing, nodes, plan),
        0 <= i < listing.len(),
        listing[i].server == Some(server_id),
    ensures
        after_plan(listing, plan)[i].server matches Some(server) && eligible_server_ids(
            nodes,
        ).contains(server),
{
    let orphaned = listing.filter(on_server(server_id));
    Seq::lemma_filter_contains(listing, on_server(server_id), i);
    let k = choose|k: int| 0 <= k < orphaned.len() && orphaned[k] == listing[i];
    assert(plan[k].floating_ip_id == listing[i].id);
    lemma_after_plan(listing, plan, i);
}

/// Where the node listing shows the cordoned-off server as not eligible, a
/// plan of the node reconciler leaves none of its addresses on it.
pub proof fn orphaned_addresses_leave_the_server(
    server_id: i32,
    listing: Seq<FloatingIp>,
    nodes: Seq<Node>,
    plan: Seq<Reassignment>,
    i: int,
)
    requires
        node_plan(server_id, listing, nodes, plan),
        !eligible_server_ids(nodes).contains(server_id),
        0 <= i < listing.len(),
        listing[i].server == Some(server_id),
    ensures
        after_plan(listing, plan)[i].server != Some(server_id),
{
    orphaned_addresses_end_on_eligible_servers(server_id, listing, nodes, plan, i);
}

/// A second run of the node reconciler on what the first run left, with the
/// node listing unchanged and the cordoned-off server not eligible, reassigns
/// nothing.
pub proof fn second_run_reassigns_nothing(
    server_id: i32,
    listing: Seq<FloatingIp>,
    nodes: Seq<Node>,
    first: Seq<Reassignment>,
    second: Seq<Reassignment>,
)
    requires
        node_plan(server_id, listing, nodes, first),
        !eligible_server_ids(nodes).contains(server_id),
        node_plan(server_id, after_plan(listing, first), nodes, second),
    ensures
        second.len() == 0,
{
    let settled = after_plan(listing, first);
    lemma_after_plan_len(listing, first);
    assert forall|i: int| 0 <= i < settled.len() implies !on_server(server_id)(
        #[trigger] settled[i],
    ) by {
        lemma_after_plan(listing, first, i);
        if listing[i].server == Some(server_id) {
            orphaned_addresses_leave_the_server(server_id, listing, nodes, first, i);
        } else if names(first, listing[i].id) {
            let k = choose|k: int|
                0 <= k < first.len() && (#[trigger] first[k]).floating_ip_id == listing[i].id
                    && settled[i].server == Some(first[k].server_id);
            assert(eligible_server_ids(nodes).contains(first[k].server_id));
        }
    }
    settled.lemma_all_neg_filter_empty(on_server(server_id));
}

} // verus!
