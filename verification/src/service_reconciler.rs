//! What follows when a load-balancer service is observed: every floating
//! address that the service publishes and that sits on no eligible server
//! moves to one and the same eligible server.

use crate::error::ReconcileError;
use crate::floating_ip::{
    after_plan, lemma_after_plan, lemma_after_plan_len, lemma_moved_is_placeable, moves_into,
    names, placeable, published_and_stranded, reassign, single_target, FloatingIp, Reassignment,
};
use crate::inventory::{all_identified, available_hc_server_ids, eligible_server_ids, first_rejection};
use crate::resources::{contains_text, texts, Node};
use crate::selection::first_server;
use std::collections::HashSet;
use vstd::prelude::*;

verus! {

broadcast use vstd::std_specs::hash::group_hash_axioms;

/// Whether `plan` is an answer of the service reconciler: the plan moves
/// exactly the addresses that are published under one of `ips` and sit on no
/// eligible server, all of them to the same eligible server. While the
/// service publishes no address the plan is empty whatever the listings hold;
/// otherwise every listed node names its server.
pub open spec fn service_plan(
    ips: Set<Seq<char>>,
    listing: Seq<FloatingIp>,
    nodes: Seq<Node>,
    plan: Seq<Reassignment>,
) -> bool {
    &&& ips.is_empty() || all_identified(nodes)
    &&& moves_into(
        plan,
        listing.filter(published_and_stranded(ips, eligible_server_ids(nodes))),
        eligible_server_ids(nodes),
    )
    &&& single_target(plan)
}

/// Whether the service reconciler gives up with `error`: the service
/// publishes an address, and either `error` is what the first node that names
/// no server is rejected for, or an address has to move and no server is
/// eligible.
pub open spec fn service_failure(
    ips: Set<Seq<char>>,
    listing: Seq<FloatingIp>,
    nodes: Seq<Node>,
    error: ReconcileError,
) -> bool {
    &&& !ips.is_empty()
    &&& if all_identified(nodes) {
        &&& error == ReconcileError::NoEligibleServer
        &&& !placeable(
            listing.filter(published_and_stranded(ips, eligible_server_ids(nodes))),
            eligible_server_ids(nodes),
        )
    } else {
        first_rejection(nodes, error)
    }
}

/// Plans the move of every address that is published under one of
/// `ingress_ips` and has no server from `eligible`. All of them go to the
/// member of `eligible` that a walk through the set meets first. Where such
/// an address exists and no server is eligible, there is no plan.
pub fn plan_service_reassignments(
    ingress_ips: &Vec<String>,
    floating_ips: &Vec<FloatingIp>,
    eligible: &HashSet<i32>,
) -> (r: Result<Vec<Reassignment>, ReconcileError>)
    ensures
        r is Ok <==> placeable(
            floating_ips@.filter(published_and_stranded(texts(ingress_ips@).to_set(), eligible@)),
            eligible@,
        ),
        match r {
            Ok(plan) => {
                &&& moves_into(
                    plan@,
                    floating_ips@.filter(published_and_stranded(texts(ingress_ips@).to_set(), eligible@)),
                    eligible@,
                )
                &&& single_target(plan@)
            },
            Err(error) => error == ReconcileError::NoEligibleServer,
        },
{
    let ghost selects = published_and_stranded(texts(ingress_ips@).to_set(), eligible@);
    let target = first_server(eligible);
    let mut plan: Vec<Reassignment> = Vec::new();
    let mut i: usize = 0;
    assert(floating_ips@.take(0).filter(selects) == Seq::<FloatingIp>::empty()) by {
        reveal(Seq::filter);
    }
    while i < floating_ips.len()
        invariant
            i <= floating_ips.len(),
            selects == published_and_stranded(texts(ingress_ips@).to_set(), eligible@),
            match target {
                Some(server_id) => eligible@.contains(server_id),
                None => eligible@.is_empty(),
            },
            moves_into(plan@, floating_ips@.take(i as int).filter(selects), eligible@),
            forall|k: int| 0 <= k < plan.len() ==> Some((#[trigger] plan[k]).server_id) == target,
        decreases floating_ips.len() - i,
    {
        let floating_ip = &floating_ips[i];
        let ghost seen = floating_ips@.take(i as int);
        proof {
            assert(floating_ips@.take(i + 1) == seen.push(*floating_ip));
            Seq::lemma_filter_push(seen, *floating_ip, selects);
        }
        let stranded = match floating_ip.server {
            Some(server) => !eligible.contains(&server),
            None => true,
        };
        if stranded && contains_text(ingress_ips, &floating_ip.ip) {
            match reassign(floating_ip, target) {
                Ok(reassignment) => {
                    plan.push(reassignment);
                },
                Err(error) => {
                    proof {
                        Seq::lemma_filter_contains(floating_ips@, selects, i as int);
                    }
                    return Err(error);
                },
            }
        }
        i += 1;
    }
    proof {
        assert(floating_ips@.take(i as int) == floating_ips@);
        lemma_moved_is_placeable(plan@, floating_ips@.filter(selects), eligible@);
    }
    Ok(plan)
}

/// Reconciles the provider's listing with a load-balancer service that
/// publishes `ingress_ips`: computes the eligible set from the node listing
/// and plans the move of every published address that sits on no eligible
/// server. While the service publishes no address nothing is looked at and
/// nothing moves.
pub fn reconcile_service(
    ingress_ips: &Vec<String>,
    floating_ips: &Vec<FloatingIp>,
    nodes: &Vec<Node>,
) -> (r: Result<Vec<Reassignment>, ReconcileError>)
    ensures
        r is Ok <==> texts(ingress_ips@).to_set().is_empty() || (all_identified(nodes@) && placeable(
            floating_ips@.filter(
                published_and_stranded(texts(ingress_ips@).to_set(), eligible_server_ids(nodes@)),
            ),
            eligible_server_ids(nodes@),
        )),
        match r {
            Ok(plan) => service_plan(texts(ingress_ips@).to_set(), floating_ips@, nodes@, plan@),
            Err(error) => service_failure(
                texts(ingress_ips@).to_set(),
                floating_ips@,
                nodes@,
                error,
            ),
        },
{
    if ingress_ips.len() == 0 {
        let plan: Vec<Reassignment> = Vec::new();
        proof {
            let ips = texts(ingress_ips@).to_set();
            let selects = published_and_stranded(ips, eligible_server_ids(nodes@));
            assert forall|i: int| 0 <= i < floating_ips.len() implies !selects(
                #[trigger] floating_ips@[i],
            ) by {}
            floating_ips@.lemma_all_neg_filter_empty(selects);
        }
        return Ok(plan);
    }
    assert(texts(ingress_ips@).to_set().contains(texts(ingress_ips@)[0]));
    match available_hc_server_ids(nodes) {
        Ok(eligible) => plan_service_reassignments(ingress_ips, floating_ips, &eligible),
        Err(error) => Err(error),
    }
}

/// Once the provider has carried out a plan of the service reconciler, every
/// address published by the service is attached to a server of the eligible
/// set.
pub proof fn published_addresses_end_on_eligible_servers(
    ips: Set<Seq<char>>,
    listing: Seq<FloatingIp>,
    nodes: Seq<Node>,
    plan: Seq<Reassignment>,
    i: int,
)
    requires
        service_plan(ips, listing, nodes, plan),
        0 <= i < listing.len(),
        ips.contains(listing[i].ip@),
    ensures
        after_plan(listing, plan)[i].server matches Some(server) && eligible_server_ids(
            nodes,
        ).contains(server),
{
    let eligible = eligible_server_ids(nodes);
    let selects = published_and_stranded(ips, eligible);
    let stranded = listing.filter(selects);
    if listing[i].stranded(eligible) {
        Seq::lemma_filter_contains(listing, selects, i);
        let k = choose|k: int| 0 <= k < stranded.len() && stranded[k] == listing[i];
        assert(plan[k].floating_ip_id == listing[i].id);
    }
    lemma_after_plan(listing, plan, i);
}

/// A second run of the service reconciler on what the first run left, with
/// the service and the node listing unchanged, reassigns nothing.
pub proof fn second_run_reassigns_nothing(
    ips: Set<Seq<char>>,
    listing: Seq<FloatingIp>,
    nodes: Seq<Node>,
    first: Seq<Reassignment>,
    second: Seq<Reassignment>,
)
    requires
        service_plan(ips, listing, nodes, first),
        service_plan(ips, after_plan(listing, first), nodes, second),
    ensures
        second.len() == 0,
{
    let selects = published_and_stranded(ips, eligible_server_ids(nodes));
    let settled = after_plan(listing, first);
    lemma_after_plan_len(listing, first);
    assert forall|i: int| 0 <= i < settled.len() implies !selects(#[trigger] settled[i]) by {
        lemma_after_plan(listing, first, i);
        if ips.contains(listing[i].ip@) {
            published_addresses_end_on_eligible_servers(ips, listing, nodes, first, i);
        }
    }
    settled.lemma_all_neg_filter_empty(selects);
}

} // verus!
