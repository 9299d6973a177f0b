use fip_controller::error::ReconcileError;
use fip_controller::floating_ip::{reassign, FloatingIp, Reassignment};
use fip_controller::node_reconciler::{plan_node_reassignments, reconcile_node};
use fip_controller::resources::{Node, NodeSpec};
use std::collections::HashSet;

fn node(server_id: i32, unschedulable: Option<bool>) -> Node {
    Node {
        name: Some(format!("node-{}", server_id)),
        spec: Some(NodeSpec {
            unschedulable,
            provider_id: Some(format!("hcloud://{}", server_id)),
        }),
    }
}

fn floating_ip(id: i32, ip: &str, server: Option<i32>) -> FloatingIp {
    FloatingIp { id, ip: ip.to_string(), server }
}

fn set_of(ids: &[i32]) -> HashSet<i32> {
    ids.iter().copied().collect()
}

/// What the provider's listing holds once it has carried out a plan.
fn carried_out(listing: &[FloatingIp], plan: &[Reassignment]) -> Vec<FloatingIp> {
    let mut listing = listing.to_vec();
    for reassignment in plan {
        for floating_ip in listing.iter_mut() {
            if floating_ip.id == reassignment.floating_ip_id {
                floating_ip.server = Some(reassignment.server_id);
            }
        }
    }
    listing
}

#[test]
fn a_selected_server_makes_a_reassignment() {
    let address = floating_ip(11, "10.0.0.1", Some(5));
    assert_eq!(
        reassign(&address, Some(7)),
        Ok(Reassignment { floating_ip_id: 11, ip: "10.0.0.1".to_string(), server_id: 7 })
    );
}

#[test]
fn no_selected_server_makes_no_reassignment() {
    let address = floating_ip(11, "10.0.0.1", Some(5));
    assert_eq!(reassign(&address, None), Err(ReconcileError::NoEligibleServer));
}

#[test]
fn a_copy_of_a_reassignment_says_the_same() {
    let reassignment = Reassignment { floating_ip_id: 11, ip: "10.0.0.1".to_string(), server_id: 7 };
    assert_eq!(reassignment.duplicate(), reassignment);
}

#[test]
fn the_address_of_a_cordoned_node_moves_to_an_eligible_server() {
    // Node A (server 5) was cordoned off; fip-1 sits on server 5; 7 and 9 are eligible.
    let listing = vec![floating_ip(1, "10.0.0.1", Some(5))];
    let nodes = vec![node(5, Some(true)), node(7, None), node(9, Some(false))];
    let plan = reconcile_node(5, &listing, &nodes).unwrap();
    assert_eq!(plan.len(), 1);
    assert_eq!(plan[0].floating_ip_id, 1);
    assert_eq!(plan[0].ip, "10.0.0.1");
    assert!(plan[0].server_id == 7 || plan[0].server_id == 9);
    let after = carried_out(&listing, &plan);
    assert!(after[0].server == Some(7) || after[0].server == Some(9));
}

#[test]
fn only_the_addresses_of_the_cordoned_server_move() {
    let listing = vec![
        floating_ip(1, "10.0.0.1", Some(5)),
        floating_ip(2, "10.0.0.2", Some(6)),
        floating_ip(3, "10.0.0.3", None),
        floating_ip(4, "10.0.0.4", Some(5)),
    ];
    let eligible = set_of(&[7]);
    assert_eq!(
        plan_node_reassignments(5, &listing, &eligible),
        Ok(vec![
            Reassignment { floating_ip_id: 1, ip: "10.0.0.1".to_string(), server_id: 7 },
            Reassignment { floating_ip_id: 4, ip: "10.0.0.4".to_string(), server_id: 7 },
        ])
    );
}

#[test]
fn every_orphaned_address_ends_on_an_eligible_server() {
    let listing: Vec<FloatingIp> = (0..40)
        .map(|id| floating_ip(id, &format!("10.0.0.{}", id), if id % 2 == 0 { Some(5) } else { Some(6) }))
        .collect();
    let nodes = vec![node(5, Some(true)), node(6, None), node(7, None), node(9, None)];
    let plan = reconcile_node(5, &listing, &nodes).unwrap();
    assert_eq!(plan.len(), 20);
    let after = carried_out(&listing, &plan);
    for (before, after) in listing.iter().zip(after.iter()) {
        if before.server == Some(5) {
            assert!(matches!(after.server, Some(6) | Some(7) | Some(9)));
        } else {
            assert_eq!(before, after);
        }
    }
}

#[test]
fn nothing_moves_where_the_server_holds_no_address() {
    let listing = vec![floating_ip(1, "10.0.0.1", Some(6)), floating_ip(2, "10.0.0.2", None)];
    let nodes = vec![node(5, Some(true)), node(6, None)];
    assert_eq!(reconcile_node(5, &listing, &nodes), Ok(vec![]));
    assert_eq!(reconcile_node(5, &Vec::new(), &nodes), Ok(vec![]));
}

#[test]
fn nothing_moves_and_nothing_fails_without_addresses_and_without_servers() {
    let listing = vec![floating_ip(1, "10.0.0.1", Some(6))];
    assert_eq!(plan_node_reassignments(5, &listing, &HashSet::new()), Ok(vec![]));
    assert_eq!(reconcile_node(5, &listing, &vec![node(5, Some(true))]), Ok(vec![]));
}

#[test]
fn an_orphaned_address_with_no_eligible_server_is_fatal() {
    let listing = vec![floating_ip(1, "10.0.0.1", Some(5))];
    assert_eq!(
        plan_node_reassignments(5, &listing, &HashSet::new()),
        Err(ReconcileError::NoEligibleServer)
    );
    let nodes = vec![node(5, Some(true)), node(6, Some(true))];
    assert_eq!(reconcile_node(5, &listing, &nodes), Err(ReconcileError::NoEligibleServer));
    assert_eq!(reconcile_node(5, &listing, &Vec::new()), Err(ReconcileError::NoEligibleServer));
}

#[test]
fn a_node_that_names_no_server_is_fatal_before_anything_is_planned() {
    let listing = vec![floating_ip(1, "10.0.0.1", Some(6))];
    let nodes = vec![node(7, None), Node { name: None, spec: None }];
    assert_eq!(reconcile_node(5, &listing, &nodes), Err(ReconcileError::MissingNodeSpec));
}

#[test]
fn the_cordoned_server_may_be_chosen_while_another_node_shares_it() {
    let listing = vec![floating_ip(1, "10.0.0.1", Some(5))];
    let nodes = vec![node(5, Some(true)), node(5, None)];
    assert_eq!(
        reconcile_node(5, &listing, &nodes),
        Ok(vec![Reassignment { floating_ip_id: 1, ip: "10.0.0.1".to_string(), server_id: 5 }])
    );
}

#[test]
fn a_second_node_run_reassigns_nothing() {
    let listing = vec![
        floating_ip(1, "10.0.0.1", Some(5)),
        floating_ip(2, "10.0.0.2", Some(6)),
        floating_ip(3, "10.0.0.3", Some(5)),
    ];
    let nodes = vec![node(5, Some(true)), node(6, None), node(7, None)];
    let first = reconcile_node(5, &listing, &nodes).unwrap();
    assert_eq!(first.len(), 2);
    let after = carried_out(&listing, &first);
    assert_eq!(reconcile_node(5, &after, &nodes), Ok(vec![]));
}

#[test]
fn each_eligible_server_is_chosen_about_equally_often() {
    let listing = vec![floating_ip(1, "10.0.0.1", Some(5))];
    let eligible = set_of(&[7, 9, 11]);
    let runs = 3000;
    let mut chosen = [0u32; 3];
    for _ in 0..runs {
        let plan = plan_node_reassignments(5, &listing, &eligible).unwrap();
        match plan[0].server_id {
            7 => chosen[0] += 1,
            9 => chosen[1] += 1,
            11 => chosen[2] += 1,
            other => panic!("server {} is not eligible", other),
        }
    }
    for count in chosen {
        assert!(count > 800 && count < 1200, "chosen {} times out of {}", count, runs);
    }
}

#[test]
fn addresses_are_spread_by_independent_draws() {
    let listing: Vec<FloatingIp> =
        (0..64).map(|id| floating_ip(id, &format!("10.0.1.{}", id), Some(5))).collect();
    let plan = plan_node_reassignments(5, &listing, &set_of(&[7, 9])).unwrap();
    let targets: HashSet<i32> = plan.iter().map(|reassignment| reassignment.server_id).collect();
    assert_eq!(targets, set_of(&[7, 9]));
}
