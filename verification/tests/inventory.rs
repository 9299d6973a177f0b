use fip_controller::error::ReconcileError;
use fip_controller::inventory::available_hc_server_ids;
use fip_controller::resources::{Node, NodeSpec};
use fip_controller::selection::{first_server, server_ids};
use std::collections::HashSet;

fn node(server_id: i32, unschedulable: Option<bool>) -> Node {
    Node {
        name: Some(format!("node-{}", server_id)),
        spec: Some(NodeSpec {
            unschedulable,
            provider_id: Some(format!("hcloud://{}", server_id)),
        }),
    }
}

fn set_of(ids: &[i32]) -> HashSet<i32> {
    ids.iter().copied().collect()
}

#[test]
fn schedulable_nodes_are_eligible_and_cordoned_ones_are_not() {
    let nodes = vec![node(1, Some(false)), node(2, None), node(3, Some(true)), node(4, None)];
    assert_eq!(available_hc_server_ids(&nodes), Ok(set_of(&[1, 2, 4])));
}

#[test]
fn no_nodes_give_an_empty_set() {
    assert_eq!(available_hc_server_ids(&Vec::new()), Ok(HashSet::new()));
}

#[test]
fn only_cordoned_nodes_give_an_empty_set() {
    let nodes = vec![node(1, Some(true)), node(2, Some(true))];
    assert_eq!(available_hc_server_ids(&nodes), Ok(HashSet::new()));
}

#[test]
fn a_server_named_twice_is_listed_once() {
    let nodes = vec![node(7, None), node(7, Some(false))];
    assert_eq!(available_hc_server_ids(&nodes), Ok(set_of(&[7])));
}

#[test]
fn a_server_shared_with_a_schedulable_node_stays_eligible() {
    let nodes = vec![node(5, Some(true)), node(5, None)];
    assert_eq!(available_hc_server_ids(&nodes), Ok(set_of(&[5])));
}

#[test]
fn a_node_without_spec_is_rejected() {
    let nodes = vec![node(1, None), Node { name: Some("bare".to_string()), spec: None }];
    assert_eq!(available_hc_server_ids(&nodes), Err(ReconcileError::MissingNodeSpec));
}

#[test]
fn a_node_without_provider_id_is_rejected() {
    let mut broken = node(2, None);
    broken.spec = Some(NodeSpec { unschedulable: None, provider_id: None });
    let nodes = vec![node(1, None), broken];
    assert_eq!(available_hc_server_ids(&nodes), Err(ReconcileError::MissingProviderId));
}

#[test]
fn a_cordoned_node_has_to_name_its_server_too() {
    let mut broken = node(2, Some(true));
    broken.spec = Some(NodeSpec { unschedulable: Some(true), provider_id: Some("hcloud://x".to_string()) });
    let nodes = vec![node(1, None), broken];
    assert_eq!(available_hc_server_ids(&nodes), Err(ReconcileError::InvalidProviderId));
}

#[test]
fn the_first_node_that_names_no_server_decides_the_error() {
    let mut unparseable = node(2, None);
    unparseable.spec = Some(NodeSpec { unschedulable: None, provider_id: Some("2".to_string()) });
    let bare = Node { name: None, spec: None };
    assert_eq!(
        available_hc_server_ids(&vec![node(1, None), unparseable.clone(), bare.clone()]),
        Err(ReconcileError::InvalidProviderId)
    );
    assert_eq!(
        available_hc_server_ids(&vec![bare, unparseable, node(1, None)]),
        Err(ReconcileError::MissingNodeSpec)
    );
}

#[test]
fn the_members_of_a_set_are_listed_each_once() {
    let eligible = set_of(&[3, 1, 4, 15, 9, 2, 6]);
    let mut ids = server_ids(&eligible);
    assert_eq!(ids.len(), 7);
    ids.sort();
    assert_eq!(ids, vec![1, 2, 3, 4, 6, 9, 15]);
    assert_eq!(server_ids(&HashSet::new()), Vec::<i32>::new());
}

#[test]
fn the_first_member_is_a_member() {
    let eligible = set_of(&[7, 9]);
    let first = first_server(&eligible);
    assert!(first == Some(7) || first == Some(9));
    assert_eq!(first, eligible.iter().next().copied());
    assert_eq!(first_server(&set_of(&[42])), Some(42));
    assert_eq!(first_server(&HashSet::new()), None);
}
