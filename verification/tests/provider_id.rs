use fip_controller::error::ReconcileError;
use fip_controller::provider_id::parse_provider_id;
use fip_controller::resources::{get_hc_server_id, Node, NodeSpec};

fn node_with_provider_id(provider_id: Option<&str>) -> Node {
    Node {
        name: Some("worker".to_string()),
        spec: Some(NodeSpec { unschedulable: None, provider_id: provider_id.map(|p| p.to_string()) }),
    }
}

#[test]
fn parses_a_plain_identifier() {
    assert_eq!(parse_provider_id("hcloud://5"), Some(5));
    assert_eq!(parse_provider_id("hcloud://12345678"), Some(12345678));
    assert_eq!(parse_provider_id("hcloud://0"), Some(0));
}

#[test]
fn parses_signs_and_leading_zeros() {
    assert_eq!(parse_provider_id("hcloud://+17"), Some(17));
    assert_eq!(parse_provider_id("hcloud://-17"), Some(-17));
    assert_eq!(parse_provider_id("hcloud://000042"), Some(42));
    assert_eq!(parse_provider_id("hcloud://-0"), Some(0));
}

#[test]
fn parses_the_ends_of_the_range() {
    assert_eq!(parse_provider_id("hcloud://2147483647"), Some(i32::MAX));
    assert_eq!(parse_provider_id("hcloud://-2147483648"), Some(i32::MIN));
    assert_eq!(parse_provider_id("hcloud://2147483648"), None);
    assert_eq!(parse_provider_id("hcloud://-2147483649"), None);
    assert_eq!(parse_provider_id("hcloud://99999999999999999999999999"), None);
    assert_eq!(parse_provider_id("hcloud://00000000000000000000000007"), Some(7));
}

#[test]
fn rejects_what_is_not_scheme_and_number() {
    assert_eq!(parse_provider_id(""), None);
    assert_eq!(parse_provider_id("hcloud://"), None);
    assert_eq!(parse_provider_id("hcloud://+"), None);
    assert_eq!(parse_provider_id("hcloud://-"), None);
    assert_eq!(parse_provider_id("hcloud://12a"), None);
    assert_eq!(parse_provider_id("hcloud://1 2"), None);
    assert_eq!(parse_provider_id("hcloud:// 12"), None);
    assert_eq!(parse_provider_id("hcloud://12 "), None);
    assert_eq!(parse_provider_id("hcloud://--12"), None);
    assert_eq!(parse_provider_id("hcloud:/12"), None);
    assert_eq!(parse_provider_id("aws://12"), None);
    assert_eq!(parse_provider_id("HCLOUD://12"), None);
    assert_eq!(parse_provider_id("12"), None);
    assert_eq!(parse_provider_id("hcloud://١٢"), None);
    assert_eq!(parse_provider_id("hcloud://12é"), None);
}

#[test]
fn agrees_with_the_standard_integer_parser() {
    let samples = [
        "5", "+5", "-5", "", "+", "-", "007", "2147483647", "2147483648", "-2147483648",
        "-2147483649", "1e3", "0x10", " 1", "1 ", "１２", "4294967296", "-+1", "+-1",
    ];
    for sample in samples {
        let text = format!("hcloud://{}", sample);
        assert_eq!(parse_provider_id(&text), sample.parse::<i32>().ok(), "{}", text);
    }
}

#[test]
fn server_id_of_a_node() {
    assert_eq!(get_hc_server_id(&node_with_provider_id(Some("hcloud://5"))), Ok(5));
}

#[test]
fn server_id_needs_a_spec() {
    let node = Node { name: Some("worker".to_string()), spec: None };
    assert_eq!(get_hc_server_id(&node), Err(ReconcileError::MissingNodeSpec));
}

#[test]
fn server_id_needs_a_provider_id() {
    assert_eq!(get_hc_server_id(&node_with_provider_id(None)), Err(ReconcileError::MissingProviderId));
}

#[test]
fn server_id_needs_a_well_formed_provider_id() {
    assert_eq!(
        get_hc_server_id(&node_with_provider_id(Some("gce://5"))),
        Err(ReconcileError::InvalidProviderId)
    );
    assert_eq!(
        get_hc_server_id(&node_with_provider_id(Some("hcloud://five"))),
        Err(ReconcileError::InvalidProviderId)
    );
}
