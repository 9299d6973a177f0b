//! The cluster resources that the controller observes, reduced to the fields
//! that its rules read.

use crate::error::ReconcileError;
use crate::provider_id::{parse_provider_id, provider_server_id};
use vstd::prelude::*;
use vstd::string::StringExecFns;

verus! {

/// The part of a node's `spec` that decides where traffic may go.
#[derive(Clone, Debug, PartialEq, Eq)]
pub struct NodeSpec {
    /// `Some(true)` once the cluster has cordoned the node off.
    pub unschedulable: Option<bool>,
    /// The cloud provider's name for the machine behind the node.
    pub provider_id: Option<String>,
}

/// A compute node as the cluster reports it.
#[derive(Clone, Debug, PartialEq, Eq)]
pub struct Node {
    pub name: Option<String>,
    pub spec: Option<NodeSpec>,
}

/// One externally visible entry point of a load balancer.
#[derive(Clone, Debug, PartialEq, Eq)]
pub struct LoadBalancerIngress {
    pub ip: Option<String>,
}

/// What the cluster knows of a service's load balancer.
#[derive(Clone, Debug, PartialEq, Eq)]
pub struct LoadBalancerStatus {
    pub ingress: Option<Vec<LoadBalancerIngress>>,
}

/// The observed state of a service.
#[derive(Clone, Debug, PartialEq, Eq)]
pub struct ServiceStatus {
    pub load_balancer: Option<LoadBalancerStatus>,
}

/// The part of a service's `spec` that says how the service is exposed.
#[derive(Clone, Debug, PartialEq, Eq)]
pub struct ServiceSpec {
    pub type_: Option<String>,
}

/// A network service as the cluster reports it.
#[derive(Clone, Debug, PartialEq, Eq)]
pub struct Service {
    pub spec: Option<ServiceSpec>,
    pub status: Option<ServiceStatus>,
}

/// A change event of either watched kind.
#[derive(Clone, Debug, PartialEq, Eq)]
pub enum KubeResource {
    Node(Node),
    Service(Service),
}

/// The service type whose addresses the controller looks after.
pub open spec fn load_balancer_type() -> Seq<char> {
    "LoadBalancer"@
}

impl Node {
    /// Whether the node counts as cordoned off: its `spec` says so explicitly.
    pub open spec fn unschedulable(&self) -> bool {
        self.spec matches Some(spec) && spec.unschedulable == Some(true)
    }

    /// The provider's server behind this node, or the reason why the node names none.
    pub open spec fn server_id(&self) -> Result<i32, ReconcileError> {
        match self.spec {
            None => Err(ReconcileError::MissingNodeSpec),
            Some(spec) => match spec.provider_id {
                None => Err(ReconcileError::MissingProviderId),
                Some(provider_id) => match provider_server_id(provider_id@) {
                    None => Err(ReconcileError::InvalidProviderId),
                    Some(id) => Ok(id),
                },
            },
        }
    }
}

impl Service {
    /// Whether the service is of the load-balancer type, or the reason why it
    /// cannot be classified.
    pub open spec fn load_balancer(&self) -> Result<bool, ReconcileError> {
        match self.spec {
            None => Err(ReconcileError::MissingServiceSpec),
            Some(spec) => match spec.type_ {
                None => Err(ReconcileError::MissingServiceType),
                Some(type_) => Ok(type_@ == load_balancer_type()),
            },
        }
    }

    /// The ingress entries that the service's status publishes: none while the
    /// status, its load balancer or the ingress list is still missing.
    pub open spec fn ingress(&self) -> Seq<LoadBalancerIngress> {
        match self.status {
            Some(ServiceStatus { load_balancer: Some(LoadBalancerStatus { ingress: Some(ingress) }) }) => ingress@,
            _ => Seq::empty(),
        }
    }

    /// The addresses under which the service is reachable from outside, in
    /// the order of the ingress entries; an entry without an address adds none.
    pub open spec fn ingress_ips(&self) -> Seq<Seq<char>> {
        published(self.ingress())
    }
}

/// Selects the ingress entries that carry an address.
pub open spec fn has_address() -> spec_fn(LoadBalancerIngress) -> bool {
    |entry: LoadBalancerIngress| entry.ip is Some
}

/// The addresses of an ingress list, in its order; an entry without an
/// address adds none.
pub open spec fn published(ingress: Seq<LoadBalancerIngress>) -> Seq<Seq<char>> {
    ingress.filter(has_address()).map_values(|entry: LoadBalancerIngress| entry.ip->0@)
}

/// What a list of strings says, string by string.
pub open spec fn texts(strings: Seq<String>) -> Seq<Seq<char>> {
    strings.map_values(|string: String| string@)
}

/// Tells whether a service is a load balancer.
pub fn is_load_balancer(service: &Service) -> (r: Result<bool, ReconcileError>)
    ensures
        r == service.load_balancer(),
{
    match &service.spec {
        None => Err(ReconcileError::MissingServiceSpec),
        Some(spec) => match &spec.type_ {
            None => Err(ReconcileError::MissingServiceType),
            Some(type_) => {
                let wanted = String::from_str("LoadBalancer");
                Ok(*type_ == wanted)
            },
        },
    }
}

/// Derives the provider's server identifier from a node.
pub fn get_hc_server_id(node: &Node) -> (r: Result<i32, ReconcileError>)
    ensures
        r == node.server_id(),
{
    match &node.spec {
        None => Err(ReconcileError::MissingNodeSpec),
        Some(spec) => match &spec.provider_id {
            None => Err(ReconcileError::MissingProviderId),
            Some(provider_id) => match parse_provider_id(provider_id.as_str()) {
                None => Err(ReconcileError::InvalidProviderId),
                Some(id) => Ok(id),
            },
        },
    }
}

/// Tells whether a list of strings holds the given text.
pub fn contains_text(strings: &Vec<String>, text: &String) -> (found: bool)
    ensures
        found == texts(strings@).contains(text@),
{
    let mut i: usize = 0;
    while i < strings.len()
        invariant
            i <= strings.len(),
            forall|j: int| 0 <= j < i ==> (#[trigger] texts(strings@)[j]) != text@,
        decreases strings.len() - i,
    {
        if strings[i] == *text {
            assert(texts(strings@)[i as int] == text@);
            return true;
        }
        i += 1;
    }
    false
}

/// Collects the addresses that a service's status publishes, in the order of
/// its ingress entries; entries without an address are passed over.
pub fn ingress_ips(service: &Service) -> (ips: Vec<String>)
    ensures
        texts(ips@) == service.ingress_ips(),
{
    let mut ips: Vec<String> = Vec::new();
    assert(texts(ips@) == published(Seq::empty())) by {
        reveal(Seq::filter);
    }
    if let Some(status) = &service.status {
        if let Some(load_balancer) = &status.load_balancer {
            if let Some(ingress) = &load_balancer.ingress {
                let mut i: usize = 0;
                while i < ingress.len()
                    invariant
                        i <= ingress.len(),
                        texts(ips@) == published(ingress@.take(i as int)),
                    decreases ingress.len() - i,
                {
                    let ghost seen = ingress@.take(i as int);
                    if let Some(ip) = &ingress[i].ip {
                        ips.push(ip.clone());
                    }
                    proof {
                        let entry = ingress[i as int];
                        assert(ingress@.take(i + 1) == seen.push(entry));
                        Seq::lemma_filter_push(seen, entry, has_address());
                        if entry.ip is Some {
                            assert(published(seen.push(entry)) =~= published(seen).push(entry.ip->0@));
                        }
                    }
                    i += 1;
                }
                assert(ingress@.take(i as int) == ingress@);
            }
        }
    }
    ips
}

} // verus!
