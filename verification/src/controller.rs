//! The controller's decisions, one step at a time. The caller owns every
//! exchange with the outside: it performs the action that a step asks for and
//! hands the outcome back as the next event. Reconciliations never overlap:
//! a new resource event is only asked for once the one before is settled.

use crate::error::ReconcileError;
use crate::floating_ip::{FloatingIp, Reassignment};
use crate::node_reconciler::{node_failure, node_plan, reconcile_node};
use crate::resources::{
    get_hc_server_id, ingress_ips, is_load_balancer, texts, KubeResource, Node, Service,
};
use crate::service_reconciler::{reconcile_service, service_failure, service_plan};
use vstd::prelude::*;

verus! {

/// Which reconciler made a plan.
#[derive(Clone, Copy, Debug, PartialEq, Eq, Structural)]
pub enum Origin {
    Node,
    Service,
}

/// What the controller is waiting for.
#[derive(Clone, Debug, PartialEq, Eq)]
pub enum State {
    /// The next resource event.
    Idle,
    /// The provider's listing, after the node `node_name` was cordoned off.
    NodeAwaitingFloatingIps { node_name: String, server_id: i32 },
    /// The cluster's node listing, after a node was cordoned off.
    NodeAwaitingNodes { server_id: i32, floating_ips: Vec<FloatingIp> },
    /// The provider's listing, after a load balancer published `ingress_ips`.
    ServiceAwaitingFloatingIps { ingress_ips: Vec<String> },
    /// The cluster's node listing, after a load balancer published `ingress_ips`.
    ServiceAwaitingNodes { ingress_ips: Vec<String>, floating_ips: Vec<FloatingIp> },
    /// The provider's word on `plan[done]`; what comes before it is carried out.
    Assigning { origin: Origin, plan: Vec<Reassignment>, done: usize },
}

/// What the outside has to report.
#[derive(Clone, Debug, PartialEq, Eq)]
pub enum Event {
    /// A resource changed.
    Resource(KubeResource),
    /// The provider listed its floating addresses.
    FloatingIps(Vec<FloatingIp>),
    /// The cluster listed its nodes.
    Nodes(Vec<Node>),
    /// The provider carried out the reassignment last asked for.
    Assigned,
}

/// What the controller asks of the outside.
#[derive(Clone, Debug, PartialEq, Eq)]
pub enum Action {
    /// Wait for the next resource event.
    AwaitResource,
    /// List the provider's floating addresses.
    ListFloatingIps,
    /// List the cluster's nodes.
    ListNodes,
    /// Attach a floating address to a server.
    Assign(Reassignment),
}

impl State {
    /// What holds of every state that the controller reaches: a service is
    /// only followed up while it publishes an address, and the reassignment
    /// waited for is one of the plan.
    pub open spec fn well_formed(&self) -> bool {
        match *self {
            State::ServiceAwaitingFloatingIps { ingress_ips } => ingress_ips.len() > 0,
            State::ServiceAwaitingNodes { ingress_ips, .. } => ingress_ips.len() > 0,
            State::Assigning { plan, done, .. } => done < plan.len(),
            _ => true,
        }
    }
}

/// Whether `action` is what the controller asks for while it is in `state`:
/// the next resource event only while nothing is under way, a listing while
/// that listing is waited for, and the reassignment that the plan has reached.
pub open spec fn asks(state: State, action: Action) -> bool {
    match state {
        State::Idle => action is AwaitResource,
        State::NodeAwaitingFloatingIps { .. } => action is ListFloatingIps,
        State::ServiceAwaitingFloatingIps { .. } => action is ListFloatingIps,
        State::NodeAwaitingNodes { .. } => action is ListNodes,
        State::ServiceAwaitingNodes { .. } => action is ListNodes,
        State::Assigning { plan, done, .. } => {
            &&& done < plan.len()
            &&& action matches Action::Assign(reassignment)
            &&& reassignment.same_as(plan[done as int])
        },
    }
}

/// The step ends the reconciliation: the controller waits for the next resource event.
pub open spec fn settles(r: Result<(State, Action), ReconcileError>) -> bool {
    r matches Ok((State::Idle, Action::AwaitResource))
}

/// The step gives up with `error`.
pub open spec fn fails(r: Result<(State, Action), ReconcileError>, error: ReconcileError) -> bool {
    r matches Err(e) && e == error
}

/// The step asks for `plan[done]`, or ends the reconciliation where the plan
/// holds no such reassignment.
pub open spec fn proceeds(
    r: Result<(State, Action), ReconcileError>,
    origin: Origin,
    plan: Seq<Reassignment>,
    done: int,
) -> bool {
    if 0 <= done < plan.len() {
        r matches Ok((State::Assigning { origin: o, plan: p, done: d }, Action::Assign(reassignment)))
            && o == origin && p@ == plan && d == done && reassignment.same_as(plan[done])
    } else {
        settles(r)
    }
}

/// The plan that a step has set out on; empty where it set out on none.
pub open spec fn planned(r: Result<(State, Action), ReconcileError>) -> Seq<Reassignment> {
    match r {
        Ok((State::Assigning { plan, .. }, _)) => plan@,
        _ => Seq::empty(),
    }
}

/// What follows a node event. Only a node that is cordoned off starts a
/// reconciliation, and it has to carry a name and a provider identifier.
pub open spec fn node_observed(node: Node, r: Result<(State, Action), ReconcileError>) -> bool {
    if node.spec is None {
        fails(r, ReconcileError::MissingNodeSpec)
    } else if !node.unschedulable() {
        settles(r)
    } else if node.name is None {
        fails(r, ReconcileError::MissingNodeName)
    } else {
        match node.server_id() {
            Err(error) => fails(r, error),
            Ok(id) => r matches Ok(
                (State::NodeAwaitingFloatingIps { node_name, server_id }, Action::ListFloatingIps),
            ) && node_name == node.name->0 && server_id == id,
        }
    }
}

/// What follows a service event. Only a load balancer that publishes at least
/// one address starts a reconciliation.
pub open spec fn service_observed(service: Service, r: Result<(State, Action), ReconcileError>) -> bool {
    match service.load_balancer() {
        Err(error) => fails(r, error),
        Ok(false) => settles(r),
        Ok(true) => if service.ingress_ips().len() == 0 {
            settles(r)
        } else {
            r matches Ok((State::ServiceAwaitingFloatingIps { ingress_ips }, Action::ListFloatingIps))
                && texts(ingress_ips@) == service.ingress_ips()
        },
    }
}

/// Whether `r` is what the controller answers to `event` in `state`.
pub open spec fn follows(state: State, event: Event, r: Result<(State, Action), ReconcileError>) -> bool {
    match (state, event) {
        (State::Idle, Event::Resource(KubeResource::Node(node))) => node_observed(node, r),
        (State::Idle, Event::Resource(KubeResource::Service(service))) => service_observed(
            service,
            r,
        ),
        (State::NodeAwaitingFloatingIps { server_id, .. }, Event::FloatingIps(listing)) => {
            r matches Ok((State::NodeAwaitingNodes { server_id: s, floating_ips }, Action::ListNodes))
                && s == server_id && floating_ips == listing
        },
        (State::NodeAwaitingNodes { server_id, floating_ips }, Event::Nodes(nodes)) => match r {
            Ok(_) => node_plan(server_id, floating_ips@, nodes@, planned(r)) && proceeds(
                r,
                Origin::Node,
                planned(r),
                0,
            ),
            Err(error) => node_failure(server_id, floating_ips@, nodes@, error),
        },
        (State::ServiceAwaitingFloatingIps { ingress_ips }, Event::FloatingIps(listing)) => {
            r matches Ok(
                (State::ServiceAwaitingNodes { ingress_ips: ips, floating_ips }, Action::ListNodes),
            ) && ips == ingress_ips && floating_ips == listing
        },
        (State::ServiceAwaitingNodes { ingress_ips, floating_ips }, Event::Nodes(nodes)) => match r {
            Ok(_) => service_plan(
                texts(ingress_ips@).to_set(),
                floating_ips@,
                nodes@,
                planned(r),
            ) && proceeds(r, Origin::Service, planned(r), 0),
            Err(error) => service_failure(
                texts(ingress_ips@).to_set(),
                floating_ips@,
                nodes@,
                error,
            ),
        },
        (State::Assigning { origin, plan, done }, Event::Assigned) => proceeds(
            r,
            origin,
            plan@,
            done + 1,
        ),
        _ => fails(r, ReconcileError::UnexpectedInput),
    }
}

/// Where the controller starts: nothing is under way, and the first resource
/// event is asked for.
pub fn start() -> (r: (State, Action))
    ensures
        r == (State::Idle, Action::AwaitResource),
        asks(r.0, r.1),
{
    (State::Idle, Action::AwaitResource)
}

fn observe_node(node: Node) -> (r: Result<(State, Action), ReconcileError>)
    ensures
        node_observed(node, r),
{
    let cordoned = match &node.spec {
        None => {
            return Err(ReconcileError::MissingNodeSpec);
        },
        Some(spec) => match spec.unschedulable {
            Some(flag) => flag,
            None => false,
        },
    };
    if !cordoned {
        return Ok((State::Idle, Action::AwaitResource));
    }
    if node.name.is_none() {
        return Err(ReconcileError::MissingNodeName);
    }
    match get_hc_server_id(&node) {
        Err(error) => Err(error),
        Ok(server_id) => match node.name {
            Some(node_name) => Ok(
                (State::NodeAwaitingFloatingIps { node_name, server_id }, Action::ListFloatingIps),
            ),
            None => Err(ReconcileError::MissingNodeName),
        },
    }
}

fn observe_service(service: Service) -> (r: Result<(State, Action), ReconcileError>)
    ensures
        service_observed(service, r),
        r matches Ok((next, _)) ==> next.well_formed(),
{
    match is_load_balancer(&service) {
        Err(error) => Err(error),
        Ok(false) => Ok((State::Idle, Action::AwaitResource)),
        Ok(true) => {
            let ingress_ips = ingress_ips(&service);
            if ingress_ips.len() == 0 {
                Ok((State::Idle, Action::AwaitResource))
            } else {
                Ok((State::ServiceAwaitingFloatingIps { ingress_ips }, Action::ListFloatingIps))
            }
        },
    }
}

/// Asks for `plan[done]`, or ends the reconciliation where the plan is carried out.
fn proceed(origin: Origin, plan: Vec<Reassignment>, done: usize) -> (r: Result<
    (State, Action),
    ReconcileError,
>)
    ensures
        proceeds(r, origin, plan@, done as int),
        r matches Ok((next, _)) ==> next.well_formed(),
        planned(r) == if done < plan.len() {
            plan@
        } else {
            Seq::empty()
        },
{
    if done < plan.len() {
        let reassignment = plan[done].duplicate();
        Ok((State::Assigning { origin, plan, done }, Action::Assign(reassignment)))
    } else {
        Ok((State::Idle, Action::AwaitResource))
    }
}

/// Decides what to do next.
///
/// A resource event is weighed while the controller is idle; a listing or a
/// confirmation is taken where the controller has asked for it. Any other
/// pairing of state and event is refused.
pub fn step(state: State, event: Event) -> (r: Result<(State, Action), ReconcileError>)
    ensures
        follows(state, event, r),
        r matches Ok((next, action)) ==> asks(next, action),
        state.well_formed() ==> (r matches Ok((next, _)) ==> next.well_formed()),
{
    match state {
        State::Idle => match event {
            Event::Resource(KubeResource::Node(node)) => observe_node(node),
            Event::Resource(KubeResource::Service(service)) => observe_service(service),
            _ => Err(ReconcileError::UnexpectedInput),
        },
        State::NodeAwaitingFloatingIps { server_id, .. } => match event {
            Event::FloatingIps(floating_ips) => Ok(
                (State::NodeAwaitingNodes { server_id, floating_ips }, Action::ListNodes),
            ),
            _ => Err(ReconcileError::UnexpectedInput),
        },
        State::NodeAwaitingNodes { server_id, floating_ips } => match event {
            Event::Nodes(nodes) => match reconcile_node(server_id, &floating_ips, &nodes) {
                Ok(plan) => proceed(Origin::Node, plan, 0),
                Err(error) => Err(error),
            },
            _ => Err(ReconcileError::UnexpectedInput),
        },
        State::ServiceAwaitingFloatingIps { ingress_ips } => match event {
            Event::FloatingIps(floating_ips) => Ok(
                (State::ServiceAwaitingNodes { ingress_ips, floating_ips }, Action::ListNodes),
            ),
            _ => Err(ReconcileError::UnexpectedInput),
        },
        State::ServiceAwaitingNodes { ingress_ips, floating_ips } => match event {
            Event::Nodes(nodes) => match reconcile_service(&ingress_ips, &floating_ips, &nodes) {
                Ok(plan) => proceed(Origin::Service, plan, 0),
                Err(error) => Err(error),
            },
            _ => Err(ReconcileError::UnexpectedInput),
        },
        State::Assigning { origin, plan, done } => match event {
            Event::Assigned => {
                if done < plan.len() {
                    proceed(origin, plan, done + 1)
                } else {
                    Ok((State::Idle, Action::AwaitResource))
                }
            },
            _ => Err(ReconcileError::UnexpectedInput),
        },
    }
}

} // verus!
