//! Floating addresses as the cloud provider lists them, the reassignments
//! that the controller asks for, and what a reassignment does to the listing.

use crate::error::ReconcileError;
use vstd::prelude::*;

verus! {

/// An address of the provider that can be attached to any one server.
#[derive(Clone, Debug, PartialEq, Eq)]
pub struct FloatingIp {
    pub id: i32,
    /// The address itself, as text.
    pub ip: String,
    /// The server that the address is attached to, if any.
    pub server: Option<i32>,
}

/// The request to attach one floating address to one server.
#[derive(Clone, Debug, PartialEq, Eq)]
pub struct Reassignment {
    pub floating_ip_id: i32,
    /// The address that moves, as text.
    pub ip: String,
    /// The server that is to receive the address.
    pub server_id: i32,
}

impl Reassignment {
    /// Whether this is the request to attach `floating_ip` to `server_id`.
    pub open spec fn moves(&self, floating_ip: FloatingIp, server_id: i32) -> bool {
        &&& self.floating_ip_id == floating_ip.id
        &&& self.ip@ == floating_ip.ip@
        &&& self.server_id == server_id
    }

    /// Whether two requests say the same.
    pub open spec fn same_as(&self, other: Reassignment) -> bool {
        &&& self.floating_ip_id == other.floating_ip_id
        &&& self.ip@ == other.ip@
        &&& self.server_id == other.server_id
    }

    /// Makes a second copy of the request.
    pub fn duplicate(&self) -> (copy: Reassignment)
        ensures
            copy.same_as(*self),
    {
        Reassignment {
            floating_ip_id: self.floating_ip_id,
            ip: self.ip.clone(),
            server_id: self.server_id,
        }
    }
}

impl FloatingIp {
    /// Whether the address has no server, or one outside the eligible set.
    pub open spec fn stranded(&self, eligible: Set<i32>) -> bool {
        match self.server {
            Some(server) => !eligible.contains(server),
            None => true,
        }
    }

    /// The same address attached to the given server.
    pub open spec fn attached_to(self, server_id: i32) -> FloatingIp {
        FloatingIp { server: Some(server_id), ..self }
    }
}

/// Selects the addresses attached to one server.
pub open spec fn on_server(server_id: i32) -> spec_fn(FloatingIp) -> bool {
    |floating_ip: FloatingIp| floating_ip.server == Some(server_id)
}

/// Selects the addresses that are published under one of `ips` and are stranded.
pub open spec fn published_and_stranded(ips: Set<Seq<char>>, eligible: Set<i32>) -> spec_fn(
    FloatingIp,
) -> bool {
    |floating_ip: FloatingIp| ips.contains(floating_ip.ip@) && floating_ip.stranded(eligible)
}

/// Whether a plan moves exactly the given addresses, in their order, each to
/// a server of the eligible set.
pub open spec fn moves_into(
    plan: Seq<Reassignment>,
    addresses: Seq<FloatingIp>,
    eligible: Set<i32>,
) -> bool {
    &&& plan.len() == addresses.len()
    &&& forall|i: int|
        0 <= i < plan.len() ==> (#[trigger] plan[i]).moves(addresses[i], plan[i].server_id)
            && eligible.contains(plan[i].server_id)
}

/// Whether the given addresses can be moved into the eligible set: there is
/// none to move, or a server to move them to.
pub open spec fn placeable(addresses: Seq<FloatingIp>, eligible: Set<i32>) -> bool {
    addresses.len() == 0 || !eligible.is_empty()
}

/// A plan that moves addresses into the eligible set shows that they can be moved.
pub proof fn lemma_moved_is_placeable(
    plan: Seq<Reassignment>,
    addresses: Seq<FloatingIp>,
    eligible: Set<i32>,
)
    requires
        moves_into(plan, addresses, eligible),
    ensures
        placeable(addresses, eligible),
{
    if addresses.len() > 0 {
        assert(eligible.contains(plan[0].server_id));
    }
}

/// Whether every reassignment of a plan names the same server.
pub open spec fn single_target(plan: Seq<Reassignment>) -> bool {
    forall|i: int, j: int|
        0 <= i < plan.len() && 0 <= j < plan.len() ==> (#[trigger] plan[i]).server_id == (
        #[trigger] plan[j]).server_id
}

/// Whether a plan holds a reassignment of the address with this identifier.
pub open spec fn names(plan: Seq<Reassignment>, floating_ip_id: i32) -> bool {
    exists|k: int| 0 <= k < plan.len() && (#[trigger] plan[k]).floating_ip_id == floating_ip_id
}

/// The provider's listing after it has carried out one reassignment: the
/// address with that identifier is attached to the named server, the others
/// are untouched.
pub open spec fn after_reassignment(
    listing: Seq<FloatingIp>,
    reassignment: Reassignment,
) -> Seq<FloatingIp> {
    Seq::new(
        listing.len(),
        |i: int|
            if listing[i].id == reassignment.floating_ip_id {
                listing[i].attached_to(reassignment.server_id)
            } else {
                listing[i]
            },
    )
}

/// The provider's listing after it has carried out a plan from first to last.
pub open spec fn after_plan(listing: Seq<FloatingIp>, plan: Seq<Reassignment>) -> Seq<FloatingIp>
    decreases plan.len(),
{
    if plan.len() == 0 {
        listing
    } else {
        after_reassignment(after_plan(listing, plan.drop_last()), plan.last())
    }
}

/// A plan neither adds an address to the listing nor takes one away.
pub proof fn lemma_after_plan_len(listing: Seq<FloatingIp>, plan: Seq<Reassignment>)
    ensures
        after_plan(listing, plan).len() == listing.len(),
    decreases plan.len(),
{
    if plan.len() > 0 {
        lemma_after_plan_len(listing, plan.drop_last());
    }
}

/// What a plan leaves of each listed address: identifier and address text
/// stay, and the server is either the one before or that of a reassignment
/// naming the address; it is the latter wherever the plan names the address.
pub proof fn lemma_after_plan(listing: Seq<FloatingIp>, plan: Seq<Reassignment>, i: int)
    requires
        0 <= i < listing.len(),
    ensures
        after_plan(listing, plan)[i].id == listing[i].id,
        after_plan(listing, plan)[i].ip == listing[i].ip,
        names(plan, listing[i].id) ==> exists|k: int|
            0 <= k < plan.len() && (#[trigger] plan[k]).floating_ip_id == listing[i].id && after_plan(
                listing,
                plan,
            )[i].server == Some(plan[k].server_id),
        !names(plan, listing[i].id) ==> after_plan(listing, plan)[i].server == listing[i].server,
    decreases plan.len(),
{
    if plan.len() > 0 {
        let earlier = plan.drop_last();
        lemma_after_plan(listing, earlier, i);
        lemma_after_plan_len(listing, earlier);
        let id = listing[i].id;
        if plan.last().floating_ip_id == id {
            assert(plan[plan.len() - 1].floating_ip_id == id);
        } else if names(earlier, id) {
            let k = choose|k: int|
                0 <= k < earlier.len() && (#[trigger] earlier[k]).floating_ip_id == id && after_plan(
                    listing,
                    earlier,
                )[i].server == Some(earlier[k].server_id);
            assert(plan[k] == earlier[k]);
        } else {
            assert forall|k: int| 0 <= k < plan.len() implies (#[trigger] plan[k]).floating_ip_id
                != id by {
                if k < earlier.len() {
                    assert(plan[k] == earlier[k]);
                }
            }
        }
    }
}

/// Turns the outcome of a selection into the reassignment of one address:
/// with no server selected there is nowhere to move it.
pub fn reassign(floating_ip: &FloatingIp, selected: Option<i32>) -> (r: Result<
    Reassignment,
    ReconcileError,
>)
    ensures
        match selected {
            Some(server_id) => r matches Ok(reassignment) && reassignment.moves(
                *floating_ip,
                server_id,
            ),
            None => r == Err::<Reassignment, ReconcileError>(ReconcileError::NoEligibleServer),
        },
{
    match selected {
        Some(server_id) => Ok(
            Reassignment { floating_ip_id: floating_ip.id, ip: floating_ip.ip.clone(), server_id },
        ),
        None => Err(ReconcileError::NoEligibleServer),
    }
}

} // verus!
