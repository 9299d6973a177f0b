use vstd::prelude::*;

verus! {

/// Why a reconciliation cannot go on.
#[derive(Clone, Copy, Debug, PartialEq, Eq, Structural)]
pub enum ReconcileError {
    /// A node was observed without its `spec` section.
    MissingNodeSpec,
    /// A node that became unschedulable carries no name.
    MissingNodeName,
    /// A node carries no provider identifier.
    MissingProviderId,
    /// A node's provider identifier is not `hcloud://` followed by a 32-bit integer.
    InvalidProviderId,
    /// A service was observed without its `spec` section.
    MissingServiceSpec,
    /// A service's `spec` names no type.
    MissingServiceType,
    /// An address has to move and no schedulable node is left to take it.
    NoEligibleServer,
    /// The controller was handed an input that its current phase does not wait for.
    UnexpectedInput,
}

} // verus!
