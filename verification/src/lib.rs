//! Rules of a controller that keeps the floating addresses of a cloud project
//! attached to schedulable nodes of a cluster.
//!
//! The library decides and never acts: it is handed what the cluster and the
//! provider report, as plain records, and answers with the reassignments to
//! ask for. `controller` strings the decisions together, one step per
//! exchange with the outside; `node_reconciler` and `service_reconciler` hold
//! the two reconciliations; `inventory` computes the eligible servers,
//! `selection` picks among them, `provider_id` reads server identifiers, and
//! `resources` and `floating_ip` describe the records.
//!
//! Contracts read the records' fields directly and take strings, vectors and
//! hash sets by their views.

#![allow(unused_imports)]

pub mod controller;
pub mod error;
pub mod floating_ip;
pub mod inventory;
pub mod node_reconciler;
pub mod provider_id;
pub mod resources;
pub mod selection;
pub mod service_reconciler;
