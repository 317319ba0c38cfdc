//! Variant router: selects which concrete enclave backend serves each
//! gateway operation.
//!
//! Two backends exist: the secure compute enclave and an alternate query
//! enclave. The choice is made once, at process configuration, and is fixed
//! for the process lifetime. Under the query-node configuration, buffer
//! allocation and the read-only query call are redirected to the query
//! enclave; the mutating lifecycle calls (init and handle) are always bound
//! to the secure enclave, since the query backend cannot execute them.

use vstd::prelude::*;

verus! {

/// Which concrete enclave instance backs an operation.
#[derive(Clone, Copy, PartialEq, Eq, Structural, Debug)]
pub enum Variant {
    /// The secure compute enclave, able to run all lifecycle calls.
    Secure,
    /// The alternate query enclave, able to run read-only calls only.
    Query,
}

/// Process-wide backend configuration, chosen once and never switched at
/// runtime.
#[derive(Clone, Copy, PartialEq, Eq, Structural, Debug)]
pub enum Configuration {
    /// Every operation uses the single secure enclave.
    FullNode,
    /// Allocation and query are redirected to the query enclave.
    QueryNode,
}

/// The three contract lifecycle operations the dispatcher can invoke.
#[derive(Clone, Copy, PartialEq, Eq, Structural, Debug)]
pub enum Operation {
    /// Instantiate a contract; mutating, carries signature info.
    Init,
    /// Execute a contract entry point; mutating, carries signature info.
    Handle,
    /// Read-only query of a contract; carries no signature info.
    Query,
}

/// Backend that serves buffer allocation under the given configuration.
pub open spec fn spec_route_allocate(config: Configuration) -> Variant {
    match config {
        Configuration::FullNode => Variant::Secure,
        Configuration::QueryNode => Variant::Query,
    }
}

/// Backend that serves the given lifecycle operation under the given
/// configuration. Init and handle are bound to the secure enclave under
/// every configuration; only query follows the allocation route.
pub open spec fn spec_route_operation(config: Configuration, op: Operation) -> Variant {
    match op {
        Operation::Init => Variant::Secure,
        Operation::Handle => Variant::Secure,
        Operation::Query => spec_route_allocate(config),
    }
}

/// Resolve the backend for buffer allocation.
pub fn route_allocate(config: Configuration) -> (v: Variant)
    ensures
        v == spec_route_allocate(config),
{
    match config {
        Configuration::FullNode => Variant::Secure,
        Configuration::QueryNode => Variant::Query,
    }
}

/// Resolve the backend for a lifecycle operation.
pub fn route_operation(config: Configuration, op: Operation) -> (v: Variant)
    ensures
        v == spec_route_operation(config, op),
{
    match op {
        Operation::Init => Variant::Secure,
        Operation::Handle => Variant::Secure,
        Operation::Query => route_allocate(config),
    }
}

/// Law: the mutating lifecycle calls are never routed to the query-only
/// backend; init and handle reach the secure enclave under every
/// configuration.
pub proof fn lemma_mutating_ops_stay_secure(config: Configuration)
    ensures
        spec_route_operation(config, Operation::Init) == Variant::Secure,
        spec_route_operation(config, Operation::Handle) == Variant::Secure,
{
}

} // verus!
