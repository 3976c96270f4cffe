//! Endpoint nodes: the routing identities that gate task assignment.

use vstd::prelude::*;

use crate::error::ErrorCode;
use crate::identity::Identity;

verus! {

/// A routing identity a client designates when creating a task.
///
/// The stricter assignment path demands that the endpoint a task recorded is
/// the one whose owner signs the assignment.
#[derive(Clone, Copy, Debug, PartialEq, Eq, Structural)]
pub struct EndpointNode {
    /// Identity that operates this endpoint.
    pub owner: Identity,
}

/// Create an endpoint node for the caller.
///
/// Unlike client accounts there is no lazy-create here: one endpoint exists
/// per identity, and creating it again while it exists is refused.
pub fn create_endpoint_node(
    existing: Option<&EndpointNode>,
    caller: Identity,
) -> (r: Result<EndpointNode, ErrorCode>)
    ensures
        existing is Some ==> r == Err::<EndpointNode, ErrorCode>(ErrorCode::AlreadyExists),
        existing is None ==> r == Ok::<EndpointNode, ErrorCode>((EndpointNode { owner: caller })),
{
    if existing.is_some() {
        return Err(ErrorCode::AlreadyExists);
    }
    Ok(EndpointNode { owner: caller })
}

/// Authorize destruction of an endpoint node.
///
/// Only the owner may close it; on success the runtime destroys the record
/// and refunds its reserved storage cost, and the address becomes available
/// for re-creation.
pub fn close_endpoint_node(endpoint: &EndpointNode, caller: Identity) -> (r: Result<(), ErrorCode>)
    ensures
        r is Ok <==> caller == endpoint.owner,
        r is Err ==> r == Err::<(), ErrorCode>(ErrorCode::UnauthorizedNode),
{
    if caller != endpoint.owner {
        return Err(ErrorCode::UnauthorizedNode);
    }
    Ok(())
}

} // verus!
