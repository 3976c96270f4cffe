//! Per-requester client accounts.

use vstd::prelude::*;

use crate::error::ErrorCode;
use crate::identity::Identity;

verus! {

/// Record of a client that posts tasks.
///
/// The counter is the source of each of the client's task ids, so it never
/// decreases: derived task addresses stay unique and stable.
#[derive(Clone, Copy, Debug, PartialEq, Eq, Structural)]
pub struct Client {
    /// Identity that owns this account.
    pub owner: Identity,
    /// Number of tasks this client has created; the id of the next one.
    pub task_counter: u64,
}

/// Create the caller's client account, or leave an existing one untouched.
///
/// Creation is lazy and idempotent: re-invoking it for an identity that
/// already has an account is a no-op, not an error.
pub fn create_client(existing: Option<Client>, caller: Identity) -> (c: Client)
    ensures
        existing matches Some(prior) ==> c == prior,
        existing is None ==> c == (Client { owner: caller, task_counter: 0 }),
{
    match existing {
        Some(prior) => prior,
        None => Client { owner: caller, task_counter: 0 },
    }
}

/// Record a usage report for a client.
///
/// Reserved as an extension point: the operation checks authorization and
/// changes nothing.
pub fn update_client_report(client: &Client, caller: Identity) -> (r: Result<(), ErrorCode>)
    ensures
        r is Ok <==> caller == client.owner,
        r is Err ==> r == Err::<(), ErrorCode>(ErrorCode::UnauthorizedNode),
{
    if caller != client.owner {
        return Err(ErrorCode::UnauthorizedNode);
    }
    Ok(())
}

} // verus!
