//! Provider nodes: the worker identities that fulfil tasks.

use vstd::prelude::*;

use crate::error::ErrorCode;
use crate::identity::Identity;
use crate::node_registry::NodeRegistry;
use crate::token::TokenAccount;

verus! {

/// Record of a worker node.
///
/// `bandwidth_used`, `reputation` and `rewards` are monotone counters:
/// reports and task completion raise the first two, and only the reward
/// engine raises the third.
#[derive(Clone, Copy, Debug)]
pub struct ProviderNode {
    /// Identity that operates this node.
    pub owner: Identity,
    /// Advertised IPv4 address of the node.
    pub ipv4: [u8; 4],
    /// Port for proxy requests.
    pub proxy_port: u16,
    /// Port for client communication.
    pub client_port: u16,
    /// Declared bandwidth capacity.
    pub bandwidth_limit: u64,
    /// Bandwidth consumed so far; never decreases.
    pub bandwidth_used: u64,
    /// Reputation score; never decreases.
    pub reputation: u64,
    /// Bonus rewards paid out so far; never decreases.
    pub rewards: u64,
    /// Whether the node currently takes work; starts true.
    pub active: bool,
    /// Owner identity of the node's reward token account.
    pub token_account: Identity,
    /// Time of the last bonus payout, as the runtime's clock reported it.
    pub last_bonus_claim: u64,
}

/// Which check rejects a registration, if any.
pub open spec fn create_node_check(
    exists_already: bool,
    node_token: TokenAccount,
    caller: Identity,
) -> Option<ErrorCode> {
    if exists_already {
        Some(ErrorCode::AlreadyExists)
    } else if node_token.owner != caller {
        Some(ErrorCode::InvalidTokenAccount)
    } else {
        None
    }
}

/// Register the caller as a provider.
///
/// Creates the node record with `active` set and zeroed counters, and lists
/// the caller in the registry if absent. Record and registry entry are
/// established together: on any failure neither exists.
pub fn create_node(
    existing: Option<&ProviderNode>,
    registry: &mut NodeRegistry,
    caller: Identity,
    ipv4: [u8; 4],
    proxy_port: u16,
    client_port: u16,
    bandwidth_limit: u64,
    node_token: &TokenAccount,
) -> (r: Result<ProviderNode, ErrorCode>)
    requires
        old(registry).wf(),
    ensures
        create_node_check(existing is Some, *node_token, caller) matches Some(e)
            ==> r == Err::<ProviderNode, ErrorCode>(e) && *final(registry) == *old(registry),
        create_node_check(existing is Some, *node_token, caller) is None ==> {
            &&& r == Ok::<ProviderNode, ErrorCode>((ProviderNode {
                owner: caller,
                ipv4,
                proxy_port,
                client_port,
                bandwidth_limit,
                bandwidth_used: 0,
                reputation: 0,
                rewards: 0,
                active: true,
                token_account: node_token.owner,
                last_bonus_claim: 0,
            }))
            &&& (old(registry)@.contains(caller) ==> final(registry)@ == old(registry)@)
            &&& (!old(registry)@.contains(caller)
                ==> final(registry)@ == old(registry)@.push(caller))
            &&& final(registry)@.contains(caller)
        },
        final(registry).wf(),
{
    if existing.is_some() {
        return Err(ErrorCode::AlreadyExists);
    }
    if node_token.owner != caller {
        return Err(ErrorCode::InvalidTokenAccount);
    }
    registry.register(caller);
    Ok(ProviderNode {
        owner: caller,
        ipv4,
        proxy_port,
        client_port,
        bandwidth_limit,
        bandwidth_used: 0,
        reputation: 0,
        rewards: 0,
        active: true,
        token_account: node_token.owner,
        last_bonus_claim: 0,
    })
}

/// Update a node's advertised address, ports and capacity.
///
/// Owner-only; usage, reputation, rewards and the active flag are untouched.
pub fn update_node(
    node: &mut ProviderNode,
    caller: Identity,
    ipv4: [u8; 4],
    proxy_port: u16,
    client_port: u16,
    bandwidth_limit: u64,
) -> (r: Result<(), ErrorCode>)
    ensures
        caller != old(node).owner
            ==> r == Err::<(), ErrorCode>(ErrorCode::UnauthorizedNode)
                && *final(node) == *old(node),
        caller == old(node).owner ==> r is Ok && *final(node) == (ProviderNode {
            ipv4,
            proxy_port,
            client_port,
            bandwidth_limit,
            ..*old(node)
        }),
{
    if caller != node.owner {
        return Err(ErrorCode::UnauthorizedNode);
    }
    node.ipv4 = ipv4;
    node.proxy_port = proxy_port;
    node.client_port = client_port;
    node.bandwidth_limit = bandwidth_limit;
    Ok(())
}

/// Which check rejects a usage report, if any.
pub open spec fn update_node_report_check(
    node: ProviderNode,
    caller: Identity,
    bandwidth_used: u64,
    reputation_increase: u64,
) -> Option<ErrorCode> {
    if caller != node.owner {
        Some(ErrorCode::UnauthorizedNode)
    } else if node.bandwidth_used + bandwidth_used > u64::MAX
        || node.reputation + reputation_increase > u64::MAX {
        Some(ErrorCode::ArithmeticOverflow)
    } else {
        None
    }
}

/// Add a reported bandwidth and reputation delta to the running totals.
///
/// Owner-only. The deltas themselves are trusted as reported: the report
/// pipeline behind the owner's signature is responsible for having validated
/// the claim. Sums that would overflow are refused, never wrapped.
pub fn update_node_report(
    node: &mut ProviderNode,
    caller: Identity,
    bandwidth_used: u64,
    reputation_increase: u64,
) -> (r: Result<(), ErrorCode>)
    ensures
        update_node_report_check(*old(node), caller, bandwidth_used, reputation_increase)
            matches Some(e) ==> r == Err::<(), ErrorCode>(e) && *final(node) == *old(node),
        update_node_report_check(*old(node), caller, bandwidth_used, reputation_increase)
            is None ==> r is Ok && *final(node) == (ProviderNode {
                bandwidth_used: (old(node).bandwidth_used + bandwidth_used) as u64,
                reputation: (old(node).reputation + reputation_increase) as u64,
                ..*old(node)
            }),
        final(node).bandwidth_used >= old(node).bandwidth_used,
        final(node).reputation >= old(node).reputation,
        final(node).rewards == old(node).rewards,
{
    if caller != node.owner {
        return Err(ErrorCode::UnauthorizedNode);
    }
    if node.bandwidth_used > u64::MAX - bandwidth_used
        || node.reputation > u64::MAX - reputation_increase
    {
        return Err(ErrorCode::ArithmeticOverflow);
    }
    node.bandwidth_used = node.bandwidth_used + bandwidth_used;
    node.reputation = node.reputation + reputation_increase;
    Ok(())
}

/// Authorize destruction of a provider node.
///
/// Owner-only; on success the runtime destroys the record. The registry
/// entry is deliberately left in place: membership is only a hint, and every
/// use re-validates the record itself.
pub fn close_node(node: &ProviderNode, caller: Identity) -> (r: Result<(), ErrorCode>)
    ensures
        r is Ok <==> caller == node.owner,
        r is Err ==> r == Err::<(), ErrorCode>(ErrorCode::UnauthorizedNode),
{
    if caller != node.owner {
        return Err(ErrorCode::UnauthorizedNode);
    }
    Ok(())
}

} // verus!
