//! The reputation-bonus side of the reward engine.
//!
//! Completion payouts live with the task lifecycle; here a provider claims
//! the bonus its accumulated reputation entitles it to, minus what was
//! already paid. A claim with nothing left to pay succeeds as a no-op, so
//! repeating a claim is always safe.

use vstd::prelude::*;

use crate::error::ErrorCode;
use crate::identity::Identity;
use crate::provider_node::ProviderNode;
use crate::token::{transfer, TokenAccount, TokenVault};
use crate::{BONUS_RATE, REPUTATION_THRESHOLD};

verus! {

/// Total bonus a reputation score has earned over all time: the rate, once
/// per threshold crossed.
pub open spec fn entitled_bonus(reputation: int) -> int {
    BONUS_RATE * (reputation / REPUTATION_THRESHOLD as int)
}

/// What a claim would pay now: the earned total minus what was already
/// paid, and never negative.
pub open spec fn payable_bonus(reputation: int, rewards_paid: int) -> int {
    if entitled_bonus(reputation) >= rewards_paid {
        entitled_bonus(reputation) - rewards_paid
    } else {
        0
    }
}

/// Which check rejects a bonus claim, if any, in check order.
pub open spec fn claim_check(
    node: ProviderNode,
    vault: TokenVault,
    vault_token: TokenAccount,
    node_token: TokenAccount,
    caller: Identity,
) -> Option<ErrorCode> {
    let pay = payable_bonus(node.reputation as int, node.rewards as int);
    if caller != node.owner {
        Some(ErrorCode::UnauthorizedNode)
    } else if node.reputation < REPUTATION_THRESHOLD {
        Some(ErrorCode::InsufficientReputation)
    } else if node_token.owner != node.owner {
        Some(ErrorCode::InvalidTokenAccount)
    } else if vault_token.owner != vault.token_account {
        Some(ErrorCode::InvalidTokenAccount)
    } else if entitled_bonus(node.reputation as int) > u64::MAX {
        Some(ErrorCode::ArithmeticOverflow)
    } else if pay > 0 && vault_token.amount < pay {
        Some(ErrorCode::InsufficientFunds)
    } else if pay > 0 && (node_token.amount + pay > u64::MAX
        || vault.total_rewards_distributed + pay > u64::MAX) {
        Some(ErrorCode::ArithmeticOverflow)
    } else {
        None
    }
}

/// Claim the provider's outstanding reputation bonus from the vault.
///
/// Owner-only, and only once the reputation has reached the threshold. The
/// outstanding amount moves from the vault's custodial account to the
/// provider's reward account, the provider's paid total rises to the earned
/// total, and the claim time is recorded from the runtime's clock. When
/// nothing is outstanding the claim succeeds and changes nothing, so an
/// immediate second claim never pays again.
pub fn claim_task_rewards(
    node: &mut ProviderNode,
    vault: &mut TokenVault,
    vault_token: &mut TokenAccount,
    node_token: &mut TokenAccount,
    caller: Identity,
    now: u64,
) -> (r: Result<(), ErrorCode>)
    ensures
        claim_check(*old(node), *old(vault), *old(vault_token), *old(node_token), caller)
            matches Some(e) ==> {
                &&& r == Err::<(), ErrorCode>(e)
                &&& *final(node) == *old(node)
                &&& *final(vault) == *old(vault)
                &&& *final(vault_token) == *old(vault_token)
                &&& *final(node_token) == *old(node_token)
            },
        claim_check(*old(node), *old(vault), *old(vault_token), *old(node_token), caller)
            is None ==> {
                let pay = payable_bonus(old(node).reputation as int, old(node).rewards as int);
                &&& r is Ok
                &&& (pay == 0 ==> {
                    &&& *final(node) == *old(node)
                    &&& *final(vault) == *old(vault)
                    &&& *final(vault_token) == *old(vault_token)
                    &&& *final(node_token) == *old(node_token)
                })
                &&& (pay > 0 ==> {
                    &&& *final(node) == (ProviderNode {
                        rewards: entitled_bonus(old(node).reputation as int) as u64,
                        last_bonus_claim: now,
                        ..*old(node)
                    })
                    &&& *final(vault) == (TokenVault {
                        total_rewards_distributed:
                            (old(vault).total_rewards_distributed + pay) as u64,
                        ..*old(vault)
                    })
                    &&& *final(vault_token) == (TokenAccount {
                        amount: (old(vault_token).amount - pay) as u64,
                        ..*old(vault_token)
                    })
                    &&& *final(node_token) == (TokenAccount {
                        amount: (old(node_token).amount + pay) as u64,
                        ..*old(node_token)
                    })
                })
            },
        r is Ok ==> final(vault).total_rewards_distributed
            == old(vault).total_rewards_distributed
                + payable_bonus(old(node).reputation as int, old(node).rewards as int),
        r is Err ==> final(vault).total_rewards_distributed
            == old(vault).total_rewards_distributed,
        r is Ok ==> payable_bonus(final(node).reputation as int, final(node).rewards as int)
            == 0,
        final(node).rewards >= old(node).rewards,
        final(node).reputation == old(node).reputation,
        final(node).bandwidth_used == old(node).bandwidth_used,
        final(vault).total_rewards_distributed >= old(vault).total_rewards_distributed,
        final(vault_token).amount + final(node_token).amount
            == old(vault_token).amount + old(node_token).amount,
{
    if caller != node.owner {
        return Err(ErrorCode::UnauthorizedNode);
    }
    if node.reputation < REPUTATION_THRESHOLD {
        return Err(ErrorCode::InsufficientReputation);
    }
    if node_token.owner != node.owner {
        return Err(ErrorCode::InvalidTokenAccount);
    }
    if vault_token.owner != vault.token_account {
        return Err(ErrorCode::InvalidTokenAccount);
    }
    let thresholds_crossed = node.reputation / REPUTATION_THRESHOLD;
    if thresholds_crossed > u64::MAX / BONUS_RATE {
        proof {
            assert(BONUS_RATE * thresholds_crossed > u64::MAX) by (nonlinear_arith)
                requires
                    thresholds_crossed > u64::MAX / BONUS_RATE,
                    BONUS_RATE == 100,
            ;
        }
        return Err(ErrorCode::ArithmeticOverflow);
    }
    proof {
        assert(BONUS_RATE * thresholds_crossed <= u64::MAX) by (nonlinear_arith)
            requires
                thresholds_crossed <= u64::MAX / BONUS_RATE,
                BONUS_RATE == 100,
        ;
    }
    let entitled = BONUS_RATE * thresholds_crossed;
    let pay = if entitled >= node.rewards {
        entitled - node.rewards
    } else {
        0
    };
    if pay == 0 {
        return Ok(());
    }
    if vault_token.amount < pay {
        return Err(ErrorCode::InsufficientFunds);
    }
    if node_token.amount > u64::MAX - pay
        || vault.total_rewards_distributed > u64::MAX - pay
    {
        return Err(ErrorCode::ArithmeticOverflow);
    }
    match transfer(vault_token, node_token, pay) {
        Ok(()) => {}
        Err(e) => {
            return Err(e);
        }
    }
    node.rewards = entitled;
    node.last_bonus_claim = now;
    vault.total_rewards_distributed = vault.total_rewards_distributed + pay;
    Ok(())
}

} // verus!
