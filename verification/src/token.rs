//! Token balances and the escrow vault.
//!
//! A [`TokenAccount`] models a reward-token balance held for an identity; the
//! runtime's token program is the collaborator that actually custodies the
//! funds, and every move of value here is the accounting the core demands of
//! it. The [`TokenVault`] is the singleton record beside the custodial
//! account: it remembers who administers the vault, which account holds the
//! escrow, and the monotone aggregate counters.

use vstd::prelude::*;

use crate::error::ErrorCode;
use crate::identity::Identity;

verus! {

/// A reward-token balance, identified by the identity that owns it.
#[derive(Clone, Copy, Debug, PartialEq, Eq, Structural)]
pub struct TokenAccount {
    /// The identity the balance belongs to. The custodial account of the
    /// vault is owned by the vault's own derived identity, not by a person.
    pub owner: Identity,
    /// Current balance.
    pub amount: u64,
}

/// The singleton escrow vault record.
#[derive(Clone, Copy, Debug, PartialEq, Eq, Structural)]
pub struct TokenVault {
    /// The administrator that initialized the vault.
    pub owner: Identity,
    /// Owner identity of the custodial token account holding the escrow.
    pub token_account: Identity,
    /// Sum of every reward and bonus ever paid out of the vault.
    pub total_rewards_distributed: u64,
    /// Aggregate bandwidth paid for across all created tasks.
    pub bandwidth_paid: u64,
    /// Aggregate bandwidth consumed across all completed tasks.
    pub bandwidth_used: u64,
}

/// One-time initialization of the vault singleton.
///
/// The vault has no hidden default: an operation that would read it before
/// this ran fails at lookup. Re-initializing an existing vault is refused.
pub fn init_token_vault(
    existing: Option<&TokenVault>,
    caller: Identity,
    custody: Identity,
) -> (r: Result<TokenVault, ErrorCode>)
    ensures
        existing is Some ==> r == Err::<TokenVault, ErrorCode>(ErrorCode::AlreadyExists),
        existing is None ==> r == Ok::<TokenVault, ErrorCode>((TokenVault {
            owner: caller,
            token_account: custody,
            total_rewards_distributed: 0,
            bandwidth_paid: 0,
            bandwidth_used: 0,
        })),
{
    if existing.is_some() {
        return Err(ErrorCode::AlreadyExists);
    }
    Ok(TokenVault {
        owner: caller,
        token_account: custody,
        total_rewards_distributed: 0,
        bandwidth_paid: 0,
        bandwidth_used: 0,
    })
}

/// Move `amount` from one balance to another, or fail with both unchanged.
///
/// This is the only way value moves between accounts in the core; callers
/// that debit the vault's custodial account reach it solely through the
/// reward-engine paths, which keeps the vault's signing authority inside the
/// crate.
pub(crate) fn transfer(
    from: &mut TokenAccount,
    to: &mut TokenAccount,
    amount: u64,
) -> (r: Result<(), ErrorCode>)
    ensures
        r is Ok <==> (old(from).amount >= amount && old(to).amount + amount <= u64::MAX),
        r is Ok ==> *final(from) == (TokenAccount {
            amount: (old(from).amount - amount) as u64,
            ..*old(from)
        }),
        r is Ok ==> *final(to) == (TokenAccount {
            amount: (old(to).amount + amount) as u64,
            ..*old(to)
        }),
        r is Err ==> *final(from) == *old(from) && *final(to) == *old(to),
        final(from).amount + final(to).amount == old(from).amount + old(to).amount,
        old(from).amount < amount ==> r == Err::<(), ErrorCode>(ErrorCode::InsufficientFunds),
        old(from).amount >= amount && old(to).amount + amount > u64::MAX
            ==> r == Err::<(), ErrorCode>(ErrorCode::ArithmeticOverflow),
{
    if from.amount < amount {
        return Err(ErrorCode::InsufficientFunds);
    }
    if to.amount > u64::MAX - amount {
        return Err(ErrorCode::ArithmeticOverflow);
    }
    from.amount = from.amount - amount;
    to.amount = to.amount + amount;
    Ok(())
}

} // verus!
