//! Token accounts, the stake that a node costs, and moving tokens between
//! two accounts.

use vstd::prelude::*;
use crate::error::TransferError;
use crate::identity::Identity;

verus! {

/// The largest decimal precision for which the stake fits in 64 bits.
pub const MAX_DECIMALS: u8 = 18;

/// Ten to the power `n`.
pub open spec fn pow10(n: nat) -> nat
    decreases n,
{
    if n == 0 {
        1
    } else {
        10 * pow10((n - 1) as nat)
    }
}

/// The stake for one node, in base units of a token with the given decimal
/// precision: ten whole tokens.
pub open spec fn stake_of(decimals: nat) -> nat {
    10 * pow10(decimals)
}

/// Powers of ten grow with the exponent.
pub proof fn lemma_pow10_monotonic(a: nat, b: nat)
    requires
        a <= b,
    ensures
        1 <= pow10(a) <= pow10(b),
    decreases b,
{
    if b == 0 {
    } else if a == b {
        lemma_pow10_monotonic((a - 1) as nat, (b - 1) as nat);
    } else {
        lemma_pow10_monotonic(a, (b - 1) as nat);
    }
}

/// The value of ten to the eighteenth.
pub proof fn lemma_pow10_at_limit()
    ensures
        pow10(18) == 1_000_000_000_000_000_000,
{
    reveal_with_fuel(pow10, 19);
}

/// The token that stakes are paid in.
#[derive(Clone, Copy, Debug, PartialEq, Eq)]
pub struct Mint {
    pub decimals: u8,
}

impl Mint {
    /// The precision is small enough for the stake to fit in 64 bits.
    pub open spec fn wf(&self) -> bool {
        self.decimals <= MAX_DECIMALS
    }

    /// A mint with the given precision, if a stake in it fits in 64 bits.
    pub fn new(decimals: u8) -> (mint: Option<Mint>)
        ensures
            mint is Some <==> decimals <= MAX_DECIMALS,
            mint matches Some(m) ==> m.decimals == decimals && m.wf(),
    {
        if decimals <= MAX_DECIMALS {
            Some(Mint { decimals })
        } else {
            None
        }
    }
}

/// The stake for one node: `10 * 10^decimals` base units, or `None` where
/// that does not fit in 64 bits (a precision above 18).
pub fn stake_amount(decimals: u8) -> (stake: Option<u64>)
    ensures
        stake is Some <==> decimals <= MAX_DECIMALS,
        stake matches Some(s) ==> s == stake_of(decimals as nat) && s >= 10,
{
    if decimals > MAX_DECIMALS {
        return None;
    }
    let mut acc: u64 = 10;
    let mut i: u8 = 0;
    while i < decimals
        invariant
            i <= decimals <= MAX_DECIMALS,
            acc == stake_of(i as nat),
            acc >= 10,
        decreases decimals - i,
    {
        proof {
            lemma_pow10_monotonic((i + 1) as nat, 18);
            lemma_pow10_at_limit();
        }
        acc = acc * 10;
        i += 1;
    }
    Some(acc)
}

/// A balance of tokens and the identity that may spend it.
#[derive(Clone, Copy, Debug, PartialEq, Eq)]
pub struct TokenAccount {
    pub owner: Identity,
    pub amount: u64,
}

/// Why moving `amount` from `from` to `to` on `authorizer`'s word is refused,
/// or `None` where it goes through. The source's balance is looked at first,
/// then its owner, then the room left in the destination.
pub open spec fn transfer_refusal(
    amount: u64,
    from: TokenAccount,
    to: TokenAccount,
    authorizer: Seq<u8>,
) -> Option<TransferError> {
    if from.amount < amount {
        Some(TransferError::InsufficientFunds)
    } else if from.owner@ != authorizer {
        Some(TransferError::OwnerMismatch)
    } else if to.amount + amount > u64::MAX {
        Some(TransferError::Overflow)
    } else {
        None
    }
}

/// Moves `amount` from one account to another. It goes through only if the
/// source holds the amount, the authorizer owns the source, and the
/// destination has room; otherwise neither account changes.
pub fn transfer(
    amount: u64,
    from: &mut TokenAccount,
    to: &mut TokenAccount,
    authorizer: &Identity,
) -> (outcome: Result<(), TransferError>)
    ensures
        final(from).owner == old(from).owner,
        final(to).owner == old(to).owner,
        match outcome {
            Ok(()) => {
                &&& transfer_refusal(amount, *old(from), *old(to), authorizer@) is None
                &&& final(from).amount == old(from).amount - amount
                &&& final(to).amount == old(to).amount + amount
            },
            Err(e) => {
                &&& transfer_refusal(amount, *old(from), *old(to), authorizer@) == Some(e)
                &&& *final(from) == *old(from)
                &&& *final(to) == *old(to)
            },
        },
{
    if from.amount < amount {
        return Err(TransferError::InsufficientFunds);
    }
    if !from.owner.same_as(authorizer) {
        return Err(TransferError::OwnerMismatch);
    }
    if to.amount > u64::MAX - amount {
        return Err(TransferError::Overflow);
    }
    from.amount = from.amount - amount;
    to.amount = to.amount + amount;
    Ok(())
}

} // verus!
