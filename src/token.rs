use vstd::prelude::*;

use crate::address::{same_address, Address};
use crate::state::{credited, debited, holds, EscrowError, TokenAccount};

verus! {

/// Why moving `amount` from `from` to `to` is refused, if it is.
pub open spec fn transfer_error(from: TokenAccount, to: TokenAccount, amount: u64) -> Option<EscrowError> {
    if from.mint@ != to.mint@ {
        Some(EscrowError::MintMismatch)
    } else if from.amount < amount {
        Some(EscrowError::InsufficientFunds)
    } else if to.amount + amount > u64::MAX {
        Some(EscrowError::Overflow)
    } else {
        None
    }
}

/// A transfer between holdings of the same asset, from one that holds at
/// least `amount` to one with room for it, goes through; with the contract of
/// `transfer`, the source then loses exactly `amount` and the destination
/// gains exactly `amount`.
pub proof fn lemma_transfer_goes_through(from: TokenAccount, to: TokenAccount, amount: u64)
    requires
        from.mint@ == to.mint@,
        from.amount >= amount,
        to.amount + amount <= u64::MAX,
    ensures
        transfer_error(from, to, amount) is None,
        debited(from, amount as int).amount == from.amount - amount,
        credited(to, amount as int).amount == to.amount + amount,
{
}

/// Moves exactly `amount` from `from` to `to`, both holding the same asset.
/// A refused transfer leaves both accounts as they were.
pub fn transfer(from: &mut TokenAccount, to: &mut TokenAccount, amount: u64) -> (r: Result<(), EscrowError>)
    ensures
        match transfer_error(*old(from), *old(to), amount) {
            Some(e) => r == Err::<(), EscrowError>(e) && *final(from) == *old(from) && *final(to) == *old(to),
            None => r is Ok && *final(from) == debited(*old(from), amount as int)
                && *final(to) == credited(*old(to), amount as int),
        },
{
    if !same_address(&from.mint, &to.mint) {
        return Err(EscrowError::MintMismatch);
    }
    if from.amount < amount {
        return Err(EscrowError::InsufficientFunds);
    }
    if to.amount > u64::MAX - amount {
        return Err(EscrowError::Overflow);
    }
    from.amount = from.amount - amount;
    to.amount = to.amount + amount;
    Ok(())
}

/// Moves the whole balance of `from` to `to`.
pub fn drain(from: &mut TokenAccount, to: &mut TokenAccount) -> (r: Result<(), EscrowError>)
    ensures
        match transfer_error(*old(from), *old(to), old(from).amount) {
            Some(e) => r == Err::<(), EscrowError>(e) && *final(from) == *old(from) && *final(to) == *old(to),
            None => r is Ok && *final(from) == debited(*old(from), old(from).amount as int)
                && *final(to) == credited(*old(to), old(from).amount as int),
        },
{
    let amount = from.amount;
    transfer(from, to, amount)
}

/// Removes the account in `slot`. Only an existing account with no balance
/// can be closed; a refused close leaves the slot as it was.
pub fn close_account(slot: &mut Option<TokenAccount>) -> (r: Result<(), EscrowError>)
    ensures
        match *old(slot) {
            None => r == Err::<(), EscrowError>(EscrowError::AccountNotFound) && *final(slot) == *old(slot),
            Some(a) => if a.amount == 0 {
                r is Ok && *final(slot) is None
            } else {
                r == Err::<(), EscrowError>(EscrowError::NonZeroBalance) && *final(slot) == *old(slot)
            },
        },
{
    match slot {
        None => Err(EscrowError::AccountNotFound),
        Some(a) => {
            if a.amount == 0 {
                *slot = None;
                Ok(())
            } else {
                Err(EscrowError::NonZeroBalance)
            }
        },
    }
}

/// Whether `a` holds `mint` for `owner`.
pub fn account_holds(a: &TokenAccount, mint: &Address, owner: &Address) -> (r: bool)
    ensures
        r == holds(*a, *mint, *owner),
{
    same_address(&a.mint, mint) && same_address(&a.owner, owner)
}

/// The account in `slot`, or a new empty account of `mint` for `owner`.
pub fn existing_or_new(slot: &Option<TokenAccount>, mint: &Address, owner: &Address) -> (r: TokenAccount)
    ensures
        r == crate::state::existing_or_empty(*slot, *mint, *owner),
{
    match slot {
        Some(a) => *a,
        None => TokenAccount { mint: *mint, owner: *owner, amount: 0 },
    }
}

} // verus!
