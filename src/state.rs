use vstd::prelude::*;

use crate::address::Address;

verus! {

/// Bytes that the stored escrow record takes: an 8-byte discriminator, the
/// nonce, three identities, the amount to receive and the bump.
pub const INIT_SPACE: usize = 8 + 8 + 3 * 32 + 8 + 1;

/// The record of one open swap. Every field is written once, when the swap is
/// opened.
#[derive(Clone, Copy, Debug)]
pub struct Escrow {
    /// Caller-chosen nonce that lets one maker hold several escrows.
    pub seed: u64,
    /// The party that opened the escrow and receives the counter-asset.
    pub maker: Address,
    /// The asset held in custody.
    pub mint_a: Address,
    /// The asset the maker wants in return.
    pub mint_b: Address,
    /// The exact quantity of `mint_b` that settles the swap.
    pub receive: u64,
    /// The bump that fixes the custody account's derived authority.
    pub bump: u8,
}

/// A holding account: a balance of one asset, controlled by one owner.
#[derive(Clone, Copy, Debug)]
pub struct TokenAccount {
    /// The asset held.
    pub mint: Address,
    /// The identity allowed to move the balance.
    pub owner: Address,
    /// The balance.
    pub amount: u64,
}

/// Why an operation was refused. A refused operation changes nothing.
#[derive(Clone, Copy, Debug, PartialEq, Eq, Structural)]
pub enum EscrowError {
    /// The party that must authorise the operation did not sign it.
    NotSigner,
    /// A supplied asset identity differs from the one the record holds.
    MintMismatch,
    /// The supplied maker differs from the one the record holds.
    MakerMismatch,
    /// The record's address is not the one derived from its maker and nonce.
    AuthorityMismatch,
    /// A holding account has the wrong asset or the wrong owner.
    HoldingAccountMismatch,
    /// A source balance is below the quantity to move.
    InsufficientFunds,
    /// A destination balance would exceed the largest representable amount.
    Overflow,
    /// No escrow record exists at the given address.
    RecordNotFound,
    /// A holding account that the operation needs does not exist.
    AccountNotFound,
    /// An account that the operation creates already exists.
    AlreadyInUse,
    /// An account still holds a balance and cannot be closed.
    NonZeroBalance,
    /// No bump gives a derived address for the maker and nonce.
    DerivationFailed,
}

/// `a` with `n` added to its balance.
pub open spec fn credited(a: TokenAccount, n: int) -> TokenAccount {
    TokenAccount { amount: (a.amount + n) as u64, ..a }
}

/// `a` with `n` taken from its balance.
pub open spec fn debited(a: TokenAccount, n: int) -> TokenAccount {
    TokenAccount { amount: (a.amount - n) as u64, ..a }
}

/// An empty holding account of `mint` owned by `owner`.
pub open spec fn empty_account(mint: Address, owner: Address) -> TokenAccount {
    TokenAccount { mint, owner, amount: 0 }
}

/// Whether `a` holds `mint` and is controlled by `owner`.
pub open spec fn holds(a: TokenAccount, mint: Address, owner: Address) -> bool {
    a.mint@ == mint@ && a.owner@ == owner@
}

/// The account in a slot, or the empty account that would be created there.
pub open spec fn existing_or_empty(slot: Option<TokenAccount>, mint: Address, owner: Address) -> TokenAccount {
    match slot {
        Some(a) => a,
        None => empty_account(mint, owner),
    }
}

/// Whether the account in a slot, if any, holds `mint` for `owner`.
pub open spec fn slot_holds(slot: Option<TokenAccount>, mint: Address, owner: Address) -> bool {
    match slot {
        Some(a) => holds(a, mint, owner),
        None => true,
    }
}

} // verus!
