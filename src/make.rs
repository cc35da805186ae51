use vstd::prelude::*;

use crate::address::{same_address, Address};
use crate::pda::{
    associated_address, authority_matches, derive_escrow_address, escrow_address, is_associated_address,
};
use crate::state::{debited, holds, Escrow, EscrowError, TokenAccount};
use crate::token::{account_holds, transfer};

verus! {

/// The accounts that opening an escrow reads and writes.
#[derive(Clone, Copy, Debug)]
pub struct Make {
    /// The program that owns the escrow records.
    pub program_id: Address,
    /// The token program, which the holding addresses are derived with.
    pub token_program: Address,
    /// The associated-token program, which derives the holding addresses.
    pub associated_token_program: Address,
    /// The party that opens the escrow.
    pub maker: Address,
    /// Whether the maker signed the operation.
    pub maker_is_signer: bool,
    /// The asset the maker commits.
    pub mint_a: Address,
    /// The asset the maker wants in return.
    pub mint_b: Address,
    /// The address where the record is to be stored.
    pub escrow_key: Address,
    /// The record slot at `escrow_key`; it must be empty.
    pub escrow: Option<Escrow>,
    /// The maker's holding of `mint_a`, which funds the custody account.
    pub maker_ata_a: TokenAccount,
    /// The address where the custody account is to be created.
    pub vault_key: Address,
    /// The custody account slot; it must be empty.
    pub vault: Option<TokenAccount>,
}

/// The first reason, in the order they are checked, for which opening an
/// escrow with nonce `seed`, committing `deposit` and asking `receive`, is
/// refused; `None` when it goes through.
pub open spec fn make_error(c: Make, seed: u64, deposit: u64) -> Option<EscrowError> {
    if !c.maker_is_signer {
        Some(EscrowError::NotSigner)
    } else {
        match escrow_address(c.program_id@, c.maker@, seed) {
            None => Some(EscrowError::DerivationFailed),
            Some((key, _)) => {
                if key != c.escrow_key@ {
                    Some(EscrowError::AuthorityMismatch)
                } else if c.escrow is Some || c.vault is Some {
                    Some(EscrowError::AlreadyInUse)
                } else if !holds(c.maker_ata_a, c.mint_a, c.maker)
                    || associated_address(c.escrow_key@, c.mint_a@, c.token_program@, c.associated_token_program@)
                        != Some(c.vault_key@) {
                    Some(EscrowError::HoldingAccountMismatch)
                } else if c.maker_ata_a.amount < deposit {
                    Some(EscrowError::InsufficientFunds)
                } else {
                    None
                }
            },
        }
    }
}

/// The record that opening with nonce `seed`, asking `receive`, stores, with
/// the bump that the derivation found.
pub open spec fn opened_record(c: Make, seed: u64, receive: u64) -> Escrow {
    Escrow {
        seed,
        maker: c.maker,
        mint_a: c.mint_a,
        mint_b: c.mint_b,
        receive,
        bump: escrow_address(c.program_id@, c.maker@, seed).unwrap().1,
    }
}

/// The accounts after an escrow is opened: the record is stored, and the
/// custody account, controlled by the record's address, holds exactly
/// `deposit` of `mint_a`, taken from the maker's holding.
pub open spec fn made(c: Make, seed: u64, deposit: u64, receive: u64) -> Make {
    Make {
        escrow: Some(opened_record(c, seed, receive)),
        vault: Some(TokenAccount { mint: c.mint_a, owner: c.escrow_key, amount: deposit }),
        maker_ata_a: debited(c.maker_ata_a, deposit as int),
        ..c
    }
}

/// The accounts after opening, or the reason it is refused.
pub open spec fn make_outcome(c: Make, seed: u64, deposit: u64, receive: u64) -> Result<Make, EscrowError> {
    match make_error(c, seed, deposit) {
        Some(e) => Err(e),
        None => Ok(made(c, seed, deposit, receive)),
    }
}

impl Make {
    /// Stores the record in the empty record slot.
    pub fn init(&mut self, seed: u64, receive: u64, bump: u8) -> (r: Result<(), EscrowError>)
        ensures
            match old(self).escrow {
                Some(_) => r == Err::<(), EscrowError>(EscrowError::AlreadyInUse) && *final(self) == *old(self),
                None => r is Ok && *final(self) == (Make {
                    escrow: Some(Escrow {
                        seed,
                        maker: old(self).maker,
                        mint_a: old(self).mint_a,
                        mint_b: old(self).mint_b,
                        receive,
                        bump,
                    }),
                    ..*old(self)
                }),
            },
    {
        if self.escrow.is_some() {
            return Err(EscrowError::AlreadyInUse);
        }
        self.escrow = Some(Escrow {
            seed,
            maker: self.maker,
            mint_a: self.mint_a,
            mint_b: self.mint_b,
            receive,
            bump,
        });
        Ok(())
    }

    /// Moves exactly `deposit` from the maker's holding into the custody
    /// account. A refused deposit changes nothing.
    pub fn deposit(&mut self, deposit: u64) -> (r: Result<(), EscrowError>)
        ensures
            match old(self).vault {
                None => r == Err::<(), EscrowError>(EscrowError::AccountNotFound) && *final(self) == *old(self),
                Some(v) => match crate::token::transfer_error(old(self).maker_ata_a, v, deposit) {
                    Some(err) => r == Err::<(), EscrowError>(err) && *final(self) == *old(self),
                    None => r is Ok && *final(self) == (Make {
                        maker_ata_a: debited(old(self).maker_ata_a, deposit as int),
                        vault: Some(crate::state::credited(v, deposit as int)),
                        ..*old(self)
                    }),
                },
            },
    {
        let mut vault = match &self.vault {
            None => { return Err(EscrowError::AccountNotFound); },
            Some(v) => *v,
        };
        let r = transfer(&mut self.maker_ata_a, &mut vault, deposit);
        if r.is_ok() {
            self.vault = Some(vault);
        }
        r
    }
}

/// Opens an escrow: checks every condition first, then stores the record and
/// funds a new custody account, or refuses and changes nothing. On success the
/// stored bump re-creates the record's address from the maker and the nonce.
pub fn make(ctx: &mut Make, seed: u64, deposit: u64, receive: u64) -> (r: Result<(), EscrowError>)
    ensures
        match make_outcome(*old(ctx), seed, deposit, receive) {
            Ok(next) => r is Ok && *final(ctx) == next,
            Err(e) => r == Err::<(), EscrowError>(e) && *final(ctx) == *old(ctx),
        },
        r is Ok ==> authority_matches(
            old(ctx).program_id@,
            old(ctx).maker@,
            seed,
            final(ctx).escrow.unwrap().bump,
            old(ctx).escrow_key@,
        ),
{
    if !ctx.maker_is_signer {
        return Err(EscrowError::NotSigner);
    }
    let bump = match derive_escrow_address(&ctx.program_id, &ctx.maker, seed) {
        None => { return Err(EscrowError::DerivationFailed); },
        Some((key, bump)) => {
            if !same_address(&key, &ctx.escrow_key) {
                return Err(EscrowError::AuthorityMismatch);
            }
            bump
        },
    };
    if ctx.escrow.is_some() || ctx.vault.is_some() {
        return Err(EscrowError::AlreadyInUse);
    }
    if !account_holds(&ctx.maker_ata_a, &ctx.mint_a, &ctx.maker)
        || !is_associated_address(
            &ctx.vault_key,
            &ctx.escrow_key,
            &ctx.mint_a,
            &ctx.token_program,
            &ctx.associated_token_program,
        ) {
        return Err(EscrowError::HoldingAccountMismatch);
    }
    if ctx.maker_ata_a.amount < deposit {
        return Err(EscrowError::InsufficientFunds);
    }
    ctx.vault = Some(TokenAccount { mint: ctx.mint_a, owner: ctx.escrow_key, amount: 0 });
    let stored = ctx.init(seed, receive, bump);
    let moved = ctx.deposit(deposit);
    proof {
        assert(stored is Ok && moved is Ok);
    }
    Ok(())
}

} // verus!
