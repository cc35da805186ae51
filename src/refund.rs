use vstd::prelude::*;

use crate::address::{same_address, Address};
use crate::pda::{associated_address, authority_matches, check_escrow_authority, is_associated_address};
use crate::state::{credited, existing_or_empty, holds, slot_holds, Escrow, EscrowError, TokenAccount};
use crate::token::{account_holds, close_account, drain, existing_or_new};

verus! {

/// The accounts that reclaiming an escrow reads and writes.
#[derive(Clone, Copy, Debug)]
pub struct Refund {
    /// The program that owns the escrow records.
    pub program_id: Address,
    /// The token program, which the holding addresses are derived with.
    pub token_program: Address,
    /// The associated-token program, which derives the holding addresses.
    pub associated_token_program: Address,
    /// The maker named by the caller.
    pub maker: Address,
    /// Whether the maker signed the operation.
    pub maker_is_signer: bool,
    /// The custody asset named by the caller.
    pub mint_a: Address,
    /// The address of the escrow record.
    pub escrow_key: Address,
    /// The record stored at `escrow_key`, if any.
    pub escrow: Option<Escrow>,
    /// The address of the custody account.
    pub vault_key: Address,
    /// The custody account, if it exists.
    pub vault: Option<TokenAccount>,
    /// The maker's holding of `mint_a`; created on demand.
    pub maker_ata_a: Option<TokenAccount>,
}

/// The first reason, in the order they are checked, for which reclaiming `c`
/// is refused; `None` when it goes through.
pub open spec fn refund_error(c: Refund) -> Option<EscrowError> {
    match c.escrow {
        None => Some(EscrowError::RecordNotFound),
        Some(e) => {
            if !c.maker_is_signer {
                Some(EscrowError::NotSigner)
            } else if e.mint_a@ != c.mint_a@ {
                Some(EscrowError::MintMismatch)
            } else if e.maker@ != c.maker@ {
                Some(EscrowError::MakerMismatch)
            } else if !authority_matches(c.program_id@, e.maker@, e.seed, e.bump, c.escrow_key@) {
                Some(EscrowError::AuthorityMismatch)
            } else {
                match c.vault {
                    None => Some(EscrowError::AccountNotFound),
                    Some(v) => {
                        if !holds(v, c.mint_a, c.escrow_key)
                            || associated_address(c.escrow_key@, c.mint_a@, c.token_program@, c.associated_token_program@)
                                != Some(c.vault_key@) || !slot_holds(c.maker_ata_a, c.mint_a, c.maker) {
                            Some(EscrowError::HoldingAccountMismatch)
                        } else if existing_or_empty(c.maker_ata_a, c.mint_a, c.maker).amount + v.amount > u64::MAX {
                            Some(EscrowError::Overflow)
                        } else {
                            None
                        }
                    },
                }
            }
        },
    }
}

/// The accounts after `c` is reclaimed: the whole custody balance is back in
/// the maker's holding, and the custody account and the record are gone.
pub open spec fn refunded(c: Refund) -> Refund {
    let v = c.vault.unwrap();
    Refund {
        escrow: None,
        vault: None,
        maker_ata_a: Some(credited(existing_or_empty(c.maker_ata_a, c.mint_a, c.maker), v.amount as int)),
        ..c
    }
}

/// The accounts after `c` is reclaimed, or the reason it is refused.
pub open spec fn refund_outcome(c: Refund) -> Result<Refund, EscrowError> {
    match refund_error(c) {
        Some(e) => Err(e),
        None => Ok(refunded(c)),
    }
}

impl Refund {
    /// Retires the record, the last step of the operation.
    pub fn close_escrow(&mut self) -> (r: Result<(), EscrowError>)
        ensures
            match old(self).escrow {
                None => r == Err::<(), EscrowError>(EscrowError::RecordNotFound) && *final(self) == *old(self),
                Some(_) => r is Ok && *final(self) == (Refund { escrow: None, ..*old(self) }),
            },
    {
        if self.escrow.is_none() {
            return Err(EscrowError::RecordNotFound);
        }
        self.escrow = None;
        Ok(())
    }

    /// Runs every check of reclaiming, in order, before anything moves.
    pub fn validate(&self) -> (r: Result<(), EscrowError>)
        ensures
            match refund_error(*self) {
                Some(e) => r == Err::<(), EscrowError>(e),
                None => r is Ok,
            },
    {
        let e = match &self.escrow {
            None => { return Err(EscrowError::RecordNotFound); },
            Some(e) => e,
        };
        if !self.maker_is_signer {
            return Err(EscrowError::NotSigner);
        }
        if !same_address(&e.mint_a, &self.mint_a) {
            return Err(EscrowError::MintMismatch);
        }
        if !same_address(&e.maker, &self.maker) {
            return Err(EscrowError::MakerMismatch);
        }
        if !check_escrow_authority(&self.program_id, &e.maker, e.seed, e.bump, &self.escrow_key) {
            return Err(EscrowError::AuthorityMismatch);
        }
        let v = match &self.vault {
            None => { return Err(EscrowError::AccountNotFound); },
            Some(v) => v,
        };
        let maker_a_ok = match &self.maker_ata_a {
            None => true,
            Some(a) => account_holds(a, &self.mint_a, &self.maker),
        };
        if !account_holds(v, &self.mint_a, &self.escrow_key)
            || !is_associated_address(
                &self.vault_key,
                &self.escrow_key,
                &self.mint_a,
                &self.token_program,
                &self.associated_token_program,
            ) || !maker_a_ok {
            return Err(EscrowError::HoldingAccountMismatch);
        }
        let maker_a = existing_or_new(&self.maker_ata_a, &self.mint_a, &self.maker);
        if maker_a.amount > u64::MAX - v.amount {
            return Err(EscrowError::Overflow);
        }
        Ok(())
    }

    /// Returns custody: moves the custody account's whole balance to the
    /// maker's holding of `mint_a` (created when absent), then closes the
    /// custody account; the record stays. A refused return changes nothing.
    pub fn withdraw_and_close(&mut self) -> (r: Result<(), EscrowError>)
        ensures
            match (old(self).escrow, old(self).vault) {
                (None, _) => r == Err::<(), EscrowError>(EscrowError::RecordNotFound) && *final(self) == *old(self),
                (Some(_), None) => r == Err::<(), EscrowError>(EscrowError::AccountNotFound) && *final(self) == *old(self),
                (Some(_), Some(v)) => {
                    let dest = existing_or_empty(old(self).maker_ata_a, old(self).mint_a, old(self).maker);
                    match crate::token::transfer_error(v, dest, v.amount) {
                        Some(err) => r == Err::<(), EscrowError>(err) && *final(self) == *old(self),
                        None => r is Ok && *final(self) == (Refund {
                            maker_ata_a: Some(credited(dest, v.amount as int)),
                            vault: None,
                            ..*old(self)
                        }),
                    }
                },
            },
    {
        if self.escrow.is_none() {
            return Err(EscrowError::RecordNotFound);
        }
        let mut vault = match &self.vault {
            None => { return Err(EscrowError::AccountNotFound); },
            Some(v) => *v,
        };
        let mut dest = existing_or_new(&self.maker_ata_a, &self.mint_a, &self.maker);
        let r = drain(&mut vault, &mut dest);
        if r.is_err() {
            return r;
        }
        let mut slot = Some(vault);
        let closed = close_account(&mut slot);
        if closed.is_err() {
            return closed;
        }
        self.maker_ata_a = Some(dest);
        self.vault = None;
        Ok(())
    }
}

/// Reclaims an escrow for its maker: checks every condition first, then
/// returns the custody balance and retires the record, or refuses and changes
/// nothing.
pub fn refund(ctx: &mut Refund) -> (r: Result<(), EscrowError>)
    ensures
        match refund_outcome(*old(ctx)) {
            Ok(next) => r is Ok && *final(ctx) == next,
            Err(e) => r == Err::<(), EscrowError>(e) && *final(ctx) == *old(ctx),
        },
{
    let checked = ctx.validate();
    if checked.is_err() {
        return checked;
    }
    let released = ctx.withdraw_and_close();
    if released.is_err() {
        return released;
    }
    ctx.close_escrow()
}

} // verus!
