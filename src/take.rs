use vstd::prelude::*;

use crate::address::{same_address, Address};
use crate::pda::{associated_address, authority_matches, check_escrow_authority, is_associated_address};
use crate::state::{
    credited, debited, existing_or_empty, holds, slot_holds, Escrow, EscrowError, TokenAccount,
};
use crate::token::{account_holds, close_account, drain, existing_or_new, transfer};

verus! {

/// The accounts that settling an escrow reads and writes.
#[derive(Clone, Copy, Debug)]
pub struct Take {
    /// The program that owns the escrow records.
    pub program_id: Address,
    /// The token program, which the holding addresses are derived with.
    pub token_program: Address,
    /// The associated-token program, which derives the holding addresses.
    pub associated_token_program: Address,
    /// The party that settles.
    pub taker: Address,
    /// Whether the taker signed the operation.
    pub taker_is_signer: bool,
    /// The maker named by the caller.
    pub maker: Address,
    /// The custody asset named by the caller.
    pub mint_a: Address,
    /// The counter-asset named by the caller.
    pub mint_b: Address,
    /// The address of the escrow record.
    pub escrow_key: Address,
    /// The record stored at `escrow_key`, if any.
    pub escrow: Option<Escrow>,
    /// The address of the custody account.
    pub vault_key: Address,
    /// The custody account, if it exists.
    pub vault: Option<TokenAccount>,
    /// The taker's holding of `mint_a`; created on demand.
    pub taker_ata_a: Option<TokenAccount>,
    /// The taker's holding of `mint_b`, which pays the maker.
    pub taker_ata_b: TokenAccount,
    /// The maker's holding of `mint_b`; created on demand.
    pub maker_ata_b: Option<TokenAccount>,
}

/// The first reason, in the order they are checked, for which settling `c` is
/// refused; `None` when it goes through.
pub open spec fn take_error(c: Take) -> Option<EscrowError> {
    match c.escrow {
        None => Some(EscrowError::RecordNotFound),
        Some(e) => {
            if !c.taker_is_signer {
                Some(EscrowError::NotSigner)
            } else if e.mint_a@ != c.mint_a@ || e.mint_b@ != c.mint_b@ {
                Some(EscrowError::MintMismatch)
            } else if e.maker@ != c.maker@ {
                Some(EscrowError::MakerMismatch)
            } else if !authority_matches(c.program_id@, e.maker@, e.seed, e.bump, c.escrow_key@) {
                Some(EscrowError::AuthorityMismatch)
            } else {
                match c.vault {
                    None => Some(EscrowError::AccountNotFound),
                    Some(v) => {
                        if !holds(v, c.mint_a, c.escrow_key)
                            || associated_address(c.escrow_key@, c.mint_a@, c.token_program@, c.associated_token_program@)
                                != Some(c.vault_key@)
                            || !holds(c.taker_ata_b, c.mint_b, c.taker)
                            || !slot_holds(c.taker_ata_a, c.mint_a, c.taker)
                            || !slot_holds(c.maker_ata_b, c.mint_b, c.maker) {
                            Some(EscrowError::HoldingAccountMismatch)
                        } else if c.taker_ata_b.amount < e.receive {
                            Some(EscrowError::InsufficientFunds)
                        } else if existing_or_empty(c.maker_ata_b, c.mint_b, c.maker).amount + e.receive > u64::MAX
                            || existing_or_empty(c.taker_ata_a, c.mint_a, c.taker).amount + v.amount > u64::MAX {
                            Some(EscrowError::Overflow)
                        } else {
                            None
                        }
                    },
                }
            }
        },
    }
}

/// The accounts after `c` is settled: the taker has paid `receive` of
/// `mint_b` to the maker, the whole custody balance has gone to the taker, and
/// the custody account and the record are gone.
pub open spec fn settled(c: Take) -> Take {
    let e = c.escrow.unwrap();
    let v = c.vault.unwrap();
    Take {
        escrow: None,
        vault: None,
        taker_ata_b: debited(c.taker_ata_b, e.receive as int),
        maker_ata_b: Some(credited(existing_or_empty(c.maker_ata_b, c.mint_b, c.maker), e.receive as int)),
        taker_ata_a: Some(credited(existing_or_empty(c.taker_ata_a, c.mint_a, c.taker), v.amount as int)),
        ..c
    }
}

/// The accounts after `c` is settled, or the reason it is refused.
pub open spec fn take_outcome(c: Take) -> Result<Take, EscrowError> {
    match take_error(c) {
        Some(e) => Err(e),
        None => Ok(settled(c)),
    }
}

impl Take {
    /// Retires the record, the last step of the operation.
    pub fn close_escrow(&mut self) -> (r: Result<(), EscrowError>)
        ensures
            match old(self).escrow {
                None => r == Err::<(), EscrowError>(EscrowError::RecordNotFound) && *final(self) == *old(self),
                Some(_) => r is Ok && *final(self) == (Take { escrow: None, ..*old(self) }),
            },
    {
        if self.escrow.is_none() {
            return Err(EscrowError::RecordNotFound);
        }
        self.escrow = None;
        Ok(())
    }

    /// Runs every check of settlement, in order, before anything moves.
    pub fn validate(&self) -> (r: Result<(), EscrowError>)
        ensures
            match take_error(*self) {
                Some(e) => r == Err::<(), EscrowError>(e),
                None => r is Ok,
            },
    {
        let e = match &self.escrow {
            None => { return Err(EscrowError::RecordNotFound); },
            Some(e) => e,
        };
        if !self.taker_is_signer {
            return Err(EscrowError::NotSigner);
        }
        if !same_address(&e.mint_a, &self.mint_a) || !same_address(&e.mint_b, &self.mint_b) {
            return Err(EscrowError::MintMismatch);
        }
        if !same_address(&e.maker, &self.maker) {
            return Err(EscrowError::MakerMismatch);
        }
        if !check_escrow_authority(&self.program_id, &e.maker, e.seed, e.bump, &self.escrow_key) {
            return Err(EscrowError::AuthorityMismatch);
        }
        let v = match &self.vault {
            None => { return Err(EscrowError::AccountNotFound); },
            Some(v) => v,
        };
        let taker_a_ok = match &self.taker_ata_a {
            None => true,
            Some(a) => account_holds(a, &self.mint_a, &self.taker),
        };
        let maker_b_ok = match &self.maker_ata_b {
            None => true,
            Some(a) => account_holds(a, &self.mint_b, &self.maker),
        };
        if !account_holds(v, &self.mint_a, &self.escrow_key)
            || !is_associated_address(
                &self.vault_key,
                &self.escrow_key,
                &self.mint_a,
                &self.token_program,
                &self.associated_token_program,
            )
            || !account_holds(&self.taker_ata_b, &self.mint_b, &self.taker)
            || !taker_a_ok || !maker_b_ok {
            return Err(EscrowError::HoldingAccountMismatch);
        }
        if self.taker_ata_b.amount < e.receive {
            return Err(EscrowError::InsufficientFunds);
        }
        let maker_b = existing_or_new(&self.maker_ata_b, &self.mint_b, &self.maker);
        let taker_a = existing_or_new(&self.taker_ata_a, &self.mint_a, &self.taker);
        if maker_b.amount > u64::MAX - e.receive || taker_a.amount > u64::MAX - v.amount {
            return Err(EscrowError::Overflow);
        }
        Ok(())
    }

    /// Pays the maker: moves exactly the record's `receive` of `mint_b` from
    /// the taker's holding to the maker's, creating the maker's holding when
    /// it is absent. A refused payment changes nothing.
    pub fn deposit(&mut self) -> (r: Result<(), EscrowError>)
        ensures
            match old(self).escrow {
                None => r == Err::<(), EscrowError>(EscrowError::RecordNotFound) && *final(self) == *old(self),
                Some(e) => {
                    let dest = existing_or_empty(old(self).maker_ata_b, old(self).mint_b, old(self).maker);
                    match crate::token::transfer_error(old(self).taker_ata_b, dest, e.receive) {
                        Some(err) => r == Err::<(), EscrowError>(err) && *final(self) == *old(self),
                        None => r is Ok && *final(self) == (Take {
                            taker_ata_b: debited(old(self).taker_ata_b, e.receive as int),
                            maker_ata_b: Some(credited(dest, e.receive as int)),
                            ..*old(self)
                        }),
                    }
                },
            },
    {
        let receive = match &self.escrow {
            None => { return Err(EscrowError::RecordNotFound); },
            Some(e) => e.receive,
        };
        let mut dest = existing_or_new(&self.maker_ata_b, &self.mint_b, &self.maker);
        let r = transfer(&mut self.taker_ata_b, &mut dest, receive);
        if r.is_ok() {
            self.maker_ata_b = Some(dest);
        }
        r
    }

    /// Releases custody: moves the custody account's whole balance to the
    /// taker's holding of `mint_a` (created when absent), then closes the
    /// custody account; the record stays. A refused release changes nothing.
    pub fn withdraw_and_close(&mut self) -> (r: Result<(), EscrowError>)
        ensures
            match (old(self).escrow, old(self).vault) {
                (None, _) => r == Err::<(), EscrowError>(EscrowError::RecordNotFound) && *final(self) == *old(self),
                (Some(_), None) => r == Err::<(), EscrowError>(EscrowError::AccountNotFound) && *final(self) == *old(self),
                (Some(_), Some(v)) => {
                    let dest = existing_or_empty(old(self).taker_ata_a, old(self).mint_a, old(self).taker);
                    match crate::token::transfer_error(v, dest, v.amount) {
                        Some(err) => r == Err::<(), EscrowError>(err) && *final(self) == *old(self),
                        None => r is Ok && *final(self) == (Take {
                            taker_ata_a: Some(credited(dest, v.amount as int)),
                            vault: None,
                            ..*old(self)
                        }),
                    }
                },
            },
    {
        if self.escrow.is_none() {
            return Err(EscrowError::RecordNotFound);
        }
        let mut vault = match &self.vault {
            None => { return Err(EscrowError::AccountNotFound); },
            Some(v) => *v,
        };
        let mut dest = existing_or_new(&self.taker_ata_a, &self.mint_a, &self.taker);
        let r = drain(&mut vault, &mut dest);
        if r.is_err() {
            return r;
        }
        let mut slot = Some(vault);
        let closed = close_account(&mut slot);
        if closed.is_err() {
            return closed;
        }
        self.taker_ata_a = Some(dest);
        self.vault = None;
        Ok(())
    }
}

/// Settles an escrow: checks every condition first, then pays the maker,
/// releases custody to the taker and retires the record, or refuses and
/// changes nothing.
pub fn take(ctx: &mut Take) -> (r: Result<(), EscrowError>)
    ensures
        match take_outcome(*old(ctx)) {
            Ok(next) => r is Ok && *final(ctx) == next,
            Err(e) => r == Err::<(), EscrowError>(e) && *final(ctx) == *old(ctx),
        },
{
    let checked = ctx.validate();
    if checked.is_err() {
        return checked;
    }
    let paid = ctx.deposit();
    if paid.is_err() {
        return paid;
    }
    let released = ctx.withdraw_and_close();
    if released.is_err() {
        return released;
    }
    ctx.close_escrow()
}

} // verus!
