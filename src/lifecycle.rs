use vstd::prelude::*;

use crate::make::{make_outcome, Make};
use crate::refund::{refund_outcome, Refund};
use crate::pda::authority_matches;
use crate::state::{credited, existing_or_empty, holds, EscrowError};
use crate::take::{take_outcome, Take};

verus! {

/// The accounts after a settlement attempt on `c`: the settled accounts, or
/// `c` itself when the attempt is refused.
pub open spec fn after_take(c: Take) -> Take {
    match take_outcome(c) {
        Ok(next) => next,
        Err(_) => c,
    }
}

/// Whether the maker's holding of `mint_b` in `after` is the one in `before`
/// plus the record's `receive`.
pub open spec fn maker_paid(before: Take, after: Take) -> bool {
    after.maker_ata_b == Some(credited(
        existing_or_empty(before.maker_ata_b, before.mint_b, before.maker),
        before.escrow.unwrap().receive as int,
    ))
}

/// Whether the taker's holding of `mint_a` in `after` is the one in `before`
/// plus the whole custody balance of `before`.
pub open spec fn taker_released(before: Take, after: Take) -> bool {
    after.taker_ata_a == Some(credited(
        existing_or_empty(before.taker_ata_a, before.mint_a, before.taker),
        before.vault.unwrap().amount as int,
    ))
}

/// A settlement attempt either pays the maker and releases custody to the
/// taker, both, or leaves every account as it was: never one transfer alone.
pub proof fn lemma_settle_all_or_nothing(c: Take)
    ensures
        (maker_paid(c, after_take(c)) && taker_released(c, after_take(c))) || after_take(c) == c,
        take_outcome(c) is Ok ==> maker_paid(c, after_take(c)) && taker_released(c, after_take(c)),
{
}

/// Once an escrow is settled, a second settlement or a reclaim against the
/// same record slot fails because the record no longer exists.
pub proof fn lemma_no_double_settlement(first: Take, again: Take, reclaim: Refund)
    requires
        take_outcome(first) is Ok,
        again.escrow_key == first.escrow_key,
        again.escrow == take_outcome(first).unwrap().escrow,
        reclaim.escrow_key == first.escrow_key,
        reclaim.escrow == take_outcome(first).unwrap().escrow,
    ensures
        take_outcome(again) == Err::<Take, EscrowError>(EscrowError::RecordNotFound),
        refund_outcome(reclaim) == Err::<Refund, EscrowError>(EscrowError::RecordNotFound),
{
}

/// Once an escrow is reclaimed, a settlement or a second reclaim against the
/// same record slot fails because the record no longer exists.
pub proof fn lemma_no_settlement_after_reclaim(first: Refund, again: Refund, settle: Take)
    requires
        refund_outcome(first) is Ok,
        again.escrow_key == first.escrow_key,
        again.escrow == refund_outcome(first).unwrap().escrow,
        settle.escrow_key == first.escrow_key,
        settle.escrow == refund_outcome(first).unwrap().escrow,
    ensures
        refund_outcome(again) == Err::<Refund, EscrowError>(EscrowError::RecordNotFound),
        take_outcome(settle) == Err::<Take, EscrowError>(EscrowError::RecordNotFound),
{
}

/// Opening takes exactly `deposit` from the maker's holding of `mint_a`, and
/// the new custody account holds exactly that.
pub proof fn lemma_open_conserves(c: Make, seed: u64, deposit: u64, receive: u64)
    requires
        make_outcome(c, seed, deposit, receive) is Ok,
    ensures
        make_outcome(c, seed, deposit, receive).unwrap().maker_ata_a.amount == c.maker_ata_a.amount - deposit,
        make_outcome(c, seed, deposit, receive).unwrap().vault.unwrap().amount == deposit,
{
}

/// Settling takes exactly `receive` from the taker's holding of `mint_b` and
/// gives it to the maker's, and gives the taker's holding of `mint_a` exactly
/// the custody balance held at settlement.
pub proof fn lemma_settle_conserves(c: Take)
    requires
        take_outcome(c) is Ok,
    ensures
        take_outcome(c).unwrap().taker_ata_b.amount == c.taker_ata_b.amount - c.escrow.unwrap().receive,
        take_outcome(c).unwrap().maker_ata_b.unwrap().amount
            == existing_or_empty(c.maker_ata_b, c.mint_b, c.maker).amount + c.escrow.unwrap().receive,
        take_outcome(c).unwrap().taker_ata_a.unwrap().amount
            == existing_or_empty(c.taker_ata_a, c.mint_a, c.taker).amount + c.vault.unwrap().amount,
{
}

/// Reclaiming gives the maker's holding of `mint_a` exactly the custody
/// balance held at that time.
pub proof fn lemma_reclaim_conserves(c: Refund)
    requires
        refund_outcome(c) is Ok,
    ensures
        refund_outcome(c).unwrap().maker_ata_a.unwrap().amount
            == existing_or_empty(c.maker_ata_a, c.mint_a, c.maker).amount + c.vault.unwrap().amount,
{
}

/// Settling with an asset or a maker that differs from the stored record is
/// refused, so nothing moves; for a signed attempt the refusal names the
/// mismatch.
pub proof fn lemma_settle_requires_matching_fields(c: Take)
    requires
        c.escrow is Some,
        c.escrow.unwrap().mint_a@ != c.mint_a@ || c.escrow.unwrap().mint_b@ != c.mint_b@
            || c.escrow.unwrap().maker@ != c.maker@,
    ensures
        take_outcome(c) is Err,
        after_take(c) == c,
        c.taker_is_signer ==> (take_outcome(c) == Err::<Take, EscrowError>(EscrowError::MintMismatch)
            || take_outcome(c) == Err::<Take, EscrowError>(EscrowError::MakerMismatch)),
{
}

/// An escrow just opened can be settled: a signing taker who names the
/// record's maker and assets and holds at least `receive` of `mint_b` succeeds
/// on the accounts that opening left, when neither side's new holding exists
/// yet. Opening guarantees the authority premise.
pub proof fn lemma_opened_escrow_settles(c: Make, seed: u64, deposit: u64, receive: u64, t: Take)
    requires
        make_outcome(c, seed, deposit, receive) is Ok,
        authority_matches(
            c.program_id@,
            c.maker@,
            seed,
            make_outcome(c, seed, deposit, receive).unwrap().escrow.unwrap().bump,
            c.escrow_key@,
        ),
        t.program_id == c.program_id,
        t.token_program == c.token_program,
        t.associated_token_program == c.associated_token_program,
        t.escrow_key == c.escrow_key,
        t.vault_key == c.vault_key,
        t.escrow == make_outcome(c, seed, deposit, receive).unwrap().escrow,
        t.vault == make_outcome(c, seed, deposit, receive).unwrap().vault,
        t.maker@ == c.maker@,
        t.mint_a@ == c.mint_a@,
        t.mint_b@ == c.mint_b@,
        t.taker_is_signer,
        holds(t.taker_ata_b, t.mint_b, t.taker),
        t.taker_ata_b.amount >= receive,
        t.taker_ata_a is None,
        t.maker_ata_b is None,
    ensures
        take_outcome(t) is Ok,
{
}

/// Two successful openings by the same maker with the same nonce, under the
/// same program, store their records at the same address with the same bump.
pub proof fn lemma_open_derivation_deterministic(
    c1: Make,
    c2: Make,
    seed: u64,
    deposit1: u64,
    deposit2: u64,
    receive1: u64,
    receive2: u64,
)
    requires
        make_outcome(c1, seed, deposit1, receive1) is Ok,
        make_outcome(c2, seed, deposit2, receive2) is Ok,
        c1.program_id@ == c2.program_id@,
        c1.maker@ == c2.maker@,
    ensures
        c1.escrow_key@ == c2.escrow_key@,
        make_outcome(c1, seed, deposit1, receive1).unwrap().escrow.unwrap().bump
            == make_outcome(c2, seed, deposit2, receive2).unwrap().escrow.unwrap().bump,
{
}

} // verus!
