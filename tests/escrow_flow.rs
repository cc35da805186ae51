use anchor_lang::solana_program::pubkey::Pubkey;
use escrow::address::{same_address, Address};
use escrow::make::{make, Make};
use escrow::pda::{check_escrow_authority, derive_escrow_address, is_associated_address, u64_le_bytes};
use escrow::refund::{refund, Refund};
use escrow::state::{Escrow, EscrowError, TokenAccount, INIT_SPACE};
use escrow::take::{take, Take};
use escrow::token::{close_account, drain, transfer};

const PROGRAM: Address = [7u8; 32];
const MAKER: Address = [1u8; 32];
const TAKER: Address = [2u8; 32];
const MINT_X: Address = [10u8; 32];
const MINT_Y: Address = [11u8; 32];

fn token_program() -> Address {
    anchor_spl::token::ID.to_bytes()
}

fn associated_program() -> Address {
    anchor_spl::associated_token::ID.to_bytes()
}

fn associated(wallet: &Address, mint: &Address) -> Address {
    anchor_spl::associated_token::get_associated_token_address(
        &Pubkey::new_from_array(*wallet),
        &Pubkey::new_from_array(*mint),
    )
    .to_bytes()
}

fn account(mint: Address, owner: Address, amount: u64) -> TokenAccount {
    TokenAccount { mint, owner, amount }
}

fn escrow_key(seed: u64) -> Address {
    derive_escrow_address(&PROGRAM, &MAKER, seed).expect("derivable").0
}

fn make_ctx(seed: u64, maker_x: u64) -> Make {
    let key = escrow_key(seed);
    Make {
        program_id: PROGRAM,
        token_program: token_program(),
        associated_token_program: associated_program(),
        maker: MAKER,
        maker_is_signer: true,
        mint_a: MINT_X,
        mint_b: MINT_Y,
        escrow_key: key,
        escrow: None,
        maker_ata_a: account(MINT_X, MAKER, maker_x),
        vault_key: associated(&key, &MINT_X),
        vault: None,
    }
}

fn take_ctx(opened: &Make, taker_y: u64) -> Take {
    Take {
        program_id: PROGRAM,
        token_program: token_program(),
        associated_token_program: associated_program(),
        taker: TAKER,
        taker_is_signer: true,
        maker: MAKER,
        mint_a: MINT_X,
        mint_b: MINT_Y,
        escrow_key: opened.escrow_key,
        escrow: opened.escrow,
        vault_key: opened.vault_key,
        vault: opened.vault,
        taker_ata_a: None,
        taker_ata_b: account(MINT_Y, TAKER, taker_y),
        maker_ata_b: None,
    }
}

fn refund_ctx(opened: &Make) -> Refund {
    Refund {
        program_id: PROGRAM,
        token_program: token_program(),
        associated_token_program: associated_program(),
        maker: MAKER,
        maker_is_signer: true,
        mint_a: MINT_X,
        escrow_key: opened.escrow_key,
        escrow: opened.escrow,
        vault_key: opened.vault_key,
        vault: opened.vault,
        maker_ata_a: Some(opened.maker_ata_a),
    }
}

fn opened(seed: u64, maker_x: u64, deposit: u64, receive: u64) -> Make {
    let mut ctx = make_ctx(seed, maker_x);
    assert_eq!(make(&mut ctx, seed, deposit, receive), Ok(()));
    ctx
}

#[test]
fn open_then_settle_then_settle_again() {
    let mut ctx = make_ctx(1, 100);
    assert_eq!(make(&mut ctx, 1, 100, 50), Ok(()));
    let vault = ctx.vault.expect("custody account");
    assert_eq!(vault.amount, 100);
    assert_eq!(vault.mint, MINT_X);
    assert_eq!(vault.owner, ctx.escrow_key);
    let record = ctx.escrow.expect("record");
    assert_eq!(record.seed, 1);
    assert_eq!(record.receive, 50);
    assert_eq!(record.maker, MAKER);
    assert_eq!(ctx.maker_ata_a.amount, 0);

    let mut t = take_ctx(&ctx, 50);
    assert_eq!(take(&mut t), Ok(()));
    assert_eq!(t.maker_ata_b.expect("maker holding of Y").amount, 50);
    assert_eq!(t.taker_ata_a.expect("taker holding of X").amount, 100);
    assert_eq!(t.taker_ata_b.amount, 0);
    assert!(t.escrow.is_none());
    assert!(t.vault.is_none());

    let mut again = t;
    assert_eq!(take(&mut again), Err(EscrowError::RecordNotFound));
    let mut r = refund_ctx(&ctx);
    r.escrow = t.escrow;
    r.vault = t.vault;
    assert_eq!(refund(&mut r), Err(EscrowError::RecordNotFound));
}

#[test]
fn settle_with_too_little_changes_nothing() {
    let ctx = opened(1, 100, 100, 50);
    let mut t = take_ctx(&ctx, 30);
    assert_eq!(take(&mut t), Err(EscrowError::InsufficientFunds));
    assert_eq!(t.taker_ata_b.amount, 30);
    assert!(t.maker_ata_b.is_none());
    assert!(t.taker_ata_a.is_none());
    assert_eq!(t.vault.expect("custody account").amount, 100);
    let record = t.escrow.expect("record");
    assert_eq!(record.receive, 50);
    assert_eq!(record.seed, 1);
}

#[test]
fn settle_with_existing_holdings_adds_to_them() {
    let ctx = opened(3, 500, 120, 40);
    let mut t = take_ctx(&ctx, 45);
    t.taker_ata_a = Some(account(MINT_X, TAKER, 7));
    t.maker_ata_b = Some(account(MINT_Y, MAKER, 9));
    assert_eq!(take(&mut t), Ok(()));
    assert_eq!(t.taker_ata_a.unwrap().amount, 127);
    assert_eq!(t.maker_ata_b.unwrap().amount, 49);
    assert_eq!(t.taker_ata_b.amount, 5);
}

#[test]
fn settle_pays_out_live_custody_balance() {
    let ctx = opened(4, 100, 60, 10);
    let mut t = take_ctx(&ctx, 10);
    let mut v = t.vault.unwrap();
    v.amount = 75;
    t.vault = Some(v);
    assert_eq!(take(&mut t), Ok(()));
    assert_eq!(t.taker_ata_a.unwrap().amount, 75);
}

#[test]
fn settle_with_wrong_mint_is_refused() {
    let ctx = opened(1, 100, 100, 50);
    let mut t = take_ctx(&ctx, 50);
    t.mint_b = [99u8; 32];
    t.taker_ata_b = account([99u8; 32], TAKER, 50);
    assert_eq!(take(&mut t), Err(EscrowError::MintMismatch));
    assert_eq!(t.taker_ata_b.amount, 50);
    assert_eq!(t.vault.unwrap().amount, 100);

    let mut t = take_ctx(&ctx, 50);
    t.mint_a = [98u8; 32];
    assert_eq!(take(&mut t), Err(EscrowError::MintMismatch));
}

#[test]
fn settle_with_wrong_maker_is_refused() {
    let ctx = opened(1, 100, 100, 50);
    let mut t = take_ctx(&ctx, 50);
    t.maker = [5u8; 32];
    assert_eq!(take(&mut t), Err(EscrowError::MakerMismatch));
    assert!(t.escrow.is_some());
    assert_eq!(t.taker_ata_b.amount, 50);
}

#[test]
fn settle_without_signature_is_refused() {
    let ctx = opened(1, 100, 100, 50);
    let mut t = take_ctx(&ctx, 50);
    t.taker_is_signer = false;
    assert_eq!(take(&mut t), Err(EscrowError::NotSigner));
}

#[test]
fn settle_at_wrong_address_is_refused() {
    let ctx = opened(1, 100, 100, 50);
    let mut t = take_ctx(&ctx, 50);
    t.escrow_key = escrow_key(2);
    assert_eq!(take(&mut t), Err(EscrowError::AuthorityMismatch));
}

#[test]
fn settle_with_foreign_holding_is_refused() {
    let ctx = opened(1, 100, 100, 50);
    let mut t = take_ctx(&ctx, 50);
    t.maker_ata_b = Some(account(MINT_Y, TAKER, 0));
    assert_eq!(take(&mut t), Err(EscrowError::HoldingAccountMismatch));
}

#[test]
fn settle_without_custody_account_is_refused() {
    let ctx = opened(1, 100, 100, 50);
    let mut t = take_ctx(&ctx, 50);
    t.vault = None;
    assert_eq!(take(&mut t), Err(EscrowError::AccountNotFound));
}

#[test]
fn settle_that_would_overflow_is_refused() {
    let ctx = opened(1, 100, 100, 50);
    let mut t = take_ctx(&ctx, 50);
    t.maker_ata_b = Some(account(MINT_Y, MAKER, u64::MAX - 10));
    assert_eq!(take(&mut t), Err(EscrowError::Overflow));
    assert_eq!(t.taker_ata_b.amount, 50);
}

#[test]
fn open_with_too_little_is_refused() {
    let mut ctx = make_ctx(1, 99);
    assert_eq!(make(&mut ctx, 1, 100, 50), Err(EscrowError::InsufficientFunds));
    assert!(ctx.escrow.is_none());
    assert!(ctx.vault.is_none());
    assert_eq!(ctx.maker_ata_a.amount, 99);
}

#[test]
fn open_on_occupied_slot_is_refused() {
    let mut ctx = opened(1, 300, 100, 50);
    assert_eq!(make(&mut ctx, 1, 100, 50), Err(EscrowError::AlreadyInUse));
    assert_eq!(ctx.maker_ata_a.amount, 200);
}

#[test]
fn open_without_signature_is_refused() {
    let mut ctx = make_ctx(1, 100);
    ctx.maker_is_signer = false;
    assert_eq!(make(&mut ctx, 1, 100, 50), Err(EscrowError::NotSigner));
}

#[test]
fn open_at_address_of_other_nonce_is_refused() {
    let mut ctx = make_ctx(1, 100);
    assert_eq!(make(&mut ctx, 2, 100, 50), Err(EscrowError::AuthorityMismatch));
}

#[test]
fn open_from_foreign_holding_is_refused() {
    let mut ctx = make_ctx(1, 100);
    ctx.maker_ata_a = account(MINT_Y, MAKER, 100);
    assert_eq!(make(&mut ctx, 1, 100, 50), Err(EscrowError::HoldingAccountMismatch));
}

#[test]
fn open_with_zero_deposit() {
    let ctx = opened(8, 0, 0, 5);
    assert_eq!(ctx.vault.unwrap().amount, 0);
    assert_eq!(ctx.maker_ata_a.amount, 0);
}

#[test]
fn reclaim_returns_custody_to_maker() {
    let ctx = opened(1, 130, 100, 50);
    let mut r = refund_ctx(&ctx);
    assert_eq!(refund(&mut r), Ok(()));
    assert_eq!(r.maker_ata_a.unwrap().amount, 130);
    assert!(r.escrow.is_none());
    assert!(r.vault.is_none());
    let mut again = r;
    assert_eq!(refund(&mut again), Err(EscrowError::RecordNotFound));
    let mut t = take_ctx(&ctx, 50);
    t.escrow = r.escrow;
    t.vault = r.vault;
    assert_eq!(take(&mut t), Err(EscrowError::RecordNotFound));
}

#[test]
fn reclaim_by_non_maker_is_refused() {
    let ctx = opened(1, 100, 100, 50);
    let mut r = refund_ctx(&ctx);
    r.maker_is_signer = false;
    assert_eq!(refund(&mut r), Err(EscrowError::NotSigner));
    let mut r = refund_ctx(&ctx);
    r.maker = TAKER;
    r.maker_ata_a = None;
    assert_eq!(refund(&mut r), Err(EscrowError::MakerMismatch));
    assert_eq!(r.vault.unwrap().amount, 100);
}

#[test]
fn derivation_is_deterministic() {
    let a = derive_escrow_address(&PROGRAM, &MAKER, 42);
    let b = derive_escrow_address(&PROGRAM, &MAKER, 42);
    assert_eq!(a, b);
    assert!(a.is_some());
    let c = derive_escrow_address(&PROGRAM, &MAKER, 43);
    assert_ne!(a.unwrap().0, c.unwrap().0);
    let d = derive_escrow_address(&PROGRAM, &TAKER, 42);
    assert_ne!(a.unwrap().0, d.unwrap().0);
}

#[test]
fn derivation_uses_tag_maker_and_little_endian_nonce() {
    let seed: u64 = 0x0102_0304_0506_0708;
    let program = Pubkey::new_from_array(PROGRAM);
    let (expected, bump) =
        Pubkey::find_program_address(&[b"escrow", MAKER.as_ref(), &seed.to_le_bytes()], &program);
    let (key, found) = derive_escrow_address(&PROGRAM, &MAKER, seed).unwrap();
    assert_eq!(key, expected.to_bytes());
    assert_eq!(found, bump);
}

#[test]
fn stored_bump_reproduces_the_address() {
    let (key, bump) = derive_escrow_address(&PROGRAM, &MAKER, 9).unwrap();
    assert!(check_escrow_authority(&PROGRAM, &MAKER, 9, bump, &key));
    assert!(!check_escrow_authority(&PROGRAM, &MAKER, 10, bump, &key));
    assert!(!check_escrow_authority(&PROGRAM, &TAKER, 9, bump, &key));
    assert!(!check_escrow_authority(&PROGRAM, &MAKER, 9, bump, &[0u8; 32]));
}

#[test]
fn nonce_bytes_are_little_endian() {
    assert_eq!(u64_le_bytes(1), vec![1, 0, 0, 0, 0, 0, 0, 0]);
    assert_eq!(u64_le_bytes(0x0102_0304_0506_0708), vec![8, 7, 6, 5, 4, 3, 2, 1]);
    assert_eq!(u64_le_bytes(u64::MAX), vec![255; 8]);
}

#[test]
fn addresses_compare_bytewise() {
    assert!(same_address(&MAKER, &[1u8; 32]));
    let mut other = MAKER;
    other[31] = 0;
    assert!(!same_address(&MAKER, &other));
}

#[test]
fn transfer_moves_exact_amount() {
    let mut from = account(MINT_X, MAKER, 10);
    let mut to = account(MINT_X, TAKER, 5);
    assert_eq!(transfer(&mut from, &mut to, 4), Ok(()));
    assert_eq!((from.amount, to.amount), (6, 9));
    assert_eq!(transfer(&mut from, &mut to, 7), Err(EscrowError::InsufficientFunds));
    assert_eq!((from.amount, to.amount), (6, 9));
    let mut other = account(MINT_Y, TAKER, 0);
    assert_eq!(transfer(&mut from, &mut other, 1), Err(EscrowError::MintMismatch));
    let mut full = account(MINT_X, TAKER, u64::MAX);
    assert_eq!(transfer(&mut from, &mut full, 1), Err(EscrowError::Overflow));
    assert_eq!(from.amount, 6);
}

#[test]
fn drain_then_close() {
    let mut vault = account(MINT_X, [3u8; 32], 25);
    let mut dest = account(MINT_X, TAKER, 1);
    let mut slot = Some(vault);
    assert_eq!(close_account(&mut slot), Err(EscrowError::NonZeroBalance));
    assert!(slot.is_some());
    assert_eq!(drain(&mut vault, &mut dest), Ok(()));
    assert_eq!((vault.amount, dest.amount), (0, 26));
    let mut slot = Some(vault);
    assert_eq!(close_account(&mut slot), Ok(()));
    assert!(slot.is_none());
    assert_eq!(close_account(&mut slot), Err(EscrowError::AccountNotFound));
}

#[test]
fn record_space() {
    assert_eq!(INIT_SPACE, 121);
}

#[test]
fn record_bytes_round_trip() {
    let ctx = opened(0x0102_0304_0506_0708, 100, 100, 50);
    let record = ctx.escrow.unwrap();
    let bytes = record.to_bytes();
    assert_eq!(bytes.len(), INIT_SPACE);
    let disc = anchor_lang::solana_program::hash::hash(b"account:Escrow").to_bytes();
    assert_eq!(&bytes[..8], &disc[..8]);
    assert_eq!(&bytes[8..16], &[8, 7, 6, 5, 4, 3, 2, 1]);
    assert_eq!(&bytes[16..48], &MAKER);
    assert_eq!(&bytes[48..80], &MINT_X);
    assert_eq!(&bytes[80..112], &MINT_Y);
    assert_eq!(&bytes[112..120], &[50, 0, 0, 0, 0, 0, 0, 0]);
    assert_eq!(bytes[120], record.bump);
    let back = Escrow::from_bytes(&bytes).unwrap();
    assert_eq!(back.seed, record.seed);
    assert_eq!(back.maker, record.maker);
    assert_eq!(back.mint_a, record.mint_a);
    assert_eq!(back.mint_b, record.mint_b);
    assert_eq!(back.receive, record.receive);
    assert_eq!(back.bump, record.bump);
}

#[test]
fn record_bytes_rejected() {
    let record = opened(1, 100, 100, 50).escrow.unwrap();
    let mut bytes = record.to_bytes();
    bytes[0] ^= 1;
    assert!(Escrow::from_bytes(&bytes).is_none());
    let mut short = record.to_bytes();
    short.pop();
    assert!(Escrow::from_bytes(&short).is_none());
    assert!(Escrow::from_bytes(&Vec::new()).is_none());
}

#[test]
fn open_and_settle_largest_amounts() {
    let ctx = opened(5, u64::MAX, u64::MAX, u64::MAX);
    assert_eq!(ctx.vault.unwrap().amount, u64::MAX);
    let mut t = take_ctx(&ctx, u64::MAX);
    assert_eq!(take(&mut t), Ok(()));
    assert_eq!(t.taker_ata_a.unwrap().amount, u64::MAX);
    assert_eq!(t.maker_ata_b.unwrap().amount, u64::MAX);
    assert_eq!(t.taker_ata_b.amount, 0);
}

#[test]
fn settle_asking_nothing() {
    let ctx = opened(6, 10, 10, 0);
    let mut t = take_ctx(&ctx, 0);
    assert_eq!(take(&mut t), Ok(()));
    assert_eq!(t.maker_ata_b.unwrap().amount, 0);
    assert_eq!(t.taker_ata_a.unwrap().amount, 10);
    assert!(t.escrow.is_none());
}

#[test]
fn one_maker_holds_escrows_under_two_nonces() {
    let first = opened(1, 100, 40, 5);
    let mut second = make_ctx(2, first.maker_ata_a.amount);
    assert_eq!(make(&mut second, 2, 60, 7), Ok(()));
    assert_ne!(first.escrow_key, second.escrow_key);
    assert_eq!(second.maker_ata_a.amount, 0);
    let mut t = take_ctx(&first, 5);
    assert_eq!(take(&mut t), Ok(()));
    let mut t2 = take_ctx(&second, 7);
    assert_eq!(take(&mut t2), Ok(()));
    assert_eq!(t2.taker_ata_a.unwrap().amount, 60);
}

#[test]
fn settle_with_other_custody_address_is_refused() {
    let ctx = opened(1, 100, 100, 50);
    let mut t = take_ctx(&ctx, 50);
    t.vault_key = [44u8; 32];
    assert_eq!(take(&mut t), Err(EscrowError::HoldingAccountMismatch));
    assert!(t.escrow.is_some());
    assert_eq!(t.vault.unwrap().amount, 100);
    let mut r = refund_ctx(&ctx);
    r.vault_key = [44u8; 32];
    assert_eq!(refund(&mut r), Err(EscrowError::HoldingAccountMismatch));
    assert!(r.escrow.is_some());
}

#[test]
fn open_with_other_custody_address_is_refused() {
    let mut ctx = make_ctx(1, 100);
    ctx.vault_key = associated(&MAKER, &MINT_X);
    assert_eq!(make(&mut ctx, 1, 100, 50), Err(EscrowError::HoldingAccountMismatch));
    assert!(ctx.escrow.is_none());
    assert_eq!(ctx.maker_ata_a.amount, 100);
}

#[test]
fn associated_address_matches_token_programs() {
    let key = escrow_key(3);
    let expected = associated(&key, &MINT_X);
    assert!(is_associated_address(&expected, &key, &MINT_X, &token_program(), &associated_program()));
    assert!(!is_associated_address(&expected, &key, &MINT_Y, &token_program(), &associated_program()));
    assert!(!is_associated_address(&key, &key, &MINT_X, &token_program(), &associated_program()));
}

#[test]
fn settle_steps_one_at_a_time() {
    let ctx = opened(2, 100, 100, 50);
    let mut t = take_ctx(&ctx, 60);
    assert_eq!(t.deposit(), Ok(()));
    assert_eq!(t.taker_ata_b.amount, 10);
    assert_eq!(t.maker_ata_b.unwrap().amount, 50);
    assert_eq!(t.vault.unwrap().amount, 100);
    assert_eq!(t.withdraw_and_close(), Ok(()));
    assert_eq!(t.taker_ata_a.unwrap().amount, 100);
    assert!(t.vault.is_none());
    assert_eq!(t.escrow.unwrap().receive, 50);
    assert_eq!(t.close_escrow(), Ok(()));
    assert!(t.escrow.is_none());
    assert_eq!(t.close_escrow(), Err(EscrowError::RecordNotFound));
}

#[test]
fn reclaim_steps_one_at_a_time() {
    let ctx = opened(2, 100, 70, 50);
    let mut r = refund_ctx(&ctx);
    assert_eq!(r.withdraw_and_close(), Ok(()));
    assert_eq!(r.maker_ata_a.unwrap().amount, 100);
    assert!(r.vault.is_none());
    assert!(r.escrow.is_some());
    assert_eq!(r.close_escrow(), Ok(()));
    assert!(r.escrow.is_none());
}
