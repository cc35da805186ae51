use vstd::prelude::*;

use crate::address::Address;

verus! {

/// What `Pubkey::try_find_program_address` returns for the given seeds and
/// program: the first off-curve address found while searching the bump seed
/// downward from 255, with that bump.
pub uninterp spec fn program_address_search(seeds: Seq<Seq<u8>>, program_id: Seq<u8>) -> Option<(Seq<u8>, u8)>;

/// What `Pubkey::create_program_address` returns for the given seeds and
/// program: the derived address, or nothing when the seeds are too long or the
/// hash lies on the curve.
pub uninterp spec fn program_address_of(seeds: Seq<Seq<u8>>, program_id: Seq<u8>) -> Option<Seq<u8>>;

/// The byte strings held by a list of seeds.
pub open spec fn seeds_view(seeds: Seq<Vec<u8>>) -> Seq<Seq<u8>> {
    seeds.map_values(|s: Vec<u8>| s@)
}

/// Relies on `Pubkey::try_find_program_address`: a function of the seeds and the
/// program alone; when it finds an address, re-creating it from the seeds with
/// the found bump appended gives that address back.
#[verifier::external_body]
fn try_find_program_address(seeds: &Vec<Vec<u8>>, program_id: &Address) -> (r: Option<(Address, u8)>)
    ensures
        match r {
            Some((a, bump)) => program_address_search(seeds_view(seeds@), program_id@) == Some((a@, bump))
                && program_address_of(seeds_view(seeds@).push(seq![bump]), program_id@) == Some(a@),
            None => program_address_search(seeds_view(seeds@), program_id@) is None,
        },
{
    let s: Vec<&[u8]> = seeds.iter().map(|x| x.as_slice()).collect();
    let program = anchor_lang::solana_program::pubkey::Pubkey::new_from_array(*program_id);
    anchor_lang::solana_program::pubkey::Pubkey::try_find_program_address(&s, &program).map(
        |(k, b)| (k.to_bytes(), b),
    )
}

/// Relies on `Pubkey::create_program_address`: a function of the seeds and the
/// program alone.
#[verifier::external_body]
fn create_program_address(seeds: &Vec<Vec<u8>>, program_id: &Address) -> (r: Option<Address>)
    ensures
        match r {
            Some(a) => program_address_of(seeds_view(seeds@), program_id@) == Some(a@),
            None => program_address_of(seeds_view(seeds@), program_id@) is None,
        },
{
    let s: Vec<&[u8]> = seeds.iter().map(|x| x.as_slice()).collect();
    let program = anchor_lang::solana_program::pubkey::Pubkey::new_from_array(*program_id);
    anchor_lang::solana_program::pubkey::Pubkey::create_program_address(&s, &program).ok().map(
        |k| k.to_bytes(),
    )
}

/// The domain tag that heads the seeds of every escrow address: the ASCII bytes
/// of `escrow`.
pub open spec fn escrow_tag() -> Seq<u8> {
    seq![101u8, 115u8, 99u8, 114u8, 111u8, 119u8]
}

/// Byte `i` of `x` in little-endian order.
pub open spec fn le_byte(x: u64, i: int) -> u8 {
    ((x >> ((8 * i) as u64)) & 0xffu64) as u8
}

/// The eight little-endian bytes of `x`.
pub open spec fn le_bytes(x: u64) -> Seq<u8> {
    Seq::new(8, |i: int| le_byte(x, i))
}

/// The seeds of the escrow address of `maker` with nonce `seed`: the domain
/// tag, the maker's identity, and the nonce in little-endian bytes.
pub open spec fn escrow_seeds_spec(maker: Seq<u8>, seed: u64) -> Seq<Seq<u8>> {
    seq![escrow_tag(), maker, le_bytes(seed)]
}

/// The escrow address of `maker` with nonce `seed` under `program_id`, with
/// its bump, when one exists.
pub open spec fn escrow_address(program_id: Seq<u8>, maker: Seq<u8>, seed: u64) -> Option<(Seq<u8>, u8)> {
    program_address_search(escrow_seeds_spec(maker, seed), program_id)
}

/// Whether the stored bump re-creates `key` as the escrow address of `maker`
/// with nonce `seed`.
pub open spec fn authority_matches(program_id: Seq<u8>, maker: Seq<u8>, seed: u64, bump: u8, key: Seq<u8>) -> bool {
    program_address_of(escrow_seeds_spec(maker, seed).push(seq![bump]), program_id) == Some(key)
}

/// The eight little-endian bytes of `x`.
pub fn u64_le_bytes(x: u64) -> (r: Vec<u8>)
    ensures
        r@ == le_bytes(x),
{
    let mut r: Vec<u8> = Vec::new();
    let mut k: u64 = 0;
    while k < 8
        invariant
            k <= 8,
            r@.len() == k,
            forall|i: int| 0 <= i < k ==> r@[i] == le_byte(x, i),
        decreases 8 - k,
    {
        r.push(((x >> (8 * k)) & 0xff) as u8);
        k = k + 1;
    }
    assert(r@ =~= le_bytes(x));
    r
}

fn escrow_seeds(maker: &Address, seed: u64) -> (r: Vec<Vec<u8>>)
    ensures
        seeds_view(r@) == escrow_seeds_spec(maker@, seed),
{
    let mut tag: Vec<u8> = Vec::new();
    tag.push(101u8);
    tag.push(115u8);
    tag.push(99u8);
    tag.push(114u8);
    tag.push(111u8);
    tag.push(119u8);
    let mut m: Vec<u8> = Vec::new();
    let mut i: usize = 0;
    while i < 32
        invariant
            i <= 32,
            maker@.len() == 32,
            m@ == maker@.subrange(0, i as int),
        decreases 32 - i,
    {
        m.push(maker[i]);
        i = i + 1;
        assert(m@ =~= maker@.subrange(0, i as int));
    }
    assert(m@ =~= maker@);
    assert(tag@ =~= escrow_tag());
    let nonce = u64_le_bytes(seed);
    let mut r: Vec<Vec<u8>> = Vec::new();
    r.push(tag);
    r.push(m);
    r.push(nonce);
    assert(r@[0]@ == escrow_tag() && r@[1]@ == maker@ && r@[2]@ == le_bytes(seed));
    assert(seeds_view(r@) =~= escrow_seeds_spec(maker@, seed));
    r
}

/// Derives the escrow address of `maker` with nonce `seed` under `program_id`,
/// and its bump; `None` when no bump gives an address off the curve.
pub fn derive_escrow_address(program_id: &Address, maker: &Address, seed: u64) -> (r: Option<(Address, u8)>)
    ensures
        match r {
            Some((a, bump)) => escrow_address(program_id@, maker@, seed) == Some((a@, bump))
                && authority_matches(program_id@, maker@, seed, bump, a@),
            None => escrow_address(program_id@, maker@, seed) is None,
        },
{
    let seeds = escrow_seeds(maker, seed);
    try_find_program_address(&seeds, program_id)
}

/// Checks that the stored bump re-creates `key` as the escrow address of
/// `maker` with nonce `seed`.
pub fn check_escrow_authority(program_id: &Address, maker: &Address, seed: u64, bump: u8, key: &Address) -> (r: bool)
    ensures
        r == authority_matches(program_id@, maker@, seed, bump, key@),
{
    let mut seeds = escrow_seeds(maker, seed);
    let mut b: Vec<u8> = Vec::new();
    b.push(bump);
    seeds.push(b);
    assert(seeds_view(seeds@) =~= escrow_seeds_spec(maker@, seed).push(seq![bump]));
    match create_program_address(&seeds, program_id) {
        Some(a) => crate::address::same_address(&a, key),
        None => false,
    }
}

/// Deriving the escrow address twice from the same program, maker and nonce
/// gives the same address and the same bump.
pub proof fn lemma_derivation_deterministic(program_id: Seq<u8>, maker: Seq<u8>, seed: u64, r1: Option<(Seq<u8>, u8)>, r2: Option<(Seq<u8>, u8)>)
    requires
        r1 == escrow_address(program_id, maker, seed),
        r2 == escrow_address(program_id, maker, seed),
    ensures
        r1 == r2,
{
}

/// The associated holding address of `wallet` for `mint`: the address that
/// the associated-token program derives from the wallet, the token program and
/// the mint, when one exists.
pub open spec fn associated_address(wallet: Seq<u8>, mint: Seq<u8>, token_program: Seq<u8>, associated_program: Seq<u8>) -> Option<Seq<u8>> {
    match program_address_search(seq![wallet, token_program, mint], associated_program) {
        Some((a, _)) => Some(a),
        None => None,
    }
}

fn address_bytes(a: &Address) -> (r: Vec<u8>)
    ensures
        r@ == a@,
{
    let mut r: Vec<u8> = Vec::new();
    let mut i: usize = 0;
    while i < 32
        invariant
            i <= 32,
            a@.len() == 32,
            r@ == a@.subrange(0, i as int),
        decreases 32 - i,
    {
        r.push(a[i]);
        i = i + 1;
        assert(r@ =~= a@.subrange(0, i as int));
    }
    assert(r@ =~= a@);
    r
}

/// Checks that `key` is the associated holding address of `wallet` for `mint`.
pub fn is_associated_address(
    key: &Address,
    wallet: &Address,
    mint: &Address,
    token_program: &Address,
    associated_program: &Address,
) -> (r: bool)
    ensures
        r == (associated_address(wallet@, mint@, token_program@, associated_program@) == Some(key@)),
{
    let mut seeds: Vec<Vec<u8>> = Vec::new();
    seeds.push(address_bytes(wallet));
    seeds.push(address_bytes(token_program));
    seeds.push(address_bytes(mint));
    assert(seeds_view(seeds@) =~= seq![wallet@, token_program@, mint@]);
    match try_find_program_address(&seeds, associated_program) {
        Some((a, _)) => crate::address::same_address(&a, key),
        None => false,
    }
}

} // verus!
