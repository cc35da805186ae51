use vstd::prelude::*;

use crate::address::Address;
use crate::pda::{le_byte, le_bytes, u64_le_bytes};
use crate::state::Escrow;

verus! {

/// What `solana_program::hash::hash` returns: the SHA-256 digest of the bytes.
pub uninterp spec fn sha256_of(data: Seq<u8>) -> Seq<u8>;

/// Relies on `solana_program::hash::hash`: the SHA-256 digest, 32 bytes, a
/// function of the bytes alone.
#[verifier::external_body]
fn sha256(data: &Vec<u8>) -> (r: [u8; 32])
    ensures
        r@ == sha256_of(data@),
{
    anchor_lang::solana_program::hash::hash(data.as_slice()).to_bytes()
}

/// The ASCII bytes of `account:Escrow`, the name that the record's
/// discriminator is hashed from.
pub open spec fn discriminator_preimage() -> Seq<u8> {
    seq![97u8, 99u8, 99u8, 111u8, 117u8, 110u8, 116u8, 58u8, 69u8, 115u8, 99u8, 114u8, 111u8, 119u8]
}

/// The eight bytes that head a stored escrow record: the first eight bytes of
/// the digest of its preimage.
pub open spec fn discriminator() -> Seq<u8> {
    sha256_of(discriminator_preimage()).subrange(0, 8)
}

/// The fields of a record as stored after the discriminator: the nonce, the
/// maker, the two assets, the amount to receive (integers in little-endian
/// order) and the bump.
pub open spec fn record_body(e: Escrow) -> Seq<u8> {
    le_bytes(e.seed) + e.maker@ + e.mint_a@ + e.mint_b@ + le_bytes(e.receive) + seq![e.bump]
}

/// A record as stored: the discriminator, then its fields.
pub open spec fn record_bytes(e: Escrow) -> Seq<u8> {
    discriminator() + record_body(e)
}

/// The record's eight-byte discriminator.
pub fn record_discriminator() -> (r: Vec<u8>)
    ensures
        r@ == discriminator(),
        r@.len() == 8,
{
    let mut pre: Vec<u8> = Vec::new();
    pre.push(97u8);
    pre.push(99u8);
    pre.push(99u8);
    pre.push(111u8);
    pre.push(117u8);
    pre.push(110u8);
    pre.push(116u8);
    pre.push(58u8);
    pre.push(69u8);
    pre.push(115u8);
    pre.push(99u8);
    pre.push(114u8);
    pre.push(111u8);
    pre.push(119u8);
    assert(pre@ =~= discriminator_preimage());
    let digest = sha256(&pre);
    let mut r: Vec<u8> = Vec::new();
    let mut i: usize = 0;
    while i < 8
        invariant
            i <= 8,
            digest@ == sha256_of(discriminator_preimage()),
            digest@.len() == 32,
            r@ == digest@.subrange(0, i as int),
        decreases 8 - i,
    {
        r.push(digest[i]);
        i = i + 1;
        assert(r@ =~= digest@.subrange(0, i as int));
    }
    r
}

fn push_address(out: &mut Vec<u8>, a: &Address)
    ensures
        final(out)@ == old(out)@ + a@,
{
    let mut i: usize = 0;
    while i < 32
        invariant
            i <= 32,
            a@.len() == 32,
            out@ == old(out)@ + a@.subrange(0, i as int),
        decreases 32 - i,
    {
        out.push(a[i]);
        i = i + 1;
        assert(out@ =~= old(out)@ + a@.subrange(0, i as int));
    }
    assert(a@.subrange(0, 32) =~= a@);
}

fn push_bytes(out: &mut Vec<u8>, b: &Vec<u8>)
    ensures
        final(out)@ == old(out)@ + b@,
{
    let mut i: usize = 0;
    while i < b.len()
        invariant
            i <= b@.len(),
            out@ == old(out)@ + b@.subrange(0, i as int),
        decreases b@.len() - i,
    {
        out.push(b[i]);
        i = i + 1;
        assert(out@ =~= old(out)@ + b@.subrange(0, i as int));
    }
    assert(b@.subrange(0, b@.len() as int) =~= b@);
}

/// The integer whose little-endian bytes are `b[start..start + 8]`.
fn u64_from_le(b: &Vec<u8>, start: usize) -> (r: u64)
    requires
        start + 8 <= b@.len(),
        b@.len() == 121,
    ensures
        le_bytes(r) == b@.subrange(start as int, start + 8),
{
    let b0 = b[start] as u64;
    let b1 = b[start + 1] as u64;
    let b2 = b[start + 2] as u64;
    let b3 = b[start + 3] as u64;
    let b4 = b[start + 4] as u64;
    let b5 = b[start + 5] as u64;
    let b6 = b[start + 6] as u64;
    let b7 = b[start + 7] as u64;
    let r = b0 | (b1 << 8u64) | (b2 << 16u64) | (b3 << 24u64) | (b4 << 32u64) | (b5 << 40u64) | (b6 << 48u64) | (b7 << 56u64);
    assert(
        (r & 0xff) == b0 && ((r >> 8u64) & 0xff) == b1 && ((r >> 16u64) & 0xff) == b2 && ((r >> 24u64) & 0xff) == b3
        && ((r >> 32u64) & 0xff) == b4 && ((r >> 40u64) & 0xff) == b5 && ((r >> 48u64) & 0xff) == b6
        && ((r >> 56u64) & 0xff) == b7
    ) by (bit_vector)
        requires
            b0 < 256 && b1 < 256 && b2 < 256 && b3 < 256 && b4 < 256 && b5 < 256 && b6 < 256 && b7 < 256,
            r == b0 | (b1 << 8u64) | (b2 << 16u64) | (b3 << 24u64) | (b4 << 32u64) | (b5 << 40u64) | (b6 << 48u64) | (b7 << 56u64),
    ;
    assert(r >> 0u64 == r) by (bit_vector);
    assert(le_byte(r, 0) == b@[start as int]);
    assert(le_byte(r, 1) == b@[start + 1]);
    assert(le_byte(r, 2) == b@[start + 2]);
    assert(le_byte(r, 3) == b@[start + 3]);
    assert(le_byte(r, 4) == b@[start + 4]);
    assert(le_byte(r, 5) == b@[start + 5]);
    assert(le_byte(r, 6) == b@[start + 6]);
    assert(le_byte(r, 7) == b@[start + 7]);
    assert(le_bytes(r) =~= b@.subrange(start as int, start + 8));
    r
}

/// The identity held in `b[start..start + 32]`.
fn address_at(b: &Vec<u8>, start: usize) -> (r: Address)
    requires
        start + 32 <= b@.len(),
        b@.len() == 121,
    ensures
        r@ == b@.subrange(start as int, start + 32),
{
    let mut a: Address = [0u8; 32];
    let mut i: usize = 0;
    while i < 32
        invariant
            i <= 32,
            start + 32 <= b@.len(),
            b@.len() == 121,
            a@.len() == 32,
            forall|j: int| 0 <= j < i ==> a@[j] == b@[start + j],
        decreases 32 - i,
    {
        a[i] = b[start + i];
        i = i + 1;
    }
    assert(a@ =~= b@.subrange(start as int, start + 32));
    a
}

proof fn lemma_le_byte_eq(x: u64, y: u64, k: u64)
    requires
        k < 8,
        le_bytes(x)[k as int] == le_bytes(y)[k as int],
    ensures
        ((x >> (8 * k)) & 0xffu64) == ((y >> (8 * k)) & 0xffu64),
{
    assert(((8 * (k as int)) as u64) == 8 * k);
    let a = (x >> (8 * k)) & 0xffu64;
    let b = (y >> (8 * k)) & 0xffu64;
    assert(a < 256 && b < 256) by (bit_vector)
        requires
            a == (x >> (8 * k)) & 0xffu64,
            b == (y >> (8 * k)) & 0xffu64,
    ;
    assert(le_byte(x, k as int) == a as u8);
    assert(le_byte(y, k as int) == b as u8);
}

/// Equal little-endian bytes come from equal integers.
proof fn lemma_le_bytes_injective(x: u64, y: u64)
    requires
        le_bytes(x) == le_bytes(y),
    ensures
        x == y,
{
    assert(le_bytes(x)[0] == le_bytes(y)[0] && le_bytes(x)[1] == le_bytes(y)[1]);
    assert(le_bytes(x)[2] == le_bytes(y)[2] && le_bytes(x)[3] == le_bytes(y)[3]);
    assert(le_bytes(x)[4] == le_bytes(y)[4] && le_bytes(x)[5] == le_bytes(y)[5]);
    assert(le_bytes(x)[6] == le_bytes(y)[6] && le_bytes(x)[7] == le_bytes(y)[7]);
    assert(x >> 0u64 == x && y >> 0u64 == y) by (bit_vector);
    let k0: u64 = 0;
    let k1: u64 = 1;
    let k2: u64 = 2;
    let k3: u64 = 3;
    let k4: u64 = 4;
    let k5: u64 = 5;
    let k6: u64 = 6;
    let k7: u64 = 7;
    lemma_le_byte_eq(x, y, k0);
    lemma_le_byte_eq(x, y, k1);
    lemma_le_byte_eq(x, y, k2);
    lemma_le_byte_eq(x, y, k3);
    lemma_le_byte_eq(x, y, k4);
    lemma_le_byte_eq(x, y, k5);
    lemma_le_byte_eq(x, y, k6);
    lemma_le_byte_eq(x, y, k7);
    assert(((x >> (8 * k0)) & 0xffu64) == ((y >> (8 * k0)) & 0xffu64));
    assert(((x >> (8 * k1)) & 0xffu64) == ((y >> (8 * k1)) & 0xffu64));
    assert(((x >> (8 * k2)) & 0xffu64) == ((y >> (8 * k2)) & 0xffu64));
    assert(((x >> (8 * k3)) & 0xffu64) == ((y >> (8 * k3)) & 0xffu64));
    assert(((x >> (8 * k4)) & 0xffu64) == ((y >> (8 * k4)) & 0xffu64));
    assert(((x >> (8 * k5)) & 0xffu64) == ((y >> (8 * k5)) & 0xffu64));
    assert(((x >> (8 * k6)) & 0xffu64) == ((y >> (8 * k6)) & 0xffu64));
    assert(((x >> (8 * k7)) & 0xffu64) == ((y >> (8 * k7)) & 0xffu64));
    assert(x == y) by (bit_vector)
        requires
            (x & 0xffu64) == (y & 0xffu64),
            ((x >> 8u64) & 0xffu64) == ((y >> 8u64) & 0xffu64),
            ((x >> 16u64) & 0xffu64) == ((y >> 16u64) & 0xffu64),
            ((x >> 24u64) & 0xffu64) == ((y >> 24u64) & 0xffu64),
            ((x >> 32u64) & 0xffu64) == ((y >> 32u64) & 0xffu64),
            ((x >> 40u64) & 0xffu64) == ((y >> 40u64) & 0xffu64),
            ((x >> 48u64) & 0xffu64) == ((y >> 48u64) & 0xffu64),
            ((x >> 56u64) & 0xffu64) == ((y >> 56u64) & 0xffu64),
    ;
}

/// Whether two records hold the same fields.
pub open spec fn same_record(e1: Escrow, e2: Escrow) -> bool {
    e1.seed == e2.seed && e1.maker@ == e2.maker@ && e1.mint_a@ == e2.mint_a@ && e1.mint_b@ == e2.mint_b@
        && e1.receive == e2.receive && e1.bump == e2.bump
}

/// Two records with the same stored bytes hold the same fields: reading back
/// what was written gives the record that was written.
pub proof fn lemma_record_bytes_injective(e1: Escrow, e2: Escrow)
    requires
        record_bytes(e1) == record_bytes(e2),
    ensures
        same_record(e1, e2),
{
    let d = discriminator();
    assert(record_bytes(e1).subrange(d.len() as int, record_bytes(e1).len() as int) =~= record_body(e1));
    assert(record_bytes(e2).subrange(d.len() as int, record_bytes(e2).len() as int) =~= record_body(e2));
    let b1 = record_body(e1);
    let b2 = record_body(e2);
    assert(b1 == b2);
    assert(b1.subrange(0, 8) =~= le_bytes(e1.seed));
    assert(b2.subrange(0, 8) =~= le_bytes(e2.seed));
    assert(b1.subrange(8, 40) =~= e1.maker@);
    assert(b2.subrange(8, 40) =~= e2.maker@);
    assert(b1.subrange(40, 72) =~= e1.mint_a@);
    assert(b2.subrange(40, 72) =~= e2.mint_a@);
    assert(b1.subrange(72, 104) =~= e1.mint_b@);
    assert(b2.subrange(72, 104) =~= e2.mint_b@);
    assert(b1.subrange(104, 112) =~= le_bytes(e1.receive));
    assert(b2.subrange(104, 112) =~= le_bytes(e2.receive));
    assert(b1[112] == e1.bump);
    assert(b2[112] == e2.bump);
    lemma_le_bytes_injective(e1.seed, e2.seed);
    lemma_le_bytes_injective(e1.receive, e2.receive);
}

impl Escrow {
    /// The record as stored: discriminator, then fields.
    pub fn to_bytes(&self) -> (r: Vec<u8>)
        ensures
            r@ == record_bytes(*self),
    {
        let mut out = record_discriminator();
        let seed = u64_le_bytes(self.seed);
        push_bytes(&mut out, &seed);
        push_address(&mut out, &self.maker);
        push_address(&mut out, &self.mint_a);
        push_address(&mut out, &self.mint_b);
        let receive = u64_le_bytes(self.receive);
        push_bytes(&mut out, &receive);
        out.push(self.bump);
        assert(out@ =~= record_bytes(*self));
        out
    }


    /// Reads a stored record: `Some` exactly when `b` has the record's length
    /// and starts with its discriminator; the fields are then the ones whose
    /// stored bytes `b` is.
    pub fn from_bytes(b: &Vec<u8>) -> (r: Option<Escrow>)
        ensures
            r is Some <==> (b@.len() == 121 && b@.subrange(0, 8) == discriminator()),
            r matches Some(e) ==> record_bytes(e) == b@,
    {
        if b.len() != 121 {
            return None;
        }
        let d = record_discriminator();
        let mut i: usize = 0;
        while i < 8
            invariant
                i <= 8,
                b@.len() == 121,
                d@ == discriminator(),
                d@.len() == 8,
                forall|j: int| 0 <= j < i ==> d@[j] == b@[j],
            decreases 8 - i,
        {
            if d[i] != b[i] {
                proof {
                    assert(b@.subrange(0, 8)[i as int] != discriminator()[i as int]);
                }
                return None;
            }
            i = i + 1;
        }
        assert(b@.subrange(0, 8) =~= discriminator());
        let e = Escrow {
            seed: u64_from_le(b, 8),
            maker: address_at(b, 16),
            mint_a: address_at(b, 48),
            mint_b: address_at(b, 80),
            receive: u64_from_le(b, 112),
            bump: b[120],
        };
        assert(record_bytes(e) =~= b@);
        Some(e)
    }
}

} // verus!
