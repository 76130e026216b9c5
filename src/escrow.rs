use vstd::prelude::*;
use crate::identity::Identity;

verus! {

pub const DISCRIMINATOR_LENGTH: usize = 8;

pub const PUBLIC_KEY_LENGTH: usize = 32;

pub const U64_LENGTH: usize = 8;

/// The type tag of a stored record, "account:Escrow".
pub const ESCROW_TAG: [u8; 14] = [97, 99, 99, 111, 117, 110, 116, 58, 69, 115, 99, 114, 111, 119];

pub open spec fn escrow_tag() -> Seq<u8> {
    seq![97u8, 99u8, 99u8, 111u8, 117u8, 110u8, 116u8, 58u8, 69u8, 115u8, 99u8, 114u8, 111u8, 119u8]
}

/// The SHA-256 digest of a byte string.
pub uninterp spec fn sha256_of(data: Seq<u8>) -> [u8; 32];

/// Relies on solana_program::hash::hash: the SHA-256 digest of its input.
#[verifier::external_body]
fn sha256(data: &[u8]) -> (r: [u8; 32])
    ensures
        r == sha256_of(data@),
{
    anchor_lang::solana_program::hash::hash(data).to_bytes()
}

/// The format tag that opens every stored record: the first eight bytes of
/// the digest of the type tag.
pub open spec fn discriminator() -> Seq<u8> {
    sha256_of(escrow_tag())@.subrange(0, 8)
}

/// An amount as eight bytes, least significant first.
pub open spec fn le_bytes(x: u64) -> Seq<u8> {
    seq![
        x as u8, (x >> 8u64) as u8, (x >> 16u64) as u8, (x >> 24u64) as u8,
        (x >> 32u64) as u8, (x >> 40u64) as u8, (x >> 48u64) as u8, (x >> 56u64) as u8,
    ]
}

/// The amount that eight bytes, least significant first, stand for.
pub open spec fn le_value(b: Seq<u8>) -> u64 {
    (b[0] as u64) | ((b[1] as u64) << 8u64) | ((b[2] as u64) << 16u64) | ((b[3] as u64) << 24u64)
        | ((b[4] as u64) << 32u64) | ((b[5] as u64) << 40u64) | ((b[6] as u64) << 48u64)
        | ((b[7] as u64) << 56u64)
}

/// The stored form of a record: format tag, initializer, holding account,
/// receiving account, amount.
pub open spec fn layout_of(e: Escrow) -> Seq<u8> {
    discriminator() + e.initializer_pubkey@ + e.temp_token_account_pubkey@
        + e.initializer_token_to_receive_account_pubkey@ + le_bytes(e.expected_amount)
}

/// Why stored bytes are not a record.
#[derive(Clone, Copy, Debug, PartialEq, Eq, Structural)]
pub enum RecordError {
    /// Fewer bytes than a format tag.
    DiscriminatorNotFound,
    /// The format tag is not that of an escrow record.
    DiscriminatorMismatch,
    /// The tag is right but the length is not that of a record.
    WrongSize,
}

/// Why stored bytes cannot be read as a record, if they cannot.
pub open spec fn format_error(b: Seq<u8>) -> Option<RecordError> {
    if b.len() < 8 {
        Some(RecordError::DiscriminatorNotFound)
    } else if b.subrange(0, 8) != discriminator() {
        Some(RecordError::DiscriminatorMismatch)
    } else if b.len() != 112 {
        Some(RecordError::WrongSize)
    } else {
        None
    }
}

/// The bytes `data[off..off + 32]` as an identity.
fn read_identity(data: &[u8], off: usize) -> (r: Identity)
    requires
        off + 32 <= data@.len(),
    ensures
        r@ == data@.subrange(off as int, off + 32),
{
    let n: usize = data.len();
    let mut bytes: [u8; 32] = [0u8; 32];
    let mut i: usize = 0;
    while i < 32
        invariant
            i <= 32,
            n == data@.len(),
            off + 32 <= n,
            forall|j: int| 0 <= j < i ==> bytes@[j] == data@[off + j],
        decreases 32 - i,
    {
        bytes[i] = data[off + i];
        i = i + 1;
    }
    let r = Identity { bytes };
    assert(r@ =~= data@.subrange(off as int, off + 32));
    r
}

/// Appends the bytes of `k`.
fn push_identity(out: &mut Vec<u8>, k: &Identity)
    ensures
        final(out)@ == old(out)@ + k@,
{
    let mut i: usize = 0;
    while i < 32
        invariant
            i <= 32,
            out@ == old(out)@ + k@.subrange(0, i as int),
        decreases 32 - i,
    {
        out.push(k.bytes[i]);
        assert(k@.subrange(0, i + 1) =~= k@.subrange(0, i as int).push(k@[i as int]));
        i = i + 1;
    }
    assert(k@.subrange(0, 32) =~= k@);
}

/// Appends `x` as eight bytes, least significant first.
fn push_le_u64(out: &mut Vec<u8>, x: u64)
    ensures
        final(out)@ == old(out)@ + le_bytes(x),
{
    out.push(x as u8);
    out.push((x >> 8u64) as u8);
    out.push((x >> 16u64) as u8);
    out.push((x >> 24u64) as u8);
    out.push((x >> 32u64) as u8);
    out.push((x >> 40u64) as u8);
    out.push((x >> 48u64) as u8);
    out.push((x >> 56u64) as u8);
    assert(out@ =~= old(out)@ + le_bytes(x));
}

/// The amount stored least significant first in `data[off..off + 8]`.
fn read_le_u64(data: &[u8], off: usize) -> (r: u64)
    requires
        off + 8 <= data@.len(),
    ensures
        r == le_value(data@.subrange(off as int, off + 8)),
{
    let ghost b = data@.subrange(off as int, off + 8);
    assert(b[0] == data@[off as int] && b[1] == data@[off + 1] && b[2] == data@[off + 2]
        && b[3] == data@[off + 3] && b[4] == data@[off + 4] && b[5] == data@[off + 5]
        && b[6] == data@[off + 6] && b[7] == data@[off + 7]);
    (data[off] as u64) | ((data[off + 1] as u64) << 8u64) | ((data[off + 2] as u64) << 16u64)
        | ((data[off + 3] as u64) << 24u64) | ((data[off + 4] as u64) << 32u64)
        | ((data[off + 5] as u64) << 40u64) | ((data[off + 6] as u64) << 48u64)
        | ((data[off + 7] as u64) << 56u64)
}

/// Reading back the bytes of an amount gives the amount.
pub proof fn lemma_le_round_trip(x: u64)
    ensures
        le_value(le_bytes(x)) == x,
{
    let b = le_bytes(x);
    assert(b[0] == x as u8 && b[1] == (x >> 8u64) as u8 && b[2] == (x >> 16u64) as u8
        && b[3] == (x >> 24u64) as u8 && b[4] == (x >> 32u64) as u8 && b[5] == (x >> 40u64) as u8
        && b[6] == (x >> 48u64) as u8 && b[7] == (x >> 56u64) as u8);
    assert(((x as u8) as u64) | ((((x >> 8u64) as u8) as u64) << 8u64) | ((((x >> 16u64) as u8) as u64) << 16u64)
        | ((((x >> 24u64) as u8) as u64) << 24u64) | ((((x >> 32u64) as u8) as u64) << 32u64)
        | ((((x >> 40u64) as u8) as u64) << 40u64) | ((((x >> 48u64) as u8) as u64) << 48u64)
        | ((((x >> 56u64) as u8) as u64) << 56u64) == x) by (bit_vector);
}

/// Writing back the amount that eight bytes stand for gives those bytes.
pub proof fn lemma_le_bytes_of_value(b: Seq<u8>)
    requires
        b.len() == 8,
    ensures
        le_bytes(le_value(b)) == b,
{
    let v = le_value(b);
    let (b0, b1, b2, b3, b4, b5, b6, b7) = (b[0], b[1], b[2], b[3], b[4], b[5], b[6], b[7]);
    assert(v as u8 == b0 && (v >> 8u64) as u8 == b1 && (v >> 16u64) as u8 == b2
        && (v >> 24u64) as u8 == b3 && (v >> 32u64) as u8 == b4 && (v >> 40u64) as u8 == b5
        && (v >> 48u64) as u8 == b6 && (v >> 56u64) as u8 == b7) by (bit_vector)
        requires
            v == (b0 as u64) | ((b1 as u64) << 8u64) | ((b2 as u64) << 16u64) | ((b3 as u64) << 24u64)
                | ((b4 as u64) << 32u64) | ((b5 as u64) << 40u64) | ((b6 as u64) << 48u64)
                | ((b7 as u64) << 56u64),
    ;
    assert(le_bytes(v) =~= b);
}

/// The stored form of a record has the record's fixed size, is read back
/// without a format error, and no other record has the same stored form
/// (records are told apart by their identities' bytes and their amount).
pub proof fn lemma_layout_round_trip(e: Escrow, f: Escrow)
    ensures
        layout_of(e).len() == Escrow::LEN,
        format_error(layout_of(e)) is None,
        layout_of(f) == layout_of(e) ==> {
            &&& f.initializer_pubkey@ == e.initializer_pubkey@
            &&& f.temp_token_account_pubkey@ == e.temp_token_account_pubkey@
            &&& f.initializer_token_to_receive_account_pubkey@
                == e.initializer_token_to_receive_account_pubkey@
            &&& f.expected_amount == e.expected_amount
        },
{
    let l = layout_of(e);
    assert(l.subrange(0, 8) =~= discriminator());
    if layout_of(f) == l {
        let m = layout_of(f);
        assert(m.subrange(8, 40) =~= f.initializer_pubkey@);
        assert(l.subrange(8, 40) =~= e.initializer_pubkey@);
        assert(m.subrange(40, 72) =~= f.temp_token_account_pubkey@);
        assert(l.subrange(40, 72) =~= e.temp_token_account_pubkey@);
        assert(m.subrange(72, 104) =~= f.initializer_token_to_receive_account_pubkey@);
        assert(l.subrange(72, 104) =~= e.initializer_token_to_receive_account_pubkey@);
        assert(m.subrange(104, 112) =~= le_bytes(f.expected_amount));
        assert(l.subrange(104, 112) =~= le_bytes(e.expected_amount));
        lemma_le_round_trip(e.expected_amount);
        lemma_le_round_trip(f.expected_amount);
    }
}

/// The format tag of stored records.
pub fn escrow_discriminator() -> (r: Vec<u8>)
    ensures
        r@ == discriminator(),
{
    let tag: [u8; 14] = ESCROW_TAG;
    assert(tag@ =~= escrow_tag());
    let digest = sha256(tag.as_slice());
    let mut r: Vec<u8> = Vec::new();
    let mut i: usize = 0;
    while i < 8
        invariant
            i <= 8,
            digest@.len() == 32,
            digest == sha256_of(escrow_tag()),
            r@ == digest@.subrange(0, i as int),
        decreases 8 - i,
    {
        r.push(digest[i]);
        assert(digest@.subrange(0, i + 1) =~= digest@.subrange(0, i as int).push(digest@[i as int]));
        i = i + 1;
    }
    r
}

/// The terms of one pending escrow, fixed when it is created.
#[derive(Clone, Copy, Debug)]
pub struct Escrow {
    /// The party that created the escrow.
    pub initializer_pubkey: Identity,
    /// The token account holding the locked asset.
    pub temp_token_account_pubkey: Identity,
    /// The initializer's account that is to receive the counter-asset.
    pub initializer_token_to_receive_account_pubkey: Identity,
    /// How much of the counter-asset the initializer asks for.
    pub expected_amount: u64,
}

impl Escrow {
    /// Size of a stored record: format tag, three identities, one amount.
    pub const LEN: usize = DISCRIMINATOR_LENGTH + PUBLIC_KEY_LENGTH * 3 + U64_LENGTH;

    pub fn new(
        initializer_pubkey: Identity,
        temp_token_account_pubkey: Identity,
        initializer_token_to_receive_account_pubkey: Identity,
        expected_amount: u64,
    ) -> (r: Escrow)
        ensures
            r == (Escrow {
                initializer_pubkey,
                temp_token_account_pubkey,
                initializer_token_to_receive_account_pubkey,
                expected_amount,
            }),
    {
        Escrow {
            initializer_pubkey,
            temp_token_account_pubkey,
            initializer_token_to_receive_account_pubkey,
            expected_amount,
        }
    }
    /// The record's stored form.
    pub fn try_serialize(&self) -> (r: Vec<u8>)
        ensures
            r@ == layout_of(*self),
            r@.len() == Escrow::LEN,
    {
        let mut out = escrow_discriminator();
        push_identity(&mut out, &self.initializer_pubkey);
        push_identity(&mut out, &self.temp_token_account_pubkey);
        push_identity(&mut out, &self.initializer_token_to_receive_account_pubkey);
        push_le_u64(&mut out, self.expected_amount);
        assert(out@ =~= layout_of(*self));
        out
    }

    /// Reads a record from its stored form.
    pub fn try_deserialize(data: &[u8]) -> (r: Result<Escrow, RecordError>)
        ensures
            match r {
                Ok(e) => format_error(data@) is None && layout_of(e) == data@,
                Err(x) => format_error(data@) == Some(x),
            },
    {
        let n: usize = data.len();
        if n < 8 {
            return Err(RecordError::DiscriminatorNotFound);
        }
        let disc = escrow_discriminator();
        let mut i: usize = 0;
        while i < 8
            invariant
                i <= 8,
                n == data@.len(),
                n >= 8,
                disc@ == discriminator(),
                disc@.len() == 8,
                forall|j: int| 0 <= j < i ==> data@[j] == disc@[j],
            decreases 8 - i,
        {
            if data[i] != disc[i] {
                assert(data@.subrange(0, 8)[i as int] != discriminator()[i as int]);
                return Err(RecordError::DiscriminatorMismatch);
            }
            i = i + 1;
        }
        assert(data@.subrange(0, 8) =~= discriminator());
        if n != Escrow::LEN {
            return Err(RecordError::WrongSize);
        }
        let e = Escrow {
            initializer_pubkey: read_identity(data, 8),
            temp_token_account_pubkey: read_identity(data, 40),
            initializer_token_to_receive_account_pubkey: read_identity(data, 72),
            expected_amount: read_le_u64(data, 104),
        };
        proof {
            lemma_le_bytes_of_value(data@.subrange(104, 112));
        }
        assert(layout_of(e) =~= data@);
        Ok(e)
    }
}

} // verus!
