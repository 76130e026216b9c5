use vstd::prelude::*;
use crate::identity::Identity;

verus! {

/// The fixed seed from which the escrow authority is derived.
pub const ESCROW_PDA_SEED: [u8; 6] = [101, 115, 99, 114, 111, 119];

/// The seed, "escrow", as a sequence of bytes.
pub open spec fn escrow_seed() -> Seq<u8> {
    seq![101u8, 115u8, 99u8, 114u8, 111u8, 119u8]
}

/// What the host's program-address search yields for one seed and a program
/// identity: an address with no private key and the bump byte that made it
/// one, or nothing when every bump fails.
pub uninterp spec fn program_address_of(seed: Seq<u8>, program: Seq<u8>) -> Option<(Seq<u8>, u8)>;

/// An address and bump, seen as plain values.
pub open spec fn address_view(a: Option<(Identity, u8)>) -> Option<(Seq<u8>, u8)> {
    match a {
        Some((key, bump)) => Some((key@, bump)),
        None => None,
    }
}

/// The authority that takes over every escrowed holding account of the
/// program `program`, if the derivation yields one.
pub open spec fn escrow_authority_of(program: Seq<u8>) -> Option<(Seq<u8>, u8)> {
    program_address_of(escrow_seed(), program)
}

/// Relies on Pubkey::try_find_program_address: with a single seed of at most
/// 32 bytes it is a function of the seed and the program identity alone, and
/// it does not panic.
#[verifier::external_body]
fn try_find_program_address(seed: &[u8], program_id: &Identity) -> (r: Option<(Identity, u8)>)
    requires
        seed@.len() <= 32,
    ensures
        address_view(r) == program_address_of(seed@, program_id@),
{
    let program = anchor_lang::prelude::Pubkey::new_from_array(program_id.bytes);
    anchor_lang::prelude::Pubkey::try_find_program_address(&[seed], &program).map(
        |(key, bump)| (Identity { bytes: key.to_bytes() }, bump),
    )
}

/// Derives the program-controlled authority for escrows of `program_id`.
pub fn find_escrow_authority(program_id: &Identity) -> (r: Option<(Identity, u8)>)
    ensures
        address_view(r) == escrow_authority_of(program_id@),
{
    let seed: [u8; 6] = ESCROW_PDA_SEED;
    assert(seed@ =~= escrow_seed());
    try_find_program_address(seed.as_slice(), program_id)
}

/// The derivation is a pure function: equal program identities give equal
/// authorities, whatever was derived or created before.
pub proof fn lemma_authority_deterministic(a: Identity, b: Identity)
    requires
        a@ == b@,
    ensures
        escrow_authority_of(a@) == escrow_authority_of(b@),
{
}

} // verus!
