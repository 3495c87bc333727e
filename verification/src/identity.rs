use vstd::prelude::*;

verus! {

/// A ledger identity: a 256-bit account address, held as four 64-bit words
/// in little-endian order. Identities are only ever compared and stored; the
/// protocol never looks inside an address.
#[derive(Clone, Copy, Debug, PartialEq, Eq, Structural)]
pub struct AccountId {
    pub w0: u64,
    pub w1: u64,
    pub w2: u64,
    pub w3: u64,
}

/// The custodian identity and its derivation proof (a bump byte) that the
/// fixed escrow seed and a program identity determine, or `None` when no
/// bump byte yields a valid derived address. The derivation is a pure
/// function of the program identity; nothing further is assumed of its
/// value.
pub uninterp spec fn custodian_of(program_id: AccountId) -> Option<(AccountId, u8)>;

/// Relies on solana_program's `Pubkey::try_find_program_address`: with fixed
/// seeds the derived address and bump byte are computed by a deterministic
/// SHA-256 search over the seeds and the program id alone, and `None` comes
/// back only when no bump byte yields an off-curve address.
#[verifier::external_body]
fn find_custodian(program_id: &AccountId) -> (r: Option<(AccountId, u8)>)
    ensures
        r == custodian_of(*program_id),
{
    let mut key = [0u8; 32];
    for (i, w) in [program_id.w0, program_id.w1, program_id.w2, program_id.w3].iter().enumerate() {
        key[i * 8..i * 8 + 8].copy_from_slice(&w.to_le_bytes());
    }
    let pk = solana_program::pubkey::Pubkey::from(key);
    let (pda, bump) = solana_program::pubkey::Pubkey::try_find_program_address(&[b"escrow"], &pk)?;
    let mut w = [0u64; 4];
    for (i, c) in pda.to_bytes().chunks(8).enumerate() {
        w[i] = u64::from_le_bytes(c.try_into().unwrap());
    }
    Some((AccountId { w0: w[0], w1: w[1], w2: w[2], w3: w[3] }, bump))
}

/// Derive the identity that controls every custody holding of this protocol,
/// together with its derivation proof, from the protocol's own identity. No
/// secret key exists for this identity; the protocol reproduces the
/// derivation at call time to authorize actions as the custodian. The same
/// program identity always yields the same custodian.
pub fn derive_custodian(program_id: &AccountId) -> (r: Option<(AccountId, u8)>)
    ensures
        r == custodian_of(*program_id),
{
    find_custodian(program_id)
}

} // verus!
