use vstd::prelude::*;
use crate::account::{AccountKey, Authority};

verus! {

/// The program-derived address and bump of a single seed under a program,
/// or none when no bump gives an address off the curve.
pub uninterp spec fn program_address_of(seed: Seq<u8>, program_id: Seq<u8>) -> Option<(Seq<u8>, u8)>;

/// `a` is what deriving `seed` under `program_id` gives.
pub open spec fn is_derivation(seed: Seq<u8>, program_id: AccountKey, a: Option<Authority>) -> bool {
    match a {
        Some(x) => program_address_of(seed, program_id.bytes@) == Some((x.key.bytes@, x.bump)),
        None => program_address_of(seed, program_id.bytes@) is None,
    }
}

/// Relies on `Pubkey::try_find_program_address` (solana-program, through
/// anchor_lang) with the one seed `seed`: the result depends on the seed and
/// the program alone, and is `None` when the seed is longer than 32 bytes.
#[verifier::external_body]
pub(crate) fn try_find_program_address(seed: &[u8], program_id: &AccountKey) -> (r: Option<Authority>)
    ensures
        r is Some ==> program_address_of(seed@, program_id.bytes@) == Some((r->0.key.bytes@, r->0.bump)),
        r is None ==> program_address_of(seed@, program_id.bytes@) is None,
        seed@.len() > 32 ==> r is None,
{
    let program = anchor_lang::prelude::Pubkey::new_from_array(program_id.bytes);
    match anchor_lang::prelude::Pubkey::try_find_program_address(&[seed], &program) {
        Some((key, bump)) => Some(Authority { key: AccountKey { bytes: key.to_bytes() }, bump }),
        None => None,
    }
}

} // verus!
