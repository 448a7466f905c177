use vstd::prelude::*;

use crate::accounts::Address;

verus! {

/// The vault authority for a campaign: the address the host's one-way
/// derivation assigns to the seed list made of the fixed tag `vault`, the
/// campaign key and the token key, under the given program id. It is a
/// function of those three values alone — in particular of no human-held
/// identity — so no single private key can authorize vault transfers.
pub uninterp spec fn vault_authority_of(campaign: Seq<u8>, token: Seq<u8>, program: Seq<u8>) -> Seq<
    u8,
>;

/// Relies on `Pubkey::find_program_address` (solana-pubkey, through
/// anchor-lang): the derived address and bump depend only on the seed bytes
/// — here the tag `vault`, the campaign key and the token key — and the
/// program id, so the same campaign and token always yield the same vault
/// authority. The bump-seed search is assumed to find an address, a failure
/// the crate's documentation calls a statistically improbable event.
#[verifier::external_body]
pub(crate) fn derive_vault_authority(campaign: &Address, token: &Address, program: &Address) -> (r:
    Address)
    ensures
        r.bytes@ == vault_authority_of(campaign.bytes@, token.bytes@, program.bytes@),
{
    let program_key = anchor_lang::solana_program::pubkey::Pubkey::new_from_array(program.bytes);
    let (key, _bump) = anchor_lang::solana_program::pubkey::Pubkey::find_program_address(
        &[b"vault", campaign.bytes.as_ref(), token.bytes.as_ref()],
        &program_key,
    );
    Address { bytes: key.to_bytes() }
}

} // verus!
