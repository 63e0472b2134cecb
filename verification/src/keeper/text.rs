use vstd::prelude::*;
use crate::keys::Key;
use solana_program::pubkey::Pubkey;

verus! {

/// The text form of an address: the base58 encoding of its bytes, as
/// `Pubkey`'s `Display` writes it.
pub uninterp spec fn address_text(key: Seq<u8>) -> Seq<char>;

/// Writes an address as text through `Pubkey`'s `Display` (base58). The
/// text depends on the address bytes alone.
#[verifier::external_body]
fn key_to_text(key: &Key) -> (text: String)
    ensures
        text@ == address_text(key@),
{
    Pubkey::new_from_array(*key).to_string()
}

/// The identifier of a ticket in the ticket report: the NCN, vault and
/// operator addresses as text, joined by '-'.
pub fn ticket_id(ncn: &Key, vault: &Key, operator: &Key) -> (id: String)
    ensures
        id@ == address_text(ncn@) + "-"@ + address_text(vault@) + "-"@ + address_text(operator@),
{
    let id = key_to_text(ncn).concat("-");
    let id = id.concat(key_to_text(vault).as_str());
    let id = id.concat("-");
    id.concat(key_to_text(operator).as_str())
}

} // verus!
