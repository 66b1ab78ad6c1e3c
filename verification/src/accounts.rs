//! Decoding of fetched account data.
//!
//! Two account payloads are interpreted during resolution: the
//! token-holding account, whose serialized record names the identity that
//! holds the item, and the account of the program controlling that
//! identity, which may describe an upgradeable program with a separate
//! program-data buffer. Both decoders are thin trusted wrappers around the
//! ledger's own serialization crates; everything downstream of them is
//! verified against the names they establish.

use solana_program::bpf_loader_upgradeable::UpgradeableLoaderState;
use solana_program::program_pack::Pack;
use vstd::prelude::*;

verus! {

/// The owner recorded in a serialized token-holding account: the base58
/// address of the holder when the bytes form a valid record, or the
/// decode error's message otherwise. A function of the bytes alone.
pub uninterp spec fn token_owner_of(data: Seq<u8>) -> Result<Seq<char>, Seq<char>>;

/// Relies on `spl_token::state::Account::unpack` (the 165-byte token
/// account layout, rejecting wrong lengths and uninitialized accounts)
/// and on `Pubkey`'s base58 `Display`; `token_owner_of` names the
/// composition of the two.
#[verifier::external_body]
pub(crate) fn decode_token_owner(data: &Vec<u8>) -> (r: Result<String, String>)
    ensures
        r is Ok <==> token_owner_of(data@) is Ok,
        (r matches Ok(owner) ==> token_owner_of(data@) matches Ok(o) && owner@ == o),
        (r matches Err(e) ==> token_owner_of(data@) matches Err(m) && e@ == m),
{
    match <spl_token::state::Account as Pack>::unpack(data) {
        Ok(account) => Ok(account.owner.to_string()),
        Err(e) => Err(e.to_string()),
    }
}

/// The program-data buffer designated by a serialized upgradeable-loader
/// account: the base58 address of the buffer when the bytes decode to a
/// `Program` descriptor, and nothing otherwise (most programs are not
/// upgradeable). A function of the bytes alone.
pub uninterp spec fn upgrade_buffer_of(data: Seq<u8>) -> Option<Seq<char>>;

/// Relies on `bincode::deserialize::<UpgradeableLoaderState>` (the
/// loader's bincode layout) and on `Pubkey`'s base58 `Display`;
/// `upgrade_buffer_of` names which accounts carry a program-data address
/// and what it is.
#[verifier::external_body]
pub(crate) fn decode_program_buffer(data: &Vec<u8>) -> (r: Option<String>)
    ensures
        r is Some <==> upgrade_buffer_of(data@) is Some,
        (r matches Some(b) ==> upgrade_buffer_of(data@) matches Some(s) && b@ == s),
{
    match bincode::deserialize::<UpgradeableLoaderState>(data) {
        Ok(UpgradeableLoaderState::Program { programdata_address }) => {
            Some(programdata_address.to_string())
        },
        _ => None,
    }
}

} // verus!
