//! Account addresses and their bech32 form.
use vstd::prelude::*;

verus! {

/// The 32 raw bytes of a MultiversX account or contract address.
pub type AddressBytes = [u8; 32];

/// What `multiversx_sc_scenario::bech32::encode` returns for the address
/// whose bytes are given: the "erd"-prefixed bech32 string.
pub uninterp spec fn bech32_encoding(address: Seq<u8>) -> Seq<char>;

/// Calls `multiversx_sc_scenario::bech32::encode` on the address made of
/// `address`. Claimed: the result is the named bech32 encoding of those
/// bytes. The call does not panic here: the prefix is fixed and 32 bytes
/// always fit a bech32 string.
#[verifier::external_body]
fn bech32_encode(address: &AddressBytes) -> (encoded: String)
    ensures
        encoded@ == bech32_encoding(address@),
{
    let outside = multiversx_sc_scenario::imports::Address::from(*address);
    multiversx_sc_scenario::bech32::encode(&outside)
}

/// An address together with its bech32 string, kept side by side so that
/// neither has to be recomputed.
#[derive(Clone, Debug, PartialEq, Eq)]
pub struct Bech32Address {
    pub address: AddressBytes,
    pub bech32: String,
}

impl Bech32Address {
    /// Builds the pair from raw address bytes, encoding them.
    pub fn from_address(address: AddressBytes) -> (res: Bech32Address)
        ensures
            res.address == address,
            res.bech32@ == bech32_encoding(address@),
    {
        let bech32 = bech32_encode(&address);
        Bech32Address { address, bech32 }
    }

    /// The raw address bytes.
    pub fn to_address(&self) -> (res: AddressBytes)
        ensures
            res == self.address,
    {
        self.address
    }

    /// A copy of the bech32 string.
    pub fn to_bech32_string(&self) -> (res: String)
        ensures
            res@ == self.bech32@,
    {
        self.bech32.clone()
    }
}

} // verus!
