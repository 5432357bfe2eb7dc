//! The chain whose rules apply, and what its rules say of a locking script.

use vstd::prelude::*;

verus! {

/// The networks whose address rules are known.
#[derive(Clone, Copy, Debug, PartialEq, Eq)]
pub enum Chain {
    Mainnet,
    Testnet,
    Signet,
    Regtest,
}

/// What a server is configured with, as far as the resolvers read it.
#[derive(Clone, Copy, Debug, PartialEq, Eq)]
pub struct ServerConfig {
    pub chain: Chain,
}

/// The address that `chain` gives to a locking script, where it gives one.
pub uninterp spec fn script_address(chain: Chain, script: Seq<u8>) -> Option<Seq<char>>;

/// The assembly listing of a locking script.
pub uninterp spec fn script_asm(script: Seq<u8>) -> Seq<char>;

/// Whether `address` is the address field for `script`: the address that the
/// chain gives it, and empty exactly where the chain gives it none.
pub open spec fn address_matches(chain: Chain, script: Seq<u8>, address: Seq<char>) -> bool {
    match script_address(chain, script) {
        Some(a) => address == a && address.len() > 0,
        None => address.len() == 0,
    }
}

/// Calls `bitcoin::Address::from_script` on the script's bytes, with the
/// network that `chain` names, and renders the address with its `Display`.
/// Trusted: the result is a function of the chain and the bytes alone, `None`
/// stands for the outside error, and an address is never the empty string.
#[verifier::external_body]
pub(crate) fn address_from_script(chain: Chain, script: &Vec<u8>) -> (r: Option<String>)
    ensures
        (match r {
            Some(a) => Some(a@),
            None => None,
        }) == script_address(chain, script@),
        r matches Some(a) ==> a@.len() > 0,
{
    let network = match chain {
        Chain::Mainnet => bitcoin::Network::Bitcoin,
        Chain::Testnet => bitcoin::Network::Testnet,
        Chain::Signet => bitcoin::Network::Signet,
        Chain::Regtest => bitcoin::Network::Regtest,
    };
    match bitcoin::Address::from_script(bitcoin::Script::from_bytes(script), network) {
        Ok(address) => Some(address.to_string()),
        Err(_) => None,
    }
}

/// Calls `bitcoin::Script::to_asm_string` on the script's bytes. Trusted: the
/// listing is a function of the bytes alone, and that of the empty script is
/// empty.
#[verifier::external_body]
pub(crate) fn asm_string(script: &Vec<u8>) -> (r: String)
    ensures
        r@ == script_asm(script@),
        script@.len() == 0 ==> r@.len() == 0,
{
    bitcoin::Script::from_bytes(script).to_asm_string()
}

} // verus!
