//! What the library takes from the Soroban host: SHA-256 and the XDR
//! encoding of addresses.
use vstd::prelude::*;
use soroban_sdk::xdr::{AccountId, ContractId, PublicKey, ScAddress, ToXdr, Uint256};
use soroban_sdk::Env;
use crate::address::Address;

verus! {

/// The Soroban host environment, `soroban_sdk::Env`: opaque here, handed on
/// to the host functions below.
#[verifier::external_type_specification]
#[verifier::external_body]
pub struct ExEnv(soroban_sdk::Env);

/// The SHA-256 digest of a byte string.
pub uninterp spec fn sha256_of(data: Seq<u8>) -> Seq<u8>;

/// Relies on `soroban_sdk::crypto::Crypto::sha256` (the host's `compute_hash_sha256`):
/// the digest depends on the bytes alone. The host refuses byte strings longer than
/// `u32::MAX`.
#[verifier::external_body]
pub(crate) fn sha256(env: &Env, data: &[u8]) -> (r: [u8; 32])
    requires
        data@.len() <= u32::MAX,
    ensures
        r@ == sha256_of(data@),
{
    env.crypto().sha256(&soroban_sdk::Bytes::from_slice(env, data)).to_array()
}

/// Relies on `soroban_sdk::Address::try_from_val` from an `xdr::ScAddress`, and on
/// `soroban_sdk::xdr::ToXdr::to_xdr` (the host's `serialize_to_bytes`), which writes
/// the address as the XDR of `ScVal::Address`: the discriminant 18, the `ScAddress`
/// discriminant (0 for an account, 1 for a contract), for an account the ed25519
/// `PublicKey` discriminant 0, then the 32 key or id bytes; discriminants are
/// big-endian 4-byte integers.
#[verifier::external_body]
pub(crate) fn address_xdr(env: &Env, a: &Address) -> (r: Vec<u8>)
    ensures
        r@ == a.xdr(),
{
    let sc = match a {
        Address::Account(key) => ScAddress::Account(AccountId(PublicKey::PublicKeyTypeEd25519(Uint256(*key)))),
        Address::Contract(id) => ScAddress::Contract(ContractId(soroban_sdk::xdr::Hash(*id))),
    };
    let addr = <soroban_sdk::Address as soroban_sdk::TryFromVal<Env, ScAddress>>::try_from_val(env, &sc).unwrap();
    addr.to_xdr(env).iter().collect()
}

} // verus!
