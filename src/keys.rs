use vstd::prelude::*;
use crate::hashing::{blake2_256, blake2_256_of};
use crate::hex::{hex_of_bytes, lemma_hex_of_bytes, push_hex_bytes};
use crate::types::utf8_of;

verus! {

/// The storage address of `key` under `namespace`: the BLAKE2b-256 digest
/// of the namespace, then that of the key, both in lowercase hex.
pub open spec fn storage_address_of(namespace: Seq<u8>, key: Seq<u8>) -> Seq<char> {
    hex_of_bytes(blake2_256_of(namespace)) + hex_of_bytes(blake2_256_of(key))
}

/// Derives the storage address of `key` under `namespace` (128 hex digits,
/// without a marker).
pub fn storage_address(namespace: &[u8], key: &[u8]) -> (r: String)
    ensures
        r@ == storage_address_of(namespace@, key@),
        r@.len() == 128,
{
    let namespace_hash = blake2_256(namespace);
    let key_hash = blake2_256(key);
    let mut s = String::new();
    push_hex_bytes(&mut s, namespace_hash.as_slice());
    push_hex_bytes(&mut s, key_hash.as_slice());
    proof {
        lemma_hex_of_bytes(namespace_hash@);
        lemma_hex_of_bytes(key_hash@);
        assert(s@ =~= storage_address_of(namespace@, key@));
    }
    s
}

/// Address of an agent's record in the agent registry (`Agents` map).
pub fn storage_key_for_agent(did: &str) -> (r: String)
    ensures
        r@ == storage_address_of(utf8_of("Agents"@), utf8_of(did@)),
        r@.len() == 128,
{
    storage_address("Agents".as_bytes(), did.as_bytes())
}

/// Address of an agent's token allocation (`AirdropAllocations` map).
pub fn balance_key_for_did(did: &str) -> (r: String)
    ensures
        r@ == storage_address_of(utf8_of("AirdropAllocations"@), utf8_of(did@)),
        r@.len() == 128,
{
    storage_address("AirdropAllocations".as_bytes(), did.as_bytes())
}

} // verus!
