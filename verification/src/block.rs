//! The AES-128 block primitive, taken on trust from the `aes` crate.
//!
//! The cipher is treated as an opaque keyed permutation on 16-byte blocks:
//! its output is named by an uninterpreted spec function, and everything the
//! rest of the crate proves is stated in terms of that name.

use vstd::prelude::*;
use cipher::BlockEncrypt;
use cipher::KeyInit;

verus! {

/// The AES-128 encryption of the 16-byte `block` under the 16-byte `key`.
/// The result is a function of the key and the block alone.
pub uninterp spec fn aes128_block_of(key: Seq<u8>, block: Seq<u8>) -> Seq<u8>;

/// Relies on `aes::Aes128` (through `cipher::BlockEncrypt::encrypt_block`):
/// encrypting one block under a fixed key yields exactly 16 bytes and depends
/// only on the key bytes and the block bytes.
#[verifier::external_body]
pub(crate) fn aes128_encrypt_block(key: &[u8], block: &[u8]) -> (r: Vec<u8>)
    requires
        key@.len() == 16,
        block@.len() == 16,
    ensures
        r@ == aes128_block_of(key@, block@),
        r@.len() == 16,
{
    let c = aes::Aes128::new(cipher::generic_array::GenericArray::from_slice(key));
    let mut b: cipher::Block<aes::Aes128> =
        cipher::generic_array::GenericArray::clone_from_slice(block);
    c.encrypt_block(&mut b);
    b.to_vec()
}

} // verus!
