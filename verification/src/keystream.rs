//! The counter-mode keystream generator.
//!
//! A [`CTRKeyStream`] holds a key, a per-session nonce and a counter that
//! starts at 0. Each call to [`CTRKeyStream::next_block`] encrypts a block
//! holding the nonce (big-endian, first half) and the counter (big-endian,
//! second half) and advances the counter by one, so block `i` depends only on
//! the key, the nonce and `i`.

use vstd::prelude::*;
use crate::block::aes128_block_of;
use crate::block::aes128_encrypt_block;
use crate::bytes::u64_be_seq;
use crate::bytes::u64_to_be_bytes;
use crate::error::CtrError;

verus! {

/// Width of one cipher block, in bytes.
pub const BLOCK_SIZE: usize = 16;

/// Key length AES-128 requires, in bytes.
pub const KEY_LEN: usize = 16;

/// The 16-byte buffer fed to the block cipher for counter value `ctr`: the
/// nonce's big-endian bytes fill the first half, the counter's big-endian
/// bytes the second half. This even split is a fixed design choice of this
/// cipher; changing it would change every output byte.
pub open spec fn block_input(nonce: u64, ctr: u64) -> Seq<u8> {
    u64_be_seq(nonce) + u64_be_seq(ctr)
}

/// Keystream block number `ctr` of the stream determined by `key` and
/// `nonce`.
pub open spec fn keystream_block(key: Seq<u8>, nonce: u64, ctr: u64) -> Seq<u8> {
    aes128_block_of(key, block_input(nonce, ctr))
}

/// A forward-only generator of keystream blocks. Reproducible only by
/// constructing a fresh generator with the same key and nonce; a (key, nonce)
/// pair must never be reused across two different plaintexts (a caller
/// obligation, not enforced here).
pub struct CTRKeyStream {
    key: Vec<u8>,
    nonce: u64,
    ctr: u64,
}

impl CTRKeyStream {
    /// The generator holds a key of the length AES-128 requires.
    pub closed spec fn wf(&self) -> bool {
        self.key@.len() == KEY_LEN
    }

    /// The key this generator was constructed with.
    pub closed spec fn key(&self) -> Seq<u8> {
        self.key@
    }

    /// The nonce this generator was constructed with.
    pub closed spec fn nonce(&self) -> u64 {
        self.nonce
    }

    /// The counter of the next block to be produced.
    pub closed spec fn ctr(&self) -> u64 {
        self.ctr
    }

    /// Builds a generator with its counter at 0. Rejects a key that is not
    /// exactly [`KEY_LEN`] bytes, before any block is produced.
    pub fn new(key: &[u8], nonce: u64) -> (r: Result<CTRKeyStream, CtrError>)
        ensures
            match r {
                Ok(s) => key@.len() == KEY_LEN && s.wf() && s.key() == key@
                    && s.nonce() == nonce && s.ctr() == 0,
                Err(e) => key@.len() != KEY_LEN && e == CtrError::InvalidKeyLength,
            },
    {
        if key.len() != KEY_LEN {
            return Err(CtrError::InvalidKeyLength);
        }
        Ok(CTRKeyStream { key: vstd::slice::slice_to_vec(key), nonce, ctr: 0 })
    }

    /// Produces the next keystream block and advances the counter by one.
    /// The counter wraps at `u64::MAX` rather than crash; a wrapped counter
    /// repeats earlier blocks, which is a security boundary the caller must
    /// avoid, not a functional error.
    pub fn next_block(&mut self) -> (r: Vec<u8>)
        requires
            old(self).wf(),
        ensures
            final(self).wf(),
            final(self).key() == old(self).key(),
            final(self).nonce() == old(self).nonce(),
            r@ == keystream_block(old(self).key(), old(self).nonce(), old(self).ctr()),
            r@.len() == BLOCK_SIZE,
            old(self).ctr() < u64::MAX ==> final(self).ctr() == old(self).ctr() + 1,
            old(self).ctr() == u64::MAX ==> final(self).ctr() == 0,
    {
        let mut input = u64_to_be_bytes(self.nonce);
        let mut ctr_bytes = u64_to_be_bytes(self.ctr);
        input.append(&mut ctr_bytes);
        assert(input@ =~= block_input(self.nonce, self.ctr));
        let r = aes128_encrypt_block(self.key.as_slice(), input.as_slice());
        if self.ctr == u64::MAX {
            self.ctr = 0;
        } else {
            self.ctr = self.ctr + 1;
        }
        r
    }
}

} // verus!
