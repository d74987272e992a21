//! The CTR stream transform: XOR-combining a byte buffer of any length with
//! the keystream, block by block, the last block possibly partial.
//!
//! The same transform both encrypts and decrypts, since XOR is self-inverse
//! and the keystream depends only on the key and the nonce.

use vstd::prelude::*;
use crate::error::CtrError;
use crate::keystream::BLOCK_SIZE;
use crate::keystream::CTRKeyStream;
use crate::keystream::KEY_LEN;
use crate::keystream::keystream_block;

verus! {

/// Byte `i` of the transform of `src` under `key` and `nonce`: `src[i]`
/// XORed with byte `i % 16` of keystream block `i / 16`.
pub open spec fn ctr_byte(key: Seq<u8>, nonce: u64, src: Seq<u8>, i: int) -> u8 {
    src[i] ^ keystream_block(key, nonce, (i / (BLOCK_SIZE as int)) as u64)[i % (BLOCK_SIZE as int)]
}

/// The CTR transform of `src` under `key` and `nonce`: a sequence of the
/// same length whose byte `i` is [`ctr_byte`] of `i`.
pub open spec fn ctr_transform(key: Seq<u8>, nonce: u64, src: Seq<u8>) -> Seq<u8> {
    Seq::new(src.len(), |i: int| ctr_byte(key, nonce, src, i))
}

/// Applies the CTR keystream of (`key`, `nonce`) to `src` and writes the
/// result over `dst`, which must already have the length of `src`.
///
/// Fails with `InvalidKeyLength` when the key is not 16 bytes and with
/// `LengthMismatch` when the buffer lengths differ, in that order of
/// precedence; either way `dst` is left untouched. On success every byte of
/// `dst` is rewritten to the transform of `src`.
#[verifier::loop_isolation(false)]
pub fn aes128_ctr(key: &[u8], nonce: u64, dst: &mut Vec<u8>, src: &[u8]) -> (r: Result<
    (),
    CtrError,
>)
    ensures
        match r {
            Ok(()) => key@.len() == KEY_LEN && old(dst)@.len() == src@.len() && final(dst)@
                == ctr_transform(key@, nonce, src@),
            Err(CtrError::InvalidKeyLength) => key@.len() != KEY_LEN && final(dst)@ == old(dst)@,
            Err(CtrError::LengthMismatch) => key@.len() == KEY_LEN && old(dst)@.len() != src@.len()
                && final(dst)@ == old(dst)@,
        },
{
    let mut stream = match CTRKeyStream::new(key, nonce) {
        Ok(s) => s,
        Err(e) => {
            return Err(e);
        },
    };
    if dst.len() != src.len() {
        return Err(CtrError::LengthMismatch);
    }
    let mut pos: usize = 0;
    while pos < src.len()
        invariant
            stream.wf(),
            stream.key() == key@,
            stream.nonce() == nonce,
            pos <= src@.len(),
            pos < src@.len() ==> pos as int % (BLOCK_SIZE as int) == 0 && stream.ctr() as int
                == pos as int / (BLOCK_SIZE as int),
            dst@.len() == src@.len(),
            forall|i: int| 0 <= i < pos ==> dst@[i] == ctr_byte(key@, nonce, src@, i),
        decreases src@.len() - pos,
    {
        let ghost c = stream.ctr();
        let block = stream.next_block();
        let rem = src.len() - pos;
        let chunk_len = if rem < BLOCK_SIZE {
            rem
        } else {
            BLOCK_SIZE
        };
        let mut j: usize = 0;
        while j < chunk_len
            invariant
                j <= chunk_len,
                dst@.len() == src@.len(),
                forall|i: int| 0 <= i < pos ==> dst@[i] == ctr_byte(key@, nonce, src@, i),
                forall|i: int|
                    pos <= i < pos + j ==> dst@[i] == (src@[i] ^ block@[i - pos]),
            decreases chunk_len - j,
        {
            let b = src[pos + j] ^ block[j];
            dst.set(pos + j, b);
            j = j + 1;
        }
        proof {
            let q = pos as int / (BLOCK_SIZE as int);
            assert(pos as int == 16 * q) by {
                vstd::arithmetic::div_mod::lemma_fundamental_div_mod(pos as int, 16);
            };
            assert forall|i: int| pos <= i < pos + chunk_len implies dst@[i] == ctr_byte(
                key@,
                nonce,
                src@,
                i,
            ) by {
                let d = i - pos;
                assert(i / 16 == q && i % 16 == d) by (nonlinear_arith)
                    requires
                        pos as int == 16 * q,
                        pos <= i < pos + 16,
                        d == i - pos,
                ;
                assert(dst@[i] == (src@[i] ^ block@[d]));
            };
        }
        pos = pos + chunk_len;
    }
    Ok(())
}

/// XOR with the same byte twice gives back the original byte.
pub proof fn lemma_xor_cancel(a: u8, b: u8)
    ensures
        (a ^ b) ^ b == a,
{
    assert((a ^ b) ^ b == a) by (bit_vector);
}

/// Length preservation: the transform of any source has the source's length.
pub proof fn lemma_length_preservation(key: Seq<u8>, nonce: u64, src: Seq<u8>)
    ensures
        ctr_transform(key, nonce, src).len() == src.len(),
{
}

/// Determinism: two transforms of identical key, nonce and input are
/// identical.
pub proof fn lemma_deterministic(key: Seq<u8>, nonce: u64, src: Seq<u8>, out1: Seq<u8>, out2: Seq<u8>)
    requires
        out1 == ctr_transform(key, nonce, src),
        out2 == ctr_transform(key, nonce, src),
    ensures
        out1 == out2,
{
}

/// Round trip: transforming twice under the same key and nonce reproduces
/// the source exactly, whatever its length.
pub proof fn lemma_round_trip(key: Seq<u8>, nonce: u64, src: Seq<u8>)
    ensures
        ctr_transform(key, nonce, ctr_transform(key, nonce, src)) == src,
{
    let once = ctr_transform(key, nonce, src);
    let twice = ctr_transform(key, nonce, once);
    assert forall|i: int| 0 <= i < src.len() implies twice[i] == src[i] by {
        lemma_xor_cancel(
            src[i],
            keystream_block(key, nonce, (i / (BLOCK_SIZE as int)) as u64)[i % (BLOCK_SIZE as int)],
        );
    };
    assert(twice =~= src);
}

/// Block independence: where two equal-length sources agree on every byte of
/// chunk `c` (the bytes `i` with `i / 16 == c`), their transforms agree on
/// every byte of that chunk, whatever the sources hold elsewhere.
pub proof fn lemma_block_independence(
    key: Seq<u8>,
    nonce: u64,
    src1: Seq<u8>,
    src2: Seq<u8>,
    c: int,
)
    requires
        src1.len() == src2.len(),
        forall|i: int|
            0 <= i < src1.len() && i / (BLOCK_SIZE as int) == c ==> #[trigger] src1[i] == src2[i],
    ensures
        forall|i: int|
            0 <= i < src1.len() && i / (BLOCK_SIZE as int) == c ==> #[trigger] ctr_transform(
                key,
                nonce,
                src1,
            )[i] == ctr_transform(key, nonce, src2)[i],
{
}

/// Partial-block correctness: the transform of a prefix of a source is the
/// same prefix of the transform of the whole source, so a final partial
/// block uses exactly the matching leading bytes of its keystream block.
pub proof fn lemma_prefix_stable(key: Seq<u8>, nonce: u64, src: Seq<u8>, m: int)
    requires
        0 <= m <= src.len(),
    ensures
        ctr_transform(key, nonce, src.take(m)) == ctr_transform(key, nonce, src).take(m),
{
    let a = ctr_transform(key, nonce, src.take(m));
    let b = ctr_transform(key, nonce, src).take(m);
    assert forall|i: int| 0 <= i < m implies a[i] == b[i] by {
        assert(src.take(m)[i] == src[i]);
    };
    assert(a =~= b);
}

} // verus!
