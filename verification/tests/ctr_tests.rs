use ctr_cipher::bytes::u64_to_be_bytes;
use ctr_cipher::ctr::aes128_ctr;
use ctr_cipher::error::CtrError;
use ctr_cipher::keystream::CTRKeyStream;

use aes::Aes128;
use cipher::generic_array::GenericArray;
use cipher::BlockEncrypt;
use cipher::KeyInit;

fn transform(key: &[u8], nonce: u64, src: &[u8]) -> Vec<u8> {
    let mut dst = vec![0u8; src.len()];
    aes128_ctr(key, nonce, &mut dst, src).expect("transform failed");
    dst
}

/// The keystream block the design prescribes, computed straight from the
/// `aes` crate: nonce big-endian in the first half, counter big-endian in
/// the second half, encrypted under the key.
fn reference_block(key: &[u8], nonce: u64, ctr: u64) -> Vec<u8> {
    let c = Aes128::new(GenericArray::from_slice(key));
    let mut block = [0u8; 16];
    block[..8].copy_from_slice(&nonce.to_be_bytes());
    block[8..].copy_from_slice(&ctr.to_be_bytes());
    let mut b = GenericArray::clone_from_slice(&block);
    c.encrypt_block(&mut b);
    b.to_vec()
}

#[test]
fn hello_round_trip() {
    let key = [42u8; 16];
    let nonce: u64 = 0x0011_2233_4455_6677;
    let src = b"Hello";

    let ct = transform(&key, nonce, src);
    assert_eq!(ct.len(), 5);

    let pt = transform(&key, nonce, &ct);
    assert_eq!(pt, b"Hello".to_vec());
}

#[test]
fn round_trip_various_lengths() {
    let key = [7u8; 16];
    let nonce: u64 = 99;
    for len in [0usize, 1, 15, 16, 17, 31, 32, 33, 100] {
        let src: Vec<u8> = (0..len).map(|i| (i * 37 + 5) as u8).collect();
        let ct = transform(&key, nonce, &src);
        assert_eq!(ct.len(), len);
        let pt = transform(&key, nonce, &ct);
        assert_eq!(pt, src);
    }
}

#[test]
fn deterministic() {
    let key = [1u8; 16];
    let nonce: u64 = 1234567;
    let src = b"the same plaintext, twice over";
    assert_eq!(transform(&key, nonce, src), transform(&key, nonce, src));
}

#[test]
fn nonce_sensitivity() {
    let key = [9u8; 16];
    let src = b"some non-empty plaintext";
    let ct1 = transform(&key, 1, src);
    let ct2 = transform(&key, 2, src);
    assert_ne!(ct1, ct2);
}

#[test]
fn block_independence() {
    let key = [3u8; 16];
    let nonce: u64 = 42;
    let mut src1 = vec![0u8; 33];
    for (i, b) in src1.iter_mut().enumerate() {
        *b = i as u8;
    }
    let mut src2 = src1.clone();
    src2[0] ^= 0xff;

    let out1 = transform(&key, nonce, &src1);
    let out2 = transform(&key, nonce, &src2);

    assert_ne!(out1[0], out2[0]);
    assert_eq!(&out1[16..], &out2[16..]);
}

#[test]
fn partial_block_uses_keystream_prefix() {
    let key = [5u8; 16];
    let nonce: u64 = 777;
    let long: Vec<u8> = (0..32).map(|i| i as u8).collect();
    let short = &long[..21];

    let ct_long = transform(&key, nonce, &long);
    let ct_short = transform(&key, nonce, short);

    assert_eq!(ct_short.len(), 21);
    assert_eq!(&ct_long[..21], &ct_short[..]);

    let pt = transform(&key, nonce, &ct_short);
    assert_eq!(pt, short.to_vec());
}

#[test]
fn invalid_key_length_is_rejected() {
    let key = [42u8; 15];
    let src = b"Hello";
    let mut dst = vec![9u8; 5];
    let r = aes128_ctr(&key, 1, &mut dst, src);
    assert_eq!(r, Err(CtrError::InvalidKeyLength));
    assert_eq!(dst, vec![9u8; 5]);

    assert!(CTRKeyStream::new(&key, 1).is_err());
}

#[test]
fn length_mismatch_is_rejected() {
    let key = [42u8; 16];
    let src = b"Hello";
    let mut dst = vec![0u8; 4];
    let r = aes128_ctr(&key, 1, &mut dst, src);
    assert_eq!(r, Err(CtrError::LengthMismatch));
    assert_eq!(dst, vec![0u8; 4]);
}

#[test]
fn empty_source_is_ok() {
    let key = [42u8; 16];
    let src: Vec<u8> = Vec::new();
    let mut dst: Vec<u8> = Vec::new();
    assert_eq!(aes128_ctr(&key, 1, &mut dst, &src), Ok(()));
    assert!(dst.is_empty());
}

#[test]
fn keystream_matches_block_cipher() {
    let key = [42u8; 16];
    let nonce: u64 = 0xDEAD_BEEF_0BAD_F00D;

    let mut stream = CTRKeyStream::new(&key, nonce).unwrap();
    for ctr in 0u64..4 {
        assert_eq!(stream.next_block(), reference_block(&key, nonce, ctr));
    }
}

#[test]
fn transform_matches_block_cipher() {
    let key = [42u8; 16];
    let nonce: u64 = 314159;
    let src: Vec<u8> = (0..40).map(|i| (i * 11 + 3) as u8).collect();

    let out = transform(&key, nonce, &src);
    for (i, &b) in src.iter().enumerate() {
        let ks = reference_block(&key, nonce, (i / 16) as u64);
        assert_eq!(out[i], b ^ ks[i % 16]);
    }
}

#[test]
fn generator_is_reproducible_and_forward_only() {
    let key = [8u8; 16];
    let nonce: u64 = 65536;

    let mut g1 = CTRKeyStream::new(&key, nonce).unwrap();
    let mut g2 = CTRKeyStream::new(&key, nonce).unwrap();

    let a0 = g1.next_block();
    let a1 = g1.next_block();
    assert_ne!(a0, a1);

    assert_eq!(g2.next_block(), a0);
    assert_eq!(g2.next_block(), a1);
}

#[test]
fn be_bytes_match_std() {
    for x in [0u64, 1, 0xff, 0x0102_0304_0506_0708, u64::MAX] {
        assert_eq!(u64_to_be_bytes(x), x.to_be_bytes().to_vec());
    }
}

#[test]
fn error_descriptions() {
    assert_eq!(CtrError::InvalidKeyLength.describe(), "invalid key length");
    assert_eq!(CtrError::LengthMismatch.describe(), "length mismatch");
}
