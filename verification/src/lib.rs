//! A stream cipher built from AES-128 run in counter (CTR) mode.
//!
//! A [`keystream::CTRKeyStream`] turns the block cipher into a logically
//! infinite sequence of 16-byte keystream blocks, one per counter value;
//! [`ctr::aes128_ctr`] XOR-combines that keystream with a byte buffer of any
//! length. The same transform both encrypts and decrypts.

pub mod block;
pub mod bytes;
pub mod ctr;
pub mod error;
pub mod keystream;
