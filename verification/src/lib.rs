//! Typed front ends for the scalar-cryptography instructions of 64-bit RISC-V:
//! the AES round and key-schedule instructions of the extensions Zkne and Zknd,
//! and the SHA-512 transformations of the extension Zknh.
//!
//! Each front end stands for one instruction. It computes nothing of AES or
//! SHA-512 itself: the instruction is executed by a primitive that the caller
//! supplies, on hardware the compiler's intrinsic for that instruction. The
//! front end fixes what crosses that boundary. Operands reach the primitive
//! bit for bit and in order, as the signed 64-bit integers that the primitive
//! takes; its result comes back bit for bit as an unsigned 64-bit word; and the
//! round number of `aes64ks1i` is known to lie in `0..=10` before the primitive
//! sees it.

pub mod aes;
pub mod sha512;
pub mod word;

pub use crate::aes::{aes64ds, aes64dsm, aes64es, aes64esm, aes64ks1i, aes64ks2};
pub use crate::sha512::{sha512sig0, sha512sig1, sha512sum0, sha512sum1};
