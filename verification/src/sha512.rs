//! Front ends for the SHA-512 instructions of RV64 (extension Zknh).
//!
//! Each function takes the operand as an unsigned word and the primitive that
//! executes the instruction. It hands the primitive the signed reading of the
//! operand, calls it once, and returns the unsigned reading of what came back.
//! What the primitive demands before it may be called (on hardware: that the
//! extension is present) is demanded of the caller unchanged.
//!
//! The instructions are those of "RISC-V Cryptography Extensions Volume I:
//! Scalar & Entropy Source Instructions", version 1.0.1; the sections named
//! below are sections of that document.

use vstd::prelude::*;
use crate::word::{as_signed, lemma_signed_reading_is_injective, to_signed, to_unsigned};

verus! {

/// Whether the contract of a one-operand primitive admits at most one result
/// for the operand `a`.
pub open spec fn is_determined_unary<F: Fn(i64) -> i64>(insn: F, a: i64) -> bool {
    forall|r1: i64, r2: i64|
        #[trigger] insn.ensures((a,), r1) && #[trigger] insn.ensures((a,), r2) ==> r1 == r2
}

/// `sha512sig0`, the sigma0 transformation of the SHA-512 message schedule
/// (section 3.37).
#[inline]
pub fn sha512sig0(rs1: u64, insn: impl Fn(i64) -> i64) -> (rd: u64)
    requires
        insn.requires((as_signed(rs1),)),
    ensures
        insn.ensures((as_signed(rs1),), as_signed(rd)),
{
    to_unsigned(insn(to_signed(rs1)))
}

/// `sha512sig1`, the sigma1 transformation of the SHA-512 message schedule
/// (section 3.38).
#[inline]
pub fn sha512sig1(rs1: u64, insn: impl Fn(i64) -> i64) -> (rd: u64)
    requires
        insn.requires((as_signed(rs1),)),
    ensures
        insn.ensures((as_signed(rs1),), as_signed(rd)),
{
    to_unsigned(insn(to_signed(rs1)))
}

/// `sha512sum0`, the sum0 transformation of the SHA-512 compression function
/// (section 3.39).
#[inline]
pub fn sha512sum0(rs1: u64, insn: impl Fn(i64) -> i64) -> (rd: u64)
    requires
        insn.requires((as_signed(rs1),)),
    ensures
        insn.ensures((as_signed(rs1),), as_signed(rd)),
{
    to_unsigned(insn(to_signed(rs1)))
}

/// `sha512sum1`, the sum1 transformation of the SHA-512 compression function
/// (section 3.40).
#[inline]
pub fn sha512sum1(rs1: u64, insn: impl Fn(i64) -> i64) -> (rd: u64)
    requires
        insn.requires((as_signed(rs1),)),
    ensures
        insn.ensures((as_signed(rs1),), as_signed(rd)),
{
    to_unsigned(insn(to_signed(rs1)))
}

/// A one-operand front end is a function of its operand wherever its primitive
/// is: if the primitive's contract admits one result for `rs1`, then whatever
/// two calls with this operand return, the two words are equal.
pub proof fn lemma_unary_results_agree<F: Fn(i64) -> i64>(insn: F, rs1: u64, rd1: u64, rd2: u64)
    requires
        is_determined_unary(insn, as_signed(rs1)),
        insn.ensures((as_signed(rs1),), as_signed(rd1)),
        insn.ensures((as_signed(rs1),), as_signed(rd2)),
    ensures
        rd1 == rd2,
{
    lemma_signed_reading_is_injective(rd1, rd2);
}

} // verus!
