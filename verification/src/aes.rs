//! Front ends for the AES instructions of RV64 (extensions Zkne and Zknd).
//!
//! Each function takes the operands as unsigned words and the primitive that
//! executes the instruction. It hands the primitive the signed readings of the
//! operands, in the order `rs1`, `rs2`, calls it once, and returns the unsigned
//! reading of what came back. What the primitive demands before it may be
//! called (on hardware: that the extension is present) is demanded of the
//! caller unchanged.
//!
//! The instructions are those of "RISC-V Cryptography Extensions Volume I:
//! Scalar & Entropy Source Instructions", version 1.0.1; the sections named
//! below are sections of that document.

use vstd::prelude::*;
use crate::word::{as_signed, lemma_signed_reading_is_injective, to_signed, to_unsigned};

verus! {

/// The largest round number that `aes64ks1i` encodes; the encodings above it
/// are reserved.
pub const MAX_ROUND_NUMBER: u8 = 10;

/// Whether the contract of a two-operand primitive admits at most one result
/// for the operands `a` and `b`.
pub open spec fn is_determined_binary<F: Fn(i64, i64) -> i64>(insn: F, a: i64, b: i64) -> bool {
    forall|r1: i64, r2: i64|
        #[trigger] insn.ensures((a, b), r1) && #[trigger] insn.ensures((a, b), r2) ==> r1 == r2
}

/// Whether the contract of a primitive with an immediate admits at most one
/// result for the operand `a` and the immediate `imm`.
pub open spec fn is_determined_immediate<F: Fn(i64, i32) -> i64>(
    insn: F,
    a: i64,
    imm: i32,
) -> bool {
    forall|r1: i64, r2: i64|
        #[trigger] insn.ensures((a, imm), r1) && #[trigger] insn.ensures((a, imm), r2) ==> r1
            == r2
}

/// `aes64es`, the final round of AES encryption (section 3.7, extension Zkne).
///
/// `rs1` and `rs2` hold the AES state; the instruction applies ShiftRows and
/// SubBytes and yields one half of the next state.
#[inline]
pub fn aes64es(rs1: u64, rs2: u64, insn: impl Fn(i64, i64) -> i64) -> (rd: u64)
    requires
        insn.requires((as_signed(rs1), as_signed(rs2))),
    ensures
        insn.ensures((as_signed(rs1), as_signed(rs2)), as_signed(rd)),
{
    to_unsigned(insn(to_signed(rs1), to_signed(rs2)))
}

/// `aes64esm`, a middle round of AES encryption (section 3.8, extension Zkne).
///
/// `rs1` and `rs2` hold the AES state; the instruction applies ShiftRows,
/// SubBytes and MixColumns and yields one half of the next state.
#[inline]
pub fn aes64esm(rs1: u64, rs2: u64, insn: impl Fn(i64, i64) -> i64) -> (rd: u64)
    requires
        insn.requires((as_signed(rs1), as_signed(rs2))),
    ensures
        insn.ensures((as_signed(rs1), as_signed(rs2)), as_signed(rd)),
{
    to_unsigned(insn(to_signed(rs1), to_signed(rs2)))
}

/// `aes64ds`, the final round of AES decryption (section 3.5, extension Zknd).
///
/// `rs1` and `rs2` hold the AES state; the instruction applies the inverse
/// ShiftRows and SubBytes and yields one half of the next state.
#[inline]
pub fn aes64ds(rs1: u64, rs2: u64, insn: impl Fn(i64, i64) -> i64) -> (rd: u64)
    requires
        insn.requires((as_signed(rs1), as_signed(rs2))),
    ensures
        insn.ensures((as_signed(rs1), as_signed(rs2)), as_signed(rd)),
{
    to_unsigned(insn(to_signed(rs1), to_signed(rs2)))
}

/// `aes64dsm`, a middle round of AES decryption (section 3.6, extension Zknd).
///
/// `rs1` and `rs2` hold the AES state; the instruction applies the inverse
/// ShiftRows, SubBytes and MixColumns and yields one half of the next state.
#[inline]
pub fn aes64dsm(rs1: u64, rs2: u64, insn: impl Fn(i64, i64) -> i64) -> (rd: u64)
    requires
        insn.requires((as_signed(rs1), as_signed(rs2))),
    ensures
        insn.ensures((as_signed(rs1), as_signed(rs2)), as_signed(rd)),
{
    to_unsigned(insn(to_signed(rs1), to_signed(rs2)))
}

/// The instruction `aes64ks1i`, as the bearer of the round numbers that it
/// encodes.
pub struct Aes64ks1i;

/// `Aes64ks1i: Encodes<RNUM>` says that the instruction has an encoding for the
/// round number `RNUM`. It holds for 0 to 10 and for no other number, so a call
/// of [`aes64ks1i`] with any other round number does not compile.
pub trait Encodes<const RNUM: u8> {
    /// An encoded round number is at most [`MAX_ROUND_NUMBER`].
    proof fn lemma_round_number_in_range()
        ensures
            RNUM <= MAX_ROUND_NUMBER,
    ;
}

impl Encodes<0> for Aes64ks1i {
    proof fn lemma_round_number_in_range() {
    }
}

impl Encodes<1> for Aes64ks1i {
    proof fn lemma_round_number_in_range() {
    }
}

impl Encodes<2> for Aes64ks1i {
    proof fn lemma_round_number_in_range() {
    }
}

impl Encodes<3> for Aes64ks1i {
    proof fn lemma_round_number_in_range() {
    }
}

impl Encodes<4> for Aes64ks1i {
    proof fn lemma_round_number_in_range() {
    }
}

impl Encodes<5> for Aes64ks1i {
    proof fn lemma_round_number_in_range() {
    }
}

impl Encodes<6> for Aes64ks1i {
    proof fn lemma_round_number_in_range() {
    }
}

impl Encodes<7> for Aes64ks1i {
    proof fn lemma_round_number_in_range() {
    }
}

impl Encodes<8> for Aes64ks1i {
    proof fn lemma_round_number_in_range() {
    }
}

impl Encodes<9> for Aes64ks1i {
    proof fn lemma_round_number_in_range() {
    }
}

impl Encodes<10> for Aes64ks1i {
    proof fn lemma_round_number_in_range() {
    }
}

/// `aes64ks1i`, the first half of an AES key-schedule step (section 3.10,
/// extension Zkne or Zknd): rotation, SubBytes and the round constant.
///
/// `RNUM` selects the round and is fixed where the call is written. The
/// instruction encodes the round numbers 0 to 10 only; the bound on `RNUM`
/// admits no other. The primitive receives `RNUM` as its 32-bit immediate.
#[inline]
pub fn aes64ks1i<const RNUM: u8>(rs1: u64, insn: impl Fn(i64, i32) -> i64) -> (rd: u64) where
    Aes64ks1i: Encodes<RNUM>,

    requires
        insn.requires((as_signed(rs1), RNUM as i32)),
    ensures
        RNUM <= MAX_ROUND_NUMBER,
        insn.ensures((as_signed(rs1), RNUM as i32), as_signed(rd)),
{
    proof {
        <Aes64ks1i as Encodes<RNUM>>::lemma_round_number_in_range();
    }
    to_unsigned(insn(to_signed(rs1), RNUM as i32))
}

/// `aes64ks2`, the second half of an AES key-schedule step (section 3.11,
/// extension Zkne or Zknd): the XOR of the key words.
#[inline]
pub fn aes64ks2(rs1: u64, rs2: u64, insn: impl Fn(i64, i64) -> i64) -> (rd: u64)
    requires
        insn.requires((as_signed(rs1), as_signed(rs2))),
    ensures
        insn.ensures((as_signed(rs1), as_signed(rs2)), as_signed(rd)),
{
    to_unsigned(insn(to_signed(rs1), to_signed(rs2)))
}

/// A two-operand front end is a function of its operands wherever its
/// primitive is: if the primitive's contract admits one result for `rs1` and
/// `rs2`, then whatever two calls with these operands return, the two words
/// are equal.
pub proof fn lemma_binary_results_agree<F: Fn(i64, i64) -> i64>(
    insn: F,
    rs1: u64,
    rs2: u64,
    rd1: u64,
    rd2: u64,
)
    requires
        is_determined_binary(insn, as_signed(rs1), as_signed(rs2)),
        insn.ensures((as_signed(rs1), as_signed(rs2)), as_signed(rd1)),
        insn.ensures((as_signed(rs1), as_signed(rs2)), as_signed(rd2)),
    ensures
        rd1 == rd2,
{
    lemma_signed_reading_is_injective(rd1, rd2);
}

/// `aes64ks1i` is a function of its operand and its round number wherever its
/// primitive is: if the primitive's contract admits one result for `rs1` and
/// `rnum`, then whatever two calls with these return, the two words are equal.
pub proof fn lemma_immediate_results_agree<F: Fn(i64, i32) -> i64>(
    insn: F,
    rs1: u64,
    rnum: u8,
    rd1: u64,
    rd2: u64,
)
    requires
        is_determined_immediate(insn, as_signed(rs1), rnum as i32),
        insn.ensures((as_signed(rs1), rnum as i32), as_signed(rd1)),
        insn.ensures((as_signed(rs1), rnum as i32), as_signed(rd2)),
    ensures
        rd1 == rd2,
{
    lemma_signed_reading_is_injective(rd1, rd2);
}

} // verus!
