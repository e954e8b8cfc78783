use riscv64_zk::{sha512sig0, sha512sig1, sha512sum0, sha512sum1};
use std::cell::Cell;

// A stand-in for the instructions. It does not compute SHA-512: it flips every
// bit of its operand, so each result lies on the other side of the sign bit.

fn complement(rs1: i64) -> i64 {
    !rs1
}

#[test]
fn sha512sig0_hands_over_its_operand() {
    let seen = Cell::new(None);
    let rd = sha512sig0(0x8000_0000_0000_0000, |rs1| {
        seen.set(Some(rs1));
        -1
    });
    assert_eq!(seen.get(), Some(i64::MIN));
    assert_eq!(rd, 0xffff_ffff_ffff_ffff);
}

#[test]
fn sha512sig1_hands_over_its_operand() {
    let seen = Cell::new(None);
    let rd = sha512sig1(0xffff_ffff_ffff_ffff, |rs1| {
        seen.set(Some(rs1));
        i64::MIN
    });
    assert_eq!(seen.get(), Some(-1));
    assert_eq!(rd, 0x8000_0000_0000_0000);
}

#[test]
fn sha512sum0_hands_over_its_operand() {
    let seen = Cell::new(None);
    let rd = sha512sum0(0x0123_4567_89ab_cdef, |rs1| {
        seen.set(Some(rs1));
        -81_985_529_216_486_896
    });
    assert_eq!(seen.get(), Some(0x0123_4567_89ab_cdef));
    assert_eq!(rd, 0xfedc_ba98_7654_3210);
}

#[test]
fn sha512sum1_hands_over_its_operand() {
    let seen = Cell::new(None);
    let rd = sha512sum1(0xfedc_ba98_7654_3210, |rs1| {
        seen.set(Some(rs1));
        0x0123_4567_89ab_cdef
    });
    assert_eq!(seen.get(), Some(-81_985_529_216_486_896));
    assert_eq!(rd, 0x0123_4567_89ab_cdef);
}

#[test]
fn one_operand_front_ends_return_the_unsigned_reading_of_the_result() {
    assert_eq!(sha512sig0(0, complement), 0xffff_ffff_ffff_ffff);
    assert_eq!(sha512sig1(0xffff_ffff_ffff_ffff, complement), 0);
    assert_eq!(sha512sum0(0x7fff_ffff_ffff_ffff, complement), 0x8000_0000_0000_0000);
    assert_eq!(sha512sum1(0x0123_4567_89ab_cdef, complement), 0xfedc_ba98_7654_3210);
}

#[test]
fn sha512_front_ends_call_the_primitive_once() {
    let calls = Cell::new(0u32);
    let count = |rs1: i64| {
        calls.set(calls.get() + 1);
        rs1
    };
    sha512sig0(1, count);
    assert_eq!(calls.get(), 1);
    sha512sig1(1, count);
    assert_eq!(calls.get(), 2);
    sha512sum0(1, count);
    assert_eq!(calls.get(), 3);
    sha512sum1(1, count);
    assert_eq!(calls.get(), 4);
}

#[test]
fn sha512_front_ends_repeat_their_result_on_the_same_operand() {
    for rs1 in [0u64, 1, 0x8000_0000_0000_0000, 0x0123_4567_89ab_cdef, 0xffff_ffff_ffff_ffff] {
        assert_eq!(sha512sig0(rs1, complement), sha512sig0(rs1, complement));
        assert_eq!(sha512sig1(rs1, complement), sha512sig1(rs1, complement));
        assert_eq!(sha512sum0(rs1, complement), sha512sum0(rs1, complement));
        assert_eq!(sha512sum1(rs1, complement), sha512sum1(rs1, complement));
    }
}

#[test]
fn sha512_front_ends_follow_a_primitive_that_changes_its_answer() {
    let next = Cell::new(0i64);
    let counter = |_rs1: i64| {
        next.set(next.get() - 1);
        next.get()
    };
    assert_eq!(sha512sum0(1, counter), 0xffff_ffff_ffff_ffff);
    assert_eq!(sha512sum0(1, counter), 0xffff_ffff_ffff_fffe);
}

#[test]
fn sha512_front_ends_are_reachable_by_their_module_path() {
    assert_eq!(riscv64_zk::sha512::sha512sig0(5, complement), 0xffff_ffff_ffff_fffa);
    assert_eq!(riscv64_zk::sha512::sha512sum1(6, complement), 0xffff_ffff_ffff_fff9);
}
