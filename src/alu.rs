use crate::isa::Operation;
use vstd::prelude::*;

verus! {

/// Status register bit: carry.
pub const CARRYF: u16 = 1;

/// Status register bit: zero.
pub const ZEROF: u16 = 2;

/// Status register bit: negative.
pub const NEGF: u16 = 4;

/// Status register bit: overflow.
pub const OVERF: u16 = 0x100;

/// The bits of an operand of the given width (byte when `bw`).
pub open spec fn mask_of(bw: bool) -> u16 {
    if bw {
        0xff
    } else {
        0xffff
    }
}

/// The sign bit of an operand of the given width.
pub open spec fn sign_of(bw: bool) -> u16 {
    if bw {
        0x80
    } else {
        0x8000
    }
}

/// `sr` with the bits of `flag` set or cleared.
pub open spec fn flag_set(sr: u16, flag: u16, on: bool) -> u16 {
    if on {
        sr | flag
    } else {
        sr & !flag
    }
}

/// Whether a flag is set in `sr`.
pub open spec fn flag_of(sr: u16, flag: u16) -> bool {
    sr & flag != 0
}

/// Zero and Negative from a result of the given width; other bits kept.
pub open spec fn zn_spec(sr: u16, v: u16, bw: bool) -> u16 {
    flag_set(flag_set(sr, ZEROF, v & mask_of(bw) == 0), NEGF, v & sign_of(bw) != 0)
}

/// Zero, Negative, Carry and Overflow all set from an operation's outcome.
pub open spec fn all_flags(sr: u16, v: u16, bw: bool, c: bool, ov: bool) -> u16 {
    flag_set(flag_set(zn_spec(sr, v, bw), CARRYF, c), OVERF, ov)
}

/// The carry bit of `sr` as 0 or 1.
pub open spec fn carry_in(sr: u16) -> u16 {
    if flag_of(sr, CARRYF) {
        1
    } else {
        0
    }
}

/// Binary addition `a + b + cin` at the given width: the result and the
/// status register with all four flags computed from the operands.
pub open spec fn arith_spec(bw: bool, a: u16, b: u16, cin: u16, sr: u16) -> (u16, u16) {
    let m = mask_of(bw);
    let s = sign_of(bw);
    let sum = (a & m) as int + (b & m) as int + cin as int;
    let v = (sum % (m as int + 1)) as u16;
    let ov = ((a & s) != 0) == ((b & s) != 0) && ((v & s) != 0) != ((a & s) != 0);
    (v, all_flags(sr, v, bw, sum > m as int, ov))
}

/// One decimal digit of a packed-BCD sum: the digit and the carry out.
pub open spec fn bcd_digit_spec(a: u16, b: u16, c: u16) -> (u16, u16) {
    let s = a + b + c;
    if s > 9 {
        (((s + 6) as u16) & 0xf, 1)
    } else {
        (s as u16, 0)
    }
}

/// Packed-BCD addition of `a`, `b` and the carry of `sr`, digit by digit
/// from the lowest; two digits for a byte, four for a word. Zero, Negative
/// and Carry come from the outcome; Overflow is kept.
pub open spec fn dadd_spec(bw: bool, a: u16, b: u16, sr: u16) -> (u16, u16) {
    let (d0, c1) = bcd_digit_spec(a & 0xf, b & 0xf, carry_in(sr));
    let (d1, c2) = bcd_digit_spec((a >> 4u16) & 0xf, (b >> 4u16) & 0xf, c1);
    let (d2, c3) = bcd_digit_spec((a >> 8u16) & 0xf, (b >> 8u16) & 0xf, c2);
    let (d3, c4) = bcd_digit_spec((a >> 12u16) & 0xf, (b >> 12u16) & 0xf, c3);
    let v = if bw {
        d0 | (d1 << 4u16)
    } else {
        d0 | (d1 << 4u16) | (d2 << 8u16) | (d3 << 12u16)
    };
    let c = if bw {
        c2
    } else {
        c4
    };
    (v, flag_set(zn_spec(sr, v, bw), CARRYF, c != 0))
}

/// The value an operation produces from its source `src` and destination
/// `dst` operands, and the status register after it. Single-operand
/// operations work on `dst`. Operations that set no flags return `sr`.
pub open spec fn compute_spec(op: Operation, bw: bool, src: u16, dst: u16, sr: u16) -> (u16, u16) {
    let m = mask_of(bw);
    let s = sign_of(bw);
    match op {
        Operation::Mov => (src & m, sr),
        Operation::Add => arith_spec(bw, src, dst, 0, sr),
        Operation::Addc => arith_spec(bw, src, dst, carry_in(sr), sr),
        Operation::Subc => arith_spec(bw, !src, dst, carry_in(sr), sr),
        Operation::Sub => arith_spec(bw, !src, dst, 1, sr),
        Operation::Cmp => arith_spec(bw, !src, dst, 1, sr),
        Operation::Dadd => dadd_spec(bw, src, dst, sr),
        Operation::Bit => {
            let v = src & dst & m;
            (v, all_flags(sr, v, bw, v != 0, false))
        },
        Operation::And => {
            let v = src & dst & m;
            (v, all_flags(sr, v, bw, v != 0, false))
        },
        Operation::Bic => (dst & !src & m, sr),
        Operation::Bis => ((dst | src) & m, sr),
        Operation::Xor => {
            let v = (src ^ dst) & m;
            (v, all_flags(sr, v, bw, v != 0, (src & s) != 0 && (dst & s) != 0))
        },
        Operation::Rrc => {
            let d = dst & m;
            let v = (d >> 1u16) | (if flag_of(sr, CARRYF) {
                s
            } else {
                0
            });
            (v, all_flags(sr, v, bw, d & 1 != 0, false))
        },
        Operation::Rra => {
            let d = dst & m;
            let v = (d >> 1u16) | (d & s);
            (v, all_flags(sr, v, bw, d & 1 != 0, false))
        },
        Operation::Swpb => ((dst >> 8u16) | (dst << 8u16), sr),
        Operation::Sxt => (
            if dst & 0x80 != 0 {
                dst | 0xff00
            } else {
                dst & 0xff
            },
            sr,
        ),
        _ => (dst, sr),
    }
}

/// The bits of an operand of the given width.
pub fn mask(bw: bool) -> (r: u16)
    ensures
        r == mask_of(bw),
{
    if bw {
        0xff
    } else {
        0xffff
    }
}

/// The sign bit of an operand of the given width.
pub fn sign(bw: bool) -> (r: u16)
    ensures
        r == sign_of(bw),
{
    if bw {
        0x80
    } else {
        0x8000
    }
}

/// Sets or clears the bits of `flag` in `sr`.
pub fn with_flag(sr: u16, flag: u16, on: bool) -> (r: u16)
    ensures
        r == flag_set(sr, flag, on),
{
    if on {
        sr | flag
    } else {
        sr & !flag
    }
}

/// Zero and Negative from `v` at the given width.
pub fn result_flags(sr: u16, v: u16, bw: bool) -> (r: u16)
    ensures
        r == zn_spec(sr, v, bw),
{
    let m: u16 = if bw {
        0xff
    } else {
        0xffff
    };
    let s: u16 = if bw {
        0x80
    } else {
        0x8000
    };
    with_flag(with_flag(sr, ZEROF, v & m == 0), NEGF, v & s != 0)
}

/// Zero, Negative, Carry and Overflow at once.
pub fn set_all_flags(sr: u16, v: u16, bw: bool, c: bool, ov: bool) -> (r: u16)
    ensures
        r == all_flags(sr, v, bw, c, ov),
{
    with_flag(with_flag(result_flags(sr, v, bw), CARRYF, c), OVERF, ov)
}

/// Binary addition with carry in, at the given width.
pub fn arith(bw: bool, a: u16, b: u16, cin: u16, sr: u16) -> (r: (u16, u16))
    requires
        cin <= 1,
    ensures
        r == arith_spec(bw, a, b, cin, sr),
{
    let m: u16 = if bw {
        0xff
    } else {
        0xffff
    };
    let s: u16 = if bw {
        0x80
    } else {
        0x8000
    };
    let sum: u32 = (a & m) as u32 + (b & m) as u32 + cin as u32;
    let v = (sum % (m as u32 + 1)) as u16;
    let ov = ((a & s) != 0) == ((b & s) != 0) && ((v & s) != 0) != ((a & s) != 0);
    (v, set_all_flags(sr, v, bw, sum > m as u32, ov))
}

/// One digit of a packed-BCD sum.
pub fn bcd_digit(a: u16, b: u16, c: u16) -> (r: (u16, u16))
    requires
        a < 16,
        b < 16,
        c <= 1,
    ensures
        r == bcd_digit_spec(a, b, c),
        r.0 < 16,
        r.1 <= 1,
{
    let s = a + b + c;
    if s > 9 {
        let t: u16 = s + 6;
        let d = t & 0xf;
        assert(d < 16) by (bit_vector)
            requires
                d == t & 0xf,
        ;
        (d, 1)
    } else {
        (s, 0)
    }
}

/// Packed-BCD addition with the carry of `sr`.
pub fn decimal_add(bw: bool, a: u16, b: u16, sr: u16) -> (r: (u16, u16))
    ensures
        r == dadd_spec(bw, a, b, sr),
{
    assert(a & 0xf < 16 && b & 0xf < 16 && (a >> 4u16) & 0xf < 16 && (b >> 4u16) & 0xf < 16
        && (a >> 8u16) & 0xf < 16 && (b >> 8u16) & 0xf < 16 && (a >> 12u16) & 0xf < 16 && (b
        >> 12u16) & 0xf < 16) by (bit_vector);
    let cin: u16 = if sr & CARRYF != 0 {
        1
    } else {
        0
    };
    let (d0, c1) = bcd_digit(a & 0xf, b & 0xf, cin);
    let (d1, c2) = bcd_digit((a >> 4) & 0xf, (b >> 4) & 0xf, c1);
    let (d2, c3) = bcd_digit((a >> 8) & 0xf, (b >> 8) & 0xf, c2);
    let (d3, c4) = bcd_digit((a >> 12) & 0xf, (b >> 12) & 0xf, c3);
    let v = if bw {
        d0 | (d1 << 4)
    } else {
        d0 | (d1 << 4) | (d2 << 8) | (d3 << 12)
    };
    let c = if bw {
        c2
    } else {
        c4
    };
    (v, with_flag(result_flags(sr, v, bw), CARRYF, c != 0))
}

} // verus!
