use vstd::prelude::*;
use super::registers::{word, Registers};

verus! {

/// Flags after an 8-bit addition of `v` and a carry-in `c` to A.
pub open spec fn add_flags(r: Registers, v: u8, c: int) -> Registers {
    let sum = r.a as int + v as int + c;
    Registers {
        a: (sum % 256) as u8,
        zf: sum % 256 == 0,
        nf: false,
        hf: (r.a & 0x0F) as int + (v & 0x0F) as int + c > 0x0F,
        cf: sum > 0xFF,
        ..r
    }
}

/// A = A + v (ADD).
pub open spec fn add8(r: Registers, v: u8) -> Registers {
    add_flags(r, v, 0)
}

/// A = A + v + Carry (ADC).
pub open spec fn adc8(r: Registers, v: u8) -> Registers {
    add_flags(r, v, if r.cf { 1 } else { 0 })
}

/// The registers after subtracting `v` and a borrow-in `c` from A; with
/// `keep` A is left as it was (CP).
pub open spec fn sub_flags(r: Registers, v: u8, c: int, keep: bool) -> Registers {
    let diff = r.a as int - v as int - c;
    let res = ((diff + 512) % 256) as u8;
    Registers {
        a: if keep { r.a } else { res },
        zf: res == 0,
        nf: true,
        hf: ((r.a & 0x0F) as int) < (v & 0x0F) as int + c,
        cf: diff < 0,
        ..r
    }
}

/// A = A - v (SUB).
pub open spec fn sub8(r: Registers, v: u8) -> Registers {
    sub_flags(r, v, 0, false)
}

/// A = A - v - Carry (SBC).
pub open spec fn sbc8(r: Registers, v: u8) -> Registers {
    sub_flags(r, v, if r.cf { 1 } else { 0 }, false)
}

/// Compare A with v: the flags of A - v, A kept (CP).
pub open spec fn cp8(r: Registers, v: u8) -> Registers {
    sub_flags(r, v, 0, true)
}

/// A = `res`, with Z from it, N clear, and H and C as given.
pub open spec fn logic_flags(r: Registers, res: u8, h: bool) -> Registers {
    Registers { a: res, zf: res == 0, nf: false, hf: h, cf: false, ..r }
}

pub open spec fn and8(r: Registers, v: u8) -> Registers {
    logic_flags(r, r.a & v, true)
}

pub open spec fn xor8(r: Registers, v: u8) -> Registers {
    logic_flags(r, r.a ^ v, false)
}

pub open spec fn or8(r: Registers, v: u8) -> Registers {
    logic_flags(r, r.a | v, false)
}

/// The operation of ALU group `k` (bits 3-5 of opcodes 80-BF and C6-FE):
/// ADD, ADC, SUB, SBC, AND, XOR, OR, CP.
pub open spec fn alu_group(k: u8, r: Registers, v: u8) -> Registers {
    if k == 0 {
        add8(r, v)
    } else if k == 1 {
        adc8(r, v)
    } else if k == 2 {
        sub8(r, v)
    } else if k == 3 {
        sbc8(r, v)
    } else if k == 4 {
        and8(r, v)
    } else if k == 5 {
        xor8(r, v)
    } else if k == 6 {
        or8(r, v)
    } else {
        cp8(r, v)
    }
}

/// INC of an 8-bit value: the result, and the flags (Carry kept).
pub open spec fn inc8(v: u8) -> u8 {
    ((v as int + 1) % 256) as u8
}

pub open spec fn inc8_flags(r: Registers, v: u8) -> Registers {
    Registers { zf: inc8(v) == 0, nf: false, hf: (v & 0x0F) + 1 > 0x0F, ..r }
}

/// DEC of an 8-bit value: the result, and the flags (Carry kept).
pub open spec fn dec8(v: u8) -> u8 {
    ((v as int + 255) % 256) as u8
}

pub open spec fn dec8_flags(r: Registers, v: u8) -> Registers {
    Registers { zf: dec8(v) == 0, nf: true, hf: v & 0x0F == 0, ..r }
}

/// HL = HL + v (ADD HL, r16); Zero kept.
pub open spec fn add16(r: Registers, v: u16) -> Registers {
    let hl = word(r.h, r.l);
    let sum = hl as int + v as int;
    let res = (sum % 0x10000) as u16;
    Registers {
        h: (res as int / 256) as u8,
        l: (res as int % 256) as u8,
        nf: false,
        hf: (hl & 0x0FFF) as int + (v & 0x0FFF) as int > 0x0FFF,
        cf: sum > 0xFFFF,
        ..r
    }
}

/// The correction DAA adds to (or, after a subtraction, takes from) A.
pub open spec fn daa_adjust(r: Registers) -> u8 {
    let low: u8 = if r.hf || (!r.nf && (r.a & 0x0F) > 0x09) { 0x06 } else { 0 };
    let high: u8 = if r.cf || (!r.nf && r.a > 0x99) { 0x60 } else { 0 };
    (low + high) as u8
}

/// DAA: adjust A to binary-coded decimal after an addition or subtraction.
/// Carry is set when the high digit was adjusted; Half-Carry is cleared.
pub open spec fn daa(r: Registers) -> Registers {
    let adj = daa_adjust(r) as int;
    let a = if r.nf { ((r.a as int - adj + 256) % 256) as u8 } else { ((r.a as int + adj) % 256) as u8 };
    Registers {
        a,
        zf: a == 0,
        hf: false,
        cf: r.cf || (!r.nf && r.a > 0x99),
        ..r
    }
}

/// Flags after a rotate or shift with result `res` and carry-out `c`.
pub open spec fn shift_flags(r: Registers, res: u8, c: bool) -> Registers {
    Registers { zf: res == 0, nf: false, hf: false, cf: c, ..r }
}

/// RLC: rotate left, bit 7 to Carry and to bit 0.
pub open spec fn rlc(v: u8) -> u8 {
    ((v as int * 2) % 256 + v as int / 128) as u8
}

/// RL: rotate left through Carry.
pub open spec fn rl(v: u8, c: bool) -> u8 {
    ((v as int * 2) % 256 + if c { 1int } else { 0 }) as u8
}

/// RRC: rotate right, bit 0 to Carry and to bit 7.
pub open spec fn rrc(v: u8) -> u8 {
    (v as int / 2 + (v as int % 2) * 128) as u8
}

/// RR: rotate right through Carry.
pub open spec fn rr(v: u8, c: bool) -> u8 {
    (v as int / 2 + if c { 128int } else { 0 }) as u8
}

/// SLA: shift left, bit 0 cleared.
pub open spec fn sla(v: u8) -> u8 {
    ((v as int * 2) % 256) as u8
}

/// SRA: shift right, bit 7 kept.
pub open spec fn sra(v: u8) -> u8 {
    (v as int / 2 + (v as int / 128) * 128) as u8
}

/// SRL: shift right, bit 7 cleared.
pub open spec fn srl(v: u8) -> u8 {
    (v as int / 2) as u8
}

/// SWAP: exchange the two nibbles.
pub open spec fn swap(v: u8) -> u8 {
    ((v as int % 16) * 16 + v as int / 16) as u8
}

/// Bit `b` of `v` is set.
pub open spec fn bit_set(v: u8, b: u8) -> bool {
    (v as int / pow2_8(b)) % 2 == 1
}

pub open spec fn pow2_8(b: u8) -> int {
    if b == 0 {
        1
    } else if b == 1 {
        2
    } else if b == 2 {
        4
    } else if b == 3 {
        8
    } else if b == 4 {
        16
    } else if b == 5 {
        32
    } else if b == 6 {
        64
    } else {
        128
    }
}

/// `v` with bit `b` cleared (RES).
pub open spec fn res_bit(v: u8, b: u8) -> u8 {
    if bit_set(v, b) { (v - pow2_8(b)) as u8 } else { v }
}

/// `v` with bit `b` set (SET).
pub open spec fn set_bit(v: u8, b: u8) -> u8 {
    if bit_set(v, b) { v } else { (v + pow2_8(b)) as u8 }
}

/// The rotate or shift of CB group `y` (CB 00-3F): RLC, RRC, RL, RR, SLA,
/// SRA, SWAP, SRL; `c` is the Carry flag before it.
pub open spec fn cb_shift(y: u8, v: u8, c: bool) -> u8 {
    if y == 0 {
        rlc(v)
    } else if y == 1 {
        rrc(v)
    } else if y == 2 {
        rl(v, c)
    } else if y == 3 {
        rr(v, c)
    } else if y == 4 {
        sla(v)
    } else if y == 5 {
        sra(v)
    } else if y == 6 {
        swap(v)
    } else {
        srl(v)
    }
}

/// The carry-out of CB group `y`: bit 7 for left moves, bit 0 for right
/// moves, none for SWAP.
pub open spec fn cb_carry(y: u8, v: u8) -> bool {
    if y == 6 {
        false
    } else if y % 2 == 0 {
        v >= 0x80
    } else {
        v % 2 == 1
    }
}

} // verus!
