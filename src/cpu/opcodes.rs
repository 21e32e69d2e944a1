use vstd::prelude::*;

verus! {

/// An entry of the opcode table.
#[derive(PartialEq, Eq, Structural, Clone, Copy, Debug)]
pub struct OpCode {
    /// The opcode byte.
    pub op: u8,
    /// Instruction length in bytes, the opcode included.
    pub length: u8,
    /// T-cycles taken; for a conditional jump, call or return, when the
    /// condition fails.
    pub cycles: u32,
}

/// The length of the instruction that starts with `op`.
pub open spec fn op_length(op: u8) -> u8 {
    match op {
        0x01 | 0x11 | 0x21 | 0x31 | 0x08 | 0xC2 | 0xC3 | 0xC4 | 0xCA | 0xCC | 0xCD | 0xD2 | 0xD4
        | 0xDA | 0xDC | 0xEA | 0xFA => 3,
        0x06 | 0x0E | 0x16 | 0x1E | 0x26 | 0x2E | 0x36 | 0x3E | 0xC6 | 0xCE | 0xD6 | 0xDE | 0xE6
        | 0xEE | 0xF6 | 0xFE | 0xE0 | 0xF0 | 0xE8 | 0xF8 | 0x10 | 0x18 | 0x20 | 0x28 | 0x30 | 0x38
        | 0xCB => 2,
        _ => 1,
    }
}

/// The T-cycles of `op`; for a conditional instruction, when not taken.
pub open spec fn op_cycles(op: u8) -> u32 {
    match op {
        0x08 => 20,
        0xCD => 24,
        0xC3 | 0xC5 | 0xD5 | 0xE5 | 0xF5 | 0xC7 | 0xCF | 0xD7 | 0xDF | 0xE7 | 0xEF | 0xF7 | 0xFF
        | 0xC9 | 0xD9 | 0xE8 | 0xEA | 0xFA => 16,
        0x01 | 0x11 | 0x21 | 0x31 | 0x18 | 0x34 | 0x35 | 0x36 | 0xC1 | 0xD1 | 0xE1 | 0xF1 | 0xC2
        | 0xCA | 0xD2 | 0xDA | 0xC4 | 0xCC | 0xD4 | 0xDC | 0xE0 | 0xF0 | 0xF8 => 12,
        0x02 | 0x12 | 0x22 | 0x32 | 0x03 | 0x13 | 0x23 | 0x33 | 0x0B | 0x1B | 0x2B | 0x3B | 0x09
        | 0x19 | 0x29 | 0x39 | 0x0A | 0x1A | 0x2A | 0x3A | 0x06 | 0x0E | 0x16 | 0x1E | 0x26 | 0x2E
        | 0x3E | 0x20 | 0x28 | 0x30 | 0x38 | 0xC0 | 0xC8 | 0xD0 | 0xD8 | 0xC6 | 0xCE | 0xD6 | 0xDE
        | 0xE6 | 0xEE | 0xF6 | 0xFE | 0xE2 | 0xF2 | 0xF9 => 8,
        0x70 | 0x71 | 0x72 | 0x73 | 0x74 | 0x75 | 0x77 => 8,
        _ => if 0x40 <= op <= 0xBF && op % 8 == 6 && op != 0x76 {
            8
        } else {
            4
        },
    }
}

/// Opcodes whose work and timing depend on a flag: JR, JP, CALL and RET
/// with NZ, Z, NC or C.
pub open spec fn is_conditional(op: u8) -> bool {
    match op {
        0x20 | 0x28 | 0x30 | 0x38 | 0xC2 | 0xCA | 0xD2 | 0xDA | 0xC4 | 0xCC | 0xD4 | 0xDC | 0xC0
        | 0xC8 | 0xD0 | 0xD8 => true,
        _ => false,
    }
}

/// The T-cycles of a conditional instruction whose condition holds.
pub open spec fn taken_cycles(op: u8) -> u32 {
    match op {
        0x20 | 0x28 | 0x30 | 0x38 => 12,
        0xC2 | 0xCA | 0xD2 | 0xDA => 16,
        0xC4 | 0xCC | 0xD4 | 0xDC => 24,
        _ => 20,
    }
}

/// The T-cycles of a CB-prefixed instruction, the prefix included: 8 on a
/// register, 16 on (HL), 12 for BIT on (HL).
pub open spec fn cb_cycles(op: u8) -> u32 {
    if op % 8 == 6 {
        if 0x40 <= op <= 0x7F {
            12
        } else {
            16
        }
    } else {
        8
    }
}

impl OpCode {
    pub fn new(op: u8, length: u8, cycles: u32) -> (r: OpCode)
        ensures
            r == (OpCode { op, length, cycles }),
    {
        OpCode { op, length, cycles }
    }
}

/// The table entry of a base opcode.
pub fn opcode(op: u8) -> (r: OpCode)
    ensures
        r == (OpCode { op, length: op_length(op), cycles: op_cycles(op) }),
{
    let length: u8 = match op {
        0x01 | 0x11 | 0x21 | 0x31 | 0x08 | 0xC2 | 0xC3 | 0xC4 | 0xCA | 0xCC | 0xCD | 0xD2 | 0xD4
        | 0xDA | 0xDC | 0xEA | 0xFA => 3,
        0x06 | 0x0E | 0x16 | 0x1E | 0x26 | 0x2E | 0x36 | 0x3E | 0xC6 | 0xCE | 0xD6 | 0xDE | 0xE6
        | 0xEE | 0xF6 | 0xFE | 0xE0 | 0xF0 | 0xE8 | 0xF8 | 0x10 | 0x18 | 0x20 | 0x28 | 0x30 | 0x38
        | 0xCB => 2,
        _ => 1,
    };
    let cycles: u32 = match op {
        0x08 => 20,
        0xCD => 24,
        0xC3 | 0xC5 | 0xD5 | 0xE5 | 0xF5 | 0xC7 | 0xCF | 0xD7 | 0xDF | 0xE7 | 0xEF | 0xF7 | 0xFF
        | 0xC9 | 0xD9 | 0xE8 | 0xEA | 0xFA => 16,
        0x01 | 0x11 | 0x21 | 0x31 | 0x18 | 0x34 | 0x35 | 0x36 | 0xC1 | 0xD1 | 0xE1 | 0xF1 | 0xC2
        | 0xCA | 0xD2 | 0xDA | 0xC4 | 0xCC | 0xD4 | 0xDC | 0xE0 | 0xF0 | 0xF8 => 12,
        0x02 | 0x12 | 0x22 | 0x32 | 0x03 | 0x13 | 0x23 | 0x33 | 0x0B | 0x1B | 0x2B | 0x3B | 0x09
        | 0x19 | 0x29 | 0x39 | 0x0A | 0x1A | 0x2A | 0x3A | 0x06 | 0x0E | 0x16 | 0x1E | 0x26 | 0x2E
        | 0x3E | 0x20 | 0x28 | 0x30 | 0x38 | 0xC0 | 0xC8 | 0xD0 | 0xD8 | 0xC6 | 0xCE | 0xD6 | 0xDE
        | 0xE6 | 0xEE | 0xF6 | 0xFE | 0xE2 | 0xF2 | 0xF9 => 8,
        0x70 | 0x71 | 0x72 | 0x73 | 0x74 | 0x75 | 0x77 => 8,
        _ => if 0x40 <= op && op <= 0xBF && op % 8 == 6 && op != 0x76 {
            8
        } else {
            4
        },
    };
    OpCode::new(op, length, cycles)
}

/// The table entry of a CB-prefixed opcode.
pub fn cb_opcode(op: u8) -> (r: OpCode)
    ensures
        r == (OpCode { op, length: 2, cycles: cb_cycles(op) }),
{
    let cycles: u32 = if op % 8 == 6 {
        if 0x40 <= op && op <= 0x7F {
            12
        } else {
            16
        }
    } else {
        8
    };
    OpCode::new(op, 2, cycles)
}

} // verus!
