use vstd::prelude::*;

use crate::registers::{Reg, Reg16};

verus! {

/// The condition under which a jump, call or return is taken.
#[derive(Clone, Copy, Debug, PartialEq, Eq, Structural)]
pub enum JumpTypes {
    NotZero,
    Zero,
    NotCarry,
    Carry,
    Always,
}

/// One decoded instruction with its operands.
#[derive(Clone, Copy, Debug, PartialEq, Eq, Structural)]
pub enum Instruction {
    ADD(Reg),
    ADC(Reg),
    ADDHL(Reg16),
    SUB(Reg),
    SBC(Reg),
    AND(Reg),
    OR(Reg),
    XOR(Reg),
    CP(Reg),
    INC(Reg),
    DEC(Reg),
    CCF,
    SCF,
    RRA,
    RLA,
    RRCA,
    RLCA,
    CPL,
    BIT(Reg, u8),
    RESET(Reg, u8),
    SET(Reg, u8),
    SRL(Reg),
    RR(Reg),
    RL(Reg),
    RRC(Reg),
    RLC(Reg),
    SRA(Reg),
    SLA(Reg),
    SWAP(Reg),
    JP(JumpTypes),
    JR(JumpTypes),
    CALL(JumpTypes),
    RET(JumpTypes),
    /// `LD(destination, source)`.
    LD(Reg, Reg),
    PUSH(Reg16),
    POP(Reg16),
    HALT,
    NOP,
    /// An opcode that the emulator accepts and skips (STOP, and 0xF4).
    IDK,
    /// An emulator-only opcode (0xD3) that asks the host to stop.
    EXIT,
}

/// The operand of the three low bits of an opcode: B, C, D, E, H, L, (HL), A.
pub open spec fn slot(z: int) -> Reg {
    if z == 0 {
        Reg::B
    } else if z == 1 {
        Reg::C
    } else if z == 2 {
        Reg::D
    } else if z == 3 {
        Reg::E
    } else if z == 4 {
        Reg::H
    } else if z == 5 {
        Reg::L
    } else if z == 6 {
        Reg::Addr(Reg16::HL)
    } else {
        Reg::A
    }
}

/// The 16-bit register selected by two opcode bits in loads, INC/DEC and ADD HL.
pub open spec fn pair_sp(p: int) -> Reg16 {
    if p == 0 {
        Reg16::BC
    } else if p == 1 {
        Reg16::DE
    } else if p == 2 {
        Reg16::HL
    } else {
        Reg16::SP
    }
}

/// The pair selected by two opcode bits in PUSH and POP.
pub open spec fn pair_af(p: int) -> Reg16 {
    if p == 3 {
        Reg16::AF
    } else {
        pair_sp(p)
    }
}

/// The address pair selected by two opcode bits in `LD (rr),A` and `LD A,(rr)`.
pub open spec fn indirect(p: int) -> Reg16 {
    if p == 0 {
        Reg16::BC
    } else if p == 1 {
        Reg16::DE
    } else if p == 2 {
        Reg16::HLI
    } else {
        Reg16::HLD
    }
}

/// The condition selected by two opcode bits: NZ, Z, NC, C.
pub open spec fn condition(y: int) -> JumpTypes {
    if y == 0 {
        JumpTypes::NotZero
    } else if y == 1 {
        JumpTypes::Zero
    } else if y == 2 {
        JumpTypes::NotCarry
    } else {
        JumpTypes::Carry
    }
}

/// The accumulator operation selected by bits 5..3: ADD, ADC, SUB, SBC, AND, XOR, OR, CP.
pub open spec fn alu_op(y: int, r: Reg) -> Instruction {
    if y == 0 {
        Instruction::ADD(r)
    } else if y == 1 {
        Instruction::ADC(r)
    } else if y == 2 {
        Instruction::SUB(r)
    } else if y == 3 {
        Instruction::SBC(r)
    } else if y == 4 {
        Instruction::AND(r)
    } else if y == 5 {
        Instruction::XOR(r)
    } else if y == 6 {
        Instruction::OR(r)
    } else {
        Instruction::CP(r)
    }
}

/// The rotate or shift selected by bits 5..3 of a prefixed opcode.
pub open spec fn shift_op(y: int, r: Reg) -> Instruction {
    if y == 0 {
        Instruction::RLC(r)
    } else if y == 1 {
        Instruction::RRC(r)
    } else if y == 2 {
        Instruction::RL(r)
    } else if y == 3 {
        Instruction::RR(r)
    } else if y == 4 {
        Instruction::SLA(r)
    } else if y == 5 {
        Instruction::SRA(r)
    } else if y == 6 {
        Instruction::SWAP(r)
    } else {
        Instruction::SRL(r)
    }
}

/// The 0xCB-prefixed table: bits 7..6 pick rotate/shift, BIT, RES or SET,
/// bits 5..3 the operation or bit index, bits 2..0 the operand.
#[verifier::opaque]
pub open spec fn decode_prefixed(op: u8) -> Instruction {
    let x = op as int / 64;
    let y = (op as int / 8) % 8;
    let r = slot(op as int % 8);
    if x == 0 {
        shift_op(y, r)
    } else if x == 1 {
        Instruction::BIT(r, y as u8)
    } else if x == 2 {
        Instruction::RESET(r, y as u8)
    } else {
        Instruction::SET(r, y as u8)
    }
}

/// The unprefixed opcodes that decode to nothing: LD (a16),SP, DAA, RST, the
/// 0xCB prefix byte itself, RETI, the 0xFF00-page loads, ADD SP / LD HL,SP+e,
/// JP (HL), LD SP,HL, LD (a16),A / LD A,(a16), DI, EI, and the unused slots.
pub open spec fn is_gap(op: u8) -> bool {
    op == 0x08 || op == 0x27 || op == 0xC7 || op == 0xCB || op == 0xCF || op == 0xD7 || op
        == 0xD9 || op == 0xDB || op == 0xDD || op == 0xDF || op == 0xE0 || op == 0xE2 || op
        == 0xE3 || op == 0xE4 || op == 0xE7 || op == 0xE8 || op == 0xE9 || op == 0xEA || op
        == 0xEB || op == 0xEC || op == 0xED || op == 0xEF || op == 0xF0 || op == 0xF2 || op
        == 0xF3 || op == 0xF7 || op == 0xF8 || op == 0xF9 || op == 0xFA || op == 0xFB || op
        == 0xFC || op == 0xFD || op == 0xFF
}

/// The unprefixed table, read by the opcode's bit fields x = bits 7..6,
/// y = bits 5..3, z = bits 2..0 (p = y / 2, q = y % 2).
#[verifier::opaque]
pub open spec fn decode_base(op: u8) -> Option<Instruction> {
    let x = op as int / 64;
    let y = (op as int / 8) % 8;
    let z = op as int % 8;
    let p = y / 2;
    let q = y % 2;
    if is_gap(op) {
        None
    } else if x == 1 {
        if op == 0x76 {
            Some(Instruction::HALT)
        } else {
            Some(Instruction::LD(slot(y), slot(z)))
        }
    } else if x == 2 {
        Some(alu_op(y, slot(z)))
    } else if x == 0 {
        if z == 0 {
            if y == 0 {
                Some(Instruction::NOP)
            } else if y == 2 {
                Some(Instruction::IDK)
            } else if y == 3 {
                Some(Instruction::JR(JumpTypes::Always))
            } else {
                Some(Instruction::JR(condition(y - 4)))
            }
        } else if z == 1 {
            if q == 0 {
                Some(Instruction::LD(pair_sp(p).tag(), Reg::D16))
            } else {
                Some(Instruction::ADDHL(pair_sp(p)))
            }
        } else if z == 2 {
            if q == 0 {
                Some(Instruction::LD(Reg::Addr(indirect(p)), Reg::A))
            } else {
                Some(Instruction::LD(Reg::A, Reg::Addr(indirect(p))))
            }
        } else if z == 3 {
            if q == 0 {
                Some(Instruction::INC(pair_sp(p).tag()))
            } else {
                Some(Instruction::DEC(pair_sp(p).tag()))
            }
        } else if z == 4 {
            Some(Instruction::INC(slot(y)))
        } else if z == 5 {
            Some(Instruction::DEC(slot(y)))
        } else if z == 6 {
            Some(Instruction::LD(slot(y), Reg::D8))
        } else if y == 0 {
            Some(Instruction::RLCA)
        } else if y == 1 {
            Some(Instruction::RRCA)
        } else if y == 2 {
            Some(Instruction::RLA)
        } else if y == 3 {
            Some(Instruction::RRA)
        } else if y == 5 {
            Some(Instruction::CPL)
        } else if y == 6 {
            Some(Instruction::SCF)
        } else {
            Some(Instruction::CCF)
        }
    } else if z == 0 {
        Some(Instruction::RET(condition(y)))
    } else if z == 1 {
        if q == 0 {
            Some(Instruction::POP(pair_af(p)))
        } else {
            Some(Instruction::RET(JumpTypes::Always))
        }
    } else if z == 2 {
        Some(Instruction::JP(condition(y)))
    } else if z == 3 {
        if y == 0 {
            Some(Instruction::JP(JumpTypes::Always))
        } else {
            Some(Instruction::EXIT)
        }
    } else if z == 4 {
        if y < 4 {
            Some(Instruction::CALL(condition(y)))
        } else {
            Some(Instruction::IDK)
        }
    } else if z == 5 {
        if q == 0 {
            Some(Instruction::PUSH(pair_af(p)))
        } else {
            Some(Instruction::CALL(JumpTypes::Always))
        }
    } else {
        Some(alu_op(y, Reg::D8))
    }
}

/// The decoder as a whole: `(opcode, prefixed) -> instruction`.
pub open spec fn decode(op: u8, prefixed: bool) -> Option<Instruction> {
    if prefixed {
        Some(decode_prefixed(op))
    } else {
        decode_base(op)
    }
}

/// An operand that an 8-bit instruction reads and writes: B, C, D, E, H, L, (HL), A.
pub open spec fn is_slot(r: Reg) -> bool {
    r.is_data8() || r == Reg::Addr(Reg16::HL)
}

/// A pair that 16-bit INC, DEC, ADD HL and `LD rr,d16` act on.
pub open spec fn is_pair_sp(p: Reg16) -> bool {
    p is BC || p is DE || p is HL || p is SP
}

/// A pair that PUSH and POP act on.
pub open spec fn is_pair_af(p: Reg16) -> bool {
    p is BC || p is DE || p is HL || p is AF
}

/// Memory addressed through a pair, as the byte operand of a load.
pub open spec fn is_indirect(r: Reg) -> bool {
    match r {
        Reg::Addr(p) => !(p is AF) && !(p is SP),
        _ => false,
    }
}

/// The source of an 8-bit load or accumulator operation.
pub open spec fn is_source8(r: Reg) -> bool {
    is_slot(r) || is_indirect(r) || r is D8
}

impl Instruction {
    /// The instruction's operands are ones that the interpreter gives a meaning:
    /// every instruction that the decoder yields is of this kind.
    pub open spec fn is_well_formed(self) -> bool {
        match self {
            Instruction::ADD(r) | Instruction::ADC(r) | Instruction::SUB(r) | Instruction::SBC(r)
            | Instruction::AND(r) | Instruction::OR(r) | Instruction::XOR(r) | Instruction::CP(r) =>
                is_slot(r) || r is D8,
            Instruction::INC(r) | Instruction::DEC(r) => is_slot(r) || (r.is_wide() && is_pair_sp(
                r.wide(),
            ) && r == r.wide().tag()),
            Instruction::ADDHL(p) => is_pair_sp(p),
            Instruction::BIT(r, b) | Instruction::RESET(r, b) | Instruction::SET(r, b) => is_slot(r)
                && b < 8,
            Instruction::SRL(r) | Instruction::RR(r) | Instruction::RL(r) | Instruction::RRC(r)
            | Instruction::RLC(r) | Instruction::SRA(r) | Instruction::SLA(r) | Instruction::SWAP(
                r,
            ) => is_slot(r),
            Instruction::LD(d, s) => (d.is_wide() && is_pair_sp(d.wide()) && d == d.wide().tag()
                && s is D16) || ((is_slot(d) || is_indirect(d)) && is_source8(s)),
            Instruction::PUSH(p) | Instruction::POP(p) => is_pair_af(p),
            _ => true,
        }
    }

    /// Decodes an opcode from the unprefixed table or, when `prefixed`, from
    /// the 0xCB table.
    pub fn from_byte(byte: u8, prefixed: bool) -> (r: Option<Instruction>)
        ensures
            r == decode(byte, prefixed),
            r is None <==> (!prefixed && is_gap(byte)),
            r matches Some(i) ==> i.is_well_formed(),
    {
        if prefixed {
            Instruction::from_byte_prefixed(byte)
        } else {
            Instruction::from_byte_not_prefixed(byte)
        }
    }

    /// The 0xCB-prefixed table; every opcode is assigned.
    pub fn from_byte_prefixed(byte: u8) -> (r: Option<Instruction>)
        ensures
            r == Some(decode_prefixed(byte)),
            decode_prefixed(byte).is_well_formed(),
    {
        reveal(decode_prefixed);
        match byte {
            0x00 => Some(Instruction::RLC(Reg::B)),
            0x01 => Some(Instruction::RLC(Reg::C)),
            0x02 => Some(Instruction::RLC(Reg::D)),
            0x03 => Some(Instruction::RLC(Reg::E)),
            0x04 => Some(Instruction::RLC(Reg::H)),
            0x05 => Some(Instruction::RLC(Reg::L)),
            0x06 => Some(Instruction::RLC(Reg::Addr(Reg16::HL))),
            0x07 => Some(Instruction::RLC(Reg::A)),
            0x08 => Some(Instruction::RRC(Reg::B)),
            0x09 => Some(Instruction::RRC(Reg::C)),
            0x0A => Some(Instruction::RRC(Reg::D)),
            0x0B => Some(Instruction::RRC(Reg::E)),
            0x0C => Some(Instruction::RRC(Reg::H)),
            0x0D => Some(Instruction::RRC(Reg::L)),
            0x0E => Some(Instruction::RRC(Reg::Addr(Reg16::HL))),
            0x0F => Some(Instruction::RRC(Reg::A)),
            0x10 => Some(Instruction::RL(Reg::B)),
            0x11 => Some(Instruction::RL(Reg::C)),
            0x12 => Some(Instruction::RL(Reg::D)),
            0x13 => Some(Instruction::RL(Reg::E)),
            0x14 => Some(Instruction::RL(Reg::H)),
            0x15 => Some(Instruction::RL(Reg::L)),
            0x16 => Some(Instruction::RL(Reg::Addr(Reg16::HL))),
            0x17 => Some(Instruction::RL(Reg::A)),
            0x18 => Some(Instruction::RR(Reg::B)),
            0x19 => Some(Instruction::RR(Reg::C)),
            0x1A => Some(Instruction::RR(Reg::D)),
            0x1B => Some(Instruction::RR(Reg::E)),
            0x1C => Some(Instruction::RR(Reg::H)),
            0x1D => Some(Instruction::RR(Reg::L)),
            0x1E => Some(Instruction::RR(Reg::Addr(Reg16::HL))),
            0x1F => Some(Instruction::RR(Reg::A)),
            0x20 => Some(Instruction::SLA(Reg::B)),
            0x21 => Some(Instruction::SLA(Reg::C)),
            0x22 => Some(Instruction::SLA(Reg::D)),
            0x23 => Some(Instruction::SLA(Reg::E)),
            0x24 => Some(Instruction::SLA(Reg::H)),
            0x25 => Some(Instruction::SLA(Reg::L)),
            0x26 => Some(Instruction::SLA(Reg::Addr(Reg16::HL))),
            0x27 => Some(Instruction::SLA(Reg::A)),
            0x28 => Some(Instruction::SRA(Reg::B)),
            0x29 => Some(Instruction::SRA(Reg::C)),
            0x2A => Some(Instruction::SRA(Reg::D)),
            0x2B => Some(Instruction::SRA(Reg::E)),
            0x2C => Some(Instruction::SRA(Reg::H)),
            0x2D => Some(Instruction::SRA(Reg::L)),
            0x2E => Some(Instruction::SRA(Reg::Addr(Reg16::HL))),
            0x2F => Some(Instruction::SRA(Reg::A)),
            0x30 => Some(Instruction::SWAP(Reg::B)),
            0x31 => Some(Instruction::SWAP(Reg::C)),
            0x32 => Some(Instruction::SWAP(Reg::D)),
            0x33 => Some(Instruction::SWAP(Reg::E)),
            0x34 => Some(Instruction::SWAP(Reg::H)),
            0x35 => Some(Instruction::SWAP(Reg::L)),
            0x36 => Some(Instruction::SWAP(Reg::Addr(Reg16::HL))),
            0x37 => Some(Instruction::SWAP(Reg::A)),
            0x38 => Some(Instruction::SRL(Reg::B)),
            0x39 => Some(Instruction::SRL(Reg::C)),
            0x3A => Some(Instruction::SRL(Reg::D)),
            0x3B => Some(Instruction::SRL(Reg::E)),
            0x3C => Some(Instruction::SRL(Reg::H)),
            0x3D => Some(Instruction::SRL(Reg::L)),
            0x3E => Some(Instruction::SRL(Reg::Addr(Reg16::HL))),
            0x3F => Some(Instruction::SRL(Reg::A)),
            0x40 => Some(Instruction::BIT(Reg::B, 0)),
            0x41 => Some(Instruction::BIT(Reg::C, 0)),
            0x42 => Some(Instruction::BIT(Reg::D, 0)),
            0x43 => Some(Instruction::BIT(Reg::E, 0)),
            0x44 => Some(Instruction::BIT(Reg::H, 0)),
            0x45 => Some(Instruction::BIT(Reg::L, 0)),
            0x46 => Some(Instruction::BIT(Reg::Addr(Reg16::HL), 0)),
            0x47 => Some(Instruction::BIT(Reg::A, 0)),
            0x48 => Some(Instruction::BIT(Reg::B, 1)),
            0x49 => Some(Instruction::BIT(Reg::C, 1)),
            0x4A => Some(Instruction::BIT(Reg::D, 1)),
            0x4B => Some(Instruction::BIT(Reg::E, 1)),
            0x4C => Some(Instruction::BIT(Reg::H, 1)),
            0x4D => Some(Instruction::BIT(Reg::L, 1)),
            0x4E => Some(Instruction::BIT(Reg::Addr(Reg16::HL), 1)),
            0x4F => Some(Instruction::BIT(Reg::A, 1)),
            0x50 => Some(Instruction::BIT(Reg::B, 2)),
            0x51 => Some(Instruction::BIT(Reg::C, 2)),
            0x52 => Some(Instruction::BIT(Reg::D, 2)),
            0x53 => Some(Instruction::BIT(Reg::E, 2)),
            0x54 => Some(Instruction::BIT(Reg::H, 2)),
            0x55 => Some(Instruction::BIT(Reg::L, 2)),
            0x56 => Some(Instruction::BIT(Reg::Addr(Reg16::HL), 2)),
            0x57 => Some(Instruction::BIT(Reg::A, 2)),
            0x58 => Some(Instruction::BIT(Reg::B, 3)),
            0x59 => Some(Instruction::BIT(Reg::C, 3)),
            0x5A => Some(Instruction::BIT(Reg::D, 3)),
            0x5B => Some(Instruction::BIT(Reg::E, 3)),
            0x5C => Some(Instruction::BIT(Reg::H, 3)),
            0x5D => Some(Instruction::BIT(Reg::L, 3)),
            0x5E => Some(Instruction::BIT(Reg::Addr(Reg16::HL), 3)),
            0x5F => Some(Instruction::BIT(Reg::A, 3)),
            0x60 => Some(Instruction::BIT(Reg::B, 4)),
            0x61 => Some(Instruction::BIT(Reg::C, 4)),
            0x62 => Some(Instruction::BIT(Reg::D, 4)),
            0x63 => Some(Instruction::BIT(Reg::E, 4)),
            0x64 => Some(Instruction::BIT(Reg::H, 4)),
            0x65 => Some(Instruction::BIT(Reg::L, 4)),
            0x66 => Some(Instruction::BIT(Reg::Addr(Reg16::HL), 4)),
            0x67 => Some(Instruction::BIT(Reg::A, 4)),
            0x68 => Some(Instruction::BIT(Reg::B, 5)),
            0x69 => Some(Instruction::BIT(Reg::C, 5)),
            0x6A => Some(Instruction::BIT(Reg::D, 5)),
            0x6B => Some(Instruction::BIT(Reg::E, 5)),
            0x6C => Some(Instruction::BIT(Reg::H, 5)),
            0x6D => Some(Instruction::BIT(Reg::L, 5)),
            0x6E => Some(Instruction::BIT(Reg::Addr(Reg16::HL), 5)),
            0x6F => Some(Instruction::BIT(Reg::A, 5)),
            0x70 => Some(Instruction::BIT(Reg::B, 6)),
            0x71 => Some(Instruction::BIT(Reg::C, 6)),
            0x72 => Some(Instruction::BIT(Reg::D, 6)),
            0x73 => Some(Instruction::BIT(Reg::E, 6)),
            0x74 => Some(Instruction::BIT(Reg::H, 6)),
            0x75 => Some(Instruction::BIT(Reg::L, 6)),
            0x76 => Some(Instruction::BIT(Reg::Addr(Reg16::HL), 6)),
            0x77 => Some(Instruction::BIT(Reg::A, 6)),
            0x78 => Some(Instruction::BIT(Reg::B, 7)),
            0x79 => Some(Instruction::BIT(Reg::C, 7)),
            0x7A => Some(Instruction::BIT(Reg::D, 7)),
            0x7B => Some(Instruction::BIT(Reg::E, 7)),
            0x7C => Some(Instruction::BIT(Reg::H, 7)),
            0x7D => Some(Instruction::BIT(Reg::L, 7)),
            0x7E => Some(Instruction::BIT(Reg::Addr(Reg16::HL), 7)),
            0x7F => Some(Instruction::BIT(Reg::A, 7)),
            0x80 => Some(Instruction::RESET(Reg::B, 0)),
            0x81 => Some(Instruction::RESET(Reg::C, 0)),
            0x82 => Some(Instruction::RESET(Reg::D, 0)),
            0x83 => Some(Instruction::RESET(Reg::E, 0)),
            0x84 => Some(Instruction::RESET(Reg::H, 0)),
            0x85 => Some(Instruction::RESET(Reg::L, 0)),
            0x86 => Some(Instruction::RESET(Reg::Addr(Reg16::HL), 0)),
            0x87 => Some(Instruction::RESET(Reg::A, 0)),
            0x88 => Some(Instruction::RESET(Reg::B, 1)),
            0x89 => Some(Instruction::RESET(Reg::C, 1)),
            0x8A => Some(Instruction::RESET(Reg::D, 1)),
            0x8B => Some(Instruction::RESET(Reg::E, 1)),
            0x8C => Some(Instruction::RESET(Reg::H, 1)),
            0x8D => Some(Instruction::RESET(Reg::L, 1)),
            0x8E => Some(Instruction::RESET(Reg::Addr(Reg16::HL), 1)),
            0x8F => Some(Instruction::RESET(Reg::A, 1)),
            0x90 => Some(Instruction::RESET(Reg::B, 2)),
            0x91 => Some(Instruction::RESET(Reg::C, 2)),
            0x92 => Some(Instruction::RESET(Reg::D, 2)),
            0x93 => Some(Instruction::RESET(Reg::E, 2)),
            0x94 => Some(Instruction::RESET(Reg::H, 2)),
            0x95 => Some(Instruction::RESET(Reg::L, 2)),
            0x96 => Some(Instruction::RESET(Reg::Addr(Reg16::HL), 2)),
            0x97 => Some(Instruction::RESET(Reg::A, 2)),
            0x98 => Some(Instruction::RESET(Reg::B, 3)),
            0x99 => Some(Instruction::RESET(Reg::C, 3)),
            0x9A => Some(Instruction::RESET(Reg::D, 3)),
            0x9B => Some(Instruction::RESET(Reg::E, 3)),
            0x9C => Some(Instruction::RESET(Reg::H, 3)),
            0x9D => Some(Instruction::RESET(Reg::L, 3)),
            0x9E => Some(Instruction::RESET(Reg::Addr(Reg16::HL), 3)),
            0x9F => Some(Instruction::RESET(Reg::A, 3)),
            0xA0 => Some(Instruction::RESET(Reg::B, 4)),
            0xA1 => Some(Instruction::RESET(Reg::C, 4)),
            0xA2 => Some(Instruction::RESET(Reg::D, 4)),
            0xA3 => Some(Instruction::RESET(Reg::E, 4)),
            0xA4 => Some(Instruction::RESET(Reg::H, 4)),
            0xA5 => Some(Instruction::RESET(Reg::L, 4)),
            0xA6 => Some(Instruction::RESET(Reg::Addr(Reg16::HL), 4)),
            0xA7 => Some(Instruction::RESET(Reg::A, 4)),
            0xA8 => Some(Instruction::RESET(Reg::B, 5)),
            0xA9 => Some(Instruction::RESET(Reg::C, 5)),
            0xAA => Some(Instruction::RESET(Reg::D, 5)),
            0xAB => Some(Instruction::RESET(Reg::E, 5)),
            0xAC => Some(Instruction::RESET(Reg::H, 5)),
            0xAD => Some(Instruction::RESET(Reg::L, 5)),
            0xAE => Some(Instruction::RESET(Reg::Addr(Reg16::HL), 5)),
            0xAF => Some(Instruction::RESET(Reg::A, 5)),
            0xB0 => Some(Instruction::RESET(Reg::B, 6)),
            0xB1 => Some(Instruction::RESET(Reg::C, 6)),
            0xB2 => Some(Instruction::RESET(Reg::D, 6)),
            0xB3 => Some(Instruction::RESET(Reg::E, 6)),
            0xB4 => Some(Instruction::RESET(Reg::H, 6)),
            0xB5 => Some(Instruction::RESET(Reg::L, 6)),
            0xB6 => Some(Instruction::RESET(Reg::Addr(Reg16::HL), 6)),
            0xB7 => Some(Instruction::RESET(Reg::A, 6)),
            0xB8 => Some(Instruction::RESET(Reg::B, 7)),
            0xB9 => Some(Instruction::RESET(Reg::C, 7)),
            0xBA => Some(Instruction::RESET(Reg::D, 7)),
            0xBB => Some(Instruction::RESET(Reg::E, 7)),
            0xBC => Some(Instruction::RESET(Reg::H, 7)),
            0xBD => Some(Instruction::RESET(Reg::L, 7)),
            0xBE => Some(Instruction::RESET(Reg::Addr(Reg16::HL), 7)),
            0xBF => Some(Instruction::RESET(Reg::A, 7)),
            0xC0 => Some(Instruction::SET(Reg::B, 0)),
            0xC1 => Some(Instruction::SET(Reg::C, 0)),
            0xC2 => Some(Instruction::SET(Reg::D, 0)),
            0xC3 => Some(Instruction::SET(Reg::E, 0)),
            0xC4 => Some(Instruction::SET(Reg::H, 0)),
            0xC5 => Some(Instruction::SET(Reg::L, 0)),
            0xC6 => Some(Instruction::SET(Reg::Addr(Reg16::HL), 0)),
            0xC7 => Some(Instruction::SET(Reg::A, 0)),
            0xC8 => Some(Instruction::SET(Reg::B, 1)),
            0xC9 => Some(Instruction::SET(Reg::C, 1)),
            0xCA => Some(Instruction::SET(Reg::D, 1)),
            0xCB => Some(Instruction::SET(Reg::E, 1)),
            0xCC => Some(Instruction::SET(Reg::H, 1)),
            0xCD => Some(Instruction::SET(Reg::L, 1)),
            0xCE => Some(Instruction::SET(Reg::Addr(Reg16::HL), 1)),
            0xCF => Some(Instruction::SET(Reg::A, 1)),
            0xD0 => Some(Instruction::SET(Reg::B, 2)),
            0xD1 => Some(Instruction::SET(Reg::C, 2)),
            0xD2 => Some(Instruction::SET(Reg::D, 2)),
            0xD3 => Some(Instruction::SET(Reg::E, 2)),
            0xD4 => Some(Instruction::SET(Reg::H, 2)),
            0xD5 => Some(Instruction::SET(Reg::L, 2)),
            0xD6 => Some(Instruction::SET(Reg::Addr(Reg16::HL), 2)),
            0xD7 => Some(Instruction::SET(Reg::A, 2)),
            0xD8 => Some(Instruction::SET(Reg::B, 3)),
            0xD9 => Some(Instruction::SET(Reg::C, 3)),
            0xDA => Some(Instruction::SET(Reg::D, 3)),
            0xDB => Some(Instruction::SET(Reg::E, 3)),
            0xDC => Some(Instruction::SET(Reg::H, 3)),
            0xDD => Some(Instruction::SET(Reg::L, 3)),
            0xDE => Some(Instruction::SET(Reg::Addr(Reg16::HL), 3)),
            0xDF => Some(Instruction::SET(Reg::A, 3)),
            0xE0 => Some(Instruction::SET(Reg::B, 4)),
            0xE1 => Some(Instruction::SET(Reg::C, 4)),
            0xE2 => Some(Instruction::SET(Reg::D, 4)),
            0xE3 => Some(Instruction::SET(Reg::E, 4)),
            0xE4 => Some(Instruction::SET(Reg::H, 4)),
            0xE5 => Some(Instruction::SET(Reg::L, 4)),
            0xE6 => Some(Instruction::SET(Reg::Addr(Reg16::HL), 4)),
            0xE7 => Some(Instruction::SET(Reg::A, 4)),
            0xE8 => Some(Instruction::SET(Reg::B, 5)),
            0xE9 => Some(Instruction::SET(Reg::C, 5)),
            0xEA => Some(Instruction::SET(Reg::D, 5)),
            0xEB => Some(Instruction::SET(Reg::E, 5)),
            0xEC => Some(Instruction::SET(Reg::H, 5)),
            0xED => Some(Instruction::SET(Reg::L, 5)),
            0xEE => Some(Instruction::SET(Reg::Addr(Reg16::HL), 5)),
            0xEF => Some(Instruction::SET(Reg::A, 5)),
            0xF0 => Some(Instruction::SET(Reg::B, 6)),
            0xF1 => Some(Instruction::SET(Reg::C, 6)),
            0xF2 => Some(Instruction::SET(Reg::D, 6)),
            0xF3 => Some(Instruction::SET(Reg::E, 6)),
            0xF4 => Some(Instruction::SET(Reg::H, 6)),
            0xF5 => Some(Instruction::SET(Reg::L, 6)),
            0xF6 => Some(Instruction::SET(Reg::Addr(Reg16::HL), 6)),
            0xF7 => Some(Instruction::SET(Reg::A, 6)),
            0xF8 => Some(Instruction::SET(Reg::B, 7)),
            0xF9 => Some(Instruction::SET(Reg::C, 7)),
            0xFA => Some(Instruction::SET(Reg::D, 7)),
            0xFB => Some(Instruction::SET(Reg::E, 7)),
            0xFC => Some(Instruction::SET(Reg::H, 7)),
            0xFD => Some(Instruction::SET(Reg::L, 7)),
            0xFE => Some(Instruction::SET(Reg::Addr(Reg16::HL), 7)),
            0xFF => Some(Instruction::SET(Reg::A, 7)),
        }
    }

    /// The unprefixed table; the opcodes of `is_gap` give `None`.
    pub fn from_byte_not_prefixed(byte: u8) -> (r: Option<Instruction>)
        ensures
            r == decode_base(byte),
            r is None <==> is_gap(byte),
            r matches Some(i) ==> i.is_well_formed(),
    {
        reveal(decode_base);
        match byte {
            0x00 => Some(Instruction::NOP),
            0x01 => Some(Instruction::LD(Reg::BC, Reg::D16)),
            0x02 => Some(Instruction::LD(Reg::Addr(Reg16::BC), Reg::A)),
            0x03 => Some(Instruction::INC(Reg::BC)),
            0x04 => Some(Instruction::INC(Reg::B)),
            0x05 => Some(Instruction::DEC(Reg::B)),
            0x06 => Some(Instruction::LD(Reg::B, Reg::D8)),
            0x07 => Some(Instruction::RLCA),
            0x09 => Some(Instruction::ADDHL(Reg16::BC)),
            0x0A => Some(Instruction::LD(Reg::A, Reg::Addr(Reg16::BC))),
            0x0B => Some(Instruction::DEC(Reg::BC)),
            0x0C => Some(Instruction::INC(Reg::C)),
            0x0D => Some(Instruction::DEC(Reg::C)),
            0x0E => Some(Instruction::LD(Reg::C, Reg::D8)),
            0x0F => Some(Instruction::RRCA),
            0x10 => Some(Instruction::IDK),
            0x11 => Some(Instruction::LD(Reg::DE, Reg::D16)),
            0x12 => Some(Instruction::LD(Reg::Addr(Reg16::DE), Reg::A)),
            0x13 => Some(Instruction::INC(Reg::DE)),
            0x14 => Some(Instruction::INC(Reg::D)),
            0x15 => Some(Instruction::DEC(Reg::D)),
            0x16 => Some(Instruction::LD(Reg::D, Reg::D8)),
            0x17 => Some(Instruction::RLA),
            0x18 => Some(Instruction::JR(JumpTypes::Always)),
            0x19 => Some(Instruction::ADDHL(Reg16::DE)),
            0x1A => Some(Instruction::LD(Reg::A, Reg::Addr(Reg16::DE))),
            0x1B => Some(Instruction::DEC(Reg::DE)),
            0x1C => Some(Instruction::INC(Reg::E)),
            0x1D => Some(Instruction::DEC(Reg::E)),
            0x1E => Some(Instruction::LD(Reg::E, Reg::D8)),
            0x1F => Some(Instruction::RRA),
            0x20 => Some(Instruction::JR(JumpTypes::NotZero)),
            0x21 => Some(Instruction::LD(Reg::HL, Reg::D16)),
            0x22 => Some(Instruction::LD(Reg::Addr(Reg16::HLI), Reg::A)),
            0x23 => Some(Instruction::INC(Reg::HL)),
            0x24 => Some(Instruction::INC(Reg::H)),
            0x25 => Some(Instruction::DEC(Reg::H)),
            0x26 => Some(Instruction::LD(Reg::H, Reg::D8)),
            0x28 => Some(Instruction::JR(JumpTypes::Zero)),
            0x29 => Some(Instruction::ADDHL(Reg16::HL)),
            0x2A => Some(Instruction::LD(Reg::A, Reg::Addr(Reg16::HLI))),
            0x2B => Some(Instruction::DEC(Reg::HL)),
            0x2C => Some(Instruction::INC(Reg::L)),
            0x2D => Some(Instruction::DEC(Reg::L)),
            0x2E => Some(Instruction::LD(Reg::L, Reg::D8)),
            0x2F => Some(Instruction::CPL),
            0x30 => Some(Instruction::JR(JumpTypes::NotCarry)),
            0x31 => Some(Instruction::LD(Reg::SP, Reg::D16)),
            0x32 => Some(Instruction::LD(Reg::Addr(Reg16::HLD), Reg::A)),
            0x33 => Some(Instruction::INC(Reg::SP)),
            0x34 => Some(Instruction::INC(Reg::Addr(Reg16::HL))),
            0x35 => Some(Instruction::DEC(Reg::Addr(Reg16::HL))),
            0x36 => Some(Instruction::LD(Reg::Addr(Reg16::HL), Reg::D8)),
            0x37 => Some(Instruction::SCF),
            0x38 => Some(Instruction::JR(JumpTypes::Carry)),
            0x39 => Some(Instruction::ADDHL(Reg16::SP)),
            0x3A => Some(Instruction::LD(Reg::A, Reg::Addr(Reg16::HLD))),
            0x3B => Some(Instruction::DEC(Reg::SP)),
            0x3C => Some(Instruction::INC(Reg::A)),
            0x3D => Some(Instruction::DEC(Reg::A)),
            0x3E => Some(Instruction::LD(Reg::A, Reg::D8)),
            0x3F => Some(Instruction::CCF),
            0x40 => Some(Instruction::LD(Reg::B, Reg::B)),
            0x41 => Some(Instruction::LD(Reg::B, Reg::C)),
            0x42 => Some(Instruction::LD(Reg::B, Reg::D)),
            0x43 => Some(Instruction::LD(Reg::B, Reg::E)),
            0x44 => Some(Instruction::LD(Reg::B, Reg::H)),
            0x45 => Some(Instruction::LD(Reg::B, Reg::L)),
            0x46 => Some(Instruction::LD(Reg::B, Reg::Addr(Reg16::HL))),
            0x47 => Some(Instruction::LD(Reg::B, Reg::A)),
            0x48 => Some(Instruction::LD(Reg::C, Reg::B)),
            0x49 => Some(Instruction::LD(Reg::C, Reg::C)),
            0x4A => Some(Instruction::LD(Reg::C, Reg::D)),
            0x4B => Some(Instruction::LD(Reg::C, Reg::E)),
            0x4C => Some(Instruction::LD(Reg::C, Reg::H)),
            0x4D => Some(Instruction::LD(Reg::C, Reg::L)),
            0x4E => Some(Instruction::LD(Reg::C, Reg::Addr(Reg16::HL))),
            0x4F => Some(Instruction::LD(Reg::C, Reg::A)),
            0x50 => Some(Instruction::LD(Reg::D, Reg::B)),
            0x51 => Some(Instruction::LD(Reg::D, Reg::C)),
            0x52 => Some(Instruction::LD(Reg::D, Reg::D)),
            0x53 => Some(Instruction::LD(Reg::D, Reg::E)),
            0x54 => Some(Instruction::LD(Reg::D, Reg::H)),
            0x55 => Some(Instruction::LD(Reg::D, Reg::L)),
            0x56 => Some(Instruction::LD(Reg::D, Reg::Addr(Reg16::HL))),
            0x57 => Some(Instruction::LD(Reg::D, Reg::A)),
            0x58 => Some(Instruction::LD(Reg::E, Reg::B)),
            0x59 => Some(Instruction::LD(Reg::E, Reg::C)),
            0x5A => Some(Instruction::LD(Reg::E, Reg::D)),
            0x5B => Some(Instruction::LD(Reg::E, Reg::E)),
            0x5C => Some(Instruction::LD(Reg::E, Reg::H)),
            0x5D => Some(Instruction::LD(Reg::E, Reg::L)),
            0x5E => Some(Instruction::LD(Reg::E, Reg::Addr(Reg16::HL))),
            0x5F => Some(Instruction::LD(Reg::E, Reg::A)),
            0x60 => Some(Instruction::LD(Reg::H, Reg::B)),
            0x61 => Some(Instruction::LD(Reg::H, Reg::C)),
            0x62 => Some(Instruction::LD(Reg::H, Reg::D)),
            0x63 => Some(Instruction::LD(Reg::H, Reg::E)),
            0x64 => Some(Instruction::LD(Reg::H, Reg::H)),
            0x65 => Some(Instruction::LD(Reg::H, Reg::L)),
            0x66 => Some(Instruction::LD(Reg::H, Reg::Addr(Reg16::HL))),
            0x67 => Some(Instruction::LD(Reg::H, Reg::A)),
            0x68 => Some(Instruction::LD(Reg::L, Reg::B)),
            0x69 => Some(Instruction::LD(Reg::L, Reg::C)),
            0x6A => Some(Instruction::LD(Reg::L, Reg::D)),
            0x6B => Some(Instruction::LD(Reg::L, Reg::E)),
            0x6C => Some(Instruction::LD(Reg::L, Reg::H)),
            0x6D => Some(Instruction::LD(Reg::L, Reg::L)),
            0x6E => Some(Instruction::LD(Reg::L, Reg::Addr(Reg16::HL))),
            0x6F => Some(Instruction::LD(Reg::L, Reg::A)),
            0x70 => Some(Instruction::LD(Reg::Addr(Reg16::HL), Reg::B)),
            0x71 => Some(Instruction::LD(Reg::Addr(Reg16::HL), Reg::C)),
            0x72 => Some(Instruction::LD(Reg::Addr(Reg16::HL), Reg::D)),
            0x73 => Some(Instruction::LD(Reg::Addr(Reg16::HL), Reg::E)),
            0x74 => Some(Instruction::LD(Reg::Addr(Reg16::HL), Reg::H)),
            0x75 => Some(Instruction::LD(Reg::Addr(Reg16::HL), Reg::L)),
            0x76 => Some(Instruction::HALT),
            0x77 => Some(Instruction::LD(Reg::Addr(Reg16::HL), Reg::A)),
            0x78 => Some(Instruction::LD(Reg::A, Reg::B)),
            0x79 => Some(Instruction::LD(Reg::A, Reg::C)),
            0x7A => Some(Instruction::LD(Reg::A, Reg::D)),
            0x7B => Some(Instruction::LD(Reg::A, Reg::E)),
            0x7C => Some(Instruction::LD(Reg::A, Reg::H)),
            0x7D => Some(Instruction::LD(Reg::A, Reg::L)),
            0x7E => Some(Instruction::LD(Reg::A, Reg::Addr(Reg16::HL))),
            0x7F => Some(Instruction::LD(Reg::A, Reg::A)),
            0x80 => Some(Instruction::ADD(Reg::B)),
            0x81 => Some(Instruction::ADD(Reg::C)),
            0x82 => Some(Instruction::ADD(Reg::D)),
            0x83 => Some(Instruction::ADD(Reg::E)),
            0x84 => Some(Instruction::ADD(Reg::H)),
            0x85 => Some(Instruction::ADD(Reg::L)),
            0x86 => Some(Instruction::ADD(Reg::Addr(Reg16::HL))),
            0x87 => Some(Instruction::ADD(Reg::A)),
            0x88 => Some(Instruction::ADC(Reg::B)),
            0x89 => Some(Instruction::ADC(Reg::C)),
            0x8A => Some(Instruction::ADC(Reg::D)),
            0x8B => Some(Instruction::ADC(Reg::E)),
            0x8C => Some(Instruction::ADC(Reg::H)),
            0x8D => Some(Instruction::ADC(Reg::L)),
            0x8E => Some(Instruction::ADC(Reg::Addr(Reg16::HL))),
            0x8F => Some(Instruction::ADC(Reg::A)),
            0x90 => Some(Instruction::SUB(Reg::B)),
            0x91 => Some(Instruction::SUB(Reg::C)),
            0x92 => Some(Instruction::SUB(Reg::D)),
            0x93 => Some(Instruction::SUB(Reg::E)),
            0x94 => Some(Instruction::SUB(Reg::H)),
            0x95 => Some(Instruction::SUB(Reg::L)),
            0x96 => Some(Instruction::SUB(Reg::Addr(Reg16::HL))),
            0x97 => Some(Instruction::SUB(Reg::A)),
            0x98 => Some(Instruction::SBC(Reg::B)),
            0x99 => Some(Instruction::SBC(Reg::C)),
            0x9A => Some(Instruction::SBC(Reg::D)),
            0x9B => Some(Instruction::SBC(Reg::E)),
            0x9C => Some(Instruction::SBC(Reg::H)),
            0x9D => Some(Instruction::SBC(Reg::L)),
            0x9E => Some(Instruction::SBC(Reg::Addr(Reg16::HL))),
            0x9F => Some(Instruction::SBC(Reg::A)),
            0xA0 => Some(Instruction::AND(Reg::B)),
            0xA1 => Some(Instruction::AND(Reg::C)),
            0xA2 => Some(Instruction::AND(Reg::D)),
            0xA3 => Some(Instruction::AND(Reg::E)),
            0xA4 => Some(Instruction::AND(Reg::H)),
            0xA5 => Some(Instruction::AND(Reg::L)),
            0xA6 => Some(Instruction::AND(Reg::Addr(Reg16::HL))),
            0xA7 => Some(Instruction::AND(Reg::A)),
            0xA8 => Some(Instruction::XOR(Reg::B)),
            0xA9 => Some(Instruction::XOR(Reg::C)),
            0xAA => Some(Instruction::XOR(Reg::D)),
            0xAB => Some(Instruction::XOR(Reg::E)),
            0xAC => Some(Instruction::XOR(Reg::H)),
            0xAD => Some(Instruction::XOR(Reg::L)),
            0xAE => Some(Instruction::XOR(Reg::Addr(Reg16::HL))),
            0xAF => Some(Instruction::XOR(Reg::A)),
            0xB0 => Some(Instruction::OR(Reg::B)),
            0xB1 => Some(Instruction::OR(Reg::C)),
            0xB2 => Some(Instruction::OR(Reg::D)),
            0xB3 => Some(Instruction::OR(Reg::E)),
            0xB4 => Some(Instruction::OR(Reg::H)),
            0xB5 => Some(Instruction::OR(Reg::L)),
            0xB6 => Some(Instruction::OR(Reg::Addr(Reg16::HL))),
            0xB7 => Some(Instruction::OR(Reg::A)),
            0xB8 => Some(Instruction::CP(Reg::B)),
            0xB9 => Some(Instruction::CP(Reg::C)),
            0xBA => Some(Instruction::CP(Reg::D)),
            0xBB => Some(Instruction::CP(Reg::E)),
            0xBC => Some(Instruction::CP(Reg::H)),
            0xBD => Some(Instruction::CP(Reg::L)),
            0xBE => Some(Instruction::CP(Reg::Addr(Reg16::HL))),
            0xBF => Some(Instruction::CP(Reg::A)),
            0xC0 => Some(Instruction::RET(JumpTypes::NotZero)),
            0xC1 => Some(Instruction::POP(Reg16::BC)),
            0xC2 => Some(Instruction::JP(JumpTypes::NotZero)),
            0xC3 => Some(Instruction::JP(JumpTypes::Always)),
            0xC4 => Some(Instruction::CALL(JumpTypes::NotZero)),
            0xC5 => Some(Instruction::PUSH(Reg16::BC)),
            0xC6 => Some(Instruction::ADD(Reg::D8)),
            0xC8 => Some(Instruction::RET(JumpTypes::Zero)),
            0xC9 => Some(Instruction::RET(JumpTypes::Always)),
            0xCA => Some(Instruction::JP(JumpTypes::Zero)),
            0xCC => Some(Instruction::CALL(JumpTypes::Zero)),
            0xCD => Some(Instruction::CALL(JumpTypes::Always)),
            0xCE => Some(Instruction::ADC(Reg::D8)),
            0xD0 => Some(Instruction::RET(JumpTypes::NotCarry)),
            0xD1 => Some(Instruction::POP(Reg16::DE)),
            0xD2 => Some(Instruction::JP(JumpTypes::NotCarry)),
            0xD3 => Some(Instruction::EXIT),
            0xD4 => Some(Instruction::CALL(JumpTypes::NotCarry)),
            0xD5 => Some(Instruction::PUSH(Reg16::DE)),
            0xD6 => Some(Instruction::SUB(Reg::D8)),
            0xD8 => Some(Instruction::RET(JumpTypes::Carry)),
            0xDA => Some(Instruction::JP(JumpTypes::Carry)),
            0xDC => Some(Instruction::CALL(JumpTypes::Carry)),
            0xDE => Some(Instruction::SBC(Reg::D8)),
            0xE1 => Some(Instruction::POP(Reg16::HL)),
            0xE5 => Some(Instruction::PUSH(Reg16::HL)),
            0xE6 => Some(Instruction::AND(Reg::D8)),
            0xEE => Some(Instruction::XOR(Reg::D8)),
            0xF1 => Some(Instruction::POP(Reg16::AF)),
            0xF4 => Some(Instruction::IDK),
            0xF5 => Some(Instruction::PUSH(Reg16::AF)),
            0xF6 => Some(Instruction::OR(Reg::D8)),
            0xFE => Some(Instruction::CP(Reg::D8)),
            _ => None,
        }
    }
}

/// Every opcode outside the documented gaps decodes, in both tables.
pub proof fn lemma_decoder_covers(op: u8, prefixed: bool)
    requires
        prefixed || !is_gap(op),
    ensures
        decode(op, prefixed) is Some,
{
    reveal(decode_base);
}

} // verus!
