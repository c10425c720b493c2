use vstd::prelude::*;

use crate::instructions::{is_pair_af, is_slot, Instruction, JumpTypes};
use crate::registers::{
    high_byte,
    join16,
    lemma_pair_write_read,
    low_byte,
    wrap16,
    FlagsRegister,
    Reg,
    Reg16,
    Registers,
};

verus! {

/// What an instruction sees and changes: the registers, the 64 KiB address
/// space as the bus reads it, the program counter and the halt state.
pub ghost struct MachineState {
    pub regs: Registers,
    pub mem: Seq<u8>,
    pub pc: u16,
    pub halted: bool,
}

// ---------------------------------------------------------------------------
// Flag arithmetic

/// `add8`: the sum modulo 256.
pub open spec fn add8(a: u8, b: u8) -> u8 {
    ((a + b) % 256) as u8
}

/// Flags of `add8`: Z by result, N clear, H from bit 3, C from bit 7.
pub open spec fn add8_flags(a: u8, b: u8) -> FlagsRegister {
    FlagsRegister {
        zero: add8(a, b) == 0,
        subtract: false,
        half_carry: (a & 0xFu8) + (b & 0xFu8) > 0xF,
        carry: a + b > 0xFF,
    }
}

/// `sub8`: the difference modulo 256.
pub open spec fn sub8(a: u8, b: u8) -> u8 {
    ((a - b + 256) % 256) as u8
}

/// Flags of `sub8`: Z by result, N set, H on a borrow from bit 4, C on a borrow.
pub open spec fn sub8_flags(a: u8, b: u8) -> FlagsRegister {
    FlagsRegister {
        zero: sub8(a, b) == 0,
        subtract: true,
        half_carry: (a & 0xFu8) < (b & 0xFu8),
        carry: a < b,
    }
}

pub open spec fn bit_value(c: bool) -> int {
    if c {
        1
    } else {
        0
    }
}

/// ADC: `a + b + carry` modulo 256.
pub open spec fn adc8(a: u8, b: u8, c: bool) -> u8 {
    ((a + b + bit_value(c)) % 256) as u8
}

/// Flags of ADC: H and C are the carries out of bit 3 and bit 7 of the full sum.
pub open spec fn adc8_flags(a: u8, b: u8, c: bool) -> FlagsRegister {
    FlagsRegister {
        zero: adc8(a, b, c) == 0,
        subtract: false,
        half_carry: (a & 0xFu8) + (b & 0xFu8) + bit_value(c) > 0xF,
        carry: a + b + bit_value(c) > 0xFF,
    }
}

/// SBC: `a - b - carry` modulo 256.
pub open spec fn sbc8(a: u8, b: u8, c: bool) -> u8 {
    ((a - b - bit_value(c) + 512) % 256) as u8
}

/// Flags of SBC: H and C are the borrows of the full difference.
pub open spec fn sbc8_flags(a: u8, b: u8, c: bool) -> FlagsRegister {
    FlagsRegister {
        zero: sbc8(a, b, c) == 0,
        subtract: true,
        half_carry: (a & 0xFu8) < (b & 0xFu8) + bit_value(c),
        carry: a < b + bit_value(c),
    }
}

/// `add16`: the sum modulo 65536.
pub open spec fn add16(a: u16, b: u16) -> u16 {
    ((a + b) % 0x10000) as u16
}

/// Flags of `add16`: Z kept from `f`, N clear, H from bit 11, C from bit 15.
pub open spec fn add16_flags(a: u16, b: u16, f: FlagsRegister) -> FlagsRegister {
    FlagsRegister {
        zero: f.zero,
        subtract: false,
        half_carry: (a & 0xFFFu16) + (b & 0xFFFu16) > 0xFFF,
        carry: a + b > 0xFFFF,
    }
}

/// `sub16`: the difference modulo 65536.
pub open spec fn sub16(a: u16, b: u16) -> u16 {
    ((a - b + 0x10000) % 0x10000) as u16
}

/// Flags of `sub16`: Z kept from `f`, N set, H and C on borrows.
pub open spec fn sub16_flags(a: u16, b: u16, f: FlagsRegister) -> FlagsRegister {
    FlagsRegister {
        zero: f.zero,
        subtract: true,
        half_carry: (a & 0xFFFu16) < (b & 0xFFFu16),
        carry: a < b,
    }
}

// ---------------------------------------------------------------------------
// Rotates, shifts and bits

/// The result and the carry out of a rotate or shift of `v`, with carry in `c`.
pub open spec fn shift_result(i: Instruction, v: u8, c: bool) -> (u8, bool) {
    match i {
        Instruction::RLC(_) | Instruction::RLCA => (((v * 2) % 256 + v / 128) as u8, v >= 128),
        Instruction::RRC(_) | Instruction::RRCA => ((v / 2 + (v % 2) * 128) as u8, v % 2 == 1),
        Instruction::RL(_) | Instruction::RLA => (((v * 2) % 256 + bit_value(c)) as u8, v >= 128),
        Instruction::RR(_) | Instruction::RRA => ((v / 2 + bit_value(c) * 128) as u8, v % 2 == 1),
        Instruction::SLA(_) => (((v * 2) % 256) as u8, v >= 128),
        Instruction::SRA(_) => ((v / 2 + (v / 128) * 128) as u8, v % 2 == 1),
        Instruction::SWAP(_) => (((v % 16) * 16 + v / 16) as u8, false),
        _ => ((v / 2) as u8, v % 2 == 1),
    }
}

/// Whether bit `b` of `v` is set.
pub open spec fn bit_set(v: u8, b: u8) -> bool {
    v & (1u8 << b) != 0u8
}

/// `v` with bit `b` cleared.
pub open spec fn clear_bit(v: u8, b: u8) -> u8 {
    v & !(1u8 << b)
}

/// `v` with bit `b` set.
pub open spec fn set_bit(v: u8, b: u8) -> u8 {
    v | (1u8 << b)
}

// ---------------------------------------------------------------------------
// Operands

/// The byte at an address, wrapping round the 64 KiB space.
pub open spec fn byte_at(mem: Seq<u8>, addr: int) -> u8 {
    mem[wrap16(addr) as int]
}

/// The little-endian word at an address.
pub open spec fn word_at(mem: Seq<u8>, addr: int) -> u16 {
    join16(byte_at(mem, addr + 1), byte_at(mem, addr))
}

/// The byte after the opcode.
pub open spec fn imm8(s: MachineState) -> u8 {
    byte_at(s.mem, s.pc + 1)
}

/// The word after the opcode.
pub open spec fn imm16(s: MachineState) -> u16 {
    word_at(s.mem, s.pc + 1)
}

/// The address that an indirect operand reads or writes: HL for HLI and HLD.
pub open spec fn target_addr(regs: Registers, p: Reg16) -> u16 {
    if p is HLI || p is HLD {
        regs.hl()
    } else {
        regs.pair(p)
    }
}

/// The registers after an access through a pair: HL moves on for HLI and HLD.
pub open spec fn after_access(regs: Registers, p: Reg16) -> Registers {
    if p is HLI || p is HLD {
        regs.with_pair(Reg16::HL, regs.pair(p))
    } else {
        regs
    }
}

/// The byte that a source operand gives.
pub open spec fn read8(s: MachineState, r: Reg) -> u8 {
    match r {
        Reg::Addr(p) => s.mem[target_addr(s.regs, p) as int],
        Reg::D8 => imm8(s),
        _ => s.regs.reg8(r),
    }
}

/// The state after reading a source operand (HL moves on for HLI and HLD).
pub open spec fn after_read(s: MachineState, r: Reg) -> MachineState {
    match r {
        Reg::Addr(p) => MachineState { regs: after_access(s.regs, p), ..s },
        _ => s,
    }
}

/// The state after writing a byte to a destination operand.
pub open spec fn write8(s: MachineState, r: Reg, v: u8) -> MachineState {
    match r {
        Reg::Addr(p) => MachineState {
            mem: s.mem.update(target_addr(s.regs, p) as int, v),
            regs: after_access(s.regs, p),
            ..s
        },
        _ => MachineState { regs: s.regs.with_reg8(r, v), ..s },
    }
}

/// Bytes taken by an instruction whose source operand is `r`.
pub open spec fn operand_len(r: Reg) -> int {
    match r {
        Reg::D8 => 2,
        Reg::D16 => 3,
        _ => 1,
    }
}

pub open spec fn with_flags(s: MachineState, f: FlagsRegister) -> MachineState {
    MachineState { regs: Registers { flags: f, ..s.regs }, ..s }
}

// ---------------------------------------------------------------------------
// Stack

/// PUSH: SP - 1 gets the high byte, SP - 2 the low byte, SP ends at SP - 2.
pub open spec fn push_state(s: MachineState, v: u16) -> MachineState {
    let sp1 = wrap16(s.regs.sp - 1);
    let sp2 = wrap16(s.regs.sp - 2);
    MachineState {
        mem: s.mem.update(sp1 as int, high_byte(v)).update(sp2 as int, low_byte(v)),
        regs: Registers { sp: sp2, ..s.regs },
        ..s
    }
}

/// Whether the stack guard stops a POP: SP at 0xFFFE or above.
pub open spec fn stack_empty(s: MachineState) -> bool {
    s.regs.sp >= 0xFFFE
}

/// The value that POP gives: the word at SP, or 0 under the stack guard.
pub open spec fn pop_value(s: MachineState) -> u16 {
    if stack_empty(s) {
        0
    } else {
        join16(s.mem[s.regs.sp + 1], s.mem[s.regs.sp as int])
    }
}

/// The state after POP: SP up by two, unchanged under the stack guard.
pub open spec fn pop_state(s: MachineState) -> MachineState {
    if stack_empty(s) {
        s
    } else {
        MachineState { regs: Registers { sp: (s.regs.sp + 2) as u16, ..s.regs }, ..s }
    }
}

// ---------------------------------------------------------------------------
// Control flow

/// Whether a condition holds under the flags.
pub open spec fn condition_holds(f: FlagsRegister, j: JumpTypes) -> bool {
    match j {
        JumpTypes::NotZero => !f.zero,
        JumpTypes::Zero => f.zero,
        JumpTypes::NotCarry => !f.carry,
        JumpTypes::Carry => f.carry,
        JumpTypes::Always => true,
    }
}

/// A byte read as a signed offset.
pub open spec fn sign_extend(b: u8) -> int {
    if b < 128 {
        b as int
    } else {
        b - 256
    }
}

/// Where JP goes: the word operand when taken, else past the three bytes.
pub open spec fn jump_target(s: MachineState, taken: bool) -> u16 {
    if taken {
        imm16(s)
    } else {
        wrap16(s.pc + 3)
    }
}

/// Where JR goes: past its two bytes plus the signed offset when taken.
pub open spec fn relative_target(s: MachineState, taken: bool) -> u16 {
    if taken {
        wrap16(s.pc + 2 + sign_extend(imm8(s)))
    } else {
        wrap16(s.pc + 2)
    }
}

// ---------------------------------------------------------------------------
// Instructions

/// An accumulator operation: read the operand, set the flags, store the result
/// in A unless `store` is false (CP).
pub open spec fn accumulate(
    s: MachineState,
    r: Reg,
    result: u8,
    flags: FlagsRegister,
    store: bool,
) -> MachineState {
    let t = after_read(s, r);
    MachineState {
        regs: Registers { a: if store { result } else { t.regs.a }, flags, ..t.regs },
        ..t
    }
}

/// INC or DEC of a byte operand: Z by result, H from the low nibble, C kept.
pub open spec fn step_byte(s: MachineState, r: Reg, up: bool) -> MachineState {
    let v = read8(s, r);
    let res = if up {
        add8(v, 1)
    } else {
        sub8(v, 1)
    };
    let f = FlagsRegister {
        zero: res == 0,
        subtract: !up,
        half_carry: if up {
            v & 0xFu8 == 0xFu8
        } else {
            v & 0xFu8 == 0u8
        },
        carry: s.regs.flags.carry,
    };
    with_flags(write8(s, r, res), f)
}

/// INC or DEC of a 16-bit register: no flag changes.
pub open spec fn step_pair(s: MachineState, p: Reg16, up: bool) -> MachineState {
    let v = s.regs.pair(p);
    let res = if up {
        wrap16(v + 1)
    } else {
        wrap16(v - 1)
    };
    MachineState { regs: s.regs.with_pair(p, res), ..s }
}

/// INC or DEC of any operand that the instruction admits.
pub open spec fn step_operand(s: MachineState, r: Reg, up: bool) -> MachineState {
    if is_slot(r) {
        step_byte(s, r, up)
    } else {
        step_pair(s, r.wide(), up)
    }
}

/// A rotate or shift of a byte operand: Z by result (forced clear for the A
/// forms), N and H clear, C the bit shifted out.
pub open spec fn shift_step(s: MachineState, r: Reg, i: Instruction, zero_forced: bool) -> MachineState {
    let res = shift_result(i, read8(s, r), s.regs.flags.carry);
    let f = FlagsRegister {
        zero: !zero_forced && res.0 == 0,
        subtract: false,
        half_carry: false,
        carry: res.1,
    };
    with_flags(write8(s, r, res.0), f)
}

/// LD: a 16-bit immediate into a pair, or a byte from source to destination.
pub open spec fn load(s: MachineState, dst: Reg, src: Reg) -> MachineState {
    if src is D16 {
        MachineState { regs: s.regs.with_pair(dst.wide(), imm16(s)), ..s }
    } else {
        write8(after_read(s, src), dst, read8(s, src))
    }
}

/// ADD HL,rr: the 16-bit sum into HL, flags of `add16` (Z kept).
pub open spec fn add_hl(s: MachineState, p: Reg16) -> MachineState {
    let hl = s.regs.hl();
    let v = s.regs.pair(p);
    MachineState {
        regs: Registers { flags: add16_flags(hl, v, s.regs.flags), ..s.regs }.with_pair(
            Reg16::HL,
            add16(hl, v),
        ),
        ..s
    }
}

/// What an instruction does to registers, memory and the halt state (the
/// program counter stays; `next_pc` gives where it goes).
#[verifier::opaque]
pub open spec fn effect(s: MachineState, i: Instruction) -> MachineState {
    let a = s.regs.a;
    let f = s.regs.flags;
    match i {
        Instruction::ADD(r) => accumulate(s, r, add8(a, read8(s, r)), add8_flags(a, read8(s, r)), true),
        Instruction::ADC(r) => accumulate(
            s,
            r,
            adc8(a, read8(s, r), f.carry),
            adc8_flags(a, read8(s, r), f.carry),
            true,
        ),
        Instruction::SUB(r) => accumulate(s, r, sub8(a, read8(s, r)), sub8_flags(a, read8(s, r)), true),
        Instruction::SBC(r) => accumulate(
            s,
            r,
            sbc8(a, read8(s, r), f.carry),
            sbc8_flags(a, read8(s, r), f.carry),
            true,
        ),
        Instruction::AND(r) => accumulate(
            s,
            r,
            a & read8(s, r),
            FlagsRegister {
                zero: a & read8(s, r) == 0,
                subtract: false,
                half_carry: true,
                carry: false,
            },
            true,
        ),
        Instruction::OR(r) => accumulate(
            s,
            r,
            a | read8(s, r),
            FlagsRegister {
                zero: a | read8(s, r) == 0,
                subtract: false,
                half_carry: false,
                carry: false,
            },
            true,
        ),
        Instruction::XOR(r) => accumulate(
            s,
            r,
            a ^ read8(s, r),
            FlagsRegister {
                zero: a ^ read8(s, r) == 0,
                subtract: false,
                half_carry: false,
                carry: false,
            },
            true,
        ),
        Instruction::CP(r) => accumulate(s, r, a, sub8_flags(a, read8(s, r)), false),
        Instruction::INC(r) => step_operand(s, r, true),
        Instruction::DEC(r) => step_operand(s, r, false),
        Instruction::ADDHL(p) => add_hl(s, p),
        Instruction::CCF => with_flags(
            s,
            FlagsRegister { subtract: false, half_carry: false, carry: !f.carry, ..f },
        ),
        Instruction::SCF => with_flags(
            s,
            FlagsRegister { subtract: false, half_carry: false, carry: true, ..f },
        ),
        Instruction::CPL => MachineState {
            regs: Registers {
                a: a ^ 0xFFu8,
                flags: FlagsRegister { subtract: true, half_carry: true, ..f },
                ..s.regs
            },
            ..s
        },
        Instruction::RLCA | Instruction::RRCA | Instruction::RLA | Instruction::RRA => shift_step(
            s,
            Reg::A,
            i,
            true,
        ),
        Instruction::RLC(r) | Instruction::RRC(r) | Instruction::RL(r) | Instruction::RR(r)
        | Instruction::SLA(r) | Instruction::SRA(r) | Instruction::SWAP(r) | Instruction::SRL(
            r,
        ) => shift_step(s, r, i, false),
        Instruction::BIT(r, b) => with_flags(
            s,
            FlagsRegister { zero: !bit_set(read8(s, r), b), subtract: false, half_carry: true, ..f },
        ),
        Instruction::RESET(r, b) => write8(s, r, clear_bit(read8(s, r), b)),
        Instruction::SET(r, b) => write8(s, r, set_bit(read8(s, r), b)),
        Instruction::CALL(j) => if condition_holds(f, j) {
            push_state(s, wrap16(s.pc + 3))
        } else {
            s
        },
        Instruction::RET(j) => if condition_holds(f, j) {
            pop_state(s)
        } else {
            s
        },
        Instruction::LD(dst, src) => load(s, dst, src),
        Instruction::PUSH(p) => push_state(s, s.regs.pair(p)),
        Instruction::POP(p) => {
            let t = pop_state(s);
            MachineState { regs: t.regs.with_pair(p, pop_value(s)), ..t }
        },
        Instruction::HALT | Instruction::EXIT => MachineState { halted: true, ..s },
        _ => s,
    }
}

/// Where the program counter goes after an instruction: past its bytes, to
/// the target of a taken jump, call or return, or nowhere for HALT and EXIT.
#[verifier::opaque]
pub open spec fn next_pc(s: MachineState, i: Instruction) -> u16 {
    let f = s.regs.flags;
    match i {
        Instruction::ADD(r) | Instruction::ADC(r) | Instruction::SUB(r) | Instruction::SBC(r)
        | Instruction::AND(r) | Instruction::OR(r) | Instruction::XOR(r) | Instruction::CP(r) =>
            wrap16(s.pc + operand_len(r)),
        Instruction::LD(_, src) => wrap16(s.pc + operand_len(src)),
        Instruction::JP(j) => jump_target(s, condition_holds(f, j)),
        Instruction::JR(j) => relative_target(s, condition_holds(f, j)),
        Instruction::CALL(j) => if condition_holds(f, j) {
            imm16(s)
        } else {
            wrap16(s.pc + 3)
        },
        Instruction::RET(j) => if condition_holds(f, j) {
            pop_value(s)
        } else {
            wrap16(s.pc + 1)
        },
        Instruction::HALT | Instruction::EXIT => s.pc,
        _ => wrap16(s.pc + 1),
    }
}

/// The state after one instruction, the program counter moved on.
pub open spec fn exec_spec(s: MachineState, i: Instruction) -> MachineState {
    MachineState { pc: next_pc(s, i), ..effect(s, i) }
}

/// Pushing a value and popping it back gives the value and restores SP,
/// whenever SP is at least 2 (so that the pushed bytes do not wrap round to
/// the top of memory, where the stack guard would stop the pop).
pub proof fn lemma_push_pop_value(s: MachineState, v: u16)
    requires
        s.mem.len() == 0x10000,
        s.regs.sp >= 2,
    ensures
        pop_value(push_state(s, v)) == v,
        pop_state(push_state(s, v)).regs.sp == s.regs.sp,
        pop_state(push_state(s, v)).mem == push_state(s, v).mem,
{
    let u = push_state(s, v);
    assert(u.regs.sp == s.regs.sp - 2);
    assert(u.mem[u.regs.sp as int] == low_byte(v));
    assert(u.mem[u.regs.sp + 1] == high_byte(v));
}

/// After `PUSH p; POP q` on any pairs, q holds what p held (AF keeping only
/// the flag bits of its low byte) and SP is where it started, whenever SP is
/// at least 2.
pub proof fn lemma_push_pop(s: MachineState, p: Reg16, q: Reg16)
    requires
        s.mem.len() == 0x10000,
        s.regs.sp >= 2,
        is_pair_af(p),
        is_pair_af(q),
    ensures
        ({
            let t = effect(effect(s, Instruction::PUSH(p)), Instruction::POP(q));
            &&& t.regs.sp == s.regs.sp
            &&& t.regs.pair(q) == (if q is AF {
                s.regs.pair(p) & 0xFFF0u16
            } else {
                s.regs.pair(p)
            })
        }),
{
    reveal(effect);
    let v = s.regs.pair(p);
    let u = push_state(s, v);
    lemma_push_pop_value(s, v);
    lemma_pair_write_read(pop_state(u).regs, q, v);
}

} // verus!
