use vstd::prelude::*;

use crate::instructions::{decode, is_indirect, is_slot, Instruction, JumpTypes};
use crate::gpu::VRAM_SIZE;
use crate::memory::MemoryBus;
use crate::registers::{power_on, wrap16, FlagsRegister, Reg, Reg16, Registers};
use crate::semantics::{
    accumulate,
    add16,
    add16_flags,
    add8,
    add8_flags,
    adc8,
    adc8_flags,
    after_read,
    bit_value,
    condition_holds,
    effect,
    exec_spec,
    imm16,
    imm8,
    jump_target,
    load,
    next_pc,
    pop_state,
    pop_value,
    push_state,
    read8,
    relative_target,
    target_addr,
    sbc8,
    sbc8_flags,
    set_bit,
    shift_result,
    shift_step,
    step_operand,
    sub16,
    sub16_flags,
    sub8,
    sub8_flags,
    with_flags,
    write8,
    MachineState,
};

verus! {

/// Why `step` stopped instead of completing an instruction.
#[derive(Clone, Copy, Debug, PartialEq, Eq, Structural)]
pub enum StepError {
    /// The opcode at `address` has no mapping.
    UnknownOpcode { address: u16, opcode: u8, prefixed: bool },
    /// The emulator-only EXIT opcode at `address` asks the host to stop.
    Exit { address: u16 },
}

/// The processor: registers, program counter, memory bus and halt state.
pub struct CPU {
    pub regs: Registers,
    pub pc: u16,
    pub mem_bus: MemoryBus,
    pub is_halted: bool,
    /// Size of the loaded ROM in KiB; running past it halts the processor.
    pub rom_size: usize,
}

impl View for CPU {
    type V = MachineState;

    open spec fn view(&self) -> MachineState {
        MachineState { regs: self.regs, mem: self.mem_bus@, pc: self.pc, halted: self.is_halted }
    }
}

/// The opcode at PC and whether it came after a 0xCB prefix.
pub open spec fn fetch_spec(s: MachineState) -> (u8, bool) {
    if s.mem[s.pc as int] == 0xCB {
        (s.mem[wrap16(s.pc + 1) as int], true)
    } else {
        (s.mem[s.pc as int], false)
    }
}

/// One step of the machine whose ROM is `rom_size` KiB: the state after it and
/// what `step` reports.
pub open spec fn step_spec(s: MachineState, rom_size: int) -> (MachineState, Result<(), StepError>) {
    if s.halted {
        (s, Ok(()))
    } else {
        let (op, prefixed) = fetch_spec(s);
        match decode(op, prefixed) {
            None => (s, Err(StepError::UnknownOpcode { address: s.pc, opcode: op, prefixed })),
            Some(i) => {
                let at = if prefixed {
                    wrap16(s.pc + 1)
                } else {
                    s.pc
                };
                let t = exec_spec(MachineState { pc: at, ..s }, i);
                (
                    MachineState { halted: t.halted || t.pc >= rom_size * 1024, ..t },
                    if i is EXIT {
                        Err(StepError::Exit { address: at })
                    } else {
                        Ok(())
                    },
                )
            },
        }
    }
}

/// The result and carry out of a rotate or shift.
fn shift_value(i: Instruction, v: u8, c: bool) -> (r: (u8, bool))
    ensures
        r == shift_result(i, v, c),
{
    let cin: u8 = if c {
        1
    } else {
        0
    };
    match i {
        Instruction::RLC(_) | Instruction::RLCA => ((v % 128) * 2 + v / 128, v >= 128),
        Instruction::RRC(_) | Instruction::RRCA => (v / 2 + (v % 2) * 128, v % 2 == 1),
        Instruction::RL(_) | Instruction::RLA => ((v % 128) * 2 + cin, v >= 128),
        Instruction::RR(_) | Instruction::RRA => (v / 2 + cin * 128, v % 2 == 1),
        Instruction::SLA(_) => ((v % 128) * 2, v >= 128),
        Instruction::SRA(_) => (v / 2 + (v / 128) * 128, v % 2 == 1),
        Instruction::SWAP(_) => ((v % 16) * 16 + v / 16, false),
        _ => (v / 2, v % 2 == 1),
    }
}

/// Adding the carry as a second 8-bit add and joining the two steps' carries
/// gives the carries of the full three-way sum.
proof fn lemma_adc_fold(a: u8, b: u8, c: bool)
    ensures
        adc8(a, b, c) == add8(add8(a, b), bit_value(c) as u8),
        adc8_flags(a, b, c).half_carry == (add8_flags(a, b).half_carry || add8_flags(
            add8(a, b),
            bit_value(c) as u8,
        ).half_carry),
        adc8_flags(a, b, c).carry == (add8_flags(a, b).carry || add8_flags(
            add8(a, b),
            bit_value(c) as u8,
        ).carry),
{
    let r = add8(a, b);
    let ci = bit_value(c) as u8;
    assert(((a & 0xFu8) + (b & 0xFu8) + ci > 0xF) == ((a & 0xFu8) + (b & 0xFu8) > 0xF || (((a + b)
        % 256) as u8 & 0xFu8) + (ci & 0xFu8) > 0xF)) by (bit_vector)
        requires
            ci <= 1,
    ;
}

/// Subtracting the carry as a second 8-bit subtract and joining the two
/// steps' borrows gives the borrows of the full difference.
proof fn lemma_sbc_fold(a: u8, b: u8, c: bool)
    ensures
        sbc8(a, b, c) == sub8(sub8(a, b), bit_value(c) as u8),
        sbc8_flags(a, b, c).half_carry == (sub8_flags(a, b).half_carry || sub8_flags(
            sub8(a, b),
            bit_value(c) as u8,
        ).half_carry),
        sbc8_flags(a, b, c).carry == (sub8_flags(a, b).carry || sub8_flags(
            sub8(a, b),
            bit_value(c) as u8,
        ).carry),
{
    let ci = bit_value(c) as u8;
    assert(((a & 0xFu8) < (b & 0xFu8) + ci) == ((a & 0xFu8) < (b & 0xFu8) || (((a - b + 256) % 256) as u8
        & 0xFu8) < (ci & 0xFu8))) by (bit_vector)
        requires
            ci <= 1,
    ;
}

impl CPU {
    pub open spec fn wf(&self) -> bool {
        self.mem_bus.wf()
    }

    /// A powered-on processor: registers as `Registers::new`, PC 0, memory
    /// zeroed, running, no ROM.
    pub fn new() -> (r: Self)
        ensures
            r.wf(),
            r.regs == power_on(),
            r.pc == 0,
            r.mem_bus@ == Seq::new(0x10000, |a: int| 0u8),
            r.mem_bus.memory@ == Seq::new(0x10000, |a: int| 0u8),
            r.mem_bus.gpu.vram@ == Seq::new(VRAM_SIZE as nat, |i: int| 0u8),
            !r.is_halted,
            r.rom_size == 0,
    {
        CPU { regs: Registers::new(), pc: 0, mem_bus: MemoryBus::new(), is_halted: false, rom_size: 0 }
    }

    /// The opcode at PC, reading past a 0xCB prefix.
    pub fn fetch(&self) -> (r: (u8, bool))
        requires
            self.wf(),
        ensures
            r == fetch_spec(self@),
    {
        let byte = self.mem_bus.read_byte(self.pc);
        if byte == 0xCB {
            (self.mem_bus.read_byte(self.pc.wrapping_add(1)), true)
        } else {
            (byte, false)
        }
    }

    /// Advances the machine by one instruction; does nothing when halted.
    /// Stops with an error, the state unchanged, on an opcode with no mapping.
    #[verifier::spinoff_prover]
    #[verifier::rlimit(60)]
    pub fn step(&mut self) -> (r: Result<(), StepError>)
        requires
            old(self).wf(),
        ensures
            final(self).wf(),
            final(self).rom_size == old(self).rom_size,
            (final(self)@, r) == step_spec(old(self)@, old(self).rom_size as int),
    {
        if self.is_halted {
            return Ok(());
        }
        let (instruction_byte, prefixed) = self.fetch();
        let start = self.pc;
        let instruction = match Instruction::from_byte(instruction_byte, prefixed) {
            Some(i) => i,
            None => {
                return Err(
                    StepError::UnknownOpcode { address: start, opcode: instruction_byte, prefixed },
                );
            },
        };
        if prefixed {
            self.pc = self.pc.wrapping_add(1);
        }
        let at = self.pc;
        let next_pc = self.execute(instruction);
        self.pc = next_pc;
        if (self.pc as usize) / 1024 >= self.rom_size {
            self.is_halted = true;
        }
        match instruction {
            Instruction::EXIT => Err(StepError::Exit { address: at }),
            _ => Ok(()),
        }
    }

    /// Executes one decoded instruction and returns the next program counter;
    /// PC itself is left for the caller to set. A halted processor stays put.
    #[verifier::spinoff_prover]
    #[verifier::rlimit(100)]
    pub fn execute(&mut self, instruction: Instruction) -> (r: u16)
        requires
            old(self).wf(),
            instruction.is_well_formed(),
        ensures
            final(self).wf(),
            final(self).rom_size == old(self).rom_size,
            old(self).is_halted ==> final(self)@ == old(self)@ && r == old(self).pc,
            !old(self).is_halted ==> final(self)@ == effect(old(self)@, instruction) && r
                == next_pc(old(self)@, instruction),
    {
        reveal(effect);
        reveal(next_pc);
        if self.is_halted {
            return self.pc;
        }
        let next: u16 = match instruction {
            Instruction::LD(dst, src) => self.ld(src, dst),
            Instruction::PUSH(target16) => {
                let value: u16 = self.regs.get_vreg_value(target16).0;
                self.push(value);
                self.pc.wrapping_add(1)
            },
            Instruction::POP(target16) => {
                let value: u16 = self.pop();
                self.regs.set_vreg(target16, value);
                self.pc.wrapping_add(1)
            },
            Instruction::INC(target) => {
                self.inc(target);
                self.pc.wrapping_add(1)
            },
            Instruction::DEC(target) => {
                self.dev(target);
                self.pc.wrapping_add(1)
            },
            Instruction::ADDHL(target) => {
                let add_num = self.regs.get_vreg_value(target).0;
                let hl = self.regs.get_vreg_value(Reg16::HL).0;
                let sum = self.gb_add16(hl, add_num);
                self.regs.set_vreg(Reg16::HL, sum);
                self.pc.wrapping_add(1)
            },
            Instruction::HALT | Instruction::EXIT => {
                self.is_halted = true;
                self.pc
            },
            Instruction::NOP | Instruction::IDK => self.pc.wrapping_add(1),
            Instruction::ADD(_) | Instruction::ADC(_) | Instruction::SUB(_) | Instruction::SBC(_)
            | Instruction::AND(_) | Instruction::OR(_) | Instruction::XOR(_) | Instruction::CP(_) =>
                self.execute_accumulator(instruction),
            Instruction::JP(_) | Instruction::JR(_) | Instruction::CALL(_) | Instruction::RET(_) =>
                self.execute_control(instruction),
            _ => self.execute_bits(instruction),
        };
        next
    }

    /// The accumulator operations ADD, ADC, SUB, SBC, AND, OR, XOR, CP.
    #[verifier::spinoff_prover]
    #[verifier::rlimit(100)]
    fn execute_accumulator(&mut self, instruction: Instruction) -> (r: u16)
        requires
            old(self).wf(),
            instruction.is_well_formed(),
            instruction is ADD || instruction is ADC || instruction is SUB || instruction is SBC
                || instruction is AND || instruction is OR || instruction is XOR || instruction is CP,
        ensures
            final(self).wf(),
            final(self).rom_size == old(self).rom_size,
            final(self)@ == effect(old(self)@, instruction),
            r == next_pc(old(self)@, instruction),
    {
        reveal(effect);
        reveal(next_pc);
        match instruction {
            Instruction::ADD(target) => {
                let value = self.read_operand(target);
                let a = self.regs.a;
                self.regs.a = self.gb_add(a, value);
                self.pc.wrapping_add(operand_len(target))
            },
            Instruction::ADC(target) => {
                self.add_with_carry(target);
                self.pc.wrapping_add(operand_len(target))
            },
            Instruction::SUB(target) => {
                let value = self.read_operand(target);
                let a = self.regs.a;
                self.regs.a = self.gb_sub(a, value);
                self.pc.wrapping_add(operand_len(target))
            },
            Instruction::SBC(target) => {
                self.sub_with_carry(target);
                self.pc.wrapping_add(operand_len(target))
            },
            Instruction::AND(target) => {
                let value = self.read_operand(target);
                self.regs.a = self.regs.a & value;
                self.regs.flags = FlagsRegister {
                    zero: self.regs.a == 0,
                    subtract: false,
                    half_carry: true,
                    carry: false,
                };
                self.pc.wrapping_add(operand_len(target))
            },
            Instruction::OR(target) => {
                let value = self.read_operand(target);
                self.regs.a = self.regs.a | value;
                self.regs.flags = FlagsRegister {
                    zero: self.regs.a == 0,
                    subtract: false,
                    half_carry: false,
                    carry: false,
                };
                self.pc.wrapping_add(operand_len(target))
            },
            Instruction::XOR(target) => {
                let value = self.read_operand(target);
                self.regs.a = self.regs.a ^ value;
                self.regs.flags = FlagsRegister {
                    zero: self.regs.a == 0,
                    subtract: false,
                    half_carry: false,
                    carry: false,
                };
                self.pc.wrapping_add(operand_len(target))
            },
            Instruction::CP(target) => {
                let value = self.read_operand(target);
                let a = self.regs.a;
                let _ = self.gb_sub(a, value);
                self.pc.wrapping_add(operand_len(target))
            },
            _ => self.pc,
        }
    }

    /// The flag operations, rotates, shifts and bit operations.
    #[verifier::spinoff_prover]
    #[verifier::rlimit(100)]
    fn execute_bits(&mut self, instruction: Instruction) -> (r: u16)
        requires
            old(self).wf(),
            instruction.is_well_formed(),
            instruction is CCF || instruction is SCF || instruction is CPL || instruction is RLCA
                || instruction is RRCA || instruction is RLA || instruction is RRA || instruction is RLC
                || instruction is RRC || instruction is RL || instruction is RR || instruction is SLA
                || instruction is SRA || instruction is SWAP || instruction is SRL || instruction is BIT
                || instruction is RESET || instruction is SET,
        ensures
            final(self).wf(),
            final(self).rom_size == old(self).rom_size,
            final(self)@ == effect(old(self)@, instruction),
            r == next_pc(old(self)@, instruction),
    {
        reveal(effect);
        reveal(next_pc);
        match instruction {
            Instruction::CCF => {
                self.regs.flags.subtract = false;
                self.regs.flags.half_carry = false;
                self.regs.flags.carry = !self.regs.flags.carry;
                self.pc.wrapping_add(1)
            },
            Instruction::SCF => {
                self.regs.flags.subtract = false;
                self.regs.flags.half_carry = false;
                self.regs.flags.carry = true;
                self.pc.wrapping_add(1)
            },
            Instruction::CPL => {
                self.regs.a = self.regs.a ^ 0xFF;
                self.regs.flags.subtract = true;
                self.regs.flags.half_carry = true;
                self.pc.wrapping_add(1)
            },
            Instruction::RLCA | Instruction::RRCA | Instruction::RLA | Instruction::RRA => {
                self.shift(Reg::A, instruction, true);
                self.pc.wrapping_add(1)
            },
            Instruction::RLC(target) | Instruction::RRC(target) | Instruction::RL(target)
            | Instruction::RR(target) | Instruction::SLA(target) | Instruction::SRA(target)
            | Instruction::SWAP(target) | Instruction::SRL(target) => {
                self.shift(target, instruction, false);
                self.pc.wrapping_add(1)
            },
            Instruction::BIT(target, bit_pos) => {
                let value = self.read_operand(target);
                self.regs.flags.zero = value & (1u8 << bit_pos) == 0;
                self.regs.flags.subtract = false;
                self.regs.flags.half_carry = true;
                self.pc.wrapping_add(1)
            },
            Instruction::RESET(target, bit_pos) => {
                let value = self.read_operand(target);
                self.write_operand(target, value & !(1u8 << bit_pos));
                self.pc.wrapping_add(1)
            },
            Instruction::SET(target, bit_pos) => {
                self.set(target, bit_pos);
                self.pc.wrapping_add(1)
            },
            _ => self.pc,
        }
    }

    /// Jumps, calls and returns.
    #[verifier::spinoff_prover]
    #[verifier::rlimit(100)]
    fn execute_control(&mut self, instruction: Instruction) -> (r: u16)
        requires
            old(self).wf(),
            instruction.is_well_formed(),
            instruction is JP || instruction is JR || instruction is CALL || instruction is RET,
        ensures
            final(self).wf(),
            final(self).rom_size == old(self).rom_size,
            final(self)@ == effect(old(self)@, instruction),
            r == next_pc(old(self)@, instruction),
    {
        reveal(effect);
        reveal(next_pc);
        match instruction {
            Instruction::JP(jump_type) => {
                let cond = self.get_jump_condition(jump_type).0;
                self.jump(cond)
            },
            Instruction::JR(jump_type) => {
                let cond = self.get_jump_condition(jump_type).0;
                self.relative_jump(cond)
            },
            Instruction::CALL(jump_type) => {
                let cond = self.get_jump_condition(jump_type).0;
                self.call(cond)
            },
            Instruction::RET(jump_type) => {
                let cond = self.get_jump_condition(jump_type).0;
                self.ret(cond)
            },
            _ => self.pc,
        }
    }

    /// ADC: A plus the operand plus the carry, as two 8-bit adds whose
    /// carries are joined.
    #[verifier::spinoff_prover]
    #[verifier::rlimit(60)]
    fn add_with_carry(&mut self, target: Reg)
        requires
            old(self).wf(),
            is_slot(target) || target is D8,
        ensures
            final(self).wf(),
            final(self).rom_size == old(self).rom_size,
            final(self)@ == accumulate(
                old(self)@,
                target,
                adc8(old(self).regs.a, read8(old(self)@, target), old(self).regs.flags.carry),
                adc8_flags(old(self).regs.a, read8(old(self)@, target), old(self).regs.flags.carry),
                true,
            ),
    {
        let value = self.read_operand(target);
        let a = self.regs.a;
        let carry: u8 = if self.regs.flags.carry {
            1
        } else {
            0
        };
        let partial = self.gb_add(a, value);
        let first = self.regs.flags;
        let sum = self.gb_add(partial, carry);
        let second = self.regs.flags;
        proof {
            lemma_adc_fold(a, value, old(self).regs.flags.carry);
        }
        self.regs.flags.half_carry = first.half_carry || second.half_carry;
        self.regs.flags.carry = first.carry || second.carry;
        self.regs.a = sum;
    }

    /// SBC: A minus the operand minus the carry, as two 8-bit subtracts whose
    /// borrows are joined.
    #[verifier::spinoff_prover]
    #[verifier::rlimit(60)]
    fn sub_with_carry(&mut self, target: Reg)
        requires
            old(self).wf(),
            is_slot(target) || target is D8,
        ensures
            final(self).wf(),
            final(self).rom_size == old(self).rom_size,
            final(self)@ == accumulate(
                old(self)@,
                target,
                sbc8(old(self).regs.a, read8(old(self)@, target), old(self).regs.flags.carry),
                sbc8_flags(old(self).regs.a, read8(old(self)@, target), old(self).regs.flags.carry),
                true,
            ),
    {
        let value = self.read_operand(target);
        let a = self.regs.a;
        let carry: u8 = if self.regs.flags.carry {
            1
        } else {
            0
        };
        let partial = self.gb_sub(a, value);
        let first = self.regs.flags;
        let diff = self.gb_sub(partial, carry);
        let second = self.regs.flags;
        proof {
            lemma_sbc_fold(a, value, old(self).regs.flags.carry);
        }
        self.regs.flags.half_carry = first.half_carry || second.half_carry;
        self.regs.flags.carry = first.carry || second.carry;
        self.regs.a = diff;
    }

    /// The byte a source operand gives: a register, the immediate byte, or
    /// memory through a pair (HL moves on afterwards for HLI and HLD).
    fn read_operand(&mut self, target: Reg) -> (r: u8)
        requires
            old(self).wf(),
            is_slot(target) || is_indirect(target) || target is D8,
        ensures
            final(self).wf(),
            final(self).rom_size == old(self).rom_size,
            r == read8(old(self)@, target),
            final(self)@ == after_read(old(self)@, target),
    {
        match target {
            Reg::D8 => self.read_next_byte(),
            Reg::Addr(p) => self.access(p, None),
            _ => self.regs.get_reg_value(target).0,
        }
    }

    /// Writes a byte to a register or to memory through a pair (HL moves on
    /// afterwards for HLI and HLD).
    fn write_operand(&mut self, target: Reg, value: u8)
        requires
            old(self).wf(),
            is_slot(target) || is_indirect(target),
        ensures
            final(self).wf(),
            final(self).rom_size == old(self).rom_size,
            final(self)@ == write8(old(self)@, target, value),
    {
        match target {
            Reg::Addr(p) => {
                self.access(p, Some(value));
            },
            _ => self.regs.set_reg(target, value),
        }
    }

    /// Reads, or with `Some(v)` writes, the byte addressed through a pair,
    /// then moves HL on for HLI and HLD. Returns the byte read (or written).
    #[verifier::spinoff_prover]
    #[verifier::rlimit(60)]
    fn access(&mut self, p: Reg16, store: Option<u8>) -> (r: u8)
        requires
            old(self).wf(),
            !(p is AF) && !(p is SP),
        ensures
            final(self).wf(),
            final(self).rom_size == old(self).rom_size,
            store is None ==> r == read8(old(self)@, Reg::Addr(p)) && final(self)@ == after_read(
                old(self)@,
                Reg::Addr(p),
            ),
            store matches Some(v) ==> final(self)@ == write8(old(self)@, Reg::Addr(p), v),
    {
        let address = self.address_of(p);
        let byte = match store {
            Some(v) => {
                self.mem_bus.write_byte(address, v);
                v
            },
            None => self.mem_bus.read_byte(address),
        };
        self.regs.advance_hl(p);
        byte
    }

    /// The address that an access through a pair uses: HL for HLI and HLD.
    fn address_of(&self, p: Reg16) -> (r: u16)
        ensures
            r == target_addr(self.regs, p),
    {
        match p {
            Reg16::HLI | Reg16::HLD => self.regs.get_vreg_value(Reg16::HL).0,
            _ => self.regs.get_vreg_value(p).0,
        }
    }

    /// A rotate or shift of a byte operand, with its flags; Z is forced
    /// clear when `zero_forced` (the A forms).
    #[verifier::spinoff_prover]
    #[verifier::rlimit(60)]
    fn shift(&mut self, target: Reg, instruction: Instruction, zero_forced: bool)
        requires
            old(self).wf(),
            is_slot(target),
        ensures
            final(self).wf(),
            final(self).rom_size == old(self).rom_size,
            final(self)@ == shift_step(old(self)@, target, instruction, zero_forced),
    {
        let value = self.read_operand(target);
        let (result, carry) = shift_value(instruction, value, self.regs.flags.carry);
        self.write_operand(target, result);
        self.regs.flags = FlagsRegister {
            zero: !zero_forced && result == 0,
            subtract: false,
            half_carry: false,
            carry,
        };
    }

    /// LD: copies the source operand to the destination; returns the next PC
    /// (past a d8 or d16 operand).
    #[verifier::spinoff_prover]
    #[verifier::rlimit(60)]
    pub fn ld(&mut self, src: Reg, dst: Reg) -> (r: u16)
        requires
            old(self).wf(),
            Instruction::LD(dst, src).is_well_formed(),
        ensures
            final(self).wf(),
            final(self).rom_size == old(self).rom_size,
            final(self)@ == load(old(self)@, dst, src),
            r == wrap16(old(self).pc + crate::semantics::operand_len(src)),
    {
        match src {
            Reg::D16 => {
                let value = self.read_next_word();
                match dst.to_pair() {
                    Some(p) => self.regs.set_vreg(p, value),
                    None => {},
                }
                self.pc.wrapping_add(3)
            },
            _ => {
                let value = self.read_operand(src);
                self.write_operand(dst, value);
                self.pc.wrapping_add(operand_len(src))
            },
        }
    }

    /// JP: the address operand when `should_jump`, else past the three bytes.
    pub fn jump(&self, should_jump: bool) -> (r: u16)
        requires
            self.wf(),
        ensures
            r == jump_target(self@, should_jump),
    {
        if should_jump {
            self.read_next_word()
        } else {
            self.pc.wrapping_add(3)
        }
    }

    /// JR: past the two bytes, plus the signed offset when `should_jump`.
    pub fn relative_jump(&self, should_jump: bool) -> (r: u16)
        requires
            self.wf(),
        ensures
            r == relative_target(self@, should_jump),
    {
        let next = self.pc.wrapping_add(2);
        if should_jump {
            let offset = self.read_next_byte();
            if offset < 128 {
                next.wrapping_add(offset as u16)
            } else {
                next.wrapping_sub(256 - offset as u16)
            }
        } else {
            next
        }
    }

    /// CALL: when `should_jump`, pushes the address past the call and goes to
    /// the address operand; else goes past the three bytes.
    pub fn call(&mut self, should_jump: bool) -> (r: u16)
        requires
            old(self).wf(),
        ensures
            final(self).wf(),
            final(self).rom_size == old(self).rom_size,
            should_jump ==> final(self)@ == push_state(old(self)@, wrap16(old(self).pc + 3)) && r
                == imm16(old(self)@),
            !should_jump ==> final(self)@ == old(self)@ && r == wrap16(old(self).pc + 3),
    {
        let next_pc = self.pc.wrapping_add(3);
        if should_jump {
            let target = self.read_next_word();
            self.push(next_pc);
            target
        } else {
            next_pc
        }
    }

    /// RET: when `should_jump`, the popped address; else past the one byte.
    pub fn ret(&mut self, should_jump: bool) -> (r: u16)
        requires
            old(self).wf(),
        ensures
            final(self).wf(),
            final(self).rom_size == old(self).rom_size,
            should_jump ==> final(self)@ == pop_state(old(self)@) && r == pop_value(old(self)@),
            !should_jump ==> final(self)@ == old(self)@ && r == wrap16(old(self).pc + 1),
    {
        if should_jump {
            self.pop()
        } else {
            self.pc.wrapping_add(1)
        }
    }

    /// INC of a byte operand (Z, N, H set, C kept) or of a 16-bit register
    /// (no flags).
    #[verifier::spinoff_prover]
    #[verifier::rlimit(60)]
    pub fn inc(&mut self, target: Reg)
        requires
            old(self).wf(),
            Instruction::INC(target).is_well_formed(),
        ensures
            final(self).wf(),
            final(self).rom_size == old(self).rom_size,
            final(self)@ == step_operand(old(self)@, target, true),
    {
        match target.to_pair() {
            Some(p) => {
                let value = self.regs.get_vreg_value(p).0;
                self.regs.set_vreg(p, value.wrapping_add(1));
            },
            None => {
                let carry = self.regs.flags.carry;
                let value = self.read_operand(target);
                let result = value.wrapping_add(1);
                assert(result == add8(value, 1));
                self.write_operand(target, result);
                self.regs.flags = FlagsRegister {
                    zero: result == 0,
                    subtract: false,
                    half_carry: value & 0xF == 0xF,
                    carry,
                };
            },
        }
    }

    /// DEC of a byte operand (Z, N, H set, C kept) or of a 16-bit register
    /// (no flags).
    #[verifier::spinoff_prover]
    #[verifier::rlimit(60)]
    pub fn dev(&mut self, target: Reg)
        requires
            old(self).wf(),
            Instruction::DEC(target).is_well_formed(),
        ensures
            final(self).wf(),
            final(self).rom_size == old(self).rom_size,
            final(self)@ == step_operand(old(self)@, target, false),
    {
        match target.to_pair() {
            Some(p) => {
                let value = self.regs.get_vreg_value(p).0;
                self.regs.set_vreg(p, value.wrapping_sub(1));
            },
            None => {
                let carry = self.regs.flags.carry;
                let value = self.read_operand(target);
                let result = value.wrapping_sub(1);
                assert(result == sub8(value, 1));
                self.write_operand(target, result);
                self.regs.flags = FlagsRegister {
                    zero: result == 0,
                    subtract: true,
                    half_carry: value & 0xF == 0,
                    carry,
                };
            },
        }
    }

    /// SET: sets bit `bit_position` of a byte operand; no flag changes.
    pub fn set(&mut self, target: Reg, bit_position: u8)
        requires
            old(self).wf(),
            Instruction::SET(target, bit_position).is_well_formed(),
        ensures
            final(self).wf(),
            final(self).rom_size == old(self).rom_size,
            final(self)@ == write8(
                old(self)@,
                target,
                set_bit(read8(old(self)@, target), bit_position),
            ),
    {
        let value = self.read_operand(target);
        self.write_operand(target, value | (1u8 << bit_position));
    }

    /// `add16`: returns the sum modulo 65536 and sets N, H, C; Z is kept.
    pub fn gb_add16(&mut self, reg_target: u16, value: u16) -> (r: u16)
        requires
            old(self).wf(),
        ensures
            final(self).wf(),
            final(self).rom_size == old(self).rom_size,
            r == add16(reg_target, value),
            final(self)@ == with_flags(
                old(self)@,
                add16_flags(reg_target, value, old(self).regs.flags),
            ),
    {
        let sum: u32 = reg_target as u32 + value as u32;
        self.regs.flags.subtract = false;
        self.regs.flags.half_carry = ((reg_target & 0xFFF) as u32) + ((value & 0xFFF) as u32)
            > 0xFFF;
        self.regs.flags.carry = sum > 0xFFFF;
        (sum % 0x10000) as u16
    }

    /// `add8`: returns the sum modulo 256 and sets Z, N, H, C.
    pub fn gb_add(&mut self, reg_target: u8, value: u8) -> (r: u8)
        requires
            old(self).wf(),
        ensures
            final(self).wf(),
            final(self).rom_size == old(self).rom_size,
            r == add8(reg_target, value),
            r == (reg_target + value) % 256,
            final(self)@ == with_flags(old(self)@, add8_flags(reg_target, value)),
    {
        let sum: u16 = reg_target as u16 + value as u16;
        let new_value = (sum % 256) as u8;
        self.regs.flags = FlagsRegister {
            zero: new_value == 0,
            subtract: false,
            half_carry: ((reg_target & 0xF) as u16) + ((value & 0xF) as u16) > 0xF,
            carry: sum > 0xFF,
        };
        new_value
    }

    /// `sub16`: returns the difference modulo 65536 and sets N, H, C; Z is kept.
    pub fn gb_sub16(&mut self, reg_target: u16, value: u16) -> (r: u16)
        requires
            old(self).wf(),
        ensures
            final(self).wf(),
            final(self).rom_size == old(self).rom_size,
            r == sub16(reg_target, value),
            final(self)@ == with_flags(
                old(self)@,
                sub16_flags(reg_target, value, old(self).regs.flags),
            ),
    {
        self.regs.flags.subtract = true;
        self.regs.flags.half_carry = (reg_target & 0xFFF) < (value & 0xFFF);
        self.regs.flags.carry = reg_target < value;
        reg_target.wrapping_sub(value)
    }

    /// `sub8`: returns the difference modulo 256 and sets the flags: Z exactly
    /// when the operands are equal, N always, H on a borrow from bit 4, C
    /// exactly when `value` is the larger.
    pub fn gb_sub(&mut self, reg_target: u8, value: u8) -> (r: u8)
        requires
            old(self).wf(),
        ensures
            final(self).wf(),
            final(self).rom_size == old(self).rom_size,
            r == sub8(reg_target, value),
            final(self)@ == with_flags(old(self)@, sub8_flags(reg_target, value)),
            final(self).regs.flags.zero == (reg_target == value),
            final(self).regs.flags.carry == (reg_target < value),
            final(self).regs.flags.half_carry == ((reg_target & 0xFu8) < (value & 0xFu8)),
            final(self).regs.flags.subtract,
    {
        let new_value = reg_target.wrapping_sub(value);
        self.regs.flags = FlagsRegister {
            zero: new_value == 0,
            subtract: true,
            half_carry: (reg_target & 0xF) < (value & 0xF),
            carry: reg_target < value,
        };
        new_value
    }

    /// PUSH: SP - 1 gets the high byte, SP - 2 the low byte; SP ends at SP - 2.
    pub fn push(&mut self, value: u16)
        requires
            old(self).wf(),
        ensures
            final(self).wf(),
            final(self).rom_size == old(self).rom_size,
            final(self)@ == push_state(old(self)@, value),
    {
        self.regs.sp = self.regs.sp.wrapping_sub(1);
        self.mem_bus.write_byte(self.regs.sp, (value / 256) as u8);
        self.regs.sp = self.regs.sp.wrapping_sub(1);
        self.mem_bus.write_byte(self.regs.sp, (value % 256) as u8);
    }

    /// POP: the word at SP, SP up by two; with SP at 0xFFFE or above, 0 and
    /// nothing changes.
    pub fn pop(&mut self) -> (r: u16)
        requires
            old(self).wf(),
        ensures
            final(self).wf(),
            final(self).rom_size == old(self).rom_size,
            r == pop_value(old(self)@),
            final(self)@ == pop_state(old(self)@),
    {
        if self.regs.sp >= 0xFFFE {
            return 0;
        }
        let lsb = self.mem_bus.read_byte(self.regs.sp) as u16;
        self.regs.sp = self.regs.sp + 1;
        let msb = self.mem_bus.read_byte(self.regs.sp) as u16;
        self.regs.sp = self.regs.sp + 1;
        msb * 256 + lsb
    }

    /// Whether a condition holds under the current flags, with the condition.
    pub fn get_jump_condition(&self, jump_type: JumpTypes) -> (r: (bool, JumpTypes))
        ensures
            r.0 == condition_holds(self.regs.flags, jump_type),
            r.1 == jump_type,
    {
        (
            match jump_type {
                JumpTypes::NotZero => !self.regs.flags.zero,
                JumpTypes::Zero => self.regs.flags.zero,
                JumpTypes::NotCarry => !self.regs.flags.carry,
                JumpTypes::Carry => self.regs.flags.carry,
                JumpTypes::Always => true,
            },
            jump_type,
        )
    }

    /// The byte after the opcode.
    pub fn read_next_byte(&self) -> (r: u8)
        requires
            self.wf(),
        ensures
            r == imm8(self@),
    {
        self.mem_bus.read_byte(self.pc.wrapping_add(1))
    }

    /// The little-endian word after the opcode.
    pub fn read_next_word(&self) -> (r: u16)
        requires
            self.wf(),
        ensures
            r == imm16(self@),
    {
        let lsb = self.mem_bus.read_byte(self.pc.wrapping_add(1)) as u16;
        let msb = self.mem_bus.read_byte(self.pc.wrapping_add(2)) as u16;
        msb * 256 + lsb
    }
}

/// Bytes taken by an instruction whose source operand is `r`.
fn operand_len(r: Reg) -> (n: u16)
    ensures
        n == crate::semantics::operand_len(r),
{
    match r {
        Reg::D8 => 2,
        Reg::D16 => 3,
        _ => 1,
    }
}

} // verus!
