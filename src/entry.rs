use vstd::prelude::*;

use crate::cpu::{step_spec, StepError, CPU};
use crate::gpu::VRAM_SIZE;
use crate::memory::ADDRESS_SPACE;
use crate::registers::power_on;
use crate::rom::ROM;
use crate::semantics::MachineState;

verus! {

/// Where execution starts once a cartridge is loaded (the boot ROM is skipped).
pub const ENTRY_POINT: u16 = 0x0100;

/// Up to `n` steps from `s`: stops early when the machine halts or a step
/// reports an error; gives the state reached and the last report.
pub open spec fn run_spec(s: MachineState, rom_size: int, n: nat) -> (MachineState, Result<(), StepError>)
    decreases n,
{
    if n == 0 || s.halted {
        (s, Ok(()))
    } else {
        let (t, r) = step_spec(s, rom_size);
        if r is Err {
            (t, r)
        } else {
            run_spec(t, rom_size, (n - 1) as nat)
        }
    }
}

/// A processor ready to run a cartridge: powered on, the image copied into the
/// flat memory from address zero, PC at the entry point, the ROM's size recorded.
pub fn setup(rom: &ROM) -> (cpu: CPU)
    requires
        rom.data@.len() <= ADDRESS_SPACE,
    ensures
        cpu.wf(),
        cpu.regs == power_on(),
        cpu.pc == ENTRY_POINT,
        !cpu.is_halted,
        cpu.rom_size == rom.size,
        cpu.mem_bus.memory@ == rom.data@ + Seq::new(
            (ADDRESS_SPACE - rom.data@.len()) as nat,
            |i: int| 0u8,
        ),
        cpu.mem_bus.gpu.vram@ == Seq::new(VRAM_SIZE as nat, |i: int| 0u8),
{
    let mut cpu = CPU::new();
    cpu.mem_bus.load_image(&rom.data);
    cpu.pc = ENTRY_POINT;
    cpu.rom_size = rom.size;
    proof {
        let n = rom.data@.len() as int;
        assert(cpu.mem_bus.memory@ =~= rom.data@ + Seq::new(
            (ADDRESS_SPACE - n) as nat,
            |i: int| 0u8,
        ));
    }
    cpu
}

/// Runs up to `max_steps` steps, stopping early when the processor halts or a
/// step reports an error, which is returned.
pub fn process(cpu: &mut CPU, max_steps: usize) -> (r: Result<(), StepError>)
    requires
        old(cpu).wf(),
    ensures
        final(cpu).wf(),
        final(cpu).rom_size == old(cpu).rom_size,
        (final(cpu)@, r) == run_spec(old(cpu)@, old(cpu).rom_size as int, max_steps as nat),
{
    let mut i: usize = 0;
    while i < max_steps && !cpu.is_halted
        invariant
            i <= max_steps,
            cpu.wf(),
            cpu.rom_size == old(cpu).rom_size,
            run_spec(old(cpu)@, cpu.rom_size as int, max_steps as nat) == run_spec(
                cpu@,
                cpu.rom_size as int,
                (max_steps - i) as nat,
            ),
        decreases max_steps - i,
    {
        let outcome = cpu.step();
        if outcome.is_err() {
            return outcome;
        }
        i = i + 1;
    }
    Ok(())
}

} // verus!
