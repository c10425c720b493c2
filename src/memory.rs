use vstd::prelude::*;

use crate::gpu::{GPU, VRAM_END, VRAM_SIZE, VRAM_START};

verus! {

/// Bytes in the address space.
pub const ADDRESS_SPACE: usize = 0x10000;

/// The address space: a flat 64 KiB array, with the VRAM window delegated to the PPU.
pub struct MemoryBus {
    pub memory: Vec<u8>,
    pub gpu: GPU,
}

/// Whether a bus address is routed to VRAM.
pub open spec fn in_vram(addr: int) -> bool {
    VRAM_START <= addr < VRAM_END
}

impl View for MemoryBus {
    type V = Seq<u8>;

    /// The byte that a read of each address gives.
    open spec fn view(&self) -> Seq<u8> {
        Seq::new(
            ADDRESS_SPACE as nat,
            |a: int|
                if in_vram(a) {
                    self.gpu.vram@[a - VRAM_START]
                } else {
                    self.memory@[a]
                },
        )
    }
}

impl MemoryBus {
    pub open spec fn wf(&self) -> bool {
        &&& self.memory@.len() == ADDRESS_SPACE
        &&& self.gpu.wf()
    }

    /// All memory zero.
    pub fn new() -> (r: Self)
        ensures
            r.wf(),
            r@ == Seq::new(ADDRESS_SPACE as nat, |a: int| 0u8),
            r.memory@ == Seq::new(ADDRESS_SPACE as nat, |a: int| 0u8),
            r.gpu.vram@ == Seq::new(VRAM_SIZE as nat, |i: int| 0u8),
    {
        let mut memory: Vec<u8> = Vec::new();
        let mut i: usize = 0;
        while i < ADDRESS_SPACE
            invariant
                i <= ADDRESS_SPACE,
                memory@ == Seq::new(i as nat, |j: int| 0u8),
            decreases ADDRESS_SPACE - i,
        {
            memory.push(0u8);
            i = i + 1;
        }
        let bus = MemoryBus { memory, gpu: GPU::new() };
        assert(bus@ =~= Seq::new(ADDRESS_SPACE as nat, |a: int| 0u8));
        bus
    }

    /// The byte at an address: from VRAM inside its window, else from the flat array.
    pub fn read_byte(&self, addr: u16) -> (r: u8)
        requires
            self.wf(),
        ensures
            r == self@[addr as int],
    {
        let addr = addr as usize;
        if VRAM_START <= addr && addr < VRAM_END {
            self.gpu.vram_read_byte(addr - VRAM_START)
        } else {
            self.memory[addr]
        }
    }

    /// Stores a byte at an address; inside the VRAM window the PPU also keeps
    /// its tile cache up to date.
    pub fn write_byte(&mut self, addr: u16, byte: u8)
        requires
            old(self).wf(),
        ensures
            final(self).wf(),
            final(self)@ == old(self)@.update(addr as int, byte),
    {
        let addr = addr as usize;
        if VRAM_START <= addr && addr < VRAM_END {
            self.gpu.vram_write_byte(addr - VRAM_START, byte);
        } else {
            self.memory.set(addr, byte);
        }
        assert(self@ =~= old(self)@.update(addr as int, byte));
    }

    /// Copies an image into the flat array from address zero (the VRAM
    /// itself is left as it is).
    pub fn load_image(&mut self, image: &Vec<u8>)
        requires
            old(self).wf(),
            image@.len() <= ADDRESS_SPACE,
        ensures
            final(self).wf(),
            final(self).gpu == old(self).gpu,
            final(self).memory@ == image@ + old(self).memory@.skip(image@.len() as int),
    {
        let mut i: usize = 0;
        while i < image.len()
            invariant
                i <= image@.len() <= ADDRESS_SPACE,
                self.memory@.len() == ADDRESS_SPACE,
                old(self).memory@.len() == ADDRESS_SPACE,
                self.gpu == old(self).gpu,
                self.memory@ == image@.take(i as int) + old(self).memory@.skip(i as int),
            decreases image@.len() - i,
        {
            self.memory.set(i, image[i]);
            i = i + 1;
            assert(self.memory@ =~= image@.take(i as int) + old(self).memory@.skip(i as int));
        }
        assert(image@.take(i as int) =~= image@);
    }
}

} // verus!
