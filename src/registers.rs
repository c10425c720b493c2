use vstd::prelude::*;

verus! {

/// An operand specifier: one of the eight 8-bit registers, one of the 16-bit
/// pairs, an immediate tag, or memory addressed through a pair.
#[derive(Clone, Copy, Debug, PartialEq, Eq, Structural)]
pub enum Reg {
    A,
    B,
    C,
    D,
    E,
    FLAGS,
    H,
    L,
    AF,
    BC,
    HL,
    DE,
    D8,
    D16,
    HLI,
    HLD,
    SP,
    /// The byte in memory at the address held by a pair.
    Addr(Reg16),
}

/// A 16-bit register or pair view. `HLI` and `HLD` stand for HL used as an
/// address and then incremented or decremented.
#[derive(Clone, Copy, Debug, PartialEq, Eq, Structural)]
pub enum Reg16 {
    AF,
    BC,
    DE,
    HL,
    HLI,
    HLD,
    SP,
}

/// The four flags held in the upper nibble of the F register.
#[derive(Clone, Copy, Debug, PartialEq, Eq, Structural)]
pub struct FlagsRegister {
    pub zero: bool,
    pub subtract: bool,
    pub half_carry: bool,
    pub carry: bool,
}

/// The register file: eight 8-bit registers (F kept as its four flags) and SP.
#[derive(Clone, Copy, Debug, PartialEq, Eq, Structural)]
pub struct Registers {
    pub a: u8,
    pub b: u8,
    pub c: u8,
    pub d: u8,
    pub e: u8,
    pub flags: FlagsRegister,
    pub h: u8,
    pub l: u8,
    pub sp: u16,
}

/// The byte form of a flag state: Z, N, H, C in bits 7, 6, 5, 4, low nibble zero.
pub open spec fn flags_byte(f: FlagsRegister) -> u8 {
    (if f.zero { 0x80u8 } else { 0u8 }) | (if f.subtract { 0x40u8 } else { 0u8 }) | (if f.half_carry {
        0x20u8
    } else {
        0u8
    }) | (if f.carry { 0x10u8 } else { 0u8 })
}

/// The flag state that a byte encodes in bits 7, 6, 5, 4; bits 3..0 are ignored.
pub open spec fn flags_of(b: u8) -> FlagsRegister {
    FlagsRegister {
        zero: (b >> 7u8) & 1u8 == 1u8,
        subtract: (b >> 6u8) & 1u8 == 1u8,
        half_carry: (b >> 5u8) & 1u8 == 1u8,
        carry: (b >> 4u8) & 1u8 == 1u8,
    }
}

/// Two bytes read as a big-endian 16-bit value.
pub open spec fn join16(hi: u8, lo: u8) -> u16 {
    (hi as int * 256 + lo as int) as u16
}

pub open spec fn high_byte(v: u16) -> u8 {
    (v as int / 256) as u8
}

pub open spec fn low_byte(v: u16) -> u8 {
    (v as int % 256) as u8
}

pub open spec fn wrap16(x: int) -> u16 {
    (((x % 0x10000) + 0x10000) % 0x10000) as u16
}

/// The register file at power-on: all zero, flags clear, SP at 0xFFFE.
pub open spec fn power_on() -> Registers {
    Registers {
        a: 0,
        b: 0,
        c: 0,
        d: 0,
        e: 0,
        flags: FlagsRegister { zero: false, subtract: false, half_carry: false, carry: false },
        h: 0,
        l: 0,
        sp: 0xFFFE,
    }
}

impl Reg {
    /// One of the seven 8-bit data registers A, B, C, D, E, H, L.
    pub open spec fn is_data8(self) -> bool {
        self is A || self is B || self is C || self is D || self is E || self is H || self is L
    }

    /// A register that `get8` reads: the data registers and F.
    pub open spec fn is_byte_reg(self) -> bool {
        self.is_data8() || self is FLAGS
    }

    /// A tag that names a 16-bit register or pair.
    pub open spec fn is_wide(self) -> bool {
        self is AF || self is BC || self is DE || self is HL || self is HLI || self is HLD
            || self is SP
    }

    /// The 16-bit register that a wide tag names.
    pub open spec fn wide(self) -> Reg16 {
        match self {
            Reg::AF => Reg16::AF,
            Reg::BC => Reg16::BC,
            Reg::DE => Reg16::DE,
            Reg::HLI => Reg16::HLI,
            Reg::HLD => Reg16::HLD,
            Reg::SP => Reg16::SP,
            _ => Reg16::HL,
        }
    }

    /// The 16-bit register that a wide tag names, or `None` for any other tag.
    pub fn to_pair(&self) -> (r: Option<Reg16>)
        ensures
            r == (if self.is_wide() { Some(self.wide()) } else { None::<Reg16> }),
    {
        match self {
            Reg::AF => Some(Reg16::AF),
            Reg::BC => Some(Reg16::BC),
            Reg::DE => Some(Reg16::DE),
            Reg::HL => Some(Reg16::HL),
            Reg::HLI => Some(Reg16::HLI),
            Reg::HLD => Some(Reg16::HLD),
            Reg::SP => Some(Reg16::SP),
            _ => None,
        }
    }
}

impl Reg16 {
    /// The operand tag of the same name.
    pub open spec fn tag(self) -> Reg {
        match self {
            Reg16::AF => Reg::AF,
            Reg16::BC => Reg::BC,
            Reg16::DE => Reg::DE,
            Reg16::HL => Reg::HL,
            Reg16::HLI => Reg::HLI,
            Reg16::HLD => Reg::HLD,
            Reg16::SP => Reg::SP,
        }
    }
}

impl From<Reg16> for Reg {
    fn from(reg: Reg16) -> (r: Reg) {
        match reg {
            Reg16::AF => Reg::AF,
            Reg16::BC => Reg::BC,
            Reg16::DE => Reg::DE,
            Reg16::HL => Reg::HL,
            Reg16::HLI => Reg::HLI,
            Reg16::HLD => Reg::HLD,
            Reg16::SP => Reg::SP,
        }
    }
}

impl vstd::std_specs::convert::FromSpecImpl<Reg16> for Reg {
    open spec fn obeys_from_spec() -> bool {
        true
    }

    open spec fn from_spec(reg: Reg16) -> Reg {
        reg.tag()
    }
}

impl Registers {
    /// The value of an 8-bit register; F reads as its byte form.
    pub open spec fn reg8(self, r: Reg) -> u8 {
        match r {
            Reg::A => self.a,
            Reg::B => self.b,
            Reg::C => self.c,
            Reg::D => self.d,
            Reg::E => self.e,
            Reg::H => self.h,
            Reg::L => self.l,
            _ => flags_byte(self.flags),
        }
    }

    /// The register file with one 8-bit register replaced; a write to F keeps
    /// only the flag bits.
    pub open spec fn with_reg8(self, r: Reg, v: u8) -> Registers {
        match r {
            Reg::A => Registers { a: v, ..self },
            Reg::B => Registers { b: v, ..self },
            Reg::C => Registers { c: v, ..self },
            Reg::D => Registers { d: v, ..self },
            Reg::E => Registers { e: v, ..self },
            Reg::H => Registers { h: v, ..self },
            Reg::L => Registers { l: v, ..self },
            Reg::FLAGS => Registers { flags: flags_of(v), ..self },
            _ => self,
        }
    }

    pub open spec fn hl(self) -> u16 {
        join16(self.h, self.l)
    }

    /// The value of a 16-bit register or pair; HLI and HLD read as HL plus or
    /// minus one, wrapping.
    pub open spec fn pair(self, p: Reg16) -> u16 {
        match p {
            Reg16::AF => join16(self.a, flags_byte(self.flags)),
            Reg16::BC => join16(self.b, self.c),
            Reg16::DE => join16(self.d, self.e),
            Reg16::HL => self.hl(),
            Reg16::HLI => wrap16(self.hl() + 1),
            Reg16::HLD => wrap16(self.hl() - 1),
            Reg16::SP => self.sp,
        }
    }

    /// The register file after writing a 16-bit register or pair: both halves
    /// at once, the low byte of AF through the flags. HLI and HLD name no
    /// storage and leave it unchanged.
    pub open spec fn with_pair(self, p: Reg16, v: u16) -> Registers {
        match p {
            Reg16::AF => Registers { a: high_byte(v), flags: flags_of(low_byte(v)), ..self },
            Reg16::BC => Registers { b: high_byte(v), c: low_byte(v), ..self },
            Reg16::DE => Registers { d: high_byte(v), e: low_byte(v), ..self },
            Reg16::HL => Registers { h: high_byte(v), l: low_byte(v), ..self },
            Reg16::SP => Registers { sp: v, ..self },
            _ => self,
        }
    }

    /// Registers at power-on: all zero, SP at the top of the stack.
    pub fn new() -> (r: Self)
        ensures
            r == power_on(),
    {
        Registers {
            a: 0,
            b: 0,
            c: 0,
            d: 0,
            e: 0,
            flags: FlagsRegister::new(),
            h: 0,
            l: 0,
            sp: 0xFFFE,
        }
    }

    /// Reads an 8-bit register (`get8`), handing back the tag it was asked for.
    pub fn get_reg_value(&self, reg: Reg) -> (r: (u8, Reg))
        requires
            reg.is_byte_reg(),
        ensures
            r.0 == self.reg8(reg),
            r.1 == reg,
    {
        (
            match reg {
                Reg::A => self.a,
                Reg::B => self.b,
                Reg::C => self.c,
                Reg::D => self.d,
                Reg::E => self.e,
                Reg::H => self.h,
                Reg::L => self.l,
                _ => self.flags.into_u8(),
            },
            reg,
        )
    }

    /// A mutable reference to one of the data registers A, B, C, D, E, H, L,
    /// handing back the tag it was asked for; what is written through the
    /// reference lands in that register.
    pub fn get_reg(&mut self, reg: Reg) -> (r: (&mut u8, Reg))
        requires
            reg.is_data8(),
        ensures
            *r.0 == old(self).reg8(reg),
            r.1 == reg,
            *final(self) == old(self).with_reg8(reg, *final(r.0)),
    {
        (
            match reg {
                Reg::A => &mut self.a,
                Reg::B => &mut self.b,
                Reg::C => &mut self.c,
                Reg::D => &mut self.d,
                Reg::E => &mut self.e,
                Reg::H => &mut self.h,
                _ => &mut self.l,
            },
            reg,
        )
    }

    /// Writes an 8-bit register (`set8`); a write to F keeps only the flag bits.
    pub fn set_reg(&mut self, reg: Reg, value: u8)
        requires
            reg.is_byte_reg(),
        ensures
            *final(self) == old(self).with_reg8(reg, value),
    {
        match reg {
            Reg::A => self.a = value,
            Reg::B => self.b = value,
            Reg::C => self.c = value,
            Reg::D => self.d = value,
            Reg::E => self.e = value,
            Reg::H => self.h = value,
            Reg::L => self.l = value,
            _ => self.flags = FlagsRegister::from_u8(value),
        }
    }

    /// Reads a 16-bit register or pair (`get16`), handing back the tag it was
    /// asked for. HLI and HLD give HL plus or minus one and change nothing.
    pub fn get_vreg_value(&self, vreg: Reg16) -> (r: (u16, Reg16))
        ensures
            r.0 == self.pair(vreg),
            r.1 == vreg,
    {
        let hl: u16 = (self.h as u16) * 256 + (self.l as u16);
        (
            match vreg {
                Reg16::AF => (self.a as u16) * 256 + (self.flags.into_u8() as u16),
                Reg16::BC => (self.b as u16) * 256 + (self.c as u16),
                Reg16::DE => (self.d as u16) * 256 + (self.e as u16),
                Reg16::HL => hl,
                Reg16::HLI => hl.wrapping_add(1),
                Reg16::HLD => hl.wrapping_sub(1),
                Reg16::SP => self.sp,
            },
            vreg,
        )
    }

    /// Writes a pair given by its two halves, high register first.
    pub fn set_vreg_liberal(&mut self, reg1: Reg, reg2: Reg, value: u16)
        requires
            (reg1 is A && reg2 is FLAGS) || (reg1 is B && reg2 is C) || (reg1 is D && reg2 is E)
                || (reg1 is H && reg2 is L),
        ensures
            *final(self) == old(self).with_pair(
                match reg1 {
                    Reg::A => Reg16::AF,
                    Reg::B => Reg16::BC,
                    Reg::D => Reg16::DE,
                    _ => Reg16::HL,
                },
                value,
            ),
    {
        let left_bits: u8 = (value / 256) as u8;
        let right_bits: u8 = (value % 256) as u8;
        match reg1 {
            Reg::A => {
                self.a = left_bits;
                self.flags = FlagsRegister::from_u8(right_bits);
            },
            Reg::B => {
                self.b = left_bits;
                self.c = right_bits;
            },
            Reg::D => {
                self.d = left_bits;
                self.e = right_bits;
            },
            _ => {
                self.h = left_bits;
                self.l = right_bits;
            },
        }
    }

    /// Writes a 16-bit register or pair (`set16`): both halves at once, the low
    /// byte of AF through the flags. HLI and HLD leave the registers unchanged.
    pub fn set_vreg(&mut self, reg: Reg16, value: u16)
        ensures
            *final(self) == old(self).with_pair(reg, value),
    {
        let msb: u8 = (value / 256) as u8;
        let lsb: u8 = (value % 256) as u8;
        match reg {
            Reg16::AF => {
                self.a = msb;
                self.flags = FlagsRegister::from_u8(lsb);
            },
            Reg16::BC => {
                self.b = msb;
                self.c = lsb;
            },
            Reg16::DE => {
                self.d = msb;
                self.e = lsb;
            },
            Reg16::HL => {
                self.h = msb;
                self.l = lsb;
            },
            Reg16::SP => {
                self.sp = value;
            },
            _ => {},
        }
    }

    /// Moves HL on after an access through HLI (up one) or HLD (down one);
    /// any other pair leaves the registers as they are.
    pub fn advance_hl(&mut self, p: Reg16)
        ensures
            *final(self) == (if p is HLI || p is HLD {
                old(self).with_pair(Reg16::HL, old(self).pair(p))
            } else {
                *old(self)
            }),
    {
        match p {
            Reg16::HLI | Reg16::HLD => {
                let next = self.get_vreg_value(p).0;
                self.set_vreg(Reg16::HL, next);
            },
            _ => {},
        }
    }

    /// Whether a tag names a 16-bit register or pair.
    pub fn reg8_can_be_reg16(&self, reg: Reg) -> (r: bool)
        ensures
            r == reg.is_wide(),
    {
        match reg {
            Reg::AF | Reg::BC | Reg::DE | Reg::HL | Reg::HLI | Reg::HLD | Reg::SP => true,
            _ => false,
        }
    }
}

impl FlagsRegister {
    /// All four flags clear.
    pub fn new() -> (r: Self)
        ensures
            r == (FlagsRegister { zero: false, subtract: false, half_carry: false, carry: false }),
    {
        FlagsRegister { zero: false, subtract: false, half_carry: false, carry: false }
    }

    /// The byte form (`flags_to_byte`).
    pub fn into_u8(&self) -> (r: u8)
        ensures
            r == flags_byte(*self),
    {
        (if self.zero { 0x80u8 } else { 0u8 }) | (if self.subtract { 0x40u8 } else { 0u8 }) | (
        if self.half_carry {
            0x20u8
        } else {
            0u8
        }) | (if self.carry { 0x10u8 } else { 0u8 })
    }

    /// The flags that a byte encodes (`byte_to_flags`); its low nibble is ignored.
    pub fn from_u8(byte: u8) -> (r: Self)
        ensures
            r == flags_of(byte),
    {
        FlagsRegister {
            zero: (byte >> 7u8) & 1u8 == 1u8,
            subtract: (byte >> 6u8) & 1u8 == 1u8,
            half_carry: (byte >> 5u8) & 1u8 == 1u8,
            carry: (byte >> 4u8) & 1u8 == 1u8,
        }
    }
}

/// Decoding the byte form of a flag state gives the flags back.
pub proof fn lemma_flags_round_trip(f: FlagsRegister)
    ensures
        flags_of(flags_byte(f)) == f,
{
    let (z, n, h, c) = (f.zero, f.subtract, f.half_carry, f.carry);
    assert({
        let b = (if z { 0x80u8 } else { 0u8 }) | (if n { 0x40u8 } else { 0u8 }) | (if h {
            0x20u8
        } else {
            0u8
        }) | (if c { 0x10u8 } else { 0u8 });
        &&& ((b >> 7u8) & 1u8 == 1u8) == z
        &&& ((b >> 6u8) & 1u8 == 1u8) == n
        &&& ((b >> 5u8) & 1u8 == 1u8) == h
        &&& ((b >> 4u8) & 1u8 == 1u8) == c
    }) by (bit_vector);
}

/// Encoding the flags that a byte holds gives the byte with its low nibble cleared.
pub proof fn lemma_flags_byte_masks_low_nibble(b: u8)
    ensures
        flags_byte(flags_of(b)) == b & 0xF0u8,
{
    assert(((if (b >> 7u8) & 1u8 == 1u8 { 0x80u8 } else { 0u8 }) | (if (b >> 6u8) & 1u8 == 1u8 {
        0x40u8
    } else {
        0u8
    }) | (if (b >> 5u8) & 1u8 == 1u8 { 0x20u8 } else { 0u8 }) | (if (b >> 4u8) & 1u8 == 1u8 {
        0x10u8
    } else {
        0u8
    })) == b & 0xF0u8) by (bit_vector);
}

/// Writing a 16-bit register or pair and reading it back gives the value
/// written, except that AF drops the low nibble of its low byte.
pub proof fn lemma_pair_write_read(regs: Registers, p: Reg16, v: u16)
    requires
        p is AF || p is BC || p is DE || p is HL || p is SP,
    ensures
        regs.with_pair(p, v).pair(p) == (if p is AF { v & 0xFFF0u16 } else { v }),
{
    if p is AF {
        let lo = low_byte(v);
        lemma_flags_byte_masks_low_nibble(lo);
        assert(v & 0xFFF0u16 == (v / 256) * 256 + ((v % 256) as u8 & 0xF0u8)) by (bit_vector);
    }
}

/// Reading a 16-bit register or pair and writing the value back changes nothing.
pub proof fn lemma_pair_read_write(regs: Registers, p: Reg16)
    requires
        p is AF || p is BC || p is DE || p is HL || p is SP,
    ensures
        regs.with_pair(p, regs.pair(p)) == regs,
{
    if p is AF {
        lemma_flags_round_trip(regs.flags);
    }
}

} // verus!
