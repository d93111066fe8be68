//! The four kinds of register: general purpose, word aligned (program
//! counter and stack pointer), status, and the constant generator.
use vstd::prelude::*;

verus! {

/// The bits of the status register that the instruction set gives a meaning to.
/// Any other bit may be set; it is kept as it is and means nothing.
#[derive(Debug, Clone, Copy)]
pub enum StatusFlags {
    CARRY,
    ZERO,
    NEGATIVE,
    GIE,
    CPUOFF,
    OVERFLOW,
}

impl StatusFlags {
    pub open spec fn spec_bits(self) -> u16 {
        match self {
            StatusFlags::CARRY => 0x001,
            StatusFlags::ZERO => 0x002,
            StatusFlags::NEGATIVE => 0x004,
            StatusFlags::GIE => 0x008,
            StatusFlags::CPUOFF => 0x010,
            StatusFlags::OVERFLOW => 0x100,
        }
    }

    /// The mask of this flag within the status word.
    pub fn bits(&self) -> (r: u16)
        ensures
            r == self.spec_bits(),
    {
        match self {
            StatusFlags::CARRY => 0x001,
            StatusFlags::ZERO => 0x002,
            StatusFlags::NEGATIVE => 0x004,
            StatusFlags::GIE => 0x008,
            StatusFlags::CPUOFF => 0x010,
            StatusFlags::OVERFLOW => 0x100,
        }
    }
}

/// Whether `flag` is set in the status word `sr`.
pub open spec fn flag_is_set(sr: u16, flag: StatusFlags) -> bool {
    sr & flag.spec_bits() != 0
}

/// The status word `sr` with `flag` set (`on`) or cleared, all other bits kept.
pub open spec fn with_flag(sr: u16, flag: StatusFlags, on: bool) -> u16 {
    if on {
        sr | flag.spec_bits()
    } else {
        sr & !flag.spec_bits()
    }
}

/// The low byte of a word.
pub open spec fn low_byte(w: u16) -> u8 {
    (w & 0xff) as u8
}

/// A general purpose register (4 to 15): a plain 16-bit cell whose byte
/// writes clear the high byte.
#[derive(Clone, Copy)]
pub struct BasicRegister {
    pub id: u8,
    pub value: u16,
}

impl BasicRegister {
    pub fn new(id: u8) -> (r: BasicRegister)
        ensures
            r.id == id,
            r.value == 0,
    {
        BasicRegister { id, value: 0 }
    }

    pub fn get_word(&self) -> (r: u16)
        ensures
            r == self.value,
    {
        self.value
    }

    pub fn get_byte(&self) -> (r: u8)
        ensures
            r == low_byte(self.value),
    {
        (self.value & 0xff) as u8
    }

    pub fn set_word(&mut self, value: u16)
        ensures
            final(self).value == value,
            final(self).id == old(self).id,
    {
        self.value = value;
    }

    pub fn set_byte(&mut self, value: u8)
        ensures
            final(self).value == value as u16,
            final(self).id == old(self).id,
    {
        self.value = value as u16;
    }

    pub fn get_id(&self) -> (r: u8)
        ensures
            r == self.id,
    {
        self.id
    }
}

/// The program counter (0) or the stack pointer (1): every write clears bit 0,
/// so the register always holds an even address.
#[derive(Clone, Copy)]
pub struct EvenRegister {
    pub id: u8,
    pub value: u16,
}

impl EvenRegister {
    pub fn new(id: u8) -> (r: EvenRegister)
        ensures
            r.id == id,
            r.value == 0,
    {
        EvenRegister { id, value: 0 }
    }

    pub fn get_word(&self) -> (r: u16)
        ensures
            r == self.value,
    {
        self.value
    }

    pub fn get_byte(&self) -> (r: u8)
        ensures
            r == low_byte(self.value),
    {
        (self.value & 0xff) as u8
    }

    pub fn set_word(&mut self, value: u16)
        ensures
            final(self).value == value & 0xfffe,
            final(self).value % 2 == 0,
            final(self).id == old(self).id,
    {
        self.value = value & 0xfffe;
        assert((value & 0xfffe) % 2 == 0) by (bit_vector);
    }

    pub fn set_byte(&mut self, value: u8)
        ensures
            final(self).value == (value & 0xfe) as u16,
            final(self).value % 2 == 0,
            final(self).id == old(self).id,
    {
        self.value = (value & 0xfe) as u16;
        assert(((value & 0xfe) as u16) % 2 == 0) by (bit_vector);
    }

    pub fn get_id(&self) -> (r: u8)
        ensures
            r == self.id,
    {
        self.id
    }
}

/// The status register (2), holding the flag bits.
#[derive(Clone, Copy)]
pub struct StatusRegister {
    pub value: u16,
}

impl StatusRegister {
    pub fn new() -> (r: StatusRegister)
        ensures
            r.value == 0,
    {
        StatusRegister { value: 0 }
    }

    pub fn get_word(&self) -> (r: u16)
        ensures
            r == self.value,
    {
        self.value
    }

    pub fn get_byte(&self) -> (r: u8)
        ensures
            r == low_byte(self.value),
    {
        (self.value & 0xff) as u8
    }

    pub fn set_word(&mut self, value: u16)
        ensures
            final(self).value == value,
    {
        self.value = value;
    }

    pub fn set_byte(&mut self, value: u8)
        ensures
            final(self).value == value as u16,
    {
        self.value = value as u16;
    }

    pub fn get_id(&self) -> (r: u8)
        ensures
            r == 2,
    {
        2
    }

    /// Whether `flag` is set.
    pub fn get_status(&self, flag: StatusFlags) -> (r: bool)
        ensures
            r == flag_is_set(self.value, flag),
    {
        self.get_word() & flag.bits() != 0
    }

    /// Sets (`set`) or clears `flag`, keeping every other bit.
    pub fn set_status(&mut self, flag: StatusFlags, set: bool)
        ensures
            final(self).value == with_flag(old(self).value, flag, set),
    {
        if set {
            self.set_word(self.get_word() | flag.bits());
        } else {
            self.set_word(self.get_word() & !flag.bits());
        }
    }
}

/// The constant generator (3): reads as zero and ignores writes. The
/// constants it stands for come from the addressing mode, not from here.
#[derive(Clone, Copy)]
pub struct ConstantGeneratorRegister {}

impl ConstantGeneratorRegister {
    pub fn new() -> (r: ConstantGeneratorRegister) {
        ConstantGeneratorRegister {  }
    }

    pub fn get_word(&self) -> (r: u16)
        ensures
            r == 0,
    {
        0
    }

    pub fn get_byte(&self) -> (r: u8)
        ensures
            r == 0,
    {
        0
    }

    pub fn set_word(&mut self, _value: u16) {
    }

    pub fn set_byte(&mut self, _value: u8) {
    }

    pub fn get_id(&self) -> (r: u8)
        ensures
            r == 3,
    {
        3
    }
}

/// A copy of one register, of the kind that its number names.
#[derive(Clone, Copy)]
pub enum Register {
    General(BasicRegister),
    Aligned(EvenRegister),
    Status(StatusRegister),
    ConstantGenerator(ConstantGeneratorRegister),
}

impl Register {
    pub open spec fn spec_word(self) -> u16 {
        match self {
            Register::General(r) => r.value,
            Register::Aligned(r) => r.value,
            Register::Status(r) => r.value,
            Register::ConstantGenerator(_) => 0,
        }
    }

    pub fn get_word(&self) -> (r: u16)
        ensures
            r == self.spec_word(),
    {
        match self {
            Register::General(r) => r.get_word(),
            Register::Aligned(r) => r.get_word(),
            Register::Status(r) => r.get_word(),
            Register::ConstantGenerator(r) => r.get_word(),
        }
    }

    pub fn get_byte(&self) -> (r: u8)
        ensures
            r == low_byte(self.spec_word()),
    {
        match self {
            Register::General(r) => r.get_byte(),
            Register::Aligned(r) => r.get_byte(),
            Register::Status(r) => r.get_byte(),
            Register::ConstantGenerator(r) => {
                assert(low_byte(0) == 0) by (bit_vector);
                r.get_byte()
            },
        }
    }

    pub fn get_id(&self) -> (r: u8)
        ensures
            r == match self {
                Register::General(g) => g.id,
                Register::Aligned(a) => a.id,
                Register::Status(_) => 2,
                Register::ConstantGenerator(_) => 3,
            },
    {
        match self {
            Register::General(r) => r.get_id(),
            Register::Aligned(r) => r.get_id(),
            Register::Status(r) => r.get_id(),
            Register::ConstantGenerator(r) => r.get_id(),
        }
    }
}

} // verus!

verus! {

/// Taking the low byte twice is taking it once.
pub proof fn lemma_low_byte_idempotent(w: u16)
    by (bit_vector)
    ensures
        low_byte(low_byte(w) as u16) == low_byte(w),
{
}

} // verus!
