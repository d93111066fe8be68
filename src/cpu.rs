//! The executable engine: the register file, memory, operand resolution,
//! the three instruction formats, flags and interrupts.
use vstd::prelude::*;
use crate::memory::{MemoryMap, MEMORY_SIZE};
use crate::register::{
    BasicRegister, EvenRegister, StatusRegister, ConstantGeneratorRegister, StatusFlags, Register,
    low_byte, lemma_low_byte_idempotent,
};
use crate::machine::{
    Machine, write_back, source_operand, destination_operand, push, status_after, arithmetic_status,
    truncate, sign_of, double_operand_alu, decode_fault, execute, as_result, lemma_instruction_fields,
    CpuFault, SR, jump, step_fault, single_operand, single_operand_effect, double_operand,
};
use crate::machine;
use crate::opcodes::{DoubleOperandOpcodes, SingleOperandOpcodes};

verus! {

/// A write-back into register `register`.
#[derive(Debug, Clone, Copy, PartialEq, Eq, Structural)]
pub struct RegisterWriteTarget {
    pub register: u8,
}

impl RegisterWriteTarget {
    pub fn new(reg: u8) -> (r: WriteTargets)
        ensures
            r == WriteTargets::REGISTER(RegisterWriteTarget { register: reg }),
    {
        WriteTargets::REGISTER(RegisterWriteTarget { register: reg })
    }

    pub fn new_boxed(reg: u8) -> (r: Box<WriteTargets>)
        ensures
            *r == WriteTargets::REGISTER(RegisterWriteTarget { register: reg }),
    {
        Box::new(Self::new(reg))
    }
}

/// A write-back into memory at `address`.
#[derive(Debug, Clone, Copy, PartialEq, Eq, Structural)]
pub struct MemoryWriteTarget {
    pub address: u16,
}

impl MemoryWriteTarget {
    pub fn new(address: u16) -> (r: WriteTargets)
        ensures
            r == WriteTargets::MEMORY(MemoryWriteTarget { address }),
    {
        WriteTargets::MEMORY(MemoryWriteTarget { address })
    }

    pub fn new_boxed(address: u16) -> (r: Box<WriteTargets>)
        ensures
            *r == WriteTargets::MEMORY(MemoryWriteTarget { address }),
    {
        Box::new(Self::new(address))
    }
}

/// Where the result of an instruction goes: nowhere, a register or a memory
/// address. Made once by operand resolution, used once by write-back.
#[derive(Debug, Clone, Copy, PartialEq, Eq, Structural)]
pub enum WriteTargets {
    VOID,
    REGISTER(RegisterWriteTarget),
    MEMORY(MemoryWriteTarget),
}

impl WriteTargets {
    pub open spec fn valid(self) -> bool {
        match self {
            WriteTargets::REGISTER(r) => r.register < 16,
            _ => true,
        }
    }

    /// Writes a word through this target.
    pub fn set_word(&self, value: u16, computer: &mut Computer)
        requires
            old(computer).wf(),
            self.valid(),
        ensures
            final(computer).wf(),
            final(computer)@ == write_back(old(computer)@, *self, value, false),
    {
        match self {
            WriteTargets::VOID => {},
            WriteTargets::REGISTER(t) => computer.set_register_word(t.register, value),
            WriteTargets::MEMORY(t) => computer.set_memory_word(t.address, value),
        }
    }

    /// Writes a byte through this target.
    pub fn set_byte(&self, value: u8, computer: &mut Computer)
        requires
            old(computer).wf(),
            self.valid(),
        ensures
            final(computer).wf(),
            final(computer)@ == write_back(old(computer)@, *self, value as u16, true),
    {
        assert(low_byte(value as u16) == value) by (bit_vector);
        match self {
            WriteTargets::VOID => {},
            WriteTargets::REGISTER(t) => computer.set_register_byte(t.register, value),
            WriteTargets::MEMORY(t) => computer.set_memory_byte(t.address, value),
        }
    }
}

/// The emulated machine: twelve general registers, the program counter, the
/// stack pointer, the status register, the constant generator and memory.
pub struct Computer {
    pub numbered_registers: [BasicRegister; 12],
    pub memory: MemoryMap,
    pub pc: EvenRegister,
    pub sp: EvenRegister,
    pub sr: StatusRegister,
    pub cg: ConstantGeneratorRegister,
}

impl Computer {
    /// The word in register `i` (0 to 15).
    pub open spec fn register_value(&self, i: int) -> u16 {
        if i == 0 {
            self.pc.value
        } else if i == 1 {
            self.sp.value
        } else if i == 2 {
            self.sr.value
        } else if i == 3 {
            0
        } else {
            self.numbered_registers@[i - 4].value
        }
    }

    pub open spec fn wf(&self) -> bool {
        &&& self.pc.id == 0
        &&& self.sp.id == 1
        &&& self.pc.value % 2 == 0
        &&& self.sp.value % 2 == 0
        &&& forall|i: int| 0 <= i < 12 ==> (#[trigger] self.numbered_registers@[i]).id == i + 4
    }
}

impl View for Computer {
    type V = Machine;

    open spec fn view(&self) -> Machine {
        Machine { regs: Seq::new(16, |i: int| self.register_value(i)), mem: self.memory@ }
    }
}

impl Computer {
    /// A machine with every register and memory cell zero.
    pub fn new() -> (r: Computer)
        ensures
            r.wf(),
            r@.regs == Seq::new(16, |i: int| 0u16),
            r@.mem == Seq::new(MEMORY_SIZE as nat, |i: int| 0u8),
    {
        let pc = EvenRegister::new(0);
        let sp = EvenRegister::new(1);
        let sr = StatusRegister::new();
        let cg = ConstantGeneratorRegister::new();
        let mut numbered_registers = [BasicRegister::new(255);12];
        let mut i: u8 = 4;
        while i < 16
            invariant
                4 <= i <= 16,
                forall|j: int| 0 <= j < i - 4 ==> (#[trigger] numbered_registers@[j]).id == j + 4,
                forall|j: int| 0 <= j < 12 ==> (#[trigger] numbered_registers@[j]).value == 0,
            decreases 16 - i,
        {
            numbered_registers[(i - 4) as usize] = BasicRegister::new(i);
            i = i + 1;
        }
        let r = Computer { numbered_registers, memory: MemoryMap::new(), pc, sp, sr, cg };
        assert(r@.regs =~= Seq::new(16, |i: int| 0u16));
        r
    }

    /// Zeroes memory and every register, in place.
    pub fn reset(&mut self)
        requires
            old(self).wf(),
        ensures
            final(self).wf(),
            final(self)@.regs == Seq::new(16, |i: int| 0u16),
            final(self)@.mem == Seq::new(MEMORY_SIZE as nat, |i: int| 0u8),
    {
        assert(0u16 & 0xfffe == 0) by (bit_vector);
        self.memory.reset();
        self.pc.set_word(0);
        self.sp.set_word(0);
        self.sr.set_word(0);
        self.cg.set_word(0);
        let mut i: usize = 0;
        while i < 12
            invariant
                0 <= i <= 12,
                forall|j: int| 0 <= j < 12 ==> (#[trigger] self.numbered_registers@[j]).id == j + 4,
                forall|j: int| 0 <= j < i ==> (#[trigger] self.numbered_registers@[j]).value == 0,
                self.pc.value == 0,
                self.sp.value == 0,
                self.sr.value == 0,
                self.pc.id == 0,
                self.sp.id == 1,
                self.memory@ == Seq::new(MEMORY_SIZE as nat, |i: int| 0u8),
            decreases 12 - i,
        {
            let mut r = self.numbered_registers[i];
            r.set_word(0);
            self.numbered_registers[i] = r;
            i = i + 1;
        }
        assert(self@.regs =~= Seq::new(16, |i: int| 0u16));
    }

    /// A copy of register `id` (0 to 15), of the kind that the number names.
    pub fn get_register(&self, id: u8) -> (r: Register)
        requires
            id < 16,
        ensures
            r.spec_word() == self@.regs[id as int],
            r == (if id == 0 {
                Register::Aligned(self.pc)
            } else if id == 1 {
                Register::Aligned(self.sp)
            } else if id == 2 {
                Register::Status(self.sr)
            } else if id == 3 {
                Register::ConstantGenerator(self.cg)
            } else {
                Register::General(self.numbered_registers@[id - 4])
            }),
    {
        if id == 0 {
            Register::Aligned(self.pc)
        } else if id == 1 {
            Register::Aligned(self.sp)
        } else if id == 2 {
            Register::Status(self.sr)
        } else if id == 3 {
            Register::ConstantGenerator(self.cg)
        } else {
            Register::General(self.numbered_registers[(id - 4) as usize])
        }
    }

    /// The word in register `id`.
    pub fn get_register_word(&self, id: u8) -> (r: u16)
        requires
            id < 16,
        ensures
            r == self@.reg_word(id),
    {
        if id == 0 {
            self.pc.get_word()
        } else if id == 1 {
            self.sp.get_word()
        } else if id == 2 {
            self.sr.get_word()
        } else if id == 3 {
            self.cg.get_word()
        } else {
            self.numbered_registers[(id - 4) as usize].get_word()
        }
    }

    /// The low byte of register `id`.
    pub fn get_register_byte(&self, id: u8) -> (r: u8)
        requires
            id < 16,
        ensures
            r == self@.reg_byte(id),
    {
        if id == 0 {
            self.pc.get_byte()
        } else if id == 1 {
            self.sp.get_byte()
        } else if id == 2 {
            self.sr.get_byte()
        } else if id == 3 {
            assert(low_byte(0) == 0) by (bit_vector);
            self.cg.get_byte()
        } else {
            self.numbered_registers[(id - 4) as usize].get_byte()
        }
    }

    /// A word write to register `id`, with the behaviour of its kind.
    pub fn set_register_word(&mut self, id: u8, value: u16)
        requires
            old(self).wf(),
            id < 16,
        ensures
            final(self).wf(),
            final(self)@ == old(self)@.set_reg_word(id, value),
    {
        if id == 0 {
            self.pc.set_word(value);
        } else if id == 1 {
            self.sp.set_word(value);
        } else if id == 2 {
            self.sr.set_word(value);
        } else if id == 3 {
            self.cg.set_word(value);
        } else {
            let mut r = self.numbered_registers[(id - 4) as usize];
            r.set_word(value);
            self.numbered_registers[(id - 4) as usize] = r;
        }
        assert(self@.regs =~= old(self)@.set_reg_word(id, value).regs);
    }

    /// A byte write to register `id`, with the behaviour of its kind.
    pub fn set_register_byte(&mut self, id: u8, value: u8)
        requires
            old(self).wf(),
            id < 16,
        ensures
            final(self).wf(),
            final(self)@ == old(self)@.set_reg_byte(id, value),
    {
        if id == 0 {
            self.pc.set_byte(value);
        } else if id == 1 {
            self.sp.set_byte(value);
        } else if id == 2 {
            self.sr.set_byte(value);
        } else if id == 3 {
            self.cg.set_byte(value);
        } else {
            let mut r = self.numbered_registers[(id - 4) as usize];
            r.set_byte(value);
            self.numbered_registers[(id - 4) as usize] = r;
        }
        assert(self@.regs =~= old(self)@.set_reg_byte(id, value).regs);
    }

    pub fn set_memory_word(&mut self, address: u16, value: u16)
        requires
            old(self).wf(),
        ensures
            final(self).wf(),
            final(self)@ == old(self)@.set_mem_word(address, value),
    {
        self.memory.set_word(address, value);
        assert(self@.regs =~= old(self)@.regs);
    }

    pub fn set_memory_byte(&mut self, address: u16, value: u8)
        requires
            old(self).wf(),
        ensures
            final(self).wf(),
            final(self)@ == old(self)@.set_mem_byte(address, value),
    {
        self.memory.set_byte(address, value);
        assert(self@.regs =~= old(self)@.regs);
    }

    /// Source operand resolution for register `src_reg` in mode `as_`: the
    /// operand's value and the target that a result would be written to.
    pub fn _get_src(&mut self, src_reg: u8, as_: u8, bw: bool) -> (r: (u16, Box<WriteTargets>))
        requires
            old(self).wf(),
            src_reg < 16,
            as_ < 4,
        ensures
            final(self).wf(),
            r.1.valid(),
            (final(self)@, r.0, *r.1) == source_operand(old(self)@, src_reg, as_, bw),
    {
        if src_reg == 3 || (src_reg == 2 && as_ > 1) {
            let src: u16 = if src_reg == 2 {
                if as_ == 2 {
                    4
                } else {
                    8
                }
            } else if as_ == 0 {
                0
            } else if as_ == 1 {
                1
            } else if as_ == 2 {
                2
            } else if bw {
                0xff
            } else {
                0xffff
            };
            return (src, Box::new(WriteTargets::VOID));
        }
        if as_ == 0 {
            let src: u16 = if bw {
                self.get_register_byte(src_reg) as u16
            } else {
                self.get_register_word(src_reg)
            };
            (src, RegisterWriteTarget::new_boxed(src_reg))
        } else if as_ == 1 {
            let ext = self.memory.get_word(self.pc.get_word());
            let offset: u16 = if src_reg == 2 {
                ext
            } else {
                ext.wrapping_add(self.get_register_word(src_reg))
            };
            let next = self.pc.get_word().wrapping_add(2);
            self.set_register_word(0, next);
            let src: u16 = if bw {
                self.memory.get_byte(offset) as u16
            } else {
                self.memory.get_word(offset)
            };
            (src, MemoryWriteTarget::new_boxed(offset))
        } else if as_ == 2 {
            let target = self.get_register_word(src_reg);
            let src: u16 = if bw {
                self.memory.get_byte(target) as u16
            } else {
                self.memory.get_word(target)
            };
            (src, MemoryWriteTarget::new_boxed(target))
        } else {
            let mem_target = self.get_register_word(src_reg);
            let src: u16 = if bw {
                self.memory.get_byte(mem_target) as u16
            } else {
                self.memory.get_word(mem_target)
            };
            if bw {
                let extra: u16 = if src_reg == 0 || src_reg == 1 {
                    1
                } else {
                    0
                };
                self.set_register_word(src_reg, mem_target.wrapping_add(1).wrapping_add(extra));
            } else {
                self.set_register_word(src_reg, mem_target.wrapping_add(2));
            }
            (src, MemoryWriteTarget::new_boxed(mem_target))
        }
    }

    /// Destination operand resolution of the two-operand format: register
    /// mode (`ad == 0`) or indexed mode.
    pub fn _get_dst(&mut self, dst_reg: u8, ad: u8, bw: bool) -> (r: (u16, WriteTargets))
        requires
            old(self).wf(),
            dst_reg < 16,
        ensures
            final(self).wf(),
            r.1.valid(),
            (final(self)@, r.0, r.1) == destination_operand(old(self)@, dst_reg, ad, bw),
    {
        if ad == 0 {
            let dst: u16 = if bw {
                self.get_register_byte(dst_reg) as u16
            } else {
                self.get_register_word(dst_reg)
            };
            (dst, RegisterWriteTarget::new(dst_reg))
        } else {
            let offset: u16 = self.memory.get_word(self.pc.get_word()).wrapping_add(
                self.get_register_word(dst_reg),
            );
            let next = self.pc.get_word().wrapping_add(2);
            self.set_register_word(0, next);
            let dst: u16 = if bw {
                self.memory.get_byte(offset) as u16
            } else {
                self.memory.get_word(offset)
            };
            (dst, MemoryWriteTarget::new(offset))
        }
    }

    /// Pushes a word (or, in byte mode, a byte) onto the stack.
    pub fn _push(&mut self, value: u16, bw: bool)
        requires
            old(self).wf(),
        ensures
            final(self).wf(),
            final(self)@ == push(old(self)@, value, bw),
    {
        let mut sp_word: u16 = self.sp.get_word();
        if sp_word <= 1 {
            sp_word = sp_word + (0xffff - 2);
        } else {
            sp_word = sp_word - 2;
        }
        self.set_register_word(1, sp_word);
        if bw {
            self.set_memory_byte(sp_word + 1, (value & 0xff) as u8);
        } else {
            self.set_memory_word(sp_word, value);
        }
    }

    /// Gives the negative, zero, carry and overflow flags new values.
    pub fn set_arithmetic_flags(&mut self, n: bool, z: bool, c: bool, v: bool)
        requires
            old(self).wf(),
        ensures
            final(self).wf(),
            final(self)@ == old(self)@.with_sr(status_after(old(self)@.sr(), n, z, c, v)),
    {
        self.sr.set_status(StatusFlags::NEGATIVE, n);
        self.sr.set_status(StatusFlags::ZERO, z);
        self.sr.set_status(StatusFlags::CARRY, c);
        self.sr.set_status(StatusFlags::OVERFLOW, v);
        assert(self@.regs =~= old(self)@.with_sr(status_after(old(self)@.sr(), n, z, c, v)).regs);
    }

    /// The flags of an additive or subtractive operation, from the source,
    /// the previous destination, the untruncated and the truncated result.
    pub fn _set_flags(&mut self, src: u16, prev_dst: u16, full_dst: u32, dst: u16, byte_mode: bool)
        requires
            old(self).wf(),
        ensures
            final(self).wf(),
            final(self)@ == old(self)@.with_sr(
                arithmetic_status(old(self)@.sr(), src, prev_dst, full_dst as int, dst, byte_mode),
            ),
    {
        let byte_int: u16 = if byte_mode {
            7
        } else {
            15
        };
        let dst_sign: bool = (dst >> byte_int) & 1 == 1;
        let prev_dst_sign: bool = (prev_dst >> byte_int) & 1 == 1;
        let cutoff: u32 = if byte_mode {
            0xff
        } else {
            0xffff
        };
        self.set_arithmetic_flags(
            dst_sign,
            dst == 0,
            full_dst > cutoff,
            prev_dst == (src >> byte_int) & 1 && prev_dst_sign != dst_sign,
        );
    }
}

/// `full` cut to the width of the mode.
fn truncate_to_mode(full: u32, bw: bool) -> (r: u16)
    ensures
        r == truncate(full as int, bw),
{
    assert((full & 0xff) as u16 == (full % 0x100) as u16) by (bit_vector);
    assert((full & 0xffff) as u16 == (full % 0x10000) as u16) by (bit_vector);
    if bw {
        (full & 0xff) as u16
    } else {
        (full & 0xffff) as u16
    }
}

/// The sign bit of `v` for the mode.
fn sign_bit(v: u16, bw: bool) -> (r: bool)
    ensures
        r == sign_of(v, bw),
{
    let position: u16 = if bw {
        7
    } else {
        15
    };
    (v >> position) & 1 == 1
}

impl Computer {
    /// A two-operand operation on resolved operands: sets the flags and
    /// returns the result and whether it is written back.
    pub fn _double_operand_alu(&mut self, opc: DoubleOperandOpcodes, src: u16, dst: u16, bw: bool) -> (r: (
        u16,
        bool,
    ))
        requires
            old(self).wf(),
        ensures
            final(self).wf(),
            ({
                let (res, sr, write) = double_operand_alu(
                    (opc.number() + 4) as u16,
                    src,
                    dst,
                    old(self)@.sr(),
                    bw,
                );
                r == (res, write) && final(self)@ == old(self)@.with_sr(sr)
            }),
    {
        let ghost m = self@;
        assert(m.regs.update(SR as int, m.sr()) =~= m.regs);
        let carry_in: u32 = if self.sr.get_status(StatusFlags::CARRY) {
            1
        } else {
            0
        };
        match opc {
            DoubleOperandOpcodes::MOV => (src, true),
            DoubleOperandOpcodes::ADD => {
                let full_dst: u32 = (dst as u32) + (src as u32);
                let res = truncate_to_mode(full_dst, bw);
                self._set_flags(src, dst, full_dst, res, bw);
                (res, true)
            },
            DoubleOperandOpcodes::ADDC => {
                let full_dst: u32 = (dst as u32) + (src as u32) + carry_in;
                let res = truncate_to_mode(full_dst, bw);
                self._set_flags(src, dst, full_dst, res, bw);
                (res, true)
            },
            DoubleOperandOpcodes::SUBC => {
                let full_dst: u32 = (dst as u32).wrapping_sub(src as u32).wrapping_sub(1).wrapping_add(
                    carry_in,
                );
                let res = truncate_to_mode(full_dst, bw);
                self._set_flags(src, dst, full_dst, res, bw);
                (res, true)
            },
            DoubleOperandOpcodes::SUB => {
                let full_dst: u32 = (dst as u32).wrapping_sub(src as u32);
                let res = truncate_to_mode(full_dst, bw);
                self._set_flags(src, dst, full_dst, res, bw);
                (res, true)
            },
            DoubleOperandOpcodes::CMP => {
                let full_dst: u32 = (dst as u32).wrapping_sub(src as u32);
                let fake_dst = truncate_to_mode(full_dst, bw);
                self._set_flags(src, dst, full_dst, fake_dst, bw);
                (dst, false)
            },
            DoubleOperandOpcodes::DADD => (dst, false),
            DoubleOperandOpcodes::BIT => {
                let fake_dst = truncate_to_mode((dst & src) as u32, bw);
                self.set_arithmetic_flags(sign_bit(fake_dst, bw), fake_dst == 0, fake_dst != 0, false);
                (dst, false)
            },
            DoubleOperandOpcodes::BIC => (dst & !src, true),
            DoubleOperandOpcodes::BIS => (dst | src, true),
            DoubleOperandOpcodes::XOR => {
                let res = dst ^ src;
                self.set_arithmetic_flags(
                    sign_bit(res, bw),
                    res == 0,
                    res != 0,
                    sign_bit(src, bw) && sign_bit(dst, bw),
                );
                (res, true)
            },
            DoubleOperandOpcodes::AND => {
                let res = dst & src;
                self.set_arithmetic_flags(sign_bit(res, bw), res == 0, res != 0, false);
                (res, true)
            },
        }
    }

    /// Executes a single-operand instruction word. A word whose opcode is 7
    /// faults before anything changes.
    pub fn _execute_single_operand(&mut self, instruction: u16) -> (r: Result<(), CpuFault>)
        requires
            old(self).wf(),
            instruction >> 10 == 4,
        ensures
            final(self).wf(),
            r == as_result(decode_fault(instruction)),
            decode_fault(instruction) is None ==> final(self)@ == single_operand(old(self)@, instruction),
            decode_fault(instruction) is Some ==> final(self)@ == old(self)@,
    {
        reveal(single_operand);
        proof {
            lemma_instruction_fields(instruction);
        }
        let opcode: u8 = ((instruction >> 7) & 0x7) as u8;
        let src_reg: u8 = (instruction & 0xf) as u8;
        let as_: u8 = ((instruction >> 4) & 0x3) as u8;
        let bw: bool = (instruction >> 6) & 0x1 == 1;
        let opc = match SingleOperandOpcodes::try_from(opcode) {
            Ok(o) => o,
            Err(_) => return Err(CpuFault::IllegalInstruction),
        };
        let (src, wt) = self._get_src(src_reg, as_, bw);
        let (res, write) = self._single_operand_effect(opc, src, bw);
        proof {
            lemma_low_byte_idempotent(res);
        }
        if write {
            if bw {
                wt.set_byte((res & 0xff) as u8, self);
            } else {
                wt.set_word(res, self);
            }
        }
        Ok(())
    }

    /// A single-operand operation on a resolved source: performs its effect
    /// on the flags, the stack and the program counter, and returns the
    /// result and whether it is written back.
    pub fn _single_operand_effect(&mut self, opc: SingleOperandOpcodes, src_in: u16, bw: bool) -> (r: (
        u16,
        bool,
    ))
        requires
            old(self).wf(),
        ensures
            final(self).wf(),
            (final(self)@, r.0, r.1) == single_operand_effect(old(self)@, opc.number() as u16, src_in, bw),
    {
        reveal(single_operand_effect);
        let bw_num: u16 = if bw {
            7
        } else {
            15
        };
        let mut src: u16 = src_in;
        let mut no_write: bool = false;
        match opc {
            SingleOperandOpcodes::RRC => {
                let carry: bool = (src & 1) == 1;
                let carry_in: u16 = if self.sr.get_status(StatusFlags::CARRY) {
                    1
                } else {
                    0
                };
                src = (src >> 1) | (carry_in << bw_num);
                self.set_arithmetic_flags(sign_bit(src, bw), src == 0, carry, false);
            },
            SingleOperandOpcodes::SWPB => {
                if !bw {
                    src = ((src & 0xff00) >> 8) | ((src & 0xff) << 8);
                }
            },
            SingleOperandOpcodes::RRA => {
                let carry: bool = (src & 1) == 1;
                let msb_to_or: u16 = src & (if bw {
                    128
                } else {
                    32768
                });
                src = (src >> 1) | msb_to_or;
                self.set_arithmetic_flags(sign_bit(src, bw), src == 0, carry, false);
            },
            SingleOperandOpcodes::SXT => {
                if !bw {
                    let low: u16 = src & 0xff;
                    let negative: bool = (low >> 7) & 1 == 1;
                    src = if negative {
                        low | 0xff00
                    } else {
                        low
                    };
                    self.set_arithmetic_flags(negative, src == 0, src != 0, false);
                }
            },
            SingleOperandOpcodes::PUSH => {
                self._push(src, bw);
                no_write = true;
            },
            SingleOperandOpcodes::CALL => {
                if !bw {
                    let new_sp = self.sp.get_word().wrapping_sub(2);
                    self.set_register_word(1, new_sp);
                    let slot = self.sp.get_word();
                    let return_address = self.pc.get_word();
                    self.set_memory_word(slot, return_address);
                    self.set_register_word(0, src);
                    no_write = true;
                }
            },
            SingleOperandOpcodes::RETI => {
                let status = self.memory.get_word(self.sp.get_word());
                self.set_register_word(2, status);
                let after_status = self.sp.get_word().wrapping_add(2);
                self.set_register_word(1, after_status);
                let return_address = self.memory.get_word(self.sp.get_word());
                self.set_register_word(0, return_address);
                let after_return = self.sp.get_word().wrapping_add(2);
                self.set_register_word(1, after_return);
                no_write = true;
            },
        }
        (src, !no_write)
    }

    /// Executes a jump instruction word.
    pub fn _execute_jump(&mut self, instruction: u16)
        requires
            old(self).wf(),
        ensures
            final(self).wf(),
            final(self)@ == jump(old(self)@, instruction),
    {
        proof {
            lemma_instruction_fields(instruction);
        }
        let mut offset: i32 = (instruction & 0x3ff) as i32;
        if offset > 512 {
            offset = offset - 1024;
        }
        let condition: u16 = (instruction >> 10) & 0x7;
        let zero = self.sr.get_status(StatusFlags::ZERO);
        let carry = self.sr.get_status(StatusFlags::CARRY);
        let negative = self.sr.get_status(StatusFlags::NEGATIVE);
        let overflow = self.sr.get_status(StatusFlags::OVERFLOW);
        let skip: bool = if condition == 0 {
            zero
        } else if condition == 1 {
            !zero
        } else if condition == 2 {
            carry
        } else if condition == 3 {
            !carry
        } else if condition == 4 {
            !negative
        } else if condition == 5 {
            negative != overflow
        } else if condition == 6 {
            negative == overflow
        } else {
            false
        };
        if !skip {
            let target: i32 = self.pc.get_word() as i32 + offset * 2;
            let wrapped: u16 = if target < 0 {
                (target + 0x10000) as u16
            } else if target > 0xffff {
                (target - 0x10000) as u16
            } else {
                target as u16
            };
            self.set_register_word(0, wrapped);
        }
    }

    /// Executes one instruction word: single-operand, jump, two-operand, or
    /// (the zero word) nothing.
    pub fn _execute(&mut self, instruction: u16) -> (r: Result<(), CpuFault>)
        requires
            old(self).wf(),
        ensures
            final(self).wf(),
            r == as_result(decode_fault(instruction)),
            final(self)@ == execute(old(self)@, instruction),
    {
        reveal(execute);
        proof {
            lemma_instruction_fields(instruction);
        }
        if instruction >> 10 == 4 {
            self._execute_single_operand(instruction)
        } else if instruction >> 13 == 1 {
            self._execute_jump(instruction);
            Ok(())
        } else if instruction != 0 {
            self._execute_double_operand(instruction)
        } else {
            Ok(())
        }
    }

    /// One step: nothing while CPUOFF is set; otherwise fetch the word at the
    /// program counter, advance it by 2, and execute the word.
    pub fn step(&mut self) -> (r: Result<(), CpuFault>)
        requires
            old(self).wf(),
        ensures
            final(self).wf(),
            r == as_result(step_fault(old(self)@)),
            final(self)@ == machine::step(old(self)@),
    {
        if self.sr.get_status(StatusFlags::CPUOFF) {
            return Ok(());
        }
        let pc_w: u16 = self.pc.get_word();
        let instruction: u16 = self.memory.get_word(pc_w);
        self.set_register_word(0, pc_w.wrapping_add(2));
        self._execute(instruction)
    }

    /// Interrupt entry through the word at `id`, taken only while GIE is set.
    pub fn interrupt(&mut self, id: u16)
        requires
            old(self).wf(),
        ensures
            final(self).wf(),
            final(self)@ == machine::interrupt(old(self)@, id),
    {
        if self.sr.get_status(StatusFlags::GIE) {
            let pc = self.pc.get_word();
            self._push(pc, false);
            let sr = self.sr.get_word();
            self._push(sr, false);
            self.set_register_word(2, 0);
            let handler = self.memory.get_word(id);
            self.set_register_word(0, handler);
        }
    }

    /// Executes a two-operand instruction word.
    pub fn _execute_double_operand(&mut self, instruction: u16) -> (r: Result<(), CpuFault>)
        requires
            old(self).wf(),
            instruction >> 10 != 4,
            instruction >> 13 != 1,
            instruction != 0,
        ensures
            final(self).wf(),
            r == as_result(decode_fault(instruction)),
            decode_fault(instruction) is None ==> final(self)@ == double_operand(old(self)@, instruction),
            decode_fault(instruction) is Some ==> final(self)@ == old(self)@,
    {
        reveal(double_operand);
        proof {
            lemma_instruction_fields(instruction);
        }
        let opcode: u8 = ((instruction >> 12) & 0xf) as u8;
        let src_reg: u8 = ((instruction >> 8) & 0xf) as u8;
        let ad: u8 = ((instruction >> 7) & 0x1) as u8;
        let bw: bool = ((instruction >> 6) & 0x1) == 1;
        let as_: u8 = ((instruction >> 4) & 0x3) as u8;
        let dst_reg: u8 = (instruction & 0xf) as u8;
        if opcode < 4 {
            return Err(CpuFault::IllegalInstruction);
        }
        let opc = match DoubleOperandOpcodes::try_from(opcode - 4) {
            Ok(o) => o,
            Err(_) => return Err(CpuFault::IllegalInstruction),
        };
        if opc == DoubleOperandOpcodes::DADD {
            return Err(CpuFault::UnsupportedDecimalAdd);
        }
        let (src, _) = self._get_src(src_reg, as_, bw);
        let (dst, wt) = self._get_dst(dst_reg, ad, bw);
        let (res, write) = self._double_operand_alu(opc, src, dst, bw);
        proof {
            lemma_low_byte_idempotent(res);
        }
        if write {
            if bw {
                wt.set_byte((res & 0xff) as u8, self);
            } else {
                wt.set_word(res, self);
            }
        }
        Ok(())
    }
}

} // verus!
