//! The mathematical model of the machine and the meaning of every
//! instruction on it. The executable engine in `cpu` is proved against these
//! definitions.
use vstd::prelude::*;
use crate::memory::{word_at, store_word, MEMORY_SIZE};
use crate::register::{StatusFlags, flag_is_set, with_flag, low_byte};
use crate::cpu::{WriteTargets, RegisterWriteTarget, MemoryWriteTarget};

verus! {

/// Register number of the program counter.
pub const PC: u8 = 0;
/// Register number of the stack pointer.
pub const SP: u8 = 1;
/// Register number of the status register.
pub const SR: u8 = 2;
/// Register number of the constant generator.
pub const CG: u8 = 3;

/// Why an instruction word cannot be executed. Both end the run.
#[derive(Debug, Clone, Copy, PartialEq, Eq, Structural)]
pub enum CpuFault {
    /// The word is none of the three instruction formats, or names an opcode
    /// that the format does not have.
    IllegalInstruction,
    /// Decimal addition: a valid opcode that this engine does not execute.
    UnsupportedDecimalAdd,
}

/// The whole state of the machine: the sixteen register words (the constant
/// generator's is always 0) and the 65536 memory cells.
pub struct Machine {
    pub regs: Seq<u16>,
    pub mem: Seq<u8>,
}

/// `a + b` in the 16-bit address space.
pub open spec fn add16(a: u16, b: int) -> u16 {
    ((a as int + b) % 0x10000) as u16
}

/// The position of the sign bit: 7 in byte mode, 15 in word mode.
pub open spec fn sign_position(bw: bool) -> u16 {
    if bw {
        7
    } else {
        15
    }
}

/// The sign bit of `v` at the position for the mode.
pub open spec fn sign_of(v: u16, bw: bool) -> bool {
    (v >> sign_position(bw)) & 1 == 1
}

/// `full` cut to the width of the mode (8 or 16 bits).
pub open spec fn truncate(full: int, bw: bool) -> u16 {
    if bw {
        (full % 0x100) as u16
    } else {
        (full % 0x10000) as u16
    }
}

/// The largest value of the mode: 0xFF or 0xFFFF.
pub open spec fn mode_max(bw: bool) -> int {
    if bw {
        0xff
    } else {
        0xffff
    }
}

/// The status word with the four arithmetic flags given new values and every
/// other bit kept.
pub open spec fn status_after(sr: u16, n: bool, z: bool, c: bool, v: bool) -> u16 {
    with_flag(
        with_flag(with_flag(with_flag(sr, StatusFlags::NEGATIVE, n), StatusFlags::ZERO, z), StatusFlags::CARRY, c),
        StatusFlags::OVERFLOW,
        v,
    )
}

/// The flags of an additive or subtractive operation: zero and negative from
/// the truncated result, carry when the untruncated result exceeds the mode's
/// maximum, and overflow by the literal rule (the previous destination word
/// equals the source's sign bit, and the destination's sign changed).
pub open spec fn arithmetic_status(sr: u16, src: u16, prev_dst: u16, full: int, dst: u16, bw: bool) -> u16 {
    let bn = sign_position(bw);
    status_after(
        sr,
        sign_of(dst, bw),
        dst == 0,
        full > mode_max(bw),
        prev_dst == (src >> bn) & 1 && sign_of(prev_dst, bw) != sign_of(dst, bw),
    )
}

impl Machine {
    pub open spec fn wf(self) -> bool {
        &&& self.regs.len() == 16
        &&& self.mem.len() == MEMORY_SIZE
        &&& self.regs[PC as int] % 2 == 0
        &&& self.regs[SP as int] % 2 == 0
        &&& self.regs[CG as int] == 0
    }

    pub open spec fn pc(self) -> u16 {
        self.regs[PC as int]
    }

    pub open spec fn sp(self) -> u16 {
        self.regs[SP as int]
    }

    pub open spec fn sr(self) -> u16 {
        self.regs[SR as int]
    }

    pub open spec fn reg_word(self, id: u8) -> u16 {
        self.regs[id as int]
    }

    pub open spec fn reg_byte(self, id: u8) -> u8 {
        low_byte(self.regs[id as int])
    }

    /// A word write to register `id`: the program counter and the stack
    /// pointer clear bit 0, the constant generator ignores it.
    pub open spec fn set_reg_word(self, id: u8, v: u16) -> Machine {
        if id == CG {
            self
        } else {
            Machine {
                regs: self.regs.update(id as int, if id <= SP { v & 0xfffe } else { v }),
                mem: self.mem,
            }
        }
    }

    /// A byte write to register `id`: the high byte becomes 0, the program
    /// counter and the stack pointer clear bit 0, the constant generator
    /// ignores it.
    pub open spec fn set_reg_byte(self, id: u8, b: u8) -> Machine {
        if id == CG {
            self
        } else {
            Machine {
                regs: self.regs.update(id as int, if id <= SP { (b & 0xfe) as u16 } else { b as u16 }),
                mem: self.mem,
            }
        }
    }

    pub open spec fn with_sr(self, v: u16) -> Machine {
        self.set_reg_word(SR, v)
    }

    pub open spec fn set_mem_word(self, a: u16, v: u16) -> Machine {
        Machine { regs: self.regs, mem: store_word(self.mem, a, v) }
    }

    pub open spec fn set_mem_byte(self, a: u16, b: u8) -> Machine {
        Machine { regs: self.regs, mem: self.mem.update(a as int, b) }
    }

    /// The byte (as a word) or the word at `a`.
    pub open spec fn read(self, a: u16, bw: bool) -> u16 {
        if bw {
            self.mem[a as int] as u16
        } else {
            word_at(self.mem, a)
        }
    }
}

/// The value that the constant generator (or the status register in the
/// indirect modes) stands for.
pub open spec fn constant_operand(reg: u8, as_: u8, bw: bool) -> u16 {
    if reg == SR {
        if as_ == 2 {
            4
        } else {
            8
        }
    } else if as_ == 0 {
        0
    } else if as_ == 1 {
        1
    } else if as_ == 2 {
        2
    } else if bw {
        0xff
    } else {
        0xffff
    }
}

/// Source operand resolution: the machine after it (the program counter or
/// the register may have advanced), the operand's value, and where a result
/// would be written back.
pub open spec fn source_operand(m: Machine, reg: u8, as_: u8, bw: bool) -> (Machine, u16, WriteTargets) {
    if reg == CG || (reg == SR && as_ > 1) {
        (m, constant_operand(reg, as_, bw), WriteTargets::VOID)
    } else if as_ == 0 {
        (
            m,
            if bw { m.reg_byte(reg) as u16 } else { m.reg_word(reg) },
            WriteTargets::REGISTER(RegisterWriteTarget { register: reg }),
        )
    } else if as_ == 1 {
        let ext = word_at(m.mem, m.pc());
        let addr = if reg == SR { ext } else { add16(ext, m.reg_word(reg) as int) };
        let m1 = m.set_reg_word(PC, add16(m.pc(), 2));
        (m1, m1.read(addr, bw), WriteTargets::MEMORY(MemoryWriteTarget { address: addr }))
    } else if as_ == 2 {
        let addr = m.reg_word(reg);
        (m, m.read(addr, bw), WriteTargets::MEMORY(MemoryWriteTarget { address: addr }))
    } else {
        let addr = m.reg_word(reg);
        let inc: int = if bw {
            if reg <= SP {
                2
            } else {
                1
            }
        } else {
            2
        };
        (
            m.set_reg_word(reg, add16(addr, inc)),
            m.read(addr, bw),
            WriteTargets::MEMORY(MemoryWriteTarget { address: addr }),
        )
    }
}

/// Destination operand resolution of the two-operand format: register
/// (`ad == 0`) or indexed (the offset word follows, the program counter
/// advances past it).
pub open spec fn destination_operand(m: Machine, reg: u8, ad: u8, bw: bool) -> (Machine, u16, WriteTargets) {
    if ad == 0 {
        (
            m,
            if bw { m.reg_byte(reg) as u16 } else { m.reg_word(reg) },
            WriteTargets::REGISTER(RegisterWriteTarget { register: reg }),
        )
    } else {
        let addr = add16(word_at(m.mem, m.pc()), m.reg_word(reg) as int);
        let m1 = m.set_reg_word(PC, add16(m.pc(), 2));
        (m1, m1.read(addr, bw), WriteTargets::MEMORY(MemoryWriteTarget { address: addr }))
    }
}

/// Writing a result back through a write target; in byte mode only its low
/// byte is written.
pub open spec fn write_back(m: Machine, t: WriteTargets, v: u16, bw: bool) -> Machine {
    match t {
        WriteTargets::VOID => m,
        WriteTargets::REGISTER(r) => if bw {
            m.set_reg_byte(r.register, low_byte(v))
        } else {
            m.set_reg_word(r.register, v)
        },
        WriteTargets::MEMORY(a) => if bw {
            m.set_mem_byte(a.address, low_byte(v))
        } else {
            m.set_mem_word(a.address, v)
        },
    }
}

/// The slot that a push uses: the stack pointer minus 2, or, when the stack
/// pointer is 0 or 1, plus 0xFFFD.
pub open spec fn push_slot(sp: u16) -> u16 {
    if sp <= 1 {
        (sp + 0xfffd) as u16
    } else {
        (sp - 2) as u16
    }
}

/// PUSH: the stack pointer moves to the slot, then the value (or its low
/// byte, in the cell after the slot) is stored there. The store goes to the
/// slot itself: from a stack pointer of 0 that is 0xFFFD, while the register,
/// being word aligned, holds 0xFFFC.
pub open spec fn push(m: Machine, value: u16, bw: bool) -> Machine {
    let slot = push_slot(m.sp());
    let m1 = m.set_reg_word(SP, slot);
    if bw {
        m1.set_mem_byte((slot + 1) as u16, low_byte(value))
    } else {
        m1.set_mem_word(slot, value)
    }
}/// RRC, SWPB, RRA, SXT, PUSH, CALL and RETI (opcodes 0 to 6) on a resolved
/// source: the machine after the operation, the result, and whether the
/// result is written back. PUSH, word-mode CALL and RETI write nothing
/// back: RETI restores the status word and the program counter from the
/// stack, and its operand must not overwrite them.
#[verifier::opaque]
pub open spec fn single_operand_effect(m: Machine, opcode: u16, src: u16, bw: bool) -> (Machine, u16, bool) {
    let sr = m.sr();
    if opcode == 0 {
        let carry_in: u16 = if flag_is_set(sr, StatusFlags::CARRY) { 1 } else { 0 };
        let res = (src >> 1) | (carry_in << sign_position(bw));
        (m.with_sr(status_after(sr, sign_of(res, bw), res == 0, src & 1 == 1, false)), res, true)
    } else if opcode == 1 {
        (m, if bw { src } else { ((src & 0xff00) >> 8) | ((src & 0xff) << 8) }, true)
    } else if opcode == 2 {
        let res = (src >> 1) | (src & if bw { 0x80u16 } else { 0x8000u16 });
        (m.with_sr(status_after(sr, sign_of(res, bw), res == 0, src & 1 == 1, false)), res, true)
    } else if opcode == 3 {
        if bw {
            (m, src, true)
        } else {
            let low = src & 0xff;
            let neg = (low >> 7) & 1 == 1;
            let res = if neg { low | 0xff00 } else { low };
            (m.with_sr(status_after(sr, neg, res == 0, res != 0, false)), res, true)
        }
    } else if opcode == 4 {
        (push(m, src, bw), src, false)
    } else if opcode == 5 {
        if bw {
            (m, src, true)
        } else {
            let m1 = m.set_reg_word(SP, add16(m.sp(), -2));
            let m2 = m1.set_mem_word(m1.sp(), m1.pc());
            (m2.set_reg_word(PC, src), src, false)
        }
    } else {
        let m1 = m.with_sr(word_at(m.mem, m.sp()));
        let m2 = m1.set_reg_word(SP, add16(m1.sp(), 2));
        let m3 = m2.set_reg_word(PC, word_at(m2.mem, m2.sp()));
        (m3.set_reg_word(SP, add16(m3.sp(), 2)), src, false)
    }
}

/// A single-operand instruction word: 6-bit pattern, 3-bit opcode, byte-mode
/// bit, 2-bit source mode, 4-bit register.
#[verifier::opaque]
pub open spec fn single_operand(m: Machine, instr: u16) -> Machine {
    let opcode = (instr >> 7) & 7;
    let reg = (instr & 0xf) as u8;
    let as_ = ((instr >> 4) & 3) as u8;
    let bw = (instr >> 6) & 1 == 1;
    let (m1, src, target) = source_operand(m, reg, as_, bw);
    let (m2, res, write) = single_operand_effect(m1, opcode, src, bw);
    if write {
        write_back(m2, target, res, bw)
    } else {
        m2
    }
}

/// The two-operand operations (opcodes 4 to 15, decimal add excepted) on a
/// source and a destination: the result, the new status word, and whether
/// the result is written back.
pub open spec fn double_operand_alu(opcode: u16, src: u16, dst: u16, sr: u16, bw: bool) -> (u16, u16, bool) {
    let carry: int = if flag_is_set(sr, StatusFlags::CARRY) { 1 } else { 0 };
    if opcode == 4 {
        (src, sr, true)
    } else if opcode == 5 || opcode == 6 {
        let full = dst + src + if opcode == 6 { carry } else { 0 };
        let res = truncate(full, bw);
        (res, arithmetic_status(sr, src, dst, full, res, bw), true)
    } else if opcode == 7 || opcode == 8 || opcode == 9 {
        let full = (dst - src - if opcode == 7 { 1 - carry } else { 0 }) % 0x1_0000_0000;
        let res = truncate(full, bw);
        (if opcode == 9 { dst } else { res }, arithmetic_status(sr, src, dst, full, res, bw), opcode != 9)
    } else if opcode == 11 {
        let r = truncate((dst & src) as int, bw);
        (dst, status_after(sr, sign_of(r, bw), r == 0, r != 0, false), false)
    } else if opcode == 12 {
        (dst & !src, sr, true)
    } else if opcode == 13 {
        (dst | src, sr, true)
    } else if opcode == 14 {
        let r = dst ^ src;
        (r, status_after(sr, sign_of(r, bw), r == 0, r != 0, sign_of(src, bw) && sign_of(dst, bw)), true)
    } else if opcode == 15 {
        let r = dst & src;
        (r, status_after(sr, sign_of(r, bw), r == 0, r != 0, false), true)
    } else {
        (dst, sr, false)
    }
}

/// A two-operand instruction word: 4-bit opcode, source register,
/// destination mode bit, byte-mode bit, source mode, destination register.
#[verifier::opaque]
pub open spec fn double_operand(m: Machine, instr: u16) -> Machine {
    let opcode = instr >> 12;
    let src_reg = ((instr >> 8) & 0xf) as u8;
    let ad = ((instr >> 7) & 1) as u8;
    let bw = (instr >> 6) & 1 == 1;
    let as_ = ((instr >> 4) & 3) as u8;
    let dst_reg = (instr & 0xf) as u8;
    let (m1, src, _unused) = source_operand(m, src_reg, as_, bw);
    let (m2, dst, target) = destination_operand(m1, dst_reg, ad, bw);
    let (res, sr, write) = double_operand_alu(opcode, src, dst, m2.sr(), bw);
    let m3 = m2.with_sr(sr);
    if write {
        write_back(m3, target, res, bw)
    } else {
        m3
    }
}

/// The signed word offset of a jump: the low 10 bits, less 1024 when they
/// exceed 512 (512 itself counts as positive).
pub open spec fn jump_offset(instr: u16) -> int {
    let raw = (instr & 0x3ff) as int;
    if raw > 512 {
        raw - 1024
    } else {
        raw
    }
}

/// Whether a jump with this 3-bit condition is taken under the status word.
pub open spec fn jump_taken(condition: u16, sr: u16) -> bool {
    let z = flag_is_set(sr, StatusFlags::ZERO);
    let c = flag_is_set(sr, StatusFlags::CARRY);
    let n = flag_is_set(sr, StatusFlags::NEGATIVE);
    let v = flag_is_set(sr, StatusFlags::OVERFLOW);
    if condition == 0 {
        !z
    } else if condition == 1 {
        z
    } else if condition == 2 {
        !c
    } else if condition == 3 {
        c
    } else if condition == 4 {
        n
    } else if condition == 5 {
        n == v
    } else if condition == 6 {
        n != v
    } else {
        true
    }
}

/// A jump instruction word: the program counter moves by twice the offset
/// when the condition holds.
pub open spec fn jump(m: Machine, instr: u16) -> Machine {
    if jump_taken((instr >> 10) & 7, m.sr()) {
        m.set_reg_word(PC, add16(m.pc(), 2 * jump_offset(instr)))
    } else {
        m
    }
}

/// The fault that an instruction word raises, if any: a single-operand word
/// with opcode 7, a word of none of the three formats, or decimal add.
pub open spec fn decode_fault(instr: u16) -> Option<CpuFault> {
    if instr >> 10 == 4 {
        if (instr >> 7) & 7 == 7 {
            Some(CpuFault::IllegalInstruction)
        } else {
            None
        }
    } else if instr >> 13 == 1 || instr == 0 {
        None
    } else if instr >> 12 < 4 {
        Some(CpuFault::IllegalInstruction)
    } else if instr >> 12 == 10 {
        Some(CpuFault::UnsupportedDecimalAdd)
    } else {
        None
    }
}

/// Executing one instruction word. The zero word does nothing; a word that
/// faults leaves the machine as it was.
#[verifier::opaque]
pub open spec fn execute(m: Machine, instr: u16) -> Machine {
    if decode_fault(instr) is Some {
        m
    } else if instr >> 10 == 4 {
        single_operand(m, instr)
    } else if instr >> 13 == 1 {
        jump(m, instr)
    } else if instr != 0 {
        double_operand(m, instr)
    } else {
        m
    }
}

/// The instruction word that the next step fetches.
pub open spec fn fetched(m: Machine) -> u16 {
    word_at(m.mem, m.pc())
}

/// One step: nothing while CPUOFF is set; otherwise fetch the word at the
/// program counter, advance the program counter by 2, execute the word.
pub open spec fn step(m: Machine) -> Machine {
    if flag_is_set(m.sr(), StatusFlags::CPUOFF) {
        m
    } else {
        execute(m.set_reg_word(PC, add16(m.pc(), 2)), fetched(m))
    }
}

/// The fault of one step, if any.
pub open spec fn step_fault(m: Machine) -> Option<CpuFault> {
    if flag_is_set(m.sr(), StatusFlags::CPUOFF) {
        None
    } else {
        decode_fault(fetched(m))
    }
}

/// Interrupt entry: only with GIE set, push the program counter, then the
/// status word, clear the status word and jump through the vector.
pub open spec fn interrupt(m: Machine, vector: u16) -> Machine {
    if flag_is_set(m.sr(), StatusFlags::GIE) {
        let m1 = push(m, m.pc(), false);
        let m2 = push(m1, m1.sr(), false);
        let m3 = m2.with_sr(0);
        m3.set_reg_word(PC, word_at(m3.mem, vector))
    } else {
        m
    }
}

} // verus!

verus! {

/// The outcome of a fault check as a result.
pub open spec fn as_result(f: Option<CpuFault>) -> Result<(), CpuFault> {
    match f {
        Some(e) => Err(e),
        None => Ok(()),
    }
}

/// Ranges of the fields of an instruction word, and how the format
/// patterns exclude one another.
pub proof fn lemma_instruction_fields(instr: u16)
    by (bit_vector)
    ensures
        (instr >> 7) & 7 < 8,
        instr & 0xf < 16,
        (instr >> 4) & 3 < 4,
        (instr >> 8) & 0xf < 16,
        (instr >> 7) & 1 < 2,
        (instr >> 10) & 7 < 8,
        instr & 0x3ff < 1024,
        (instr >> 12) & 0xf == instr >> 12,
        instr >> 12 < 16,
        instr >> 10 == 4 ==> instr >> 13 == 0,
{
}

} // verus!
