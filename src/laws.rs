//! Properties of the machine that relate several operations, proved over
//! the model in `machine` and `loader`.
use vstd::prelude::*;
use crate::machine::{
    Machine, PC, SP, execute, single_operand, single_operand_effect, double_operand, source_operand,
    jump_offset, interrupt, step, fetched, add16, lemma_instruction_fields, decode_fault, push,
};
use crate::memory::{word_at, store_word, lemma_word_round_trip, MEMORY_SIZE};
use crate::register::{StatusFlags, flag_is_set};
use crate::loader::{
    be_word, is_tagged, legacy_as_tagged, load_error, load_program, program_image, loaded,
    segments_complete, load_segments, write_segment, RESET_VECTOR,
};

verus! {

/// The word `ret` of the instruction set: MOV @SP+, PC.
pub const RET: u16 = 0x4130;

/// Bit facts that the proofs below use.
proof fn lemma_bits(v: u16)
    by (bit_vector)
    ensures
        v % 2 == 0 ==> v & 0xfffe == v,
        (v & 0xfffe) % 2 == 0,
        0u16 & 0x10 == 0,
        0x4130u16 >> 10 != 4,
        0x4130u16 >> 13 != 1,
        0x4130u16 >> 12 == 4,
        (0x4130u16 >> 8) & 0xf == 1,
        (0x4130u16 >> 7) & 1 == 0,
        (0x4130u16 >> 6) & 1 == 0,
        (0x4130u16 >> 4) & 3 == 3,
        0x4130u16 & 0xf == 0,
        v >> 12 == 4 ==> v >> 10 != 4 && v >> 13 != 1 && v != 0,
        v & 0xffc0 == 0x1280 ==> v >> 10 == 4 && (v >> 7) & 7 == 5 && (v >> 6) & 1 == 0,
        v >> 7 == 0x26 ==> v >> 10 == 4 && (v >> 7) & 7 == 6,
{
}

/// A word stored at `a` leaves the word at `b` alone when the two do not
/// overlap.
proof fn lemma_word_frame(mem: Seq<u8>, a: u16, v: u16, b: u16)
    requires
        mem.len() == MEMORY_SIZE,
        a as int + 2 <= b as int,
        b as int + 1 < 0x10000,
    ensures
        word_at(store_word(mem, a, v), b) == word_at(mem, b),
{
}

/// A word write to a register keeps the machine well formed.
proof fn lemma_set_reg_word_wf(m: Machine, id: u8, v: u16)
    requires
        m.wf(),
        id < 16,
    ensures
        m.set_reg_word(id, v).wf(),
{
    lemma_bits(v);
}

/// Source operand resolution keeps the machine well formed.
proof fn lemma_source_operand_wf(m: Machine, reg: u8, as_: u8, bw: bool)
    requires
        m.wf(),
        reg < 16,
        as_ < 4,
    ensures
        source_operand(m, reg, as_, bw).0.wf(),
{
    lemma_set_reg_word_wf(m, PC, add16(m.pc(), 2));
    lemma_set_reg_word_wf(m, reg, add16(m.reg_word(reg), 1));
    lemma_set_reg_word_wf(m, reg, add16(m.reg_word(reg), 2));
}

/// A word push from a stack pointer of at least 2 moves it down by 2 and
/// stores the word there.
proof fn lemma_push_word(m: Machine, v: u16)
    requires
        m.wf(),
        m.sp() >= 2,
    ensures
        push(m, v, false).wf(),
        push(m, v, false).sp() == m.sp() - 2,
        push(m, v, false).pc() == m.pc(),
        push(m, v, false).sr() == m.sr(),
        push(m, v, false).mem == store_word(m.mem, (m.sp() - 2) as u16, v),
{
    lemma_bits((m.sp() - 2) as u16);
}

/// A step that executes a RETI pops the status word, then the program
/// counter. Its operand is resolved first and its result is not written
/// back, so any operand but `@SP+` (which moves the stack pointer before
/// the pops) leaves the popped values in place.
pub proof fn lemma_reti_pops(e: Machine)
    requires
        e.wf(),
        e.sp() <= 0xfffa,
        !flag_is_set(e.sr(), StatusFlags::CPUOFF),
        fetched(e) >> 7 == 0x26,
        fetched(e) & 0x3f != 0x31,
    ensures
        step(e).sr() == word_at(e.mem, e.sp()),
        step(e).pc() == word_at(e.mem, (e.sp() + 2) as u16) & 0xfffe,
        step(e).sp() == e.sp() + 4,
{
    reveal(execute);
    reveal(single_operand);
    reveal(single_operand_effect);
    let instr = fetched(e);
    lemma_bits(instr);
    lemma_instruction_fields(instr);
    lemma_operand_fields(instr);
    let reg = (instr & 0xf) as u8;
    let as_ = ((instr >> 4) & 3) as u8;
    let bw = (instr >> 6) & 1 == 1;
    let e1 = e.set_reg_word(PC, add16(e.pc(), 2));
    lemma_set_reg_word_wf(e, PC, add16(e.pc(), 2));
    lemma_source_operand_frame(e1, reg, as_, bw);
    let m1 = source_operand(e1, reg, as_, bw).0;
    assert(m1.sp() == e.sp() && m1.mem == e.mem);
    lemma_bits(e.sp());
    lemma_bits((e.sp() + 2) as u16);
    lemma_bits((e.sp() + 4) as u16);
    assert(step(e) == single_operand_effect(m1, 6, source_operand(e1, reg, as_, bw).1, bw).0);
}

/// The register and mode fields of an instruction word, against the
/// pattern of `@SP+`.
proof fn lemma_operand_fields(v: u16)
    by (bit_vector)
    ensures
        (v & 0x3f == 0x31) == ((v >> 4) & 3 == 3 && v & 0xf == 1),
{
}

/// Source operand resolution other than `@SP+` leaves the stack pointer and
/// memory alone.
proof fn lemma_source_operand_frame(m: Machine, reg: u8, as_: u8, bw: bool)
    requires
        m.wf(),
        reg < 16,
        as_ < 4,
        !(reg == SP && as_ == 3),
    ensures
        source_operand(m, reg, as_, bw).0.wf(),
        source_operand(m, reg, as_, bw).0.sp() == m.sp(),
        source_operand(m, reg, as_, bw).0.mem == m.mem,
{
    lemma_source_operand_wf(m, reg, as_, bw);
}

/// A byte write to the program counter or the stack pointer stores an even
/// word, whatever the byte.
pub proof fn lemma_aligned_byte_write(m: Machine, id: u8, b: u8)
    requires
        m.wf(),
        id == PC || id == SP,
    ensures
        m.set_reg_byte(id, b).regs[id as int] % 2 == 0,
        m.set_reg_byte(id, b).wf(),
{
    assert(((b & 0xfe) as u16) % 2 == 0) by (bit_vector);
}

/// MOV copies a value and leaves the status word as it was, except when the
/// status register itself is the destination register.
pub proof fn lemma_mov_keeps_flags(m: Machine, instr: u16)
    requires
        m.wf(),
        instr >> 12 == 4,
        !((instr >> 7) & 1 == 0 && instr & 0xf == 2),
    ensures
        decode_fault(instr) is None,
        execute(m, instr).sr() == m.sr(),
{
    reveal(execute);
    reveal(double_operand);
    lemma_bits(instr);
    lemma_instruction_fields(instr);
}

/// A word-mode CALL stores its return address (the program counter after
/// the CALL and its operand) at the new top of the stack and jumps to the
/// operand; `ret` executed next goes back to that return address and pops
/// it.
#[verifier::rlimit(30)]
pub proof fn lemma_call_then_ret(m: Machine, call: u16)
    requires
        m.wf(),
        call & 0xffc0 == 0x1280,
    ensures
        ({
            let (resolved, target, _unused) = source_operand(
                m,
                (call & 0xf) as u8,
                ((call >> 4) & 3) as u8,
                false,
            );
            let called = execute(m, call);
            let returned = execute(called, RET);
            &&& called.pc() == target & 0xfffe
            &&& word_at(called.mem, called.sp()) == resolved.pc()
            &&& returned.pc() == resolved.pc()
            &&& returned.sp() == add16(called.sp(), 2)
        }),
{
    reveal(execute);
    reveal(single_operand);
    reveal(single_operand_effect);
    reveal(double_operand);
    lemma_bits(call);
    lemma_bits(RET);
    lemma_instruction_fields(call);
    let reg = (call & 0xf) as u8;
    let as_ = ((call >> 4) & 3) as u8;
    let (resolved, target, _unused) = source_operand(m, reg, as_, false);
    lemma_source_operand_wf(m, reg, as_, false);
    lemma_bits(resolved.pc());
    let slot = add16(resolved.sp(), -2) & 0xfffe;
    lemma_bits(add16(resolved.sp(), -2));
    let pushed = resolved.set_reg_word(SP, add16(resolved.sp(), -2));
    assert(pushed.sp() == slot);
    assert(pushed.pc() == resolved.pc());
    let stored = pushed.set_mem_word(slot, resolved.pc());
    lemma_word_round_trip(resolved.mem, slot, resolved.pc());
    let called = execute(m, call);
    assert(called == stored.set_reg_word(PC, target));
    assert(called.sp() == slot);
    assert(word_at(called.mem, called.sp()) == resolved.pc());
    lemma_bits(slot);
    let popped = add16(slot, 2);
    assert(popped % 2 == 0);
    lemma_bits(popped);
    let (after_src, value, _target) = source_operand(called, 1, 3, false);
    assert(value == resolved.pc());
    assert(after_src.sp() == popped);
    assert(execute(called, RET) == after_src.with_sr(after_src.sr()).set_reg_word(PC, value));
}

/// With GIE clear an interrupt changes nothing. With GIE set it pushes the
/// program counter and then the status word, clears the status word and
/// loads the program counter from the vector. If the handler's first word
/// is a RETI (any operand but `@SP+`, which moves the stack pointer before
/// the pops), the next step restores the program counter, the status word
/// and the stack pointer. The stack pointer must be at least 4: a push from
/// 0 or 2 wraps unevenly.
pub proof fn lemma_interrupt_then_reti(m: Machine, vector: u16)
    requires
        m.wf(),
        m.sp() >= 4,
    ensures
        !flag_is_set(m.sr(), StatusFlags::GIE) ==> interrupt(m, vector) == m,
        flag_is_set(m.sr(), StatusFlags::GIE) ==> ({
            let entered = interrupt(m, vector);
            &&& entered.sr() == 0
            &&& entered.sp() == m.sp() - 4
            &&& entered.pc() == word_at(entered.mem, vector) & 0xfffe
            &&& word_at(entered.mem, entered.sp()) == m.sr()
            &&& word_at(entered.mem, (entered.sp() + 2) as u16) == m.pc()
            &&& (fetched(entered) >> 7 == 0x26 && fetched(entered) & 0x3f != 0x31) ==> ({
                let resumed = step(entered);
                &&& resumed.pc() == m.pc()
                &&& resumed.sr() == m.sr()
                &&& resumed.sp() == m.sp()
            })
        }),
{
    if flag_is_set(m.sr(), StatusFlags::GIE) {
        let slot1 = (m.sp() - 2) as u16;
        let slot2 = (m.sp() - 4) as u16;
        let m1 = push(m, m.pc(), false);
        lemma_push_word(m, m.pc());
        let m2 = push(m1, m1.sr(), false);
        lemma_push_word(m1, m1.sr());
        let mem1 = store_word(m.mem, slot1, m.pc());
        let mem2 = store_word(mem1, slot2, m.sr());
        lemma_word_round_trip(m.mem, slot1, m.pc());
        lemma_word_round_trip(mem1, slot2, m.sr());
        lemma_word_frame(mem1, slot2, m.sr(), slot1);
        let m3 = m2.with_sr(0);
        lemma_set_reg_word_wf(m2, 2, 0);
        let entered = interrupt(m, vector);
        lemma_set_reg_word_wf(m3, PC, word_at(m3.mem, vector));
        assert(entered.mem == mem2);
        assert(entered.sp() == slot2);
        assert(entered.sr() == 0);
        lemma_bits(0);
        lemma_bits(m.pc());
        if fetched(entered) >> 7 == 0x26 && fetched(entered) & 0x3f != 0x31 {
            lemma_reti_pops(entered);
        }
    }
}

/// A jump word moves the program counter by twice its offset exactly when
/// its condition holds: JNE when Z is clear, JEQ when Z is set, JNC when C
/// is clear, JC when C is set, JN when N is set, JGE when N equals V, JL
/// when N differs from V, JMP always. Nothing else changes.
pub proof fn lemma_jump_conditions(m: Machine, instr: u16)
    requires
        m.wf(),
        instr >> 13 == 1,
    ensures
        ({
            let cond = (instr >> 10) & 7;
            let sr = m.sr();
            let z = sr & 0x2 != 0;
            let c = sr & 0x1 != 0;
            let n = sr & 0x4 != 0;
            let v = sr & 0x100 != 0;
            let taken = (cond == 0 && !z) || (cond == 1 && z) || (cond == 2 && !c) || (cond == 3 && c)
                || (cond == 4 && n) || (cond == 5 && n == v) || (cond == 6 && n != v) || cond == 7;
            let after = execute(m, instr);
            &&& after.pc() == if taken {
                add16(m.pc(), 2 * jump_offset(instr))
            } else {
                m.pc()
            }
            &&& after.sr() == m.sr()
            &&& after.sp() == m.sp()
            &&& after.mem == m.mem
        }),
{
    reveal(execute);
    lemma_bits(instr);
    lemma_instruction_fields(instr);
    let target = add16(m.pc(), 2 * jump_offset(instr));
    assert(target % 2 == 0);
    lemma_bits(target);
}

/// A legacy image (no 0xFFFF marker) with at least one instruction, an even
/// start address and its code below the reset vector loads like its tagged
/// conversion; it leaves the program counter at the start address and the
/// image's first word there, so the next step executes that instruction.
pub proof fn lemma_legacy_load(m: Machine, d: Seq<u8>)
    requires
        m.wf(),
        d.len() >= 4,
        !is_tagged(d),
        be_word(d, 0) % 2 == 0,
        be_word(d, 0) as int + (d.len() - 2) <= RESET_VECTOR as int,
        !flag_is_set(m.sr(), StatusFlags::CPUOFF),
    ensures
        load_error(d) is None,
        load_program(m, d) == load_program(m, legacy_as_tagged(d)),
        load_program(m, d).pc() == be_word(d, 0),
        fetched(load_program(m, d)) == be_word(d, 2),
        step(load_program(m, d)) == execute(
            load_program(m, d).set_reg_word(PC, add16(be_word(d, 0), 2)),
            be_word(d, 2),
        ),
{
    let start = be_word(d, 0);
    let n = d.len() - 2;
    let t = legacy_as_tagged(d);
    let code = d.subrange(2, d.len() as int);
    assert(program_image(d) == t);
    assert(t.len() == n + 14);
    assert(be_word(t, 0) == 0xffff);
    assert(be_word(t, 2) == 2);
    assert(be_word(t, 4) == start);
    assert(be_word(t, 6) == n);
    assert(t.subrange(8, 8 + n) =~= code);
    assert(be_word(t, n + 8) == RESET_VECTOR);
    assert(be_word(t, n + 10) == 2);
    assert(t.subrange(n + 12, n + 14) =~= seq![d[0], d[1]]);
    reveal_with_fuel(segments_complete, 3);
    reveal_with_fuel(load_segments, 3);
    assert(segments_complete(t, 4, 2));
    assert(load_error(d) is None);
    assert(t[0] == 0xff && t[1] == 0xff);
    assert(program_image(t) == t);
    let mem1 = write_segment(m.mem, start, code);
    let mem2 = write_segment(mem1, RESET_VECTOR, seq![d[0], d[1]]);
    assert(load_segments(m.mem, t, 4, 2) == mem2);
    assert(mem2[RESET_VECTOR as int] == d[0]);
    assert(mem2[0xffff] == d[1]);
    assert(word_at(mem2, RESET_VECTOR) == start);
    assert(mem2[start as int] == d[2]);
    assert(mem2[start as int + 1] == d[3]);
    lemma_bits(start);
    assert(loaded(m, t).pc() == start);
    assert(fetched(loaded(m, t)) == be_word(d, 2));
}

} // verus!
