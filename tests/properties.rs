use msp430_rust::control::{
    decode_command, state_mirror, CommandReply, RunLoop, RunMode, ShmemCommands, CHECK_EVERY,
};
use msp430_rust::cpu::Computer;
use msp430_rust::loader::{
    convert_code_fmt, execute, execute_nd, execute_nr_nd, load_code, load_code_fmt_new, ExecuteError,
    LoadError, U8Stream,
};
use msp430_rust::machine::CpuFault;
use msp430_rust::memory::MemoryMap;
use msp430_rust::register::{EvenRegister, StatusFlags, StatusRegister};
use msp430_rust::twos::{decode_2complement, encode_2complement, wrap_2complement};

fn with_registers(values: &[(u8, u16)]) -> Computer {
    let mut c = Computer::new();
    for &(id, v) in values {
        c.set_register_word(id, v);
    }
    c
}

fn flags(c: &Computer) -> (bool, bool, bool, bool) {
    (
        c.sr.get_status(StatusFlags::NEGATIVE),
        c.sr.get_status(StatusFlags::ZERO),
        c.sr.get_status(StatusFlags::CARRY),
        c.sr.get_status(StatusFlags::OVERFLOW),
    )
}

#[test]
fn aligned_register_byte_writes_are_even() {
    for b in 0..=255u8 {
        let mut r = EvenRegister::new(0);
        r.set_byte(b);
        assert_eq!(0, r.get_word() & 1);
        assert_eq!((b & 0xfe) as u16, r.get_word());
        let mut c = Computer::new();
        c.set_register_byte(1, b);
        assert_eq!(0, c.get_register_word(1) & 1);
    }
    let mut r = EvenRegister::new(1);
    r.set_word(0x1235);
    assert_eq!(0x1234, r.get_word());
}

#[test]
fn memory_word_round_trip_and_wrap() {
    let mut m = MemoryMap::new();
    for &(a, v) in &[(0u16, 0xbeefu16), (0x1234, 0x0102), (0xfffe, 0xa55a), (0xffff, 0xc0de)] {
        m.set_word(a, v);
        assert_eq!(v, m.get_word(a));
    }
    m.set_word(0x2000, 0xabcd);
    assert_eq!(0xab, m.get_byte(0x2000));
    assert_eq!(0xcd, m.get_byte(0x2001));
    m.set_word(0xffff, 0x1122);
    assert_eq!(0x11, m.get_byte(0xffff));
    assert_eq!(0x22, m.get_byte(0x0000));
    m.reset();
    assert_eq!(0, m.get_word(0x2000));
    assert_eq!(0, m.get_byte(0xffff));
}

#[test]
fn mov_keeps_flags() {
    let mut c = with_registers(&[(2, 0x0107), (5, 0x8000), (6, 0)]);
    c._execute(0x4506).unwrap();
    assert_eq!(0x8000, c.get_register_word(6));
    assert_eq!(0x0107, c.sr.get_word());
    // MOV #0, R6 through the constant generator
    c._execute(0x4306).unwrap();
    assert_eq!(0, c.get_register_word(6));
    assert_eq!(0x0107, c.sr.get_word());
}

#[test]
fn add_word_overflow_flags() {
    // ADD R7, R8 with R7 = 0xFFFF, R8 = 1
    let mut c = with_registers(&[(7, 0xffff), (8, 1)]);
    c._execute(0x5708).unwrap();
    assert_eq!(0, c.get_register_word(8));
    assert_eq!((false, true, true, false), flags(&c));
}

#[test]
fn addc_uses_carry() {
    let mut c = with_registers(&[(2, 1), (5, 2), (6, 3)]);
    c._execute(0x6506).unwrap();
    assert_eq!(6, c.get_register_word(6));
    assert_eq!((false, false, false, false), flags(&c));
}

#[test]
fn add_byte_mode_carry() {
    // ADD.B R5, R6 with 0xF0 + 0x20
    let mut c = with_registers(&[(5, 0x12f0), (6, 0x3420)]);
    c._execute(0x5546).unwrap();
    assert_eq!(0x0010, c.get_register_word(6));
    assert_eq!((false, false, true, false), flags(&c));
}

#[test]
fn sub_results() {
    // SUB R5, R6: R6 - R5
    for &(dst, src, expected, carry) in &[(3u16, 1u16, 2u16, false), (0xffff, 1, 0xfffe, false), (1, 0xffff, 2, true)] {
        let mut c = with_registers(&[(5, src), (6, dst)]);
        c._execute(0x8506).unwrap();
        assert_eq!(expected, c.get_register_word(6));
        assert_eq!(carry, c.sr.get_status(StatusFlags::CARRY));
    }
    let mut c = with_registers(&[(5, 0xffff), (6, 1)]);
    c._execute(0x8506).unwrap();
    assert_eq!(2, c.get_register_word(6));
}

#[test]
fn subc_and_cmp() {
    // SUBC R5, R6 with carry clear: 10 - 3 - 1
    let mut c = with_registers(&[(5, 3), (6, 10)]);
    c._execute(0x7506).unwrap();
    assert_eq!(6, c.get_register_word(6));
    // with carry set: 10 - 3
    let mut c = with_registers(&[(2, 1), (5, 3), (6, 10)]);
    c._execute(0x7506).unwrap();
    assert_eq!(7, c.get_register_word(6));
    // CMP R5, R6 leaves R6 and sets Z when equal
    let mut c = with_registers(&[(5, 9), (6, 9)]);
    c._execute(0x9506).unwrap();
    assert_eq!(9, c.get_register_word(6));
    assert_eq!((false, true, false, false), flags(&c));
}

#[test]
fn overflow_follows_literal_rule() {
    // ADD R5, R6 with R6 = 1 and a negative source: previous destination
    // (1) equals the source's sign bit (1), and the sign changed.
    let mut c = with_registers(&[(5, 0xfffe), (6, 1)]);
    c._execute(0x5506).unwrap();
    assert_eq!(0xffff, c.get_register_word(6));
    assert_eq!((true, false, false, true), flags(&c));
    // 0x7FFF + 1: a two's complement overflow that the literal rule misses.
    let mut c = with_registers(&[(5, 1), (6, 0x7fff)]);
    c._execute(0x5506).unwrap();
    assert_eq!(0x8000, c.get_register_word(6));
    assert_eq!((true, false, false, false), flags(&c));
}

#[test]
fn logic_flags() {
    // BIT R5, R6 leaves R6
    let mut c = with_registers(&[(5, 0x00f0), (6, 0x0f10)]);
    c._execute(0xb506).unwrap();
    assert_eq!(0x0f10, c.get_register_word(6));
    assert_eq!((false, false, true, false), flags(&c));
    // XOR with both signs set
    let mut c = with_registers(&[(5, 0x8001), (6, 0x8001)]);
    c._execute(0xe506).unwrap();
    assert_eq!(0, c.get_register_word(6));
    assert_eq!((false, true, false, true), flags(&c));
    // AND
    let mut c = with_registers(&[(5, 0x8f00), (6, 0xf0f0)]);
    c._execute(0xf506).unwrap();
    assert_eq!(0x8000, c.get_register_word(6));
    assert_eq!((true, false, true, false), flags(&c));
    // BIC and BIS keep the flags
    let mut c = with_registers(&[(2, 0x0105), (5, 0x00ff), (6, 0xffff)]);
    c._execute(0xc506).unwrap();
    assert_eq!(0xff00, c.get_register_word(6));
    assert_eq!(0x0105, c.sr.get_word());
}

#[test]
fn rrc_chains_carry() {
    // RRC R6 on 16
    let mut c = with_registers(&[(6, 16)]);
    c._execute(0x1006).unwrap();
    assert_eq!(8, c.get_register_word(6));
    assert!(!c.sr.get_status(StatusFlags::CARRY));
    // RRC R7 on 15, then RRC R8 on 0
    let mut c = with_registers(&[(7, 15)]);
    c._execute(0x1007).unwrap();
    assert_eq!(7, c.get_register_word(7));
    assert!(c.sr.get_status(StatusFlags::CARRY));
    c._execute(0x1008).unwrap();
    assert_eq!(0x8000, c.get_register_word(8));
    assert!(c.sr.get_status(StatusFlags::NEGATIVE));
    assert!(!c.sr.get_status(StatusFlags::CARRY));
}

#[test]
fn rra_and_byte_mode_single_operand() {
    let mut c = with_registers(&[(9, 0xfffc)]);
    c._execute(0x1109).unwrap();
    assert_eq!(0xfffe, c.get_register_word(9));
    // RRA.B on 0x81: 0xC0, carry out
    let mut c = with_registers(&[(9, 0x1281)]);
    c._execute(0x1149).unwrap();
    assert_eq!(0x00c0, c.get_register_word(9));
    assert!(c.sr.get_status(StatusFlags::CARRY));
    // SXT.B writes the low byte back, clearing the high byte
    let mut c = with_registers(&[(5, 0x1234)]);
    c._execute(0x11c5).unwrap();
    assert_eq!(0x0034, c.get_register_word(5));
    // SWPB.B changes nothing but the high byte
    let mut c = with_registers(&[(6, 0xab12)]);
    c._execute(0x10c6).unwrap();
    assert_eq!(0x0012, c.get_register_word(6));
}

#[test]
fn call_and_ret() {
    // CALL #0x5000 at 0x4400 with SP = 0x4400
    let mut c = with_registers(&[(0, 0x4400), (1, 0x4400)]);
    c.memory.set_word(0x4400, 0x12b0);
    c.memory.set_word(0x4402, 0x5000);
    c.memory.set_word(0x5000, 0x4130);
    c.step().unwrap();
    assert_eq!(0x5000, c.get_register_word(0));
    assert_eq!(0x43fe, c.get_register_word(1));
    assert_eq!(0x4404, c.memory.get_word(0x43fe));
    c.step().unwrap();
    assert_eq!(0x4404, c.get_register_word(0));
    assert_eq!(0x4400, c.get_register_word(1));
    // byte-mode CALL does not jump
    let mut c = with_registers(&[(0, 0x4400), (1, 0x4400), (5, 0x1234)]);
    c._execute(0x12c5).unwrap();
    assert_eq!(0x4400, c.get_register_word(0));
    assert_eq!(0x4400, c.get_register_word(1));
    // CALL with the stack pointer at 0 wraps to 0xFFFE
    let mut c = with_registers(&[(0, 0x4400), (5, 0x6000)]);
    c._execute(0x1285).unwrap();
    assert_eq!(0xfffe, c.get_register_word(1));
    assert_eq!(0x4400, c.memory.get_word(0xfffe));
    assert_eq!(0x6000, c.get_register_word(0));
}

#[test]
fn push_wraps_from_zero() {
    let mut c = with_registers(&[(5, 0xbeef)]);
    c._execute(0x1205).unwrap();
    assert_eq!(0xfffc, c.get_register_word(1));
    assert_eq!(0xbeef, c.memory.get_word(0xfffd));
    let mut c = with_registers(&[(1, 0x4400), (5, 0x12ab)]);
    // PUSH.B R5 stores the low byte after the slot
    c._execute(0x1245).unwrap();
    assert_eq!(0x43fe, c.get_register_word(1));
    assert_eq!(0xab, c.memory.get_byte(0x43ff));
    assert_eq!(0, c.memory.get_byte(0x43fe));
}

#[test]
fn interrupt_needs_gie() {
    let mut c = with_registers(&[(0, 0x4402), (1, 0x4400), (2, 0x0005)]);
    c.memory.set_word(0xffa0, 0x5000);
    c.interrupt(0xffa0);
    assert_eq!(0x4402, c.get_register_word(0));
    assert_eq!(0x4400, c.get_register_word(1));
    assert_eq!(0x0005, c.sr.get_word());
}

#[test]
fn interrupt_then_reti_restores() {
    let mut c = with_registers(&[(0, 0x4402), (1, 0x4400), (2, 0x010d)]);
    c.memory.set_word(0xffa0, 0x5000);
    // RETI with the constant generator as its operand
    c.memory.set_word(0x5000, 0x1303);
    c.interrupt(0xffa0);
    assert_eq!(0x5000, c.get_register_word(0));
    assert_eq!(0x43fc, c.get_register_word(1));
    assert_eq!(0, c.sr.get_word());
    assert_eq!(0x4402, c.memory.get_word(0x43fe));
    assert_eq!(0x010d, c.memory.get_word(0x43fc));
    c.step().unwrap();
    assert_eq!(0x4402, c.get_register_word(0));
    assert_eq!(0x010d, c.sr.get_word());
    assert_eq!(0x4400, c.get_register_word(1));
}

#[test]
fn reti_standard_encoding_restores() {
    // RETI encoded with R0 in register mode: its operand is not written
    // back, so the popped program counter stands.
    let mut c = with_registers(&[(0, 0x4402), (1, 0x4400), (2, 0x0008)]);
    c.memory.set_word(0xffa0, 0x5000);
    c.memory.set_word(0x5000, 0x1300);
    c.interrupt(0xffa0);
    c.step().unwrap();
    assert_eq!(0x4402, c.get_register_word(0));
    assert_eq!(0x0008, c.sr.get_word());
    assert_eq!(0x4400, c.get_register_word(1));
}

#[test]
fn jump_conditions() {
    let z = 0x2u16;
    let cy = 0x1u16;
    let n = 0x4u16;
    let v = 0x100u16;
    let cases: [(u16, u16, bool); 16] = [
        (0, 0, true),
        (0, z, false),
        (1, z, true),
        (1, 0, false),
        (2, 0, true),
        (2, cy, false),
        (3, cy, true),
        (3, 0, false),
        (4, n, true),
        (4, 0, false),
        (5, n | v, true),
        (5, n, false),
        (6, v, true),
        (6, 0, false),
        (7, 0, true),
        (7, z | cy | n | v, true),
    ];
    for &(cond, sr, taken) in cases.iter() {
        // offset +3 words
        let mut c = with_registers(&[(0, 0x4402), (2, sr)]);
        c._execute(0x2000 | (cond << 10) | 3).unwrap();
        let expected = if taken { 0x4408 } else { 0x4402 };
        assert_eq!(expected, c.get_register_word(0), "condition {}", cond);
        assert_eq!(sr, c.sr.get_word());
    }
}

#[test]
fn jump_offsets() {
    // 0x3FF is -1: back to the jump itself
    let mut c = with_registers(&[(0, 0x4402)]);
    c._execute(0x3fff).unwrap();
    assert_eq!(0x4400, c.get_register_word(0));
    // 512 counts as positive
    let mut c = with_registers(&[(0, 0x4402)]);
    c._execute(0x3e00).unwrap();
    assert_eq!(0x4802, c.get_register_word(0));
    // 513 is -511
    let mut c = with_registers(&[(0, 0x4402)]);
    c._execute(0x3e01).unwrap();
    assert_eq!(0x4004, c.get_register_word(0));
    // wraps below zero
    let mut c = with_registers(&[(0, 0x0002)]);
    c._execute(0x3ffe).unwrap();
    assert_eq!(0xfffe, c.get_register_word(0));
}

#[test]
fn faults() {
    let mut c = Computer::new();
    assert_eq!(Err(CpuFault::IllegalInstruction), c._execute(0x0001));
    assert_eq!(Err(CpuFault::IllegalInstruction), c._execute(0x1380));
    assert_eq!(Err(CpuFault::IllegalInstruction), c._execute(0x1400));
    assert_eq!(Err(CpuFault::UnsupportedDecimalAdd), c._execute(0xa506));
    assert_eq!(Ok(()), c._execute(0x0000));
    assert_eq!(0, c.get_register_word(0));
    c.memory.set_word(0, 0xa506);
    assert_eq!(Err(CpuFault::UnsupportedDecimalAdd), c.step());
    assert_eq!(2, c.get_register_word(0));
}

#[test]
fn cpuoff_halts_step() {
    let mut c = with_registers(&[(0, 0x4400), (2, 0x0010)]);
    c.memory.set_word(0x4400, 0x4315);
    c.step().unwrap();
    assert_eq!(0x4400, c.get_register_word(0));
    assert_eq!(0, c.get_register_word(5));
}

#[test]
fn operand_modes() {
    // MOV 2(R5), R6; MOV @R5+, R7; MOV.B @PC+ steps the program counter by 2
    let mut c = with_registers(&[(0, 0x4400), (5, 0x3000)]);
    c.memory.set_word(0x3002, 0x7777);
    c.memory.set_word(0x3000, 0x1111);
    c.memory.set_word(0x4400, 0x4516);
    c.memory.set_word(0x4402, 0x0002);
    c.memory.set_word(0x4404, 0x4537);
    c.memory.set_word(0x4406, 0x4078);
    c.memory.set_word(0x4408, 0x00aa);
    c.step().unwrap();
    assert_eq!(0x7777, c.get_register_word(6));
    c.step().unwrap();
    assert_eq!(0x1111, c.get_register_word(7));
    assert_eq!(0x3002, c.get_register_word(5));
    c.step().unwrap();
    assert_eq!(0x0000, c.get_register_word(8));
    assert_eq!(0x440a, c.get_register_word(0));
    // MOV.B @R5+, R9 steps R5 by 1
    let mut c = with_registers(&[(5, 0x3000)]);
    c.memory.set_byte(0x3000, 0x9a);
    c._execute(0x4579).unwrap();
    assert_eq!(0x009a, c.get_register_word(9));
    assert_eq!(0x3001, c.get_register_word(5));
    // writes to the constant generator are ignored
    let mut c = with_registers(&[(5, 0x1234)]);
    c._execute(0x4503).unwrap();
    assert_eq!(0, c.get_register_word(3));
}

#[test]
fn legacy_load_then_step() {
    let mut c = Computer::new();
    // start 0x4400: MOV #1, R5
    let image = [0x44u8, 0x00, 0x43, 0x15];
    load_code(&mut c, &image).unwrap();
    assert_eq!(0x4400, c.get_register_word(0));
    assert_eq!(0x4400, c.memory.get_word(0xfffe));
    c.step().unwrap();
    assert_eq!(1, c.get_register_word(5));
    assert_eq!(0x4402, c.get_register_word(0));
}

#[test]
fn tagged_matches_converted_legacy() {
    let legacy = [0x44u8, 0x00, 0x40, 0x35, 0x12, 0x34, 0x53, 0x15, 0x3f, 0xff];
    let tagged = convert_code_fmt(&legacy);
    assert_eq!(
        vec![0xff, 0xff, 0x00, 0x02, 0x44, 0x00, 0x00, 0x08, 0x40, 0x35, 0x12, 0x34, 0x53, 0x15, 0x3f, 0xff, 0xff, 0xfe, 0x00, 0x02, 0x44, 0x00],
        tagged
    );
    let mut a = Computer::new();
    let mut b = Computer::new();
    execute_nd(&mut a, &legacy, 7).unwrap();
    execute_nd(&mut b, &tagged, 7).unwrap();
    for id in 0..16u8 {
        assert_eq!(a.get_register_word(id), b.get_register_word(id));
    }
    assert_eq!(0x1235, a.get_register_word(5));
    assert_eq!(state_mirror(&a), state_mirror(&b));
}

#[test]
fn load_errors() {
    let mut c = Computer::new();
    assert_eq!(Err(LoadError::TooShort), load_code(&mut c, &[0x44]));
    assert_eq!(Err(LoadError::BadMarker), load_code_fmt_new(&mut c, &[0x44, 0x00, 0x00, 0x01]));
    assert_eq!(Err(LoadError::Truncated), load_code(&mut c, &[0xff, 0xff, 0x00]));
    // one segment that claims 4 bytes but holds 2
    assert_eq!(Err(LoadError::Truncated), load_code(&mut c, &[0xff, 0xff, 0x00, 0x01, 0x20, 0x00, 0x00, 0x04, 0xaa, 0xbb]));
    assert_eq!(0, c.memory.get_byte(0x2000));
    assert_eq!(
        Err(ExecuteError::Load(LoadError::TooShort)),
        execute_nr_nd(&mut c, &[], 1)
    );
}

#[test]
fn tagged_segments_wrap_and_set_pc() {
    let mut c = Computer::new();
    // a segment of 3 bytes at 0xFFFF wraps to 0 and 1; the vector segment
    // written after it overwrites 0xFFFF
    let image = [0xff, 0xff, 0x00, 0x02, 0xff, 0xff, 0x00, 0x03, 0x11, 0x22, 0x33, 0xff, 0xfe, 0x00, 0x02, 0x30, 0x00];
    load_code(&mut c, &image).unwrap();
    assert_eq!(0x00, c.memory.get_byte(0xffff));
    assert_eq!(0x22, c.memory.get_byte(0x0000));
    assert_eq!(0x33, c.memory.get_byte(0x0001));
    assert_eq!(0x3000, c.get_register_word(0));
}

#[test]
fn u8_stream_reads_big_endian() {
    let data = [0x12u8, 0x34, 0x56];
    let mut s = U8Stream::new(&data);
    assert_eq!(0x1234, s.pop_word());
    assert_eq!(0x56, s.pop_byte());
}

#[test]
fn base64_images() {
    let mut c = Computer::new();
    // "RABDFQ==" is 44 00 43 15: start 0x4400, MOV #1, R5
    execute(&mut c, "RABDFQ==", 1).unwrap();
    assert_eq!(1, c.get_register_word(5));
    assert_eq!(Err(ExecuteError::BadEncoding), execute(&mut c, "not base64!", 1));
    // the faulting word 0x0001 at the start address
    assert_eq!(
        Err(ExecuteError::Fault(CpuFault::IllegalInstruction)),
        execute(&mut c, "RAAAAQ==", 3)
    );
}

#[test]
fn twos_complement() {
    assert_eq!(-2, decode_2complement(0xfffe));
    assert_eq!(0x7fff, decode_2complement(0x7fff));
    assert_eq!(-32768, decode_2complement(0x8000));
    assert_eq!(0xfffe, encode_2complement(-2));
    assert_eq!(0x0000, encode_2complement(65536));
    assert_eq!(0xffff, encode_2complement(-65537));
    assert_eq!(-1, wrap_2complement(65535));
    assert_eq!(1, wrap_2complement(-65535));
}

#[test]
fn sub_sampled() {
    let mut c = Computer::new();
    for first in (0..=0xffffu32).step_by(997) {
        for second in (0..=0xffffu32).step_by(1009) {
            let (f, s) = (first as u16, second as u16);
            let data = [0x44, 0x00, 0x40, 0x35, (f >> 8) as u8, f as u8, 0x40, 0x36, (s >> 8) as u8, s as u8, 0x85, 0x06];
            execute_nr_nd(&mut c, &data, 3).unwrap();
            let expected = wrap_2complement(decode_2complement(s) - decode_2complement(f));
            assert_eq!(expected, decode_2complement(c.get_register_word(6)));
            // SUBC with carry clear
            c.sr.set_status(StatusFlags::CARRY, false);
            let data = [0x44, 0x00, 0x40, 0x35, (f >> 8) as u8, f as u8, 0x40, 0x36, (s >> 8) as u8, s as u8, 0x75, 0x06];
            execute_nr_nd(&mut c, &data, 3).unwrap();
            let expected = wrap_2complement(decode_2complement(s) - decode_2complement(f) - 1);
            assert_eq!(expected, decode_2complement(c.get_register_word(6)));
        }
    }
}

#[test]
fn status_register_flags() {
    let mut sr = StatusRegister::new();
    sr.set_status(StatusFlags::OVERFLOW, true);
    sr.set_status(StatusFlags::GIE, true);
    assert_eq!(0x108, sr.get_word());
    sr.set_status(StatusFlags::OVERFLOW, false);
    assert_eq!(0x008, sr.get_word());
    assert!(sr.get_status(StatusFlags::GIE));
    assert!(!sr.get_status(StatusFlags::CPUOFF));
}

#[test]
fn command_decoding() {
    let mut block = [0u8; 16];
    assert!(matches!(decode_command(&block), ShmemCommands::Empty));
    block[0] = 3;
    block[1] = 0x01;
    block[2] = 0x02;
    assert!(matches!(decode_command(&block), ShmemCommands::Step(0x0102)));
    block[0] = 5;
    block[3] = 0xbe;
    block[4] = 0xef;
    assert!(matches!(decode_command(&block), ShmemCommands::SetMem(0x0102, 0xbeef)));
    block[0] = 6;
    assert!(matches!(decode_command(&block), ShmemCommands::Interrupt(0x0102)));
    block[0] = 9;
    assert!(matches!(decode_command(&block), ShmemCommands::Unknown));
    let mut block = [0u8; 16];
    block[0] = 4;
    block[1..6].copy_from_slice(b"a.bin");
    match decode_command(&block) {
        ShmemCommands::LoadFile(p) => assert_eq!(b"a.bin".to_vec(), p),
        other => panic!("{:?}", other),
    }
}

#[test]
fn mirror_layout() {
    let mut c = with_registers(&[(0, 0x4400), (15, 0xa1b2)]);
    c.memory.set_word(0x0010, 0x1234);
    let m = state_mirror(&c);
    assert_eq!(0x10020, m.len());
    assert_eq!(0x12, m[0x10]);
    assert_eq!(0x34, m[0x11]);
    assert_eq!(0x44, m[0x10000]);
    assert_eq!(0x00, m[0x10001]);
    assert_eq!(0xa1, m[0x1001e]);
    assert_eq!(0xb2, m[0x1001f]);
}

#[test]
fn run_loop_decisions() {
    let mut c = Computer::new();
    let mut l = RunLoop::new();
    assert_eq!(Ok(true), l.tick(&mut c));
    assert_eq!(0, c.get_register_word(0));
    assert!(matches!(l.handle(&mut c, ShmemCommands::Step(2)), CommandReply::Acknowledge));
    assert_eq!(RunMode::Stepping(2), l.mode);
    assert_eq!(Ok(false), l.tick(&mut c));
    assert_eq!(RunMode::Stepping(1), l.mode);
    assert_eq!(2, c.get_register_word(0));
    assert_eq!(Ok(false), l.tick(&mut c));
    assert_eq!(RunMode::Stopped, l.mode);
    assert!(matches!(l.handle(&mut c, ShmemCommands::Run), CommandReply::Acknowledge));
    l.iters = CHECK_EVERY;
    assert_eq!(Ok(true), l.tick(&mut c));
    assert_eq!(0, l.iters);
    assert!(matches!(l.handle(&mut c, ShmemCommands::SetMem(0x10, 0xabcd)), CommandReply::Acknowledge));
    assert_eq!(0xabcd, c.memory.get_word(0x10));
    assert!(matches!(l.handle(&mut c, ShmemCommands::Empty), CommandReply::Mirror));
    assert_eq!(RunMode::Running, l.mode);
    match l.handle(&mut c, ShmemCommands::LoadFile(b"x".to_vec())) {
        CommandReply::LoadFile(p) => assert_eq!(b"x".to_vec(), p),
        other => panic!("{:?}", other),
    }
    assert_eq!(RunMode::Stopped, l.mode);
    assert_eq!(0, c.memory.get_word(0x10));
}
