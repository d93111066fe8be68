//! Program images and running them. The legacy form is a start address
//! followed by code; the tagged form is the marker 0xFFFF, a segment count,
//! and segments of start address, length and bytes. All numbers are big
//! endian. A legacy image is turned into a tagged one before it is loaded.
use vstd::prelude::*;
use base64::Engine as _;
use base64::engine::general_purpose;
use crate::cpu::Computer;
use crate::machine::{Machine, CpuFault, PC, step, step_fault};
use crate::memory::{word_at, MEMORY_SIZE};

verus! {

/// What makes a program image unloadable.
#[derive(Debug, Clone, Copy, PartialEq, Eq, Structural)]
pub enum LoadError {
    /// Fewer than the two bytes of a start address or marker.
    TooShort,
    /// A tagged image that does not start with the 0xFFFF marker.
    BadMarker,
    /// A tagged image whose header or segments run past its end.
    Truncated,
}

/// What ends the loading and running of a program early.
#[derive(Debug, Clone, Copy, PartialEq, Eq, Structural)]
pub enum ExecuteError {
    /// The text is not base64.
    BadEncoding,
    /// The image cannot be loaded.
    Load(LoadError),
    /// An instruction faulted.
    Fault(CpuFault),
}

/// The first word of a tagged image.
pub const TAGGED_MARKER: u16 = 0xffff;

/// The address of the word that holds the start address.
pub const RESET_VECTOR: u16 = 0xfffe;

/// The big-endian word at `i`.
pub open spec fn be_word(b: Seq<u8>, i: int) -> u16 {
    (b[i] as int * 256 + b[i + 1] as int) as u16
}

/// Whether `count` complete segments (4 header bytes, then as many bytes as
/// the header's length says) lie in `data` from `pos` on.
pub open spec fn segments_complete(data: Seq<u8>, pos: int, count: nat) -> bool
    decreases count,
{
    if count == 0 {
        true
    } else {
        &&& pos + 4 <= data.len()
        &&& pos + 4 + be_word(data, pos + 2) <= data.len()
        &&& segments_complete(data, pos + 4 + be_word(data, pos + 2), (count - 1) as nat)
    }
}

/// Why a tagged image cannot be loaded, if it cannot.
pub open spec fn tagged_image_error(data: Seq<u8>) -> Option<LoadError> {
    if data.len() < 2 || be_word(data, 0) != TAGGED_MARKER {
        Some(LoadError::BadMarker)
    } else if data.len() < 4 || !segments_complete(data, 4, be_word(data, 2) as nat) {
        Some(LoadError::Truncated)
    } else {
        None
    }
}

/// Memory with `bytes` written from `start` on, wrapping at the end of the
/// address space.
pub open spec fn write_segment(mem: Seq<u8>, start: u16, bytes: Seq<u8>) -> Seq<u8> {
    Seq::new(
        mem.len(),
        |i: int|
            if (i - start) % 0x10000 < bytes.len() {
                bytes[(i - start) % 0x10000]
            } else {
                mem[i]
            },
    )
}

/// Memory after writing `count` segments of `data` from `pos` on, in order.
pub open spec fn load_segments(mem: Seq<u8>, data: Seq<u8>, pos: int, count: nat) -> Seq<u8>
    decreases count,
{
    if count == 0 {
        mem
    } else {
        let len = be_word(data, pos + 2) as int;
        load_segments(
            write_segment(mem, be_word(data, pos), data.subrange(pos + 4, pos + 4 + len)),
            data,
            pos + 4 + len,
            (count - 1) as nat,
        )
    }
}

/// The machine after loading a valid tagged image: its segments written,
/// registers kept, and the program counter loaded from the word at 0xFFFE.
pub open spec fn loaded(m: Machine, data: Seq<u8>) -> Machine {
    let mem = load_segments(m.mem, data, 4, be_word(data, 2) as nat);
    Machine { regs: m.regs, mem }.set_reg_word(PC, word_at(mem, RESET_VECTOR))
}

/// The tagged image of a legacy image: one segment with the code at the
/// start address, and one 2-byte segment at 0xFFFE holding the start address.
pub open spec fn legacy_as_tagged(d: Seq<u8>) -> Seq<u8> {
    let n = (d.len() - 2) % 0x10000;
    seq![0xffu8, 0xff, 0x00, 0x02, d[0], d[1], (n / 256) as u8, (n % 256) as u8] + d.subrange(
        2,
        d.len() as int,
    ) + seq![0xffu8, 0xfe, 0x00, 0x02, d[0], d[1]]
}

/// Whether an image starts with the tagged marker.
pub open spec fn is_tagged(d: Seq<u8>) -> bool {
    d[0] == 0xff && d[1] == 0xff
}

/// The tagged image that is loaded for `d`.
pub open spec fn program_image(d: Seq<u8>) -> Seq<u8> {
    if is_tagged(d) {
        d
    } else {
        legacy_as_tagged(d)
    }
}

/// Why the image `d` (in either form) cannot be loaded, if it cannot.
pub open spec fn load_error(d: Seq<u8>) -> Option<LoadError> {
    if d.len() < 2 {
        Some(LoadError::TooShort)
    } else {
        tagged_image_error(program_image(d))
    }
}

/// The machine after loading `d`: unchanged when the image is unloadable.
pub open spec fn load_program(m: Machine, d: Seq<u8>) -> Machine {
    if load_error(d) is Some {
        m
    } else {
        loaded(m, program_image(d))
    }
}

/// The machine after `steps` steps, and the fault that ended them early.
pub open spec fn run(m: Machine, steps: nat) -> (Machine, Option<CpuFault>)
    decreases steps,
{
    if steps == 0 {
        (m, None)
    } else if step_fault(m) is Some {
        (step(m), step_fault(m))
    } else {
        run(step(m), (steps - 1) as nat)
    }
}

/// Loading `d` into `m` and running `steps` steps.
pub open spec fn load_and_run(m: Machine, d: Seq<u8>, steps: nat) -> (Machine, Result<(), ExecuteError>) {
    match load_error(d) {
        Some(e) => (m, Err(ExecuteError::Load(e))),
        None => {
            let outcome = run(loaded(m, program_image(d)), steps);
            (
                outcome.0,
                match outcome.1 {
                    Some(f) => Err(ExecuteError::Fault(f)),
                    None => Ok(()),
                },
            )
        },
    }
}

/// The machine that `reset` leaves: every register and cell zero.
pub open spec fn zeroed() -> Machine {
    Machine { regs: Seq::new(16, |i: int| 0u16), mem: Seq::new(MEMORY_SIZE as nat, |i: int| 0u8) }
}

/// What the standard base64 alphabet with padding decodes `text` to, or
/// `None` when `text` is not valid base64.
pub uninterp spec fn standard_base64_decoding(text: Seq<char>) -> Option<Seq<u8>>;

/// Relies on base64's `general_purpose::STANDARD.decode`: decoding with the
/// standard alphabet and padding, whose outcome depends on the text alone.
#[verifier::external_body]
fn decode_base64(text: &str) -> (r: Option<Vec<u8>>)
    ensures
        match standard_base64_decoding(text@) {
            Some(bytes) => r matches Some(v) && v@ == bytes,
            None => r is None,
        },
{
    general_purpose::STANDARD.decode(text).ok()
}

/// Reads bytes and big-endian words off a byte slice, front to back.
pub struct U8Stream<'a> {
    pub data: &'a [u8],
    pub index: usize,
}

impl<'a> U8Stream<'a> {
    pub fn new(data: &'a [u8]) -> (r: U8Stream<'a>)
        ensures
            r.data@ == data@,
            r.index == 0,
    {
        U8Stream { data, index: 0 }
    }

    pub fn pop_byte(&mut self) -> (r: u8)
        requires
            old(self).index < old(self).data@.len(),
        ensures
            r == old(self).data@[old(self).index as int],
            final(self).index == old(self).index + 1,
            final(self).data@ == old(self).data@,
    {
        let out = self.data[self.index];
        self.index = self.index + 1;
        out
    }

    pub fn pop_word(&mut self) -> (r: u16)
        requires
            old(self).index + 2 <= old(self).data@.len(),
        ensures
            r == be_word(old(self).data@, old(self).index as int),
            final(self).index == old(self).index + 2,
            final(self).data@ == old(self).data@,
    {
        let high = self.pop_byte();
        let low = self.pop_byte();
        assert(((high as u16) << 8u16) == high as u16 * 256) by (bit_vector);
        ((high as u16) << 8u16) + (low as u16)
    }
}

/// Whether `count` complete segments lie in `data` from `start` on.
fn segments_fit(data: &[u8], start: usize, count: u16) -> (r: bool)
    requires
        start <= data@.len(),
    ensures
        r == segments_complete(data@, start as int, count as nat),
{
    let mut pos: usize = start;
    let mut i: u16 = 0;
    while i < count
        invariant
            pos <= data@.len(),
            i <= count,
            segments_complete(data@, start as int, count as nat) == segments_complete(
                data@,
                pos as int,
                (count - i) as nat,
            ),
        decreases count - i,
    {
        if data.len() - pos < 4 {
            return false;
        }
        let mut header = U8Stream { data, index: pos + 2 };
        let len: u16 = header.pop_word();
        if data.len() - pos - 4 < len as usize {
            return false;
        }
        pos = pos + 4 + len as usize;
        i = i + 1;
    }
    true
}

/// Writing one more byte of a segment extends its written prefix by one cell.
proof fn lemma_write_segment_extend(mem: Seq<u8>, start: u16, bytes: Seq<u8>, k: int)
    requires
        mem.len() == MEMORY_SIZE,
        0 <= k < bytes.len(),
        bytes.len() <= 0xffff,
    ensures
        write_segment(mem, start, bytes.take(k + 1)) == write_segment(mem, start, bytes.take(k)).update(
            (start + k) % 0x10000,
            bytes[k],
        ),
{
    let a = write_segment(mem, start, bytes.take(k + 1));
    let b = write_segment(mem, start, bytes.take(k)).update((start + k) % 0x10000, bytes[k]);
    assert forall|i: int| 0 <= i < MEMORY_SIZE implies a[i] == b[i] by {
        let d = (i - start) % 0x10000;
        if i == (start + k) % 0x10000 {
            assert(d == k);
        } else {
            assert(d != k);
        }
    }
    assert(a =~= b);
}

/// Loads a tagged image: checks it whole first, so that an unloadable image
/// changes nothing; then writes each segment and loads the program counter
/// from the word at 0xFFFE. Other registers are kept.
pub fn load_code_fmt_new(computer: &mut Computer, byte_data: &[u8]) -> (r: Result<(), LoadError>)
    requires
        old(computer).wf(),
    ensures
        final(computer).wf(),
        r == match tagged_image_error(byte_data@) {
            Some(e) => Err(e),
            None => Ok(()),
        },
        r is Err ==> final(computer)@ == old(computer)@,
        r is Ok ==> final(computer)@ == loaded(old(computer)@, byte_data@),
{
    let ghost m0 = computer@;
    if byte_data.len() < 2 {
        return Err(LoadError::BadMarker);
    }
    let mut d = U8Stream::new(byte_data);
    if d.pop_word() != TAGGED_MARKER {
        return Err(LoadError::BadMarker);
    }
    if byte_data.len() < 4 {
        return Err(LoadError::Truncated);
    }
    let segment_count: u16 = d.pop_word();
    if !segments_fit(byte_data, 4, segment_count) {
        return Err(LoadError::Truncated);
    }
    let mut i: u16 = 0;
    while i < segment_count
        invariant
            computer.wf(),
            i <= segment_count,
            d.data@ == byte_data@,
            4 <= d.index <= byte_data@.len(),
            segments_complete(byte_data@, d.index as int, (segment_count - i) as nat),
            load_segments(m0.mem, byte_data@, 4, segment_count as nat) == load_segments(
                computer@.mem,
                byte_data@,
                d.index as int,
                (segment_count - i) as nat,
            ),
            computer@.regs == m0.regs,
            computer@.mem.len() == MEMORY_SIZE,
        decreases segment_count - i,
    {
        let ghost pos = d.index as int;
        let start_addr: u16 = d.pop_word();
        let segment_length: u16 = d.pop_word();
        let ghost seg_start = d.index as int;
        let ghost seg = byte_data@.subrange(seg_start, seg_start + segment_length);
        assert(seg_start + segment_length <= byte_data@.len());
        assert(seg.len() == segment_length as int);
        let ghost mem0 = computer@.mem;
        assert(seg.take(0) =~= Seq::<u8>::empty());
        assert(mem0 =~= write_segment(mem0, start_addr, seg.take(0)));
        let mut offset: u16 = 0;
        while offset < segment_length
            invariant
                computer.wf(),
                offset <= segment_length,
                d.data@ == byte_data@,
                d.index == seg_start + offset,
                seg_start + segment_length <= byte_data@.len(),
                seg == byte_data@.subrange(seg_start, seg_start + segment_length),
                seg.len() == segment_length as int,
                4 <= seg_start,
                computer@.mem == write_segment(mem0, start_addr, seg.take(offset as int)),
                computer@.regs == m0.regs,
                mem0.len() == MEMORY_SIZE,
            decreases segment_length - offset,
        {
            let b = d.pop_byte();
            assert(b == seg[offset as int]);
            let address = start_addr.wrapping_add(offset);
            assert(address as int == (start_addr + offset) % 0x10000);
            computer.set_memory_byte(address, b);
            proof {
                lemma_write_segment_extend(mem0, start_addr, seg, offset as int);
            }
            offset = offset + 1;
        }
        assert(seg.take(segment_length as int) =~= seg);
        i = i + 1;
    }
    let start = computer.memory.get_word(RESET_VECTOR);
    computer.set_register_word(0, start);
    Ok(())
}

/// The tagged image of a legacy image.
pub fn convert_code_fmt(byte_data: &[u8]) -> (r: Vec<u8>)
    requires
        byte_data@.len() >= 2,
    ensures
        r@ == legacy_as_tagged(byte_data@),
{
    let mut converted: Vec<u8> = Vec::new();
    converted.push(0xff);
    converted.push(0xff);
    converted.push(0x00);
    converted.push(0x02);
    converted.push(byte_data[0]);
    converted.push(byte_data[1]);
    let code_size: u16 = ((byte_data.len() - 2) % 0x10000) as u16;
    assert(((code_size & 0xff00) >> 8) as u8 == (code_size / 256) as u8) by (bit_vector);
    assert((code_size & 0x00ff) as u8 == (code_size % 256) as u8) by (bit_vector);
    converted.push(((code_size & 0xff00) >> 8) as u8);
    converted.push((code_size & 0x00ff) as u8);
    let ghost header = converted@;
    let mut i: usize = 2;
    while i < byte_data.len()
        invariant
            2 <= i <= byte_data@.len(),
            converted@ == header + byte_data@.subrange(2, i as int),
        decreases byte_data@.len() - i,
    {
        converted.push(byte_data[i]);
        i = i + 1;
        assert(converted@ =~= header + byte_data@.subrange(2, i as int));
    }
    converted.push(0xff);
    converted.push(0xfe);
    converted.push(0x00);
    converted.push(0x02);
    converted.push(byte_data[0]);
    converted.push(byte_data[1]);
    assert(converted@ =~= legacy_as_tagged(byte_data@));
    converted
}

/// Loads an image in either form; a legacy image is converted first. An
/// unloadable image changes nothing. Registers other than the program
/// counter are kept.
pub fn load_code(computer: &mut Computer, byte_data: &[u8]) -> (r: Result<(), LoadError>)
    requires
        old(computer).wf(),
    ensures
        final(computer).wf(),
        r == match load_error(byte_data@) {
            Some(e) => Err(e),
            None => Ok(()),
        },
        final(computer)@ == load_program(old(computer)@, byte_data@),
{
    if byte_data.len() < 2 {
        return Err(LoadError::TooShort);
    }
    if byte_data[0] != 0xff || byte_data[1] != 0xff {
        let converted = convert_code_fmt(byte_data);
        load_code_fmt_new(computer, converted.as_slice())
    } else {
        load_code_fmt_new(computer, byte_data)
    }
}

/// Loads an image without resetting first, then runs `steps` steps,
/// stopping at the first fault.
pub fn execute_nr_nd(computer: &mut Computer, byte_data: &[u8], steps: u64) -> (r: Result<(), ExecuteError>)
    requires
        old(computer).wf(),
    ensures
        final(computer).wf(),
        (final(computer)@, r) == load_and_run(old(computer)@, byte_data@, steps as nat),
{
    let ghost m_old = computer@;
    match load_code(computer, byte_data) {
        Err(e) => {
            return Err(ExecuteError::Load(e));
        },
        Ok(()) => {},
    }
    let ghost start = computer@;
    let mut i: u64 = 0;
    while i < steps
        invariant
            computer.wf(),
            i <= steps,
            run(start, steps as nat) == run(computer@, (steps - i) as nat),
            load_error(byte_data@) is None,
            start == loaded(m_old, program_image(byte_data@)),
            m_old == old(computer)@,
        decreases steps - i,
    {
        let ghost before = computer@;
        assert(run(before, (steps - i) as nat) == if step_fault(before) is Some {
            (step(before), step_fault(before))
        } else {
            run(step(before), (steps - i - 1) as nat)
        });
        match computer.step() {
            Err(f) => {
                return Err(ExecuteError::Fault(f));
            },
            Ok(()) => {},
        }
        i = i + 1;
    }
    Ok(())
}

/// Resets the computer, loads an image and runs `steps` steps.
pub fn execute_nd(computer: &mut Computer, byte_data: &[u8], steps: u64) -> (r: Result<(), ExecuteError>)
    requires
        old(computer).wf(),
    ensures
        final(computer).wf(),
        (final(computer)@, r) == load_and_run(zeroed(), byte_data@, steps as nat),
{
    computer.reset();
    execute_nr_nd(computer, byte_data, steps)
}

/// Decodes a base64 image, loads it without resetting and runs `steps`
/// steps. Text that is not base64 changes nothing.
pub fn execute_nr(computer: &mut Computer, data: &str, steps: u64) -> (r: Result<(), ExecuteError>)
    requires
        old(computer).wf(),
    ensures
        final(computer).wf(),
        match standard_base64_decoding(data@) {
            Some(bytes) => (final(computer)@, r) == load_and_run(old(computer)@, bytes, steps as nat),
            None => r == Err::<(), ExecuteError>(ExecuteError::BadEncoding) && final(computer)@ == old(
                computer,
            )@,
        },
{
    match decode_base64(data) {
        Some(bytes) => execute_nr_nd(computer, bytes.as_slice(), steps),
        None => Err(ExecuteError::BadEncoding),
    }
}

/// Resets the computer, then decodes, loads and runs a base64 image.
pub fn execute(computer: &mut Computer, data: &str, steps: u64) -> (r: Result<(), ExecuteError>)
    requires
        old(computer).wf(),
    ensures
        final(computer).wf(),
        match standard_base64_decoding(data@) {
            Some(bytes) => (final(computer)@, r) == load_and_run(zeroed(), bytes, steps as nat),
            None => r == Err::<(), ExecuteError>(ExecuteError::BadEncoding) && final(computer)@ == zeroed(),
        },
{
    computer.reset();
    execute_nr(computer, data, steps)
}

} // verus!
