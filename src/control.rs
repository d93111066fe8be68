//! The decisions of the command-driven run loop: what a command block says,
//! the bytes that mirror the machine, when to step and when to poll, and
//! what each command does. Reading and writing the shared region is left to
//! the caller.
use vstd::prelude::*;
use crate::cpu::Computer;
use crate::machine::{Machine, CpuFault, step, step_fault, interrupt};
use crate::loader::{be_word, zeroed};
use crate::memory::MEMORY_SIZE;

verus! {

/// Offset of the register words in the shared region.
pub const REGISTER_MIRROR_OFFSET: usize = 0x10000;

/// Offset of the command block in the shared region.
pub const COMMAND_OFFSET: usize = 0x10020;

/// Size of the shared region.
pub const SHARED_REGION_SIZE: usize = 0x10420;

/// A running loop polls once more than this many steps have run.
pub const CHECK_EVERY: u64 = 1_000_000;

/// A command of the command block.
#[derive(Debug)]
pub enum ShmemCommands {
    Empty,
    Stop,
    Run,
    Step(u16),
    /// The path bytes, up to the terminating NUL.
    LoadFile(Vec<u8>),
    SetMem(u16, u16),
    Interrupt(u16),
    Unknown,
}

/// Whether `s` is the NUL-terminated string at `start` in `b`: its bytes are
/// nonzero and are followed by a zero byte or by the end of `b`.
pub open spec fn is_c_string_at(b: Seq<u8>, start: int, s: Seq<u8>) -> bool {
    &&& start + s.len() <= b.len()
    &&& s == b.subrange(start, start + s.len())
    &&& forall|k: int| 0 <= k < s.len() ==> s[k] != 0
    &&& (start + s.len() == b.len() || b[start + s.len()] == 0)
}

/// The word whose high byte is `high` and low byte is `low`.
fn word_from(high: u8, low: u8) -> (r: u16)
    ensures
        r == (high as int * 256 + low as int) as u16,
{
    assert(((high as u16) << 8u16) | (low as u16) == high as u16 * 256 + low as u16) by (bit_vector);
    ((high as u16) << 8u16) | (low as u16)
}

/// The command in a command block: an id byte, then up to four parameter
/// bytes (big-endian words) or a NUL-terminated path. Ids above 6 are
/// unknown.
pub fn decode_command(block: &[u8]) -> (r: ShmemCommands)
    requires
        block@.len() >= 5,
    ensures
        block@[0] == 0 <==> r is Empty,
        block@[0] == 1 <==> r is Stop,
        block@[0] == 2 <==> r is Run,
        block@[0] == 3 <==> r is Step,
        block@[0] == 4 <==> r is LoadFile,
        block@[0] == 5 <==> r is SetMem,
        block@[0] == 6 <==> r is Interrupt,
        block@[0] > 6 <==> r is Unknown,
        r matches ShmemCommands::Step(n) ==> n == be_word(block@, 1),
        r matches ShmemCommands::Interrupt(v) ==> v == be_word(block@, 1),
        r matches ShmemCommands::SetMem(a, v) ==> a == be_word(block@, 1) && v == be_word(block@, 3),
        r matches ShmemCommands::LoadFile(p) ==> is_c_string_at(block@, 1, p@),
{
    let cmd_id = block[0];
    if cmd_id == 0 {
        ShmemCommands::Empty
    } else if cmd_id == 1 {
        ShmemCommands::Stop
    } else if cmd_id == 2 {
        ShmemCommands::Run
    } else if cmd_id == 3 {
        ShmemCommands::Step(word_from(block[1], block[2]))
    } else if cmd_id == 4 {
        let mut path: Vec<u8> = Vec::new();
        let mut end: usize = 1;
        while end < block.len() && block[end] != 0
            invariant
                1 <= end <= block@.len(),
                path@ == block@.subrange(1, end as int),
                forall|k: int| 0 <= k < path@.len() ==> path@[k] != 0,
            decreases block@.len() - end,
        {
            path.push(block[end]);
            end = end + 1;
            assert(path@ =~= block@.subrange(1, end as int));
        }
        ShmemCommands::LoadFile(path)
    } else if cmd_id == 5 {
        ShmemCommands::SetMem(word_from(block[1], block[2]), word_from(block[3], block[4]))
    } else if cmd_id == 6 {
        ShmemCommands::Interrupt(word_from(block[1], block[2]))
    } else {
        ShmemCommands::Unknown
    }
}

/// The bytes that mirror a machine: all of memory, then the sixteen register
/// words, big endian.
pub open spec fn mirror_of(m: Machine) -> Seq<u8> {
    m.mem + Seq::new(
        32,
        |i: int|
            if i % 2 == 0 {
                (m.regs[i / 2] / 256) as u8
            } else {
                (m.regs[i / 2] % 256) as u8
            },
    )
}

/// The mirror of the computer's state, to be written at the start of the
/// shared region.
pub fn state_mirror(computer: &Computer) -> (r: Vec<u8>)
    requires
        computer.wf(),
    ensures
        r@ == mirror_of(computer@),
{
    let mut out: Vec<u8> = Vec::new();
    let mut i: usize = 0;
    while i < MEMORY_SIZE
        invariant
            i <= MEMORY_SIZE,
            computer@.mem.len() == MEMORY_SIZE,
            out@ == computer@.mem.take(i as int),
        decreases MEMORY_SIZE - i,
    {
        out.push(computer.memory.get_byte(i as u16));
        i = i + 1;
        assert(out@ =~= computer@.mem.take(i as int));
    }
    assert(computer@.mem.take(MEMORY_SIZE as int) =~= computer@.mem);
    let mut id: u8 = 0;
    while id < 16
        invariant
            id <= 16,
            out@ == mirror_of(computer@).take(MEMORY_SIZE + 2 * id),
            computer@.mem.len() == MEMORY_SIZE,
        decreases 16 - id,
    {
        let reg_val: u16 = computer.get_register_word(id);
        assert(((reg_val & 0xff00) >> 8) as u8 == (reg_val / 256) as u8) by (bit_vector);
        assert((reg_val & 0xff) as u8 == (reg_val % 256) as u8) by (bit_vector);
        out.push(((reg_val & 0xff00) >> 8) as u8);
        out.push((reg_val & 0xff) as u8);
        id = id + 1;
        assert(out@ =~= mirror_of(computer@).take(MEMORY_SIZE + 2 * id));
    }
    assert(out@ =~= mirror_of(computer@));
    out
}

/// How the loop is running: stopped (always polling), running freely, or
/// running a given number of steps.
#[derive(Debug, Clone, Copy, PartialEq, Eq, Structural)]
pub enum RunMode {
    Stopped,
    Running,
    Stepping(u16),
}

/// The mode after one pass: a count of steps goes down, and ends stopped.
pub open spec fn next_mode(mode: RunMode) -> RunMode {
    match mode {
        RunMode::Stepping(n) => if n <= 1 {
            RunMode::Stopped
        } else {
            RunMode::Stepping((n - 1) as u16)
        },
        _ => mode,
    }
}

/// What the caller does after a command: refresh the mirror only, or
/// acknowledge the command and refresh the mirror, or first load the file
/// at the path and then do both.
#[derive(Debug)]
pub enum CommandReply {
    Mirror,
    Acknowledge,
    LoadFile(Vec<u8>),
}

/// The run loop's own state: its mode and the steps since the last poll.
pub struct RunLoop {
    pub mode: RunMode,
    pub iters: u64,
}

impl RunLoop {
    pub open spec fn wf(&self) -> bool {
        self.iters <= CHECK_EVERY
    }

    pub fn new() -> (r: RunLoop)
        ensures
            r.wf(),
            r.mode == RunMode::Stopped,
            r.iters == 0,
    {
        RunLoop { mode: RunMode::Stopped, iters: 0 }
    }

    /// One pass of the loop. A stopped loop does not step and polls. Any
    /// other steps once (a count of steps goes down first) and polls once
    /// more than `CHECK_EVERY` steps have run since the last poll. Returns
    /// whether to poll now, or the fault of the step.
    pub fn tick(&mut self, computer: &mut Computer) -> (r: Result<bool, CpuFault>)
        requires
            old(self).wf(),
            old(computer).wf(),
        ensures
            final(self).wf(),
            final(computer).wf(),
            old(self).mode is Stopped ==> r == Ok::<bool, CpuFault>(true)
                && final(computer)@ == old(computer)@ && final(self).mode == RunMode::Stopped
                && final(self).iters == 0,
            !(old(self).mode is Stopped) ==> final(self).mode == next_mode(old(self).mode)
                && final(computer)@ == step(old(computer)@),
            !(old(self).mode is Stopped) && step_fault(old(computer)@) is Some ==> r
                == Err::<bool, CpuFault>(step_fault(old(computer)@).unwrap()) && final(self).iters
                == old(self).iters,
            !(old(self).mode is Stopped) && step_fault(old(computer)@) is None ==> r == Ok::<
                bool,
                CpuFault,
            >(old(self).iters + 1 > CHECK_EVERY) && final(self).iters == if old(self).iters + 1
                > CHECK_EVERY {
                0
            } else {
                old(self).iters + 1
            },
    {
        match self.mode {
            RunMode::Stopped => {
                self.iters = 0;
                return Ok(true);
            },
            RunMode::Running => {},
            RunMode::Stepping(count) => {
                if count <= 1 {
                    self.mode = RunMode::Stopped;
                } else {
                    self.mode = RunMode::Stepping(count - 1);
                }
            },
        }
        match computer.step() {
            Err(f) => {
                return Err(f);
            },
            Ok(()) => {},
        }
        self.iters = self.iters + 1;
        if self.iters > CHECK_EVERY {
            self.iters = 0;
            Ok(true)
        } else {
            Ok(false)
        }
    }

    /// Applies a polled command. `None` only asks for the mirror; every
    /// other command is acknowledged. Loading a file resets the machine and
    /// stops the loop; reading and loading the file is left to the caller.
    pub fn handle(&mut self, computer: &mut Computer, command: ShmemCommands) -> (r: CommandReply)
        requires
            old(computer).wf(),
        ensures
            final(computer).wf(),
            final(self).iters == old(self).iters,
            match command {
                ShmemCommands::Empty => r is Mirror && final(self).mode == old(self).mode
                    && final(computer)@ == old(computer)@,
                ShmemCommands::Stop => r is Acknowledge && final(self).mode == RunMode::Stopped
                    && final(computer)@ == old(computer)@,
                ShmemCommands::Run => r is Acknowledge && final(self).mode == RunMode::Running
                    && final(computer)@ == old(computer)@,
                ShmemCommands::Step(n) => r is Acknowledge && final(self).mode == RunMode::Stepping(n)
                    && final(computer)@ == old(computer)@,
                ShmemCommands::LoadFile(p) => (r matches CommandReply::LoadFile(q) && q@ == p@)
                    && final(self).mode == RunMode::Stopped && final(computer)@ == zeroed(),
                ShmemCommands::SetMem(a, v) => r is Acknowledge && final(self).mode == old(self).mode
                    && final(computer)@ == old(computer)@.set_mem_word(a, v),
                ShmemCommands::Interrupt(v) => r is Acknowledge && final(self).mode == old(self).mode
                    && final(computer)@ == interrupt(old(computer)@, v),
                ShmemCommands::Unknown => r is Acknowledge && final(self).mode == old(self).mode
                    && final(computer)@ == old(computer)@,
            },
    {
        match command {
            ShmemCommands::Empty => CommandReply::Mirror,
            ShmemCommands::Stop => {
                self.mode = RunMode::Stopped;
                CommandReply::Acknowledge
            },
            ShmemCommands::Run => {
                self.mode = RunMode::Running;
                CommandReply::Acknowledge
            },
            ShmemCommands::Step(n) => {
                self.mode = RunMode::Stepping(n);
                CommandReply::Acknowledge
            },
            ShmemCommands::LoadFile(path) => {
                computer.reset();
                self.mode = RunMode::Stopped;
                CommandReply::LoadFile(path)
            },
            ShmemCommands::SetMem(addr, val) => {
                computer.set_memory_word(addr, val);
                CommandReply::Acknowledge
            },
            ShmemCommands::Interrupt(vector) => {
                computer.interrupt(vector);
                CommandReply::Acknowledge
            },
            ShmemCommands::Unknown => CommandReply::Acknowledge,
        }
    }
}

} // verus!
