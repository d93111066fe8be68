//! An emulator of a 16-bit microcontroller: register file, 64 KiB of memory,
//! the three instruction formats, status flags and interrupts, with a loader
//! for program images and the decisions of a command-driven run loop.
pub mod register;
pub mod memory;
pub mod machine;
pub mod cpu;
pub mod opcodes;
pub mod twos;
pub mod loader;
pub mod control;
pub mod laws;
