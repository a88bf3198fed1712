//! An emulator core for an 8-bit microprocessor of the MOS 6502 family.
//!
//! The crate models the processor's registers, a bus that routes 16-bit
//! addresses to memory-mapped devices, and the fetch/decode/execute cycle for
//! the load, store, transfer, stack, logical, bit-test and add-with-carry
//! instructions. Every executable function carries a contract stated over a
//! mathematical model of the machine, and Verus checks each body against it.
//!
//! - [`device`]: the interface of a device, its model, and a RAM.
//! - [`device_mapper`]: the bus, a priority list of address regions.
//! - [`registers`]: the registers and the packed status byte.
//! - [`opcodes`]: the instruction table.
//! - [`machine`]: the model of the machine and the meaning of each
//!   instruction.
//! - [`processor`]: the executable processor.
//! - [`laws`]: what holds of bus and instructions whatever the program.
//! - [`memory`]: a flat memory with a loader and a hexadecimal dump.
//! - [`text`]: hexadecimal digits for diagnostic text.
//!
//! Deliberately left out: cycle counts, decimal mode, interrupts, and the
//! page-crossing quirks of the hardware. An address of two bytes is read low
//! byte first. An indirect pointer is read from page zero and wraps within
//! it.

pub mod device;
pub mod device_mapper;
pub mod error;
pub mod laws;
pub mod machine;
pub mod memory;
pub mod opcodes;
pub mod processor;
pub mod registers;
pub mod text;
