//! The mathematical model of the machine: registers and bus as plain values,
//! and what each instruction makes of them.
//!
//! Everything here is specification. The executable processor is proved to
//! follow it.

use crate::device::DeviceModel;
use crate::device_mapper::{peek, poke, Mapping};
use crate::error::Error;
use crate::opcodes::{decode, Mnemonic, Mode};
use crate::registers::{Registers, Status};
use vstd::prelude::*;

verus! {

/// `n` reduced to eight bits.
pub open spec fn wrap8(n: int) -> u8 {
    (n % 0x100) as u8
}

/// `n` reduced to sixteen bits.
pub open spec fn wrap16(n: int) -> u16 {
    (n % 0x1_0000) as u16
}

/// The 16-bit value with the given low and high bytes.
pub open spec fn word(low: u8, high: u8) -> u16 {
    (low + 0x100 * high) as u16
}

/// The address in page one that the stack pointer `sp` stands for.
pub open spec fn stack_address(sp: u8) -> u16 {
    (0x0100 + sp) as u16
}

impl Registers {
    /// The registers after `value` has been written to the accumulator.
    pub open spec fn loaded_acc(self, value: u8) -> Registers {
        Registers { acc: value, status: self.status.with_result(value), ..self }
    }

    /// The registers after `value` has been written to X.
    pub open spec fn loaded_x(self, value: u8) -> Registers {
        Registers { x: value, status: self.status.with_result(value), ..self }
    }

    /// The registers after `value` has been written to Y.
    pub open spec fn loaded_y(self, value: u8) -> Registers {
        Registers { y: value, status: self.status.with_result(value), ..self }
    }

    /// The registers after the accumulator has been tested against `value`:
    /// the zero flag says whether they share no bit, and the negative and
    /// overflow flags are bits 7 and 6 of `value`.
    pub open spec fn bit_tested(self, value: u8) -> Registers {
        Registers {
            status: self.status.put(Status::ZERO, self.acc & value == 0).put(
                Status::NEGATIVE,
                value & 0x80 == 0x80,
            ).put(Status::OVERFLOW, value & 0x40 == 0x40),
            ..self
        }
    }

    /// The carry flag as a number.
    pub open spec fn carry(self) -> int {
        if self.status.has(Status::CARRY) {
            1
        } else {
            0
        }
    }

    /// The registers after `value` and the carry have been added to the
    /// accumulator. The carry flag says whether the sum passed 0xFF, the
    /// overflow flag whether both terms differ in sign from the result.
    pub open spec fn added(self, value: u8) -> Registers {
        let sum = self.acc + value + self.carry();
        let result = wrap8(sum);
        Registers {
            acc: result,
            status: self.status.put(Status::CARRY, sum > 0xFF).put(
                Status::OVERFLOW,
                (self.acc ^ result) & (value ^ result) & 0x80 != 0,
            ).with_result(result),
            ..self
        }
    }

    /// The registers after an instruction that takes an operand has been
    /// given `value` for it.
    pub open spec fn applied(self, mnemonic: Mnemonic, value: u8) -> Registers {
        match mnemonic {
            Mnemonic::Lda => self.loaded_acc(value),
            Mnemonic::Ldx => self.loaded_x(value),
            Mnemonic::Ldy => self.loaded_y(value),
            Mnemonic::And => self.loaded_acc(self.acc & value),
            Mnemonic::Eor => self.loaded_acc(self.acc ^ value),
            Mnemonic::Ora => self.loaded_acc(self.acc | value),
            Mnemonic::Bit => self.bit_tested(value),
            Mnemonic::Adc => self.added(value),
            _ => self,
        }
    }

    /// The registers after a transfer between registers. All but the
    /// transfer to the stack pointer record the value in the flags.
    pub open spec fn transferred(self, mnemonic: Mnemonic) -> Registers {
        match mnemonic {
            Mnemonic::Tax => self.loaded_x(self.acc),
            Mnemonic::Tay => self.loaded_y(self.acc),
            Mnemonic::Txa => self.loaded_acc(self.x),
            Mnemonic::Tya => self.loaded_acc(self.y),
            Mnemonic::Tsx => self.loaded_x(self.sp),
            Mnemonic::Txs => Registers { sp: self.x, ..self },
            _ => self,
        }
    }

    /// The register that a store instruction writes to memory.
    pub open spec fn stored(self, mnemonic: Mnemonic) -> u8 {
        match mnemonic {
            Mnemonic::Stx => self.x,
            Mnemonic::Sty => self.y,
            _ => self.acc,
        }
    }
}

/// The state of the machine between two instructions.
pub struct Machine<M> {
    pub registers: Registers,
    pub bus: Seq<Mapping<M>>,
}

impl<M: DeviceModel> Machine<M> {
    /// What a read at `address` yields.
    pub open spec fn read(self, address: u16) -> Result<u8, Error> {
        peek(self.bus, address)
    }

    /// The machine after a write of `data` at `address`.
    pub open spec fn write(self, address: u16, data: u8) -> Result<Machine<M>, Error> {
        match poke(self.bus, address, data) {
            Ok(bus) => Ok(Machine { registers: self.registers, bus }),
            Err(error) => Err(error),
        }
    }

    /// The machine with other registers.
    pub open spec fn with_registers(self, registers: Registers) -> Machine<M> {
        Machine { registers, bus: self.bus }
    }

    /// The machine with the program counter moved forward by `count`.
    pub open spec fn advance(self, count: int) -> Machine<M> {
        self.with_registers(Registers { pc: wrap16(self.registers.pc + count), ..self.registers })
    }

    /// The 16-bit value at `address`: low byte there, high byte at the next
    /// address.
    pub open spec fn read_word(self, address: u16) -> Result<u16, Error> {
        match self.read(address) {
            Ok(low) => match self.read(wrap16(address + 1)) {
                Ok(high) => Ok(word(low, high)),
                Err(error) => Err(error),
            },
            Err(error) => Err(error),
        }
    }

    /// The 16-bit value that page zero holds at `place`: low byte there, high
    /// byte at the next place within page zero.
    pub open spec fn read_pointer(self, place: u8) -> Result<u16, Error> {
        match self.read(place as u16) {
            Ok(low) => match self.read(wrap8(place + 1) as u16) {
                Ok(high) => Ok(word(low, high)),
                Err(error) => Err(error),
            },
            Err(error) => Err(error),
        }
    }

    /// The address of the operand, for a machine whose program counter
    /// stands at the operand bytes of an instruction with the given mode.
    /// An immediate operand is the operand byte itself.
    pub open spec fn effective_address(self, mode: Mode) -> Result<u16, Error> {
        let pc = self.registers.pc;
        let x = self.registers.x;
        let y = self.registers.y;
        match mode {
            Mode::Implied | Mode::Immediate => Ok(pc),
            Mode::ZeroPage => match self.read(pc) {
                Ok(base) => Ok(base as u16),
                Err(error) => Err(error),
            },
            Mode::ZeroPageX => match self.read(pc) {
                Ok(base) => Ok(wrap8(base + x) as u16),
                Err(error) => Err(error),
            },
            Mode::ZeroPageY => match self.read(pc) {
                Ok(base) => Ok(wrap8(base + y) as u16),
                Err(error) => Err(error),
            },
            Mode::Absolute => self.read_word(pc),
            Mode::AbsoluteX => match self.read_word(pc) {
                Ok(base) => Ok(wrap16(base + x)),
                Err(error) => Err(error),
            },
            Mode::AbsoluteY => match self.read_word(pc) {
                Ok(base) => Ok(wrap16(base + y)),
                Err(error) => Err(error),
            },
            Mode::IndirectX => match self.read(pc) {
                Ok(base) => self.read_pointer(wrap8(base + x)),
                Err(error) => Err(error),
            },
            Mode::IndirectY => match self.read(pc) {
                Ok(place) => match self.read_pointer(place) {
                    Ok(base) => Ok(wrap16(base + y)),
                    Err(error) => Err(error),
                },
                Err(error) => Err(error),
            },
        }
    }

    /// The operand: the byte at the effective address.
    pub open spec fn operand(self, mode: Mode) -> Result<u8, Error> {
        match self.effective_address(mode) {
            Ok(address) => self.read(address),
            Err(error) => Err(error),
        }
    }

    /// The machine after `data` has been pushed: the byte goes to the place
    /// the stack pointer stands for, and the stack pointer moves down by one.
    pub open spec fn push(self, data: u8) -> Result<Machine<M>, Error> {
        let sp = self.registers.sp;
        match self.write(stack_address(sp), data) {
            Ok(written) => Ok(
                written.with_registers(Registers { sp: wrap8(sp - 1), ..self.registers }),
            ),
            Err(error) => Err(error),
        }
    }

    /// The byte that a pull yields, and the machine after it: the stack
    /// pointer moves up by one and the byte comes from the place it then
    /// stands for.
    pub open spec fn pull(self) -> Result<(u8, Machine<M>), Error> {
        let sp = wrap8(self.registers.sp + 1);
        match self.read(stack_address(sp)) {
            Ok(data) => Ok((data, self.with_registers(Registers { sp, ..self.registers }))),
            Err(error) => Err(error),
        }
    }

    /// The machine after one instruction, for a machine whose program
    /// counter stands just behind the opcode.
    pub open spec fn execute(self, mnemonic: Mnemonic, mode: Mode) -> Result<Machine<M>, Error> {
        let next = self.advance(mode.operand_len());
        match mnemonic {
            Mnemonic::Lda
            | Mnemonic::Ldx
            | Mnemonic::Ldy
            | Mnemonic::And
            | Mnemonic::Eor
            | Mnemonic::Ora
            | Mnemonic::Bit
            | Mnemonic::Adc => match self.operand(mode) {
                Ok(value) => Ok(next.with_registers(next.registers.applied(mnemonic, value))),
                Err(error) => Err(error),
            },
            Mnemonic::Sta | Mnemonic::Stx | Mnemonic::Sty => match self.effective_address(mode) {
                Ok(address) => next.write(address, self.registers.stored(mnemonic)),
                Err(error) => Err(error),
            },
            Mnemonic::Tax
            | Mnemonic::Tay
            | Mnemonic::Txa
            | Mnemonic::Tya
            | Mnemonic::Tsx
            | Mnemonic::Txs => Ok(self.with_registers(self.registers.transferred(mnemonic))),
            Mnemonic::Pha => self.push(self.registers.acc),
            Mnemonic::Php => self.push(self.registers.status.bits),
            Mnemonic::Pla => match self.pull() {
                Ok((value, pulled)) => Ok(
                    pulled.with_registers(pulled.registers.loaded_acc(value)),
                ),
                Err(error) => Err(error),
            },
            Mnemonic::Plp => match self.pull() {
                Ok((value, pulled)) => Ok(
                    pulled.with_registers(
                        Registers { status: Status { bits: value }, ..pulled.registers },
                    ),
                ),
                Err(error) => Err(error),
            },
        }
    }

    /// The machine after one step: the opcode at the program counter is
    /// fetched and decoded, and the instruction is executed. A step that
    /// fails leaves the machine as it was.
    pub open spec fn step(self) -> Result<Machine<M>, Error> {
        let pc = self.registers.pc;
        match self.read(pc) {
            Ok(opcode) => match decode(opcode) {
                Some((mnemonic, mode)) => self.advance(1).execute(mnemonic, mode),
                None => Err(Error::UnknownOpcode(opcode, pc)),
            },
            Err(error) => Err(error),
        }
    }

    /// Whether a fetch of the operand's address, for an instruction of the
    /// given mode, takes this machine to `after` with `outcome`: the
    /// program counter passes the operand bytes, or, where a read fails,
    /// nothing changes.
    pub open spec fn takes_address(
        self,
        after: Machine<M>,
        outcome: Result<u16, Error>,
        mode: Mode,
    ) -> bool {
        &&& outcome == self.effective_address(mode)
        &&& after == if outcome is Ok {
            self.advance(mode.operand_len())
        } else {
            self
        }
    }

    /// Whether a fetch of the operand, for an instruction of the given mode,
    /// takes this machine to `after` with `outcome`: the program counter
    /// passes the operand bytes, or, where a read fails, nothing changes.
    pub open spec fn takes_operand(
        self,
        after: Machine<M>,
        outcome: Result<u8, Error>,
        mode: Mode,
    ) -> bool {
        &&& outcome == self.operand(mode)
        &&& after == if outcome is Ok {
            self.advance(mode.operand_len())
        } else {
            self
        }
    }

    /// Whether the given instruction takes this machine, whose program
    /// counter stands just behind the opcode, to `after` with `outcome`:
    /// the instruction's effect, or, where it fails, the failure and no
    /// change.
    pub open spec fn performs(
        self,
        after: Machine<M>,
        outcome: Result<(), Error>,
        mnemonic: Mnemonic,
        mode: Mode,
    ) -> bool {
        match self.execute(mnemonic, mode) {
            Ok(next) => outcome is Ok && after == next,
            Err(error) => outcome == Err::<(), Error>(error) && after == self,
        }
    }

    /// The machine after at most `steps` steps, and the failure that stopped
    /// it before, if one did.
    pub open spec fn run(self, steps: nat) -> (Machine<M>, Option<Error>)
        decreases steps,
    {
        if steps == 0 {
            (self, None)
        } else {
            match self.step() {
                Ok(next) => next.run((steps - 1) as nat),
                Err(error) => (self, Some(error)),
            }
        }
    }
}

} // verus!
