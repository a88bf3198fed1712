//! The processor: registers, a bus, and the fetch/decode/execute cycle.

use crate::device::{BackingModel, Device, DeviceModel, Ram};
use crate::device_mapper::{
    blank_ram, first_cover, mapped, resolve_finds_first_cover, unmapped, DeviceMapper, Mapping,
};
use crate::error::Error;
use crate::machine::{word, wrap16, wrap8, Machine};
use crate::opcodes::{
    decode, Mnemonic, Mode, LDA_IM, LDA_ZP, LDA_ZPX, LDA_ABS, LDA_ABSX, LDA_ABSY, LDA_INDX,
    LDA_INDY, LDX_IM, LDX_ZP, LDX_ZPY, LDX_ABS, LDX_ABSY, LDY_IM, LDY_ZP, LDY_ZPX, LDY_ABS,
    LDY_ABSX, STA_ZP, STA_ZPX, STA_ABS, STA_ABSX, STA_ABSY, STA_INDX, STA_INDY, STX_ZP, STX_ZPY,
    STX_ABS, STY_ZP, STY_ZPX, STY_ABS, AND_IM, AND_ZP, AND_ZPX, AND_ABS, AND_ABSX, AND_ABSY,
    AND_INDX, AND_INDY, EOR_IM, EOR_ZP, EOR_ZPX, EOR_ABS, EOR_ABSX, EOR_ABSY, EOR_INDX, EOR_INDY,
    ORA_IM, ORA_ZP, ORA_ZPX, ORA_ABS, ORA_ABSX, ORA_ABSY, ORA_INDX, ORA_INDY, BIT_ZP, BIT_ABS,
    ADC_IM, ADC_ZP, ADC_ZPX, ADC_ABS, ADC_ABSX, ADC_ABSY, ADC_INDX, ADC_INDY, TAX, TAY, TXA, TYA,
    TSX, TXS, PHA, PHP, PLA, PLP,
};
use crate::registers::{Registers, Status};
use vstd::prelude::*;

verus! {

/// The address at which `Processor::new` places a program.
pub const DEFAULT_LOAD_ADDRESS: u16 = 0x0800;

/// A RAM's bytes after `program` has been written to it byte by byte from
/// `start` on. The address wraps from 0xFFFF to 0x0000.
pub open spec fn loaded(memory: Seq<u8>, program: Seq<u8>, start: u16) -> Seq<u8>
    decreases program.len(),
{
    if program.len() == 0 {
        memory
    } else {
        loaded(memory, program.drop_last(), start).poke(
            wrap16(start + program.len() - 1),
            program.last(),
        )
    }
}

/// Writing a program to a RAM leaves the RAM's size as it was.
pub proof fn loaded_keeps_length(memory: Seq<u8>, program: Seq<u8>, start: u16)
    ensures
        loaded(memory, program, start).len() == memory.len(),
    decreases program.len(),
{
    if program.len() > 0 {
        loaded_keeps_length(memory, program.drop_last(), start);
    }
}

/// A program that fits between `start` and the end of the RAM stands there
/// byte for byte, and the rest of the RAM is as it was.
pub proof fn loaded_in_place(memory: Seq<u8>, program: Seq<u8>, start: u16)
    requires
        start + program.len() <= memory.len(),
        memory.len() <= 0x1_0000,
    ensures
        forall|i: int|
            0 <= i < program.len() ==> loaded(memory, program, start)[start + i] == program[i],
        forall|a: int|
            0 <= a < memory.len() && !(start <= a < start + program.len()) ==> loaded(
                memory,
                program,
                start,
            )[a] == memory[a],
    decreases program.len(),
{
    if program.len() > 0 {
        let before = program.drop_last();
        loaded_in_place(memory, before, start);
        loaded_keeps_length(memory, before, start);
        assert(wrap16(start + program.len() - 1) == start + program.len() - 1);
        assert forall|i: int| 0 <= i < program.len() implies loaded(memory, program, start)[start
            + i] == program[i] by {
            if i < before.len() {
                assert(before[i] == program[i]);
            }
        }
    }
}

/// One address back from the address after `pc` is `pc`.
proof fn stepping_back(pc: u16)
    ensures
        wrap16(wrap16(pc + 1) - 1) == pc,
{
}

/// The processor. `D` is the kind of device that can be mapped to its bus.
pub struct Processor<D: Device> {
    registers: Registers,
    device_mapper: DeviceMapper<D>,
}

impl<D: Device> View for Processor<D> {
    type V = Machine<BackingModel<D::Model>>;

    closed spec fn view(&self) -> Machine<BackingModel<D::Model>> {
        Machine { registers: self.registers, bus: self.device_mapper@ }
    }
}

impl Processor<Ram> {
    /// A processor with `program` loaded at `DEFAULT_LOAD_ADDRESS`, 0x0800,
    /// and the program counter there. To its bus, further RAMs can be
    /// mapped.
    pub fn new(program: Vec<u8>) -> (processor: Processor<Ram>)
        ensures
            processor@.registers == (Registers {
                pc: DEFAULT_LOAD_ADDRESS,
                sp: 0,
                acc: 0,
                x: 0,
                y: 0,
                status: Status { bits: Status::UNUSED },
            }),
            processor@.bus == seq![
                Mapping::<BackingModel<Seq<u8>>> {
                    start: 0x0000,
                    end: 0xFFFF,
                    device: BackingModel::Ram(
                        loaded(blank_ram(), program@, DEFAULT_LOAD_ADDRESS),
                    ),
                },
            ],
    {
        Processor::with_load_address(program, DEFAULT_LOAD_ADDRESS)
    }
}

impl<D: Device> Processor<D> {
    /// A processor whose program counter is `pc_start`, with `program`
    /// written from that address on into a fresh RAM of 64 KiB that covers
    /// every address.
    pub fn with_load_address(program: Vec<u8>, pc_start: u16) -> (processor: Processor<D>)
        ensures
            processor@.registers == (Registers {
                pc: pc_start,
                sp: 0,
                acc: 0,
                x: 0,
                y: 0,
                status: Status { bits: Status::UNUSED },
            }),
            processor@.bus == seq![
                Mapping::<BackingModel<D::Model>> {
                    start: 0x0000,
                    end: 0xFFFF,
                    device: BackingModel::Ram(loaded(blank_ram(), program@, pc_start)),
                },
            ],
    {
        let mut registers = Registers::new();
        let mut device_mapper: DeviceMapper<D> = DeviceMapper::new();
        registers.pc = pc_start;
        let mut address: u16 = pc_start;
        let mut i: usize = 0;
        while i < program.len()
            invariant
                0 <= i <= program.len(),
                address == wrap16(pc_start + i),
                device_mapper@ == seq![
                    Mapping::<BackingModel<D::Model>> {
                        start: 0x0000,
                        end: 0xFFFF,
                        device: BackingModel::Ram(
                            loaded(blank_ram(), program@.take(i as int), pc_start),
                        ),
                    },
                ],
            decreases program.len() - i,
        {
            proof {
                assert(first_cover(device_mapper@, address, 0));
                resolve_finds_first_cover(device_mapper@, address, 0);
                loaded_keeps_length(blank_ram(), program@.take(i as int), pc_start);
                assert(program@.take(i + 1).drop_last() == program@.take(i as int));
            }
            let _ = device_mapper.write(address, program[i]);
            assert(device_mapper@ == seq![
                Mapping::<BackingModel<D::Model>> {
                    start: 0x0000,
                    end: 0xFFFF,
                    device: BackingModel::Ram(
                        loaded(blank_ram(), program@.take(i + 1), pc_start),
                    ),
                },
            ]);
            address = address.wrapping_add(1);
            i += 1;
        }
        assert(program@.take(i as int) == program@);
        Processor { registers, device_mapper }
    }

    /// The registers, for reading.
    pub fn get_registers(&self) -> (registers: &Registers)
        ensures
            *registers == self@.registers,
    {
        &self.registers
    }

    /// The registers, for writing: what the caller leaves in them is what the
    /// processor goes on with. The bus stays as it is.
    pub fn set_register(&mut self) -> (registers: &mut Registers)
        ensures
            *registers == old(self)@.registers,
            final(self)@ == old(self)@.with_registers(*final(registers)),
    {
        &mut self.registers
    }

    /// Writes `byte` at `address` to the bus. Fails, and changes nothing,
    /// where no region covers the address.
    pub fn set_mem(&mut self, address: u16, byte: u8) -> (outcome: Result<(), Error>)
        ensures
            match old(self)@.write(address, byte) {
                Ok(next) => outcome is Ok && final(self)@ == next,
                Err(error) => outcome == Err::<(), Error>(error) && final(self)@ == old(self)@,
            },
    {
        self.write(address, byte)
    }

    /// Reads the byte at `address` from the bus. Fails where no region
    /// covers the address.
    pub fn get_mem(&self, address: u16) -> (outcome: Result<u8, Error>)
        ensures
            outcome == self@.read(address),
    {
        self.read(address)
    }

    /// Maps `device` to the addresses from `start` to `end`, ahead of every
    /// region mapped before.
    pub fn map(&mut self, start: u16, end: u16, device: D)
        ensures
            final(self)@.registers == old(self)@.registers,
            final(self)@.bus == mapped(
                old(self)@.bus,
                start,
                end,
                BackingModel::Plugged(device.model()),
            ),
    {
        self.device_mapper.map(start, end, device);
    }

    /// Takes out the first region whose bounds are exactly `start` and
    /// `end`. Fails, and changes nothing, where there is none.
    pub fn unmap(&mut self, start: u16, end: u16) -> (outcome: Result<(), Error>)
        ensures
            final(self)@.registers == old(self)@.registers,
            match unmapped(old(self)@.bus, start, end) {
                Ok(bus) => outcome is Ok && final(self)@.bus == bus,
                Err(error) => outcome == Err::<(), Error>(error) && final(self)@ == old(self)@,
            },
    {
        self.device_mapper.unmap(start, end)
    }

    /// Executes instructions until one fails or `budget` of them have been
    /// executed. Returns the failure that stopped the run, if one did; the
    /// failed step has changed nothing.
    pub fn run(&mut self, budget: u64) -> (outcome: Result<(), Error>)
        ensures
            old(self)@.run(budget as nat) == (
                final(self)@,
                match outcome {
                    Ok(_) => None::<Error>,
                    Err(error) => Some(error),
                },
            ),
    {
        let mut done: u64 = 0;
        while done < budget
            invariant
                0 <= done <= budget,
                old(self)@.run(budget as nat) == self@.run((budget - done) as nat),
            decreases budget - done,
        {
            match self.step() {
                Ok(_) => {},
                Err(error) => {
                    return Err(error);
                },
            }
            done += 1;
        }
        Ok(())
    }

    /// Executes one instruction: fetches the opcode at the program counter,
    /// decodes it and performs it. A step that fails changes nothing.
    #[verifier::rlimit(50)]
    pub fn step(&mut self) -> (outcome: Result<(), Error>)
        ensures
            match old(self)@.step() {
                Ok(next) => outcome is Ok && final(self)@ == next,
                Err(error) => outcome == Err::<(), Error>(error) && final(self)@ == old(self)@,
            },
    {
        let pc = self.registers.pc;
        match self.fetch8() {
            Ok(opcode) => {
                proof {
                    stepping_back(pc);
                }
                match self.execute(opcode) {
                    Ok(_) => Ok(()),
                    Err(error) => {
                        self.registers.pc = pc;
                        Err(error)
                    },
                }
            },
            Err(error) => Err(error),
        }
    }

    /// Reads the byte at `address` from the bus.
    fn read(&self, address: u16) -> (outcome: Result<u8, Error>)
        ensures
            outcome == self@.read(address),
    {
        self.device_mapper.read(address)
    }

    /// Writes `byte` at `address` to the bus.
    fn write(&mut self, address: u16, byte: u8) -> (outcome: Result<(), Error>)
        ensures
            match old(self)@.write(address, byte) {
                Ok(next) => outcome is Ok && final(self)@ == next,
                Err(error) => outcome == Err::<(), Error>(error) && final(self)@ == old(self)@,
            },
    {
        self.device_mapper.write(address, byte)
    }

    /// Reads the byte at `address`; where that fails, puts the program
    /// counter back to `pc`.
    fn read_or_rewind(&mut self, address: u16, pc: u16) -> (outcome: Result<u8, Error>)
        ensures
            outcome == old(self)@.read(address),
            final(self)@ == if outcome is Ok {
                old(self)@
            } else {
                old(self)@.with_registers(Registers { pc, ..old(self)@.registers })
            },
    {
        match self.read(address) {
            Ok(byte) => Ok(byte),
            Err(error) => {
                self.registers.pc = pc;
                Err(error)
            },
        }
    }

    /// Writes `byte` at `address`; where that fails, puts the program
    /// counter back to `pc`.
    fn write_or_rewind(&mut self, address: u16, byte: u8, pc: u16) -> (outcome: Result<(), Error>)
        ensures
            match old(self)@.write(address, byte) {
                Ok(next) => outcome is Ok && final(self)@ == next,
                Err(error) => outcome == Err::<(), Error>(error) && final(self)@ == old(
                    self,
                )@.with_registers(Registers { pc, ..old(self)@.registers }),
            },
    {
        match self.write(address, byte) {
            Ok(_) => Ok(()),
            Err(error) => {
                self.registers.pc = pc;
                Err(error)
            },
        }
    }

    /// Fetches the byte at the program counter and moves the program counter
    /// past it.
    fn fetch8(&mut self) -> (outcome: Result<u8, Error>)
        ensures
            outcome == old(self)@.read(old(self)@.registers.pc),
            final(self)@ == if outcome is Ok {
                old(self)@.advance(1)
            } else {
                old(self)@
            },
    {
        match self.read(self.registers.pc) {
            Ok(byte) => {
                self.registers.pc = self.registers.pc.wrapping_add(1);
                Ok(byte)
            },
            Err(error) => Err(error),
        }
    }

    /// Fetches the 16-bit value at the program counter, low byte first, and
    /// moves the program counter past it.
    fn fetch16(&mut self) -> (outcome: Result<u16, Error>)
        ensures
            outcome == old(self)@.read_word(old(self)@.registers.pc),
            final(self)@ == if outcome is Ok {
                old(self)@.advance(2)
            } else {
                old(self)@
            },
    {
        let pc = self.registers.pc;
        match self.fetch8() {
            Ok(low) => match self.fetch8() {
                Ok(high) => Ok(Self::join(low, high)),
                Err(error) => {
                    self.registers.pc = pc;
                    Err(error)
                },
            },
            Err(error) => Err(error),
        }
    }

    /// The 16-bit value with the given low and high bytes.
    fn join(low: u8, high: u8) -> (value: u16)
        ensures
            value == word(low, high),
    {
        (high as u16) * 0x100 + (low as u16)
    }

    /// `base` plus `index`, within eight bits.
    fn offset8(base: u8, index: u8) -> (sum: u8)
        ensures
            sum == wrap8(base + index),
    {
        base.wrapping_add(index)
    }

    /// `base` plus `index`, within sixteen bits.
    fn offset16(base: u16, index: u8) -> (sum: u16)
        ensures
            sum == wrap16(base + index),
    {
        base.wrapping_add(index as u16)
    }

    /// Reads the pointer that page zero holds at `place`; where that fails,
    /// puts the program counter back to `pc`.
    fn pointer_or_rewind(&mut self, place: u8, pc: u16) -> (outcome: Result<u16, Error>)
        ensures
            outcome == old(self)@.read_pointer(place),
            final(self)@ == if outcome is Ok {
                old(self)@
            } else {
                old(self)@.with_registers(Registers { pc, ..old(self)@.registers })
            },
    {
        match self.read_or_rewind(place as u16, pc) {
            Ok(low) => match self.read_or_rewind(Self::offset8(place, 1) as u16, pc) {
                Ok(high) => Ok(Self::join(low, high)),
                Err(error) => Err(error),
            },
            Err(error) => Err(error),
        }
    }

    /// Pushes `byte` on the stack.
    fn push(&mut self, byte: u8) -> (outcome: Result<(), Error>)
        ensures
            match old(self)@.push(byte) {
                Ok(next) => outcome is Ok && final(self)@ == next,
                Err(error) => outcome == Err::<(), Error>(error) && final(self)@ == old(self)@,
            },
    {
        let address = 0x0100 + self.registers.sp as u16;
        match self.write(address, byte) {
            Ok(_) => {
                self.registers.sp = self.registers.sp.wrapping_sub(1);
                Ok(())
            },
            Err(error) => Err(error),
        }
    }

    /// Pulls a byte from the stack.
    fn pull(&mut self) -> (outcome: Result<u8, Error>)
        ensures
            match old(self)@.pull() {
                Ok((byte, next)) => outcome == Ok::<u8, Error>(byte) && final(self)@ == next,
                Err(error) => outcome == Err::<u8, Error>(error) && final(self)@ == old(self)@,
            },
    {
        let sp = self.registers.sp.wrapping_add(1);
        let address = 0x0100 + sp as u16;
        match self.read(address) {
            Ok(byte) => {
                self.registers.sp = sp;
                Ok(byte)
            },
            Err(error) => Err(error),
        }
    }

    /// Performs the instruction that `opcode` stands for. The program
    /// counter stands just behind the opcode. Fails, and changes nothing,
    /// where the byte is no instruction or a bus access fails.
    fn execute(&mut self, opcode: u8) -> (outcome: Result<(), Error>)
        ensures
            match decode(opcode) {
                Some((mnemonic, mode)) => old(self)@.performs(
                    final(self)@,
                    outcome,
                    mnemonic,
                    mode,
                ),
                None => outcome == Err::<(), Error>(
                    Error::UnknownOpcode(opcode, wrap16(old(self)@.registers.pc - 1)),
                ) && final(self)@ == old(self)@,
            },
    {
        match opcode {
            // Load accumulator
            LDA_IM => self.lda_immediate(),
            LDA_ZP => self.lda_zero_page(),
            LDA_ZPX => self.lda_zero_page_x(),
            LDA_ABS => self.lda_absolute(),
            LDA_ABSX => self.lda_absolute_x(),
            LDA_ABSY => self.lda_absolute_y(),
            LDA_INDX => self.lda_indirect_x(),
            LDA_INDY => self.lda_indirect_y(),
            // Load X
            LDX_IM => self.ldx_immediate(),
            LDX_ZP => self.ldx_zero_page(),
            LDX_ZPY => self.ldx_zero_page_y(),
            LDX_ABS => self.ldx_absolute(),
            LDX_ABSY => self.ldx_absolute_y(),
            // Load Y
            LDY_IM => self.ldy_immediate(),
            LDY_ZP => self.ldy_zero_page(),
            LDY_ZPX => self.ldy_zero_page_x(),
            LDY_ABS => self.ldy_absolute(),
            LDY_ABSX => self.ldy_absolute_x(),
            // Store accumulator
            STA_ZP => self.sta_zero_page(),
            STA_ZPX => self.sta_zero_page_x(),
            STA_ABS => self.sta_absolute(),
            STA_ABSX => self.sta_absolute_x(),
            STA_ABSY => self.sta_absolute_y(),
            STA_INDX => self.sta_indirect_x(),
            STA_INDY => self.sta_indirect_y(),
            // Store X
            STX_ZP => self.stx_zero_page(),
            STX_ZPY => self.stx_zero_page_y(),
            STX_ABS => self.stx_absolute(),
            // Store Y
            STY_ZP => self.sty_zero_page(),
            STY_ZPX => self.sty_zero_page_x(),
            STY_ABS => self.sty_absolute(),
            // Logical AND
            AND_IM => self.and_immediate(),
            AND_ZP => self.and_zero_page(),
            AND_ZPX => self.and_zero_page_x(),
            AND_ABS => self.and_absolute(),
            AND_ABSX => self.and_absolute_x(),
            AND_ABSY => self.and_absolute_y(),
            AND_INDX => self.and_indirect_x(),
            AND_INDY => self.and_indirect_y(),
            // Logical exclusive OR
            EOR_IM => self.eor_immediate(),
            EOR_ZP => self.eor_zero_page(),
            EOR_ZPX => self.eor_zero_page_x(),
            EOR_ABS => self.eor_absolute(),
            EOR_ABSX => self.eor_absolute_x(),
            EOR_ABSY => self.eor_absolute_y(),
            EOR_INDX => self.eor_indirect_x(),
            EOR_INDY => self.eor_indirect_y(),
            // Logical inclusive OR
            ORA_IM => self.ora_immediate(),
            ORA_ZP => self.ora_zero_page(),
            ORA_ZPX => self.ora_zero_page_x(),
            ORA_ABS => self.ora_absolute(),
            ORA_ABSX => self.ora_absolute_x(),
            ORA_ABSY => self.ora_absolute_y(),
            ORA_INDX => self.ora_indirect_x(),
            ORA_INDY => self.ora_indirect_y(),
            // Bit test
            BIT_ZP => self.bit_zero_page(),
            BIT_ABS => self.bit_absolute(),
            // Add with carry
            ADC_IM => self.adc_immediate(),
            ADC_ZP => self.adc_zero_page(),
            ADC_ZPX => self.adc_zero_page_x(),
            ADC_ABS => self.adc_absolute(),
            ADC_ABSX => self.adc_absolute_x(),
            ADC_ABSY => self.adc_absolute_y(),
            ADC_INDX => self.adc_indirect_x(),
            ADC_INDY => self.adc_indirect_y(),
            // Register transfers
            TAX => {
                self.tax();
                Ok(())
            },
            TAY => {
                self.tay();
                Ok(())
            },
            TXA => {
                self.txa();
                Ok(())
            },
            TYA => {
                self.tya();
                Ok(())
            },
            TSX => {
                self.tsx();
                Ok(())
            },
            TXS => {
                self.txs();
                Ok(())
            },
            // Stack
            PHA => self.pha(),
            PHP => self.php(),
            PLA => self.pla(),
            PLP => self.plp(),
            _ => Err(Error::UnknownOpcode(opcode, self.registers.pc.wrapping_sub(1))),
        }
    }

    // Addressing modes. Each fetches the operand bytes at the program
    // counter. The `_addr` form gives the operand's address, the `_read`
    // form the operand itself. Where a bus access fails, the program
    // counter stays where it was.

    fn immediate(&mut self) -> (outcome: Result<u8, Error>)
        ensures
            old(self)@.takes_operand(final(self)@, outcome, Mode::Immediate),
    {
        self.fetch8()
    }

    fn zero_page_read(&mut self) -> (outcome: Result<u8, Error>)
        ensures
            old(self)@.takes_operand(final(self)@, outcome, Mode::ZeroPage),
    {
        let pc = self.registers.pc;
        match self.zero_page_addr() {
            Ok(address) => self.read_or_rewind(address, pc),
            Err(error) => Err(error),
        }
    }

    fn zero_page_addr(&mut self) -> (outcome: Result<u16, Error>)
        ensures
            old(self)@.takes_address(final(self)@, outcome, Mode::ZeroPage),
    {
        match self.fetch8() {
            Ok(base) => Ok(base as u16),
            Err(error) => Err(error),
        }
    }

    fn zero_page_x_read(&mut self) -> (outcome: Result<u8, Error>)
        ensures
            old(self)@.takes_operand(final(self)@, outcome, Mode::ZeroPageX),
    {
        let pc = self.registers.pc;
        match self.zero_page_x_addr() {
            Ok(address) => self.read_or_rewind(address, pc),
            Err(error) => Err(error),
        }
    }

    fn zero_page_x_addr(&mut self) -> (outcome: Result<u16, Error>)
        ensures
            old(self)@.takes_address(final(self)@, outcome, Mode::ZeroPageX),
    {
        let x = self.registers.x;
        match self.fetch8() {
            Ok(base) => Ok(Self::offset8(base, x) as u16),
            Err(error) => Err(error),
        }
    }

    fn zero_page_y_read(&mut self) -> (outcome: Result<u8, Error>)
        ensures
            old(self)@.takes_operand(final(self)@, outcome, Mode::ZeroPageY),
    {
        let pc = self.registers.pc;
        match self.zero_page_y_addr() {
            Ok(address) => self.read_or_rewind(address, pc),
            Err(error) => Err(error),
        }
    }

    fn zero_page_y_addr(&mut self) -> (outcome: Result<u16, Error>)
        ensures
            old(self)@.takes_address(final(self)@, outcome, Mode::ZeroPageY),
    {
        let y = self.registers.y;
        match self.fetch8() {
            Ok(base) => Ok(Self::offset8(base, y) as u16),
            Err(error) => Err(error),
        }
    }

    fn absolute_read(&mut self) -> (outcome: Result<u8, Error>)
        ensures
            old(self)@.takes_operand(final(self)@, outcome, Mode::Absolute),
    {
        let pc = self.registers.pc;
        match self.absolute_addr() {
            Ok(address) => self.read_or_rewind(address, pc),
            Err(error) => Err(error),
        }
    }

    fn absolute_addr(&mut self) -> (outcome: Result<u16, Error>)
        ensures
            old(self)@.takes_address(final(self)@, outcome, Mode::Absolute),
    {
        self.fetch16()
    }

    fn absolute_x_read(&mut self) -> (outcome: Result<u8, Error>)
        ensures
            old(self)@.takes_operand(final(self)@, outcome, Mode::AbsoluteX),
    {
        let pc = self.registers.pc;
        match self.absolute_x_addr() {
            Ok(address) => self.read_or_rewind(address, pc),
            Err(error) => Err(error),
        }
    }

    fn absolute_x_addr(&mut self) -> (outcome: Result<u16, Error>)
        ensures
            old(self)@.takes_address(final(self)@, outcome, Mode::AbsoluteX),
    {
        let x = self.registers.x;
        match self.fetch16() {
            Ok(base) => Ok(Self::offset16(base, x)),
            Err(error) => Err(error),
        }
    }

    fn absolute_y_read(&mut self) -> (outcome: Result<u8, Error>)
        ensures
            old(self)@.takes_operand(final(self)@, outcome, Mode::AbsoluteY),
    {
        let pc = self.registers.pc;
        match self.absolute_y_addr() {
            Ok(address) => self.read_or_rewind(address, pc),
            Err(error) => Err(error),
        }
    }

    fn absolute_y_addr(&mut self) -> (outcome: Result<u16, Error>)
        ensures
            old(self)@.takes_address(final(self)@, outcome, Mode::AbsoluteY),
    {
        let y = self.registers.y;
        match self.fetch16() {
            Ok(base) => Ok(Self::offset16(base, y)),
            Err(error) => Err(error),
        }
    }

    fn indirect_x_read(&mut self) -> (outcome: Result<u8, Error>)
        ensures
            old(self)@.takes_operand(final(self)@, outcome, Mode::IndirectX),
    {
        let pc = self.registers.pc;
        match self.indirect_x_addr() {
            Ok(address) => self.read_or_rewind(address, pc),
            Err(error) => Err(error),
        }
    }

    fn indirect_x_addr(&mut self) -> (outcome: Result<u16, Error>)
        ensures
            old(self)@.takes_address(final(self)@, outcome, Mode::IndirectX),
    {
        let x = self.registers.x;
        let pc = self.registers.pc;
        match self.fetch8() {
            Ok(base) => self.pointer_or_rewind(Self::offset8(base, x), pc),
            Err(error) => Err(error),
        }
    }

    fn indirect_y_read(&mut self) -> (outcome: Result<u8, Error>)
        ensures
            old(self)@.takes_operand(final(self)@, outcome, Mode::IndirectY),
    {
        let pc = self.registers.pc;
        match self.indirect_y_addr() {
            Ok(address) => self.read_or_rewind(address, pc),
            Err(error) => Err(error),
        }
    }

    fn indirect_y_addr(&mut self) -> (outcome: Result<u16, Error>)
        ensures
            old(self)@.takes_address(final(self)@, outcome, Mode::IndirectY),
    {
        let y = self.registers.y;
        let pc = self.registers.pc;
        match self.fetch8() {
            Ok(place) => match self.pointer_or_rewind(place, pc) {
                Ok(base) => Ok(Self::offset16(base, y)),
                Err(error) => Err(error),
            },
            Err(error) => Err(error),
        }
    }

    // Load and store

    /// Writes `value` to the accumulator and records it in the flags.
    fn lda(&mut self, value: u8)
        ensures
            final(self)@ == old(self)@.with_registers(
                old(self)@.registers.applied(Mnemonic::Lda, value),
            ),
    {
        self.registers.acc = value;
        self.registers.status.set_result(value);
    }

    /// Load accumulator, immediate.
    fn lda_immediate(&mut self) -> (outcome: Result<(), Error>)
        ensures
            old(self)@.performs(final(self)@, outcome, Mnemonic::Lda, Mode::Immediate),
    {
        match self.immediate() {
            Ok(value) => {
                self.lda(value);
                Ok(())
            },
            Err(error) => Err(error),
        }
    }

    /// Load accumulator, zero page.
    fn lda_zero_page(&mut self) -> (outcome: Result<(), Error>)
        ensures
            old(self)@.performs(final(self)@, outcome, Mnemonic::Lda, Mode::ZeroPage),
    {
        match self.zero_page_read() {
            Ok(value) => {
                self.lda(value);
                Ok(())
            },
            Err(error) => Err(error),
        }
    }

    /// Load accumulator, zero page, X.
    fn lda_zero_page_x(&mut self) -> (outcome: Result<(), Error>)
        ensures
            old(self)@.performs(final(self)@, outcome, Mnemonic::Lda, Mode::ZeroPageX),
    {
        match self.zero_page_x_read() {
            Ok(value) => {
                self.lda(value);
                Ok(())
            },
            Err(error) => Err(error),
        }
    }

    /// Load accumulator, absolute.
    fn lda_absolute(&mut self) -> (outcome: Result<(), Error>)
        ensures
            old(self)@.performs(final(self)@, outcome, Mnemonic::Lda, Mode::Absolute),
    {
        match self.absolute_read() {
            Ok(value) => {
                self.lda(value);
                Ok(())
            },
            Err(error) => Err(error),
        }
    }

    /// Load accumulator, absolute, X.
    fn lda_absolute_x(&mut self) -> (outcome: Result<(), Error>)
        ensures
            old(self)@.performs(final(self)@, outcome, Mnemonic::Lda, Mode::AbsoluteX),
    {
        match self.absolute_x_read() {
            Ok(value) => {
                self.lda(value);
                Ok(())
            },
            Err(error) => Err(error),
        }
    }

    /// Load accumulator, absolute, Y.
    fn lda_absolute_y(&mut self) -> (outcome: Result<(), Error>)
        ensures
            old(self)@.performs(final(self)@, outcome, Mnemonic::Lda, Mode::AbsoluteY),
    {
        match self.absolute_y_read() {
            Ok(value) => {
                self.lda(value);
                Ok(())
            },
            Err(error) => Err(error),
        }
    }

    /// Load accumulator, (indirect, X).
    fn lda_indirect_x(&mut self) -> (outcome: Result<(), Error>)
        ensures
            old(self)@.performs(final(self)@, outcome, Mnemonic::Lda, Mode::IndirectX),
    {
        match self.indirect_x_read() {
            Ok(value) => {
                self.lda(value);
                Ok(())
            },
            Err(error) => Err(error),
        }
    }

    /// Load accumulator, (indirect), Y.
    fn lda_indirect_y(&mut self) -> (outcome: Result<(), Error>)
        ensures
            old(self)@.performs(final(self)@, outcome, Mnemonic::Lda, Mode::IndirectY),
    {
        match self.indirect_y_read() {
            Ok(value) => {
                self.lda(value);
                Ok(())
            },
            Err(error) => Err(error),
        }
    }

    /// Writes `value` to X and records it in the flags.
    fn ldx(&mut self, value: u8)
        ensures
            final(self)@ == old(self)@.with_registers(
                old(self)@.registers.applied(Mnemonic::Ldx, value),
            ),
    {
        self.registers.x = value;
        self.registers.status.set_result(value);
    }

    /// Load X, immediate.
    fn ldx_immediate(&mut self) -> (outcome: Result<(), Error>)
        ensures
            old(self)@.performs(final(self)@, outcome, Mnemonic::Ldx, Mode::Immediate),
    {
        match self.immediate() {
            Ok(value) => {
                self.ldx(value);
                Ok(())
            },
            Err(error) => Err(error),
        }
    }

    /// Load X, zero page.
    fn ldx_zero_page(&mut self) -> (outcome: Result<(), Error>)
        ensures
            old(self)@.performs(final(self)@, outcome, Mnemonic::Ldx, Mode::ZeroPage),
    {
        match self.zero_page_read() {
            Ok(value) => {
                self.ldx(value);
                Ok(())
            },
            Err(error) => Err(error),
        }
    }

    /// Load X, zero page, Y.
    fn ldx_zero_page_y(&mut self) -> (outcome: Result<(), Error>)
        ensures
            old(self)@.performs(final(self)@, outcome, Mnemonic::Ldx, Mode::ZeroPageY),
    {
        match self.zero_page_y_read() {
            Ok(value) => {
                self.ldx(value);
                Ok(())
            },
            Err(error) => Err(error),
        }
    }

    /// Load X, absolute.
    fn ldx_absolute(&mut self) -> (outcome: Result<(), Error>)
        ensures
            old(self)@.performs(final(self)@, outcome, Mnemonic::Ldx, Mode::Absolute),
    {
        match self.absolute_read() {
            Ok(value) => {
                self.ldx(value);
                Ok(())
            },
            Err(error) => Err(error),
        }
    }

    /// Load X, absolute, Y.
    fn ldx_absolute_y(&mut self) -> (outcome: Result<(), Error>)
        ensures
            old(self)@.performs(final(self)@, outcome, Mnemonic::Ldx, Mode::AbsoluteY),
    {
        match self.absolute_y_read() {
            Ok(value) => {
                self.ldx(value);
                Ok(())
            },
            Err(error) => Err(error),
        }
    }

    /// Writes `value` to Y and records it in the flags.
    fn ldy(&mut self, value: u8)
        ensures
            final(self)@ == old(self)@.with_registers(
                old(self)@.registers.applied(Mnemonic::Ldy, value),
            ),
    {
        self.registers.y = value;
        self.registers.status.set_result(value);
    }

    /// Load Y, immediate.
    fn ldy_immediate(&mut self) -> (outcome: Result<(), Error>)
        ensures
            old(self)@.performs(final(self)@, outcome, Mnemonic::Ldy, Mode::Immediate),
    {
        match self.immediate() {
            Ok(value) => {
                self.ldy(value);
                Ok(())
            },
            Err(error) => Err(error),
        }
    }

    /// Load Y, zero page.
    fn ldy_zero_page(&mut self) -> (outcome: Result<(), Error>)
        ensures
            old(self)@.performs(final(self)@, outcome, Mnemonic::Ldy, Mode::ZeroPage),
    {
        match self.zero_page_read() {
            Ok(value) => {
                self.ldy(value);
                Ok(())
            },
            Err(error) => Err(error),
        }
    }

    /// Load Y, zero page, X.
    fn ldy_zero_page_x(&mut self) -> (outcome: Result<(), Error>)
        ensures
            old(self)@.performs(final(self)@, outcome, Mnemonic::Ldy, Mode::ZeroPageX),
    {
        match self.zero_page_x_read() {
            Ok(value) => {
                self.ldy(value);
                Ok(())
            },
            Err(error) => Err(error),
        }
    }

    /// Load Y, absolute.
    fn ldy_absolute(&mut self) -> (outcome: Result<(), Error>)
        ensures
            old(self)@.performs(final(self)@, outcome, Mnemonic::Ldy, Mode::Absolute),
    {
        match self.absolute_read() {
            Ok(value) => {
                self.ldy(value);
                Ok(())
            },
            Err(error) => Err(error),
        }
    }

    /// Load Y, absolute, X.
    fn ldy_absolute_x(&mut self) -> (outcome: Result<(), Error>)
        ensures
            old(self)@.performs(final(self)@, outcome, Mnemonic::Ldy, Mode::AbsoluteX),
    {
        match self.absolute_x_read() {
            Ok(value) => {
                self.ldy(value);
                Ok(())
            },
            Err(error) => Err(error),
        }
    }

    /// Store accumulator, zero page.
    fn sta_zero_page(&mut self) -> (outcome: Result<(), Error>)
        ensures
            old(self)@.performs(final(self)@, outcome, Mnemonic::Sta, Mode::ZeroPage),
    {
        let pc = self.registers.pc;
        match self.zero_page_addr() {
            Ok(address) => self.write_or_rewind(address, self.registers.acc, pc),
            Err(error) => Err(error),
        }
    }

    /// Store accumulator, zero page, X.
    fn sta_zero_page_x(&mut self) -> (outcome: Result<(), Error>)
        ensures
            old(self)@.performs(final(self)@, outcome, Mnemonic::Sta, Mode::ZeroPageX),
    {
        let pc = self.registers.pc;
        match self.zero_page_x_addr() {
            Ok(address) => self.write_or_rewind(address, self.registers.acc, pc),
            Err(error) => Err(error),
        }
    }

    /// Store accumulator, absolute.
    fn sta_absolute(&mut self) -> (outcome: Result<(), Error>)
        ensures
            old(self)@.performs(final(self)@, outcome, Mnemonic::Sta, Mode::Absolute),
    {
        let pc = self.registers.pc;
        match self.absolute_addr() {
            Ok(address) => self.write_or_rewind(address, self.registers.acc, pc),
            Err(error) => Err(error),
        }
    }

    /// Store accumulator, absolute, X.
    fn sta_absolute_x(&mut self) -> (outcome: Result<(), Error>)
        ensures
            old(self)@.performs(final(self)@, outcome, Mnemonic::Sta, Mode::AbsoluteX),
    {
        let pc = self.registers.pc;
        match self.absolute_x_addr() {
            Ok(address) => self.write_or_rewind(address, self.registers.acc, pc),
            Err(error) => Err(error),
        }
    }

    /// Store accumulator, absolute, Y.
    fn sta_absolute_y(&mut self) -> (outcome: Result<(), Error>)
        ensures
            old(self)@.performs(final(self)@, outcome, Mnemonic::Sta, Mode::AbsoluteY),
    {
        let pc = self.registers.pc;
        match self.absolute_y_addr() {
            Ok(address) => self.write_or_rewind(address, self.registers.acc, pc),
            Err(error) => Err(error),
        }
    }

    /// Store accumulator, (indirect, X).
    fn sta_indirect_x(&mut self) -> (outcome: Result<(), Error>)
        ensures
            old(self)@.performs(final(self)@, outcome, Mnemonic::Sta, Mode::IndirectX),
    {
        let pc = self.registers.pc;
        match self.indirect_x_addr() {
            Ok(address) => self.write_or_rewind(address, self.registers.acc, pc),
            Err(error) => Err(error),
        }
    }

    /// Store accumulator, (indirect), Y.
    fn sta_indirect_y(&mut self) -> (outcome: Result<(), Error>)
        ensures
            old(self)@.performs(final(self)@, outcome, Mnemonic::Sta, Mode::IndirectY),
    {
        let pc = self.registers.pc;
        match self.indirect_y_addr() {
            Ok(address) => self.write_or_rewind(address, self.registers.acc, pc),
            Err(error) => Err(error),
        }
    }

    /// Store X, zero page.
    fn stx_zero_page(&mut self) -> (outcome: Result<(), Error>)
        ensures
            old(self)@.performs(final(self)@, outcome, Mnemonic::Stx, Mode::ZeroPage),
    {
        let pc = self.registers.pc;
        match self.zero_page_addr() {
            Ok(address) => self.write_or_rewind(address, self.registers.x, pc),
            Err(error) => Err(error),
        }
    }

    /// Store X, zero page, Y.
    fn stx_zero_page_y(&mut self) -> (outcome: Result<(), Error>)
        ensures
            old(self)@.performs(final(self)@, outcome, Mnemonic::Stx, Mode::ZeroPageY),
    {
        let pc = self.registers.pc;
        match self.zero_page_y_addr() {
            Ok(address) => self.write_or_rewind(address, self.registers.x, pc),
            Err(error) => Err(error),
        }
    }

    /// Store X, absolute.
    fn stx_absolute(&mut self) -> (outcome: Result<(), Error>)
        ensures
            old(self)@.performs(final(self)@, outcome, Mnemonic::Stx, Mode::Absolute),
    {
        let pc = self.registers.pc;
        match self.absolute_addr() {
            Ok(address) => self.write_or_rewind(address, self.registers.x, pc),
            Err(error) => Err(error),
        }
    }

    /// Store Y, zero page.
    fn sty_zero_page(&mut self) -> (outcome: Result<(), Error>)
        ensures
            old(self)@.performs(final(self)@, outcome, Mnemonic::Sty, Mode::ZeroPage),
    {
        let pc = self.registers.pc;
        match self.zero_page_addr() {
            Ok(address) => self.write_or_rewind(address, self.registers.y, pc),
            Err(error) => Err(error),
        }
    }

    /// Store Y, zero page, X.
    fn sty_zero_page_x(&mut self) -> (outcome: Result<(), Error>)
        ensures
            old(self)@.performs(final(self)@, outcome, Mnemonic::Sty, Mode::ZeroPageX),
    {
        let pc = self.registers.pc;
        match self.zero_page_x_addr() {
            Ok(address) => self.write_or_rewind(address, self.registers.y, pc),
            Err(error) => Err(error),
        }
    }

    /// Store Y, absolute.
    fn sty_absolute(&mut self) -> (outcome: Result<(), Error>)
        ensures
            old(self)@.performs(final(self)@, outcome, Mnemonic::Sty, Mode::Absolute),
    {
        let pc = self.registers.pc;
        match self.absolute_addr() {
            Ok(address) => self.write_or_rewind(address, self.registers.y, pc),
            Err(error) => Err(error),
        }
    }

    // Register transfers

    /// Copies the accumulator to X and records the value in the flags.
    fn tax(&mut self)
        ensures
            final(self)@ == old(self)@.with_registers(
                old(self)@.registers.transferred(Mnemonic::Tax),
            ),
            old(self)@.performs(final(self)@, Ok(()), Mnemonic::Tax, Mode::Implied),
    {
        let value = self.registers.acc;
        self.registers.x = value;
        self.registers.status.set_result(value);
    }

    /// Copies the accumulator to Y and records the value in the flags.
    fn tay(&mut self)
        ensures
            final(self)@ == old(self)@.with_registers(
                old(self)@.registers.transferred(Mnemonic::Tay),
            ),
            old(self)@.performs(final(self)@, Ok(()), Mnemonic::Tay, Mode::Implied),
    {
        let value = self.registers.acc;
        self.registers.y = value;
        self.registers.status.set_result(value);
    }

    /// Copies X to the accumulator and records the value in the flags.
    fn txa(&mut self)
        ensures
            final(self)@ == old(self)@.with_registers(
                old(self)@.registers.transferred(Mnemonic::Txa),
            ),
            old(self)@.performs(final(self)@, Ok(()), Mnemonic::Txa, Mode::Implied),
    {
        let value = self.registers.x;
        self.registers.acc = value;
        self.registers.status.set_result(value);
    }

    /// Copies Y to the accumulator and records the value in the flags.
    fn tya(&mut self)
        ensures
            final(self)@ == old(self)@.with_registers(
                old(self)@.registers.transferred(Mnemonic::Tya),
            ),
            old(self)@.performs(final(self)@, Ok(()), Mnemonic::Tya, Mode::Implied),
    {
        let value = self.registers.y;
        self.registers.acc = value;
        self.registers.status.set_result(value);
    }

    /// Copies the stack pointer to X and records the value in the flags.
    fn tsx(&mut self)
        ensures
            final(self)@ == old(self)@.with_registers(
                old(self)@.registers.transferred(Mnemonic::Tsx),
            ),
            old(self)@.performs(final(self)@, Ok(()), Mnemonic::Tsx, Mode::Implied),
    {
        let value = self.registers.sp;
        self.registers.x = value;
        self.registers.status.set_result(value);
    }

    /// Copies X to the stack pointer. The flags stay.
    fn txs(&mut self)
        ensures
            final(self)@ == old(self)@.with_registers(
                old(self)@.registers.transferred(Mnemonic::Txs),
            ),
            old(self)@.performs(final(self)@, Ok(()), Mnemonic::Txs, Mode::Implied),
    {
        let value = self.registers.x;
        self.registers.sp = value;
    }

    // Stack

    /// Pushes the accumulator.
    fn pha(&mut self) -> (outcome: Result<(), Error>)
        ensures
            old(self)@.performs(final(self)@, outcome, Mnemonic::Pha, Mode::Implied),
    {
        let value = self.registers.acc;
        self.push(value)
    }

    /// Pushes the status byte.
    fn php(&mut self) -> (outcome: Result<(), Error>)
        ensures
            old(self)@.performs(final(self)@, outcome, Mnemonic::Php, Mode::Implied),
    {
        let value = self.registers.status.bits();
        self.push(value)
    }

    /// Pulls the accumulator and records it in the flags.
    fn pla(&mut self) -> (outcome: Result<(), Error>)
        ensures
            old(self)@.performs(final(self)@, outcome, Mnemonic::Pla, Mode::Implied),
    {
        match self.pull() {
            Ok(value) => {
                self.registers.acc = value;
                self.registers.status.set_result(value);
                Ok(())
            },
            Err(error) => Err(error),
        }
    }

    /// Pulls the status byte: every flag is taken from the pulled byte.
    fn plp(&mut self) -> (outcome: Result<(), Error>)
        ensures
            old(self)@.performs(final(self)@, outcome, Mnemonic::Plp, Mode::Implied),
    {
        match self.pull() {
            Ok(value) => {
                self.registers.status = Status::from_bits_truncate(value);
                Ok(())
            },
            Err(error) => Err(error),
        }
    }

    // Logical

    /// Replaces the accumulator by its bitwise AND with `value` and records
    /// the result in the flags.
    fn and(&mut self, value: u8)
        ensures
            final(self)@ == old(self)@.with_registers(
                old(self)@.registers.applied(Mnemonic::And, value),
            ),
    {
        let result = self.registers.acc & value;
        self.registers.acc = result;
        self.registers.status.set_result(result);
    }

    /// Logical AND, immediate.
    fn and_immediate(&mut self) -> (outcome: Result<(), Error>)
        ensures
            old(self)@.performs(final(self)@, outcome, Mnemonic::And, Mode::Immediate),
    {
        match self.immediate() {
            Ok(value) => {
                self.and(value);
                Ok(())
            },
            Err(error) => Err(error),
        }
    }

    /// Logical AND, zero page.
    fn and_zero_page(&mut self) -> (outcome: Result<(), Error>)
        ensures
            old(self)@.performs(final(self)@, outcome, Mnemonic::And, Mode::ZeroPage),
    {
        match self.zero_page_read() {
            Ok(value) => {
                self.and(value);
                Ok(())
            },
            Err(error) => Err(error),
        }
    }

    /// Logical AND, zero page, X.
    fn and_zero_page_x(&mut self) -> (outcome: Result<(), Error>)
        ensures
            old(self)@.performs(final(self)@, outcome, Mnemonic::And, Mode::ZeroPageX),
    {
        match self.zero_page_x_read() {
            Ok(value) => {
                self.and(value);
                Ok(())
            },
            Err(error) => Err(error),
        }
    }

    /// Logical AND, absolute.
    fn and_absolute(&mut self) -> (outcome: Result<(), Error>)
        ensures
            old(self)@.performs(final(self)@, outcome, Mnemonic::And, Mode::Absolute),
    {
        match self.absolute_read() {
            Ok(value) => {
                self.and(value);
                Ok(())
            },
            Err(error) => Err(error),
        }
    }

    /// Logical AND, absolute, X.
    fn and_absolute_x(&mut self) -> (outcome: Result<(), Error>)
        ensures
            old(self)@.performs(final(self)@, outcome, Mnemonic::And, Mode::AbsoluteX),
    {
        match self.absolute_x_read() {
            Ok(value) => {
                self.and(value);
                Ok(())
            },
            Err(error) => Err(error),
        }
    }

    /// Logical AND, absolute, Y.
    fn and_absolute_y(&mut self) -> (outcome: Result<(), Error>)
        ensures
            old(self)@.performs(final(self)@, outcome, Mnemonic::And, Mode::AbsoluteY),
    {
        match self.absolute_y_read() {
            Ok(value) => {
                self.and(value);
                Ok(())
            },
            Err(error) => Err(error),
        }
    }

    /// Logical AND, (indirect, X).
    fn and_indirect_x(&mut self) -> (outcome: Result<(), Error>)
        ensures
            old(self)@.performs(final(self)@, outcome, Mnemonic::And, Mode::IndirectX),
    {
        match self.indirect_x_read() {
            Ok(value) => {
                self.and(value);
                Ok(())
            },
            Err(error) => Err(error),
        }
    }

    /// Logical AND, (indirect), Y.
    fn and_indirect_y(&mut self) -> (outcome: Result<(), Error>)
        ensures
            old(self)@.performs(final(self)@, outcome, Mnemonic::And, Mode::IndirectY),
    {
        match self.indirect_y_read() {
            Ok(value) => {
                self.and(value);
                Ok(())
            },
            Err(error) => Err(error),
        }
    }

    /// Replaces the accumulator by its bitwise exclusive OR with `value` and
    /// records the result in the flags.
    fn eor(&mut self, value: u8)
        ensures
            final(self)@ == old(self)@.with_registers(
                old(self)@.registers.applied(Mnemonic::Eor, value),
            ),
    {
        let result = self.registers.acc ^ value;
        self.registers.acc = result;
        self.registers.status.set_result(result);
    }

    /// Logical exclusive OR, immediate.
    fn eor_immediate(&mut self) -> (outcome: Result<(), Error>)
        ensures
            old(self)@.performs(final(self)@, outcome, Mnemonic::Eor, Mode::Immediate),
    {
        match self.immediate() {
            Ok(value) => {
                self.eor(value);
                Ok(())
            },
            Err(error) => Err(error),
        }
    }

    /// Logical exclusive OR, zero page.
    fn eor_zero_page(&mut self) -> (outcome: Result<(), Error>)
        ensures
            old(self)@.performs(final(self)@, outcome, Mnemonic::Eor, Mode::ZeroPage),
    {
        match self.zero_page_read() {
            Ok(value) => {
                self.eor(value);
                Ok(())
            },
            Err(error) => Err(error),
        }
    }

    /// Logical exclusive OR, zero page, X.
    fn eor_zero_page_x(&mut self) -> (outcome: Result<(), Error>)
        ensures
            old(self)@.performs(final(self)@, outcome, Mnemonic::Eor, Mode::ZeroPageX),
    {
        match self.zero_page_x_read() {
            Ok(value) => {
                self.eor(value);
                Ok(())
            },
            Err(error) => Err(error),
        }
    }

    /// Logical exclusive OR, absolute.
    fn eor_absolute(&mut self) -> (outcome: Result<(), Error>)
        ensures
            old(self)@.performs(final(self)@, outcome, Mnemonic::Eor, Mode::Absolute),
    {
        match self.absolute_read() {
            Ok(value) => {
                self.eor(value);
                Ok(())
            },
            Err(error) => Err(error),
        }
    }

    /// Logical exclusive OR, absolute, X.
    fn eor_absolute_x(&mut self) -> (outcome: Result<(), Error>)
        ensures
            old(self)@.performs(final(self)@, outcome, Mnemonic::Eor, Mode::AbsoluteX),
    {
        match self.absolute_x_read() {
            Ok(value) => {
                self.eor(value);
                Ok(())
            },
            Err(error) => Err(error),
        }
    }

    /// Logical exclusive OR, absolute, Y.
    fn eor_absolute_y(&mut self) -> (outcome: Result<(), Error>)
        ensures
            old(self)@.performs(final(self)@, outcome, Mnemonic::Eor, Mode::AbsoluteY),
    {
        match self.absolute_y_read() {
            Ok(value) => {
                self.eor(value);
                Ok(())
            },
            Err(error) => Err(error),
        }
    }

    /// Logical exclusive OR, (indirect, X).
    fn eor_indirect_x(&mut self) -> (outcome: Result<(), Error>)
        ensures
            old(self)@.performs(final(self)@, outcome, Mnemonic::Eor, Mode::IndirectX),
    {
        match self.indirect_x_read() {
            Ok(value) => {
                self.eor(value);
                Ok(())
            },
            Err(error) => Err(error),
        }
    }

    /// Logical exclusive OR, (indirect), Y.
    fn eor_indirect_y(&mut self) -> (outcome: Result<(), Error>)
        ensures
            old(self)@.performs(final(self)@, outcome, Mnemonic::Eor, Mode::IndirectY),
    {
        match self.indirect_y_read() {
            Ok(value) => {
                self.eor(value);
                Ok(())
            },
            Err(error) => Err(error),
        }
    }

    /// Replaces the accumulator by its bitwise OR with `value` and records
    /// the result in the flags.
    fn ora(&mut self, value: u8)
        ensures
            final(self)@ == old(self)@.with_registers(
                old(self)@.registers.applied(Mnemonic::Ora, value),
            ),
    {
        let result = self.registers.acc | value;
        self.registers.acc = result;
        self.registers.status.set_result(result);
    }

    /// Logical inclusive OR, immediate.
    fn ora_immediate(&mut self) -> (outcome: Result<(), Error>)
        ensures
            old(self)@.performs(final(self)@, outcome, Mnemonic::Ora, Mode::Immediate),
    {
        match self.immediate() {
            Ok(value) => {
                self.ora(value);
                Ok(())
            },
            Err(error) => Err(error),
        }
    }

    /// Logical inclusive OR, zero page.
    fn ora_zero_page(&mut self) -> (outcome: Result<(), Error>)
        ensures
            old(self)@.performs(final(self)@, outcome, Mnemonic::Ora, Mode::ZeroPage),
    {
        match self.zero_page_read() {
            Ok(value) => {
                self.ora(value);
                Ok(())
            },
            Err(error) => Err(error),
        }
    }

    /// Logical inclusive OR, zero page, X.
    fn ora_zero_page_x(&mut self) -> (outcome: Result<(), Error>)
        ensures
            old(self)@.performs(final(self)@, outcome, Mnemonic::Ora, Mode::ZeroPageX),
    {
        match self.zero_page_x_read() {
            Ok(value) => {
                self.ora(value);
                Ok(())
            },
            Err(error) => Err(error),
        }
    }

    /// Logical inclusive OR, absolute.
    fn ora_absolute(&mut self) -> (outcome: Result<(), Error>)
        ensures
            old(self)@.performs(final(self)@, outcome, Mnemonic::Ora, Mode::Absolute),
    {
        match self.absolute_read() {
            Ok(value) => {
                self.ora(value);
                Ok(())
            },
            Err(error) => Err(error),
        }
    }

    /// Logical inclusive OR, absolute, X.
    fn ora_absolute_x(&mut self) -> (outcome: Result<(), Error>)
        ensures
            old(self)@.performs(final(self)@, outcome, Mnemonic::Ora, Mode::AbsoluteX),
    {
        match self.absolute_x_read() {
            Ok(value) => {
                self.ora(value);
                Ok(())
            },
            Err(error) => Err(error),
        }
    }

    /// Logical inclusive OR, absolute, Y.
    fn ora_absolute_y(&mut self) -> (outcome: Result<(), Error>)
        ensures
            old(self)@.performs(final(self)@, outcome, Mnemonic::Ora, Mode::AbsoluteY),
    {
        match self.absolute_y_read() {
            Ok(value) => {
                self.ora(value);
                Ok(())
            },
            Err(error) => Err(error),
        }
    }

    /// Logical inclusive OR, (indirect, X).
    fn ora_indirect_x(&mut self) -> (outcome: Result<(), Error>)
        ensures
            old(self)@.performs(final(self)@, outcome, Mnemonic::Ora, Mode::IndirectX),
    {
        match self.indirect_x_read() {
            Ok(value) => {
                self.ora(value);
                Ok(())
            },
            Err(error) => Err(error),
        }
    }

    /// Logical inclusive OR, (indirect), Y.
    fn ora_indirect_y(&mut self) -> (outcome: Result<(), Error>)
        ensures
            old(self)@.performs(final(self)@, outcome, Mnemonic::Ora, Mode::IndirectY),
    {
        match self.indirect_y_read() {
            Ok(value) => {
                self.ora(value);
                Ok(())
            },
            Err(error) => Err(error),
        }
    }

    /// Tests the accumulator against `value`: the zero flag says whether they
    /// share no bit; the negative and overflow flags are bits 7 and 6 of
    /// `value`. The accumulator stays.
    fn bit(&mut self, value: u8)
        ensures
            final(self)@ == old(self)@.with_registers(
                old(self)@.registers.applied(Mnemonic::Bit, value),
            ),
    {
        let result = self.registers.acc & value;
        self.registers.status.set(Status::ZERO, result == 0x00);
        self.registers.status.set(Status::NEGATIVE, value & 0x80 == 0x80);
        self.registers.status.set(Status::OVERFLOW, value & 0x40 == 0x40);
    }

    /// Bit test, zero page.
    fn bit_zero_page(&mut self) -> (outcome: Result<(), Error>)
        ensures
            old(self)@.performs(final(self)@, outcome, Mnemonic::Bit, Mode::ZeroPage),
    {
        match self.zero_page_read() {
            Ok(value) => {
                self.bit(value);
                Ok(())
            },
            Err(error) => Err(error),
        }
    }

    /// Bit test, absolute.
    fn bit_absolute(&mut self) -> (outcome: Result<(), Error>)
        ensures
            old(self)@.performs(final(self)@, outcome, Mnemonic::Bit, Mode::Absolute),
    {
        match self.absolute_read() {
            Ok(value) => {
                self.bit(value);
                Ok(())
            },
            Err(error) => Err(error),
        }
    }

    // Arithmetic

    /// Adds `value` and the carry to the accumulator. The carry flag says
    /// whether the sum passed 0xFF, the overflow flag whether both terms
    /// differ in sign from the result. Decimal mode is ignored.
    fn adc(&mut self, value: u8)
        ensures
            final(self)@ == old(self)@.with_registers(
                old(self)@.registers.applied(Mnemonic::Adc, value),
            ),
    {
        let acc = self.registers.acc;
        let carry: u16 = if self.registers.status.contains(Status::CARRY) {
            1
        } else {
            0
        };
        let sum: u16 = acc as u16 + value as u16 + carry;
        let result: u8 = (sum % 0x100) as u8;
        self.registers.acc = result;
        self.registers.status.set(Status::CARRY, sum > 0xFF);
        self.registers.status.set(
            Status::OVERFLOW,
            (acc ^ result) & (value ^ result) & 0x80 != 0,
        );
        self.registers.status.set_result(result);
    }

    /// Add with carry, immediate.
    fn adc_immediate(&mut self) -> (outcome: Result<(), Error>)
        ensures
            old(self)@.performs(final(self)@, outcome, Mnemonic::Adc, Mode::Immediate),
    {
        match self.immediate() {
            Ok(value) => {
                self.adc(value);
                Ok(())
            },
            Err(error) => Err(error),
        }
    }

    /// Add with carry, zero page.
    fn adc_zero_page(&mut self) -> (outcome: Result<(), Error>)
        ensures
            old(self)@.performs(final(self)@, outcome, Mnemonic::Adc, Mode::ZeroPage),
    {
        match self.zero_page_read() {
            Ok(value) => {
                self.adc(value);
                Ok(())
            },
            Err(error) => Err(error),
        }
    }

    /// Add with carry, zero page, X.
    fn adc_zero_page_x(&mut self) -> (outcome: Result<(), Error>)
        ensures
            old(self)@.performs(final(self)@, outcome, Mnemonic::Adc, Mode::ZeroPageX),
    {
        match self.zero_page_x_read() {
            Ok(value) => {
                self.adc(value);
                Ok(())
            },
            Err(error) => Err(error),
        }
    }

    /// Add with carry, absolute.
    fn adc_absolute(&mut self) -> (outcome: Result<(), Error>)
        ensures
            old(self)@.performs(final(self)@, outcome, Mnemonic::Adc, Mode::Absolute),
    {
        match self.absolute_read() {
            Ok(value) => {
                self.adc(value);
                Ok(())
            },
            Err(error) => Err(error),
        }
    }

    /// Add with carry, absolute, X.
    fn adc_absolute_x(&mut self) -> (outcome: Result<(), Error>)
        ensures
            old(self)@.performs(final(self)@, outcome, Mnemonic::Adc, Mode::AbsoluteX),
    {
        match self.absolute_x_read() {
            Ok(value) => {
                self.adc(value);
                Ok(())
            },
            Err(error) => Err(error),
        }
    }

    /// Add with carry, absolute, Y.
    fn adc_absolute_y(&mut self) -> (outcome: Result<(), Error>)
        ensures
            old(self)@.performs(final(self)@, outcome, Mnemonic::Adc, Mode::AbsoluteY),
    {
        match self.absolute_y_read() {
            Ok(value) => {
                self.adc(value);
                Ok(())
            },
            Err(error) => Err(error),
        }
    }

    /// Add with carry, (indirect, X).
    fn adc_indirect_x(&mut self) -> (outcome: Result<(), Error>)
        ensures
            old(self)@.performs(final(self)@, outcome, Mnemonic::Adc, Mode::IndirectX),
    {
        match self.indirect_x_read() {
            Ok(value) => {
                self.adc(value);
                Ok(())
            },
            Err(error) => Err(error),
        }
    }

    /// Add with carry, (indirect), Y.
    fn adc_indirect_y(&mut self) -> (outcome: Result<(), Error>)
        ensures
            old(self)@.performs(final(self)@, outcome, Mnemonic::Adc, Mode::IndirectY),
    {
        match self.indirect_y_read() {
            Ok(value) => {
                self.adc(value);
                Ok(())
            },
            Err(error) => Err(error),
        }
    }

}

} // verus!
