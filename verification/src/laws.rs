//! What holds of the bus and of the instructions whatever the program.

use crate::device::{BackingModel, DeviceModel};
use crate::device_mapper::{
    blank_ram, first_cover, mapped, peek, poke, resolve, resolve_finds_first_cover,
    resolve_is_exact, Mapping,
};
use crate::error::Error;
use crate::machine::{stack_address, wrap8, Machine};
use crate::opcodes::{decode, Mnemonic, Mode};
use crate::processor::{loaded, loaded_in_place, loaded_keeps_length};
use crate::registers::{
    put_changes_one_flag, result_sets_zero_and_negative, Flag, Registers, Status,
};
use vstd::prelude::*;

verus! {

/// The register that an instruction writes its result to, where it is one of
/// the accumulator, X and Y. Stores, pushes, the bit test, the pull of the
/// status byte and the transfer to the stack pointer have none.
pub open spec fn destination(registers: Registers, mnemonic: Mnemonic) -> Option<u8> {
    match mnemonic {
        Mnemonic::Lda
        | Mnemonic::Txa
        | Mnemonic::Tya
        | Mnemonic::Pla
        | Mnemonic::And
        | Mnemonic::Eor
        | Mnemonic::Ora
        | Mnemonic::Adc => Some(registers.acc),
        Mnemonic::Ldx | Mnemonic::Tax | Mnemonic::Tsx => Some(registers.x),
        Mnemonic::Ldy | Mnemonic::Tay => Some(registers.y),
        _ => None,
    }
}

/// Whether the device that answers for `address` keeps what is written
/// there: a read after a write yields the byte written.
pub open spec fn retains<M: DeviceModel>(bus: Seq<Mapping<M>>, address: u16) -> bool {
    match resolve(bus, address) {
        Some(i) => {
            let offset = (address - bus[i].start) as u16;
            forall|data: u8| #[trigger] bus[i].device.poke(offset, data).peek(offset) == data
        },
        None => false,
    }
}

/// Whether the bus's own RAM answers for `address`, at an offset within the
/// RAM's size.
pub open spec fn ram_backed<M: DeviceModel>(
    bus: Seq<Mapping<BackingModel<M>>>,
    address: u16,
) -> bool {
    match resolve(bus, address) {
        Some(i) => match bus[i].device {
            BackingModel::Ram(bytes) => address - bus[i].start < bytes.len(),
            BackingModel::Plugged(_) => false,
        },
        None => false,
    }
}

/// After an instruction that writes its result to the accumulator, X or Y,
/// the zero flag is raised exactly when that register is zero, and the
/// negative flag exactly when its bit 7 is set.
pub proof fn result_shows_in_flags<M: DeviceModel>(
    machine: Machine<M>,
    mnemonic: Mnemonic,
    mode: Mode,
)
    requires
        machine.execute(mnemonic, mode) is Ok,
        destination(machine.registers, mnemonic) is Some,
    ensures
        ({
            let after = machine.execute(mnemonic, mode)->Ok_0.registers;
            let value = destination(after, mnemonic)->Some_0;
            &&& after.status.has(Status::ZERO) <==> value == 0
            &&& after.status.has(Status::NEGATIVE) <==> value & 0x80 == 0x80
            &&& after.status.has(Status::NEGATIVE) <==> value >= 0x80
        }),
{
    let after = machine.execute(mnemonic, mode)->Ok_0.registers;
    let value = destination(after, mnemonic)->Some_0;
    let before = if mnemonic == Mnemonic::Pla {
        machine.pull()->Ok_0.1.registers
    } else {
        machine.advance(mode.operand_len()).registers
    };
    if mnemonic == Mnemonic::Adc {
        let operand = machine.operand(mode)->Ok_0;
        let sum = before.acc + operand + before.carry();
        let result = wrap8(sum);
        let flagged = before.status.put(Status::CARRY, sum > 0xFF).put(
            Status::OVERFLOW,
            (before.acc ^ result) & (operand ^ result) & 0x80 != 0,
        );
        result_sets_zero_and_negative(flagged, value);
    } else {
        result_sets_zero_and_negative(machine.registers.status, value);
    }
}

/// The same of a whole step: where the instruction at the program counter
/// writes its result to the accumulator, X or Y, the flags show that result
/// after the step.
pub proof fn step_result_shows_in_flags<M: DeviceModel>(machine: Machine<M>)
    requires
        machine.step() is Ok,
        machine.read(machine.registers.pc) is Ok,
        decode(machine.read(machine.registers.pc)->Ok_0) is Some,
        destination(
            machine.registers,
            decode(machine.read(machine.registers.pc)->Ok_0)->Some_0.0,
        ) is Some,
    ensures
        ({
            let mnemonic = decode(machine.read(machine.registers.pc)->Ok_0)->Some_0.0;
            let after = machine.step()->Ok_0.registers;
            let value = destination(after, mnemonic)->Some_0;
            &&& after.status.has(Status::ZERO) <==> value == 0
            &&& after.status.has(Status::NEGATIVE) <==> value >= 0x80
        }),
{
    let (mnemonic, mode) = decode(machine.read(machine.registers.pc)->Ok_0)->Some_0;
    result_shows_in_flags(machine.advance(1), mnemonic, mode);
}

/// Stores, pushes and the transfer to the stack pointer leave every flag as
/// it was.
pub proof fn flags_stay<M: DeviceModel>(machine: Machine<M>, mnemonic: Mnemonic, mode: Mode)
    requires
        machine.execute(mnemonic, mode) is Ok,
        mnemonic == Mnemonic::Sta || mnemonic == Mnemonic::Stx || mnemonic == Mnemonic::Sty
            || mnemonic == Mnemonic::Txs || mnemonic == Mnemonic::Pha || mnemonic
            == Mnemonic::Php,
    ensures
        machine.execute(mnemonic, mode)->Ok_0.registers.status == machine.registers.status,
{
}

/// Loads, the transfers that record their value, the pull of the
/// accumulator and the logical instructions change no flag but zero and
/// negative.
pub proof fn other_flags_stay<M: DeviceModel>(
    machine: Machine<M>,
    mnemonic: Mnemonic,
    mode: Mode,
    flag: Flag,
)
    requires
        machine.execute(mnemonic, mode) is Ok,
        destination(machine.registers, mnemonic) is Some,
        mnemonic != Mnemonic::Adc,
        flag != Flag::Zero,
        flag != Flag::Negative,
    ensures
        machine.execute(mnemonic, mode)->Ok_0.registers.status.has(flag.mask())
            == machine.registers.status.has(flag.mask()),
{
    let after = machine.execute(mnemonic, mode)->Ok_0.registers;
    let value = destination(after, mnemonic)->Some_0;
    result_sets_zero_and_negative(machine.registers.status, value);
}

/// What the overflow flag means after an addition: the sum of the
/// accumulator, the operand and the carry, each byte read as a signed
/// number, does not fit a signed byte.
pub proof fn overflow_is_signed_overflow(registers: Registers, value: u8)
    ensures
        ({
            let signed_acc = if registers.acc >= 0x80 {
                registers.acc - 0x100
            } else {
                registers.acc as int
            };
            let signed_value = if value >= 0x80 {
                value - 0x100
            } else {
                value as int
            };
            let sum = signed_acc + signed_value + registers.carry();
            registers.added(value).status.has(Status::OVERFLOW) <==> !(-128 <= sum <= 127)
        }),
{
    let acc = registers.acc;
    let carry: u8 = if registers.status.has(Status::CARRY) {
        1
    } else {
        0
    };
    let result = wrap8(acc + value + carry);
    let overflow = (acc ^ result) & (value ^ result) & 0x80 != 0;
    let flagged = registers.status.put(Status::CARRY, acc + value + carry > 0xFF);
    put_changes_one_flag(flagged, Flag::Overflow, overflow, Flag::Overflow);
    let settled = flagged.put(Status::OVERFLOW, overflow);
    result_sets_zero_and_negative(settled, result);
    assert(settled.with_result(result).has(Status::OVERFLOW) == overflow);
    assert(overflow <==> (acc < 0x80 && value < 0x80 && acc + value + carry >= 0x80) || (acc >= 0x80
        && value >= 0x80 && acc + value + carry < 0x180)) by (bit_vector)
        requires
            carry <= 1,
            result == (acc + value + carry) % 0x100,
            overflow == ((acc ^ result) & (value ^ result) & 0x80 != 0),
    ;
}

/// A push followed by a pull, with the stack pointer and the stack's slot
/// untouched in between, yields the byte pushed and puts the stack pointer
/// back where it was. The slot has to lie in a device that keeps what is
/// written to it.
pub proof fn push_then_pull<M: DeviceModel>(machine: Machine<M>, data: u8, later: Machine<M>)
    requires
        retains(machine.bus, stack_address(machine.registers.sp)),
        machine.push(data) is Ok,
        later.registers.sp == machine.push(data)->Ok_0.registers.sp,
        later.read(stack_address(machine.registers.sp)) == machine.push(data)->Ok_0.read(
            stack_address(machine.registers.sp),
        ),
    ensures
        later.pull() is Ok,
        later.pull()->Ok_0.0 == data,
        later.pull()->Ok_0.1.registers.sp == machine.registers.sp,
{
    write_then_read(machine.bus, stack_address(machine.registers.sp), data);
}

/// Pushing the accumulator and pulling it at once gives the accumulator and
/// the stack pointer their values from before, whatever happened to the
/// accumulator's flags.
pub proof fn pha_then_pla<M: DeviceModel>(machine: Machine<M>)
    requires
        retains(machine.bus, stack_address(machine.registers.sp)),
        machine.execute(Mnemonic::Pha, Mode::Implied) is Ok,
    ensures
        ({
            let pushed = machine.execute(Mnemonic::Pha, Mode::Implied)->Ok_0;
            let pulled = pushed.execute(Mnemonic::Pla, Mode::Implied);
            &&& pulled is Ok
            &&& pulled->Ok_0.registers.acc == machine.registers.acc
            &&& pulled->Ok_0.registers.sp == machine.registers.sp
        }),
{
    let pushed = machine.push(machine.registers.acc)->Ok_0;
    push_then_pull(machine, machine.registers.acc, pushed);
}

/// Pushing the status byte and pulling it at once gives every flag and the
/// stack pointer their values from before.
pub proof fn php_then_plp<M: DeviceModel>(machine: Machine<M>)
    requires
        retains(machine.bus, stack_address(machine.registers.sp)),
        machine.execute(Mnemonic::Php, Mode::Implied) is Ok,
    ensures
        ({
            let pushed = machine.execute(Mnemonic::Php, Mode::Implied)->Ok_0;
            let pulled = pushed.execute(Mnemonic::Plp, Mode::Implied);
            &&& pulled is Ok
            &&& pulled->Ok_0.registers == machine.registers
        }),
{
    let pushed = machine.push(machine.registers.status.bits)->Ok_0;
    push_then_pull(machine, machine.registers.status.bits, pushed);
}

/// A read goes to the first region, in priority order, that covers the
/// address, and yields what that region's device holds at the address's
/// offset from the region's start.
pub proof fn read_goes_to_first_cover<M: DeviceModel>(bus: Seq<Mapping<M>>, address: u16, i: int)
    requires
        first_cover(bus, address, i),
    ensures
        peek(bus, address) == Ok::<u8, Error>(
            bus[i].device.peek((address - bus[i].start) as u16),
        ),
{
    resolve_finds_first_cover(bus, address, i);
}

/// A region answers for every address within its bounds from the moment it
/// is mapped: it stands ahead of all regions mapped before.
pub proof fn mapped_region_answers<M: DeviceModel>(
    bus: Seq<Mapping<M>>,
    start: u16,
    end: u16,
    device: M,
    address: u16,
)
    requires
        start <= address <= end,
    ensures
        peek(mapped(bus, start, end, device), address) == Ok::<u8, Error>(
            device.peek((address - start) as u16),
        ),
{
    let after = mapped(bus, start, end, device);
    assert(after[0] == Mapping { start, end, device });
    assert(first_cover(after, address, 0));
    resolve_finds_first_cover(after, address, 0);
}

/// A write followed by a read at the same address yields the byte written,
/// where the device that answers keeps what is written to it.
pub proof fn write_then_read<M: DeviceModel>(bus: Seq<Mapping<M>>, address: u16, data: u8)
    requires
        retains(bus, address),
    ensures
        poke(bus, address, data) is Ok,
        peek(poke(bus, address, data)->Ok_0, address) == Ok::<u8, Error>(data),
{
    let i = resolve(bus, address)->Some_0;
    resolve_is_exact(bus, address);
    let after = poke(bus, address, data)->Ok_0;
    write_keeps_bounds(bus, address, data);
    let offset = (address - bus[i].start) as u16;
    assert(after[i].device == bus[i].device.poke(offset, data));
    assert(first_cover(after, address, i)) by {
        assert forall|j: int| 0 <= j < i implies !(#[trigger] after[j]).covers(address) by {
            assert(after[j].start == bus[j].start);
            assert(!bus[j].covers(address));
        }
    }
    resolve_finds_first_cover(after, address, i);
}

/// A write changes no region's bounds, so every address goes where it went
/// before.
pub proof fn write_keeps_bounds<M: DeviceModel>(bus: Seq<Mapping<M>>, address: u16, data: u8)
    requires
        poke(bus, address, data) is Ok,
    ensures
        ({
            let after = poke(bus, address, data)->Ok_0;
            &&& after.len() == bus.len()
            &&& forall|j: int|
                0 <= j < bus.len() ==> (#[trigger] after[j]).start == bus[j].start && after[j].end
                    == bus[j].end
            &&& forall|other: u16| resolve(after, other) == resolve(bus, other)
        }),
{
    let i = resolve(bus, address)->Some_0;
    resolve_is_exact(bus, address);
    let after = poke(bus, address, data)->Ok_0;
    assert forall|other: u16| resolve(after, other) == resolve(bus, other) by {
        resolve_is_exact(bus, other);
        match resolve(bus, other) {
            Some(k) => {
                assert(after[k].covers(other));
                assert forall|j: int| 0 <= j < k implies !(#[trigger] after[j]).covers(other) by {
                    assert(!bus[j].covers(other));
                }
                resolve_finds_first_cover(after, other, k);
            },
            None => {
                resolve_is_exact(after, other);
                if resolve(after, other) is Some {
                    let k = resolve(after, other)->Some_0;
                    assert(after[k].covers(other));
                    assert(!bus[k].covers(other));
                }
            },
        }
    }
}

/// The bus's own RAM keeps what is written to it.
pub proof fn ram_retains<M: DeviceModel>(bus: Seq<Mapping<BackingModel<M>>>, address: u16)
    requires
        ram_backed(bus, address),
    ensures
        retains(bus, address),
{
}

/// A write to the bus's own RAM changes what a read yields at the written
/// address only: every other address reads as before.
pub proof fn ram_write_is_local<M: DeviceModel>(
    bus: Seq<Mapping<BackingModel<M>>>,
    address: u16,
    data: u8,
    other: u16,
)
    requires
        ram_backed(bus, address),
        other != address,
    ensures
        poke(bus, address, data) is Ok,
        peek(poke(bus, address, data)->Ok_0, other) == peek(bus, other),
{
    resolve_is_exact(bus, address);
    resolve_is_exact(bus, other);
    write_keeps_bounds(bus, address, data);
}

/// Where the pointer of an indirect address comes from: page zero alone.
/// Two machines with the same registers that agree on the operand byte and
/// on all of page zero find the same address, wherever the pointer's place
/// falls, the last byte of the page included, whose neighbour is the
/// page's first.
pub proof fn pointer_comes_from_page_zero<M: DeviceModel>(
    one: Machine<M>,
    other: Machine<M>,
    mode: Mode,
)
    requires
        mode == Mode::IndirectX || mode == Mode::IndirectY,
        one.registers == other.registers,
        one.read(one.registers.pc) == other.read(other.registers.pc),
        forall|address: u16| address < 0x100 ==> one.read(address) == other.read(address),
    ensures
        one.effective_address(mode) == other.effective_address(mode),
{
}

/// The bus that a new processor comes with: a single region over every
/// address, backed by a RAM of 64 KiB that holds `bytes`.
pub open spec fn ram_bus<M>(bytes: Seq<u8>) -> Seq<Mapping<BackingModel<M>>> {
    seq![Mapping { start: 0x0000, end: 0xFFFF, device: BackingModel::Ram(bytes) }]
}

/// On the bus that a new processor comes with, no access is unmapped: every
/// address reads the RAM's byte at that address, and is backed by the RAM.
pub proof fn ram_bus_covers_all<M: DeviceModel>(bytes: Seq<u8>, address: u16)
    requires
        bytes.len() == 0x1_0000,
    ensures
        peek(ram_bus::<M>(bytes), address) == Ok::<u8, Error>(bytes[address as int]),
        ram_backed(ram_bus::<M>(bytes), address),
{
    let bus = ram_bus::<M>(bytes);
    assert(first_cover(bus, address, 0));
    resolve_finds_first_cover(bus, address, 0);
}

/// A new processor reads its program back: where the program fits between
/// the load address and the end of the address space, the byte at the load
/// address plus `i` is the program's byte `i`.
pub proof fn program_reads_back<M: DeviceModel>(program: Seq<u8>, start: u16, i: int)
    requires
        start + program.len() <= 0x1_0000,
        0 <= i < program.len(),
    ensures
        peek(
            ram_bus::<M>(loaded(blank_ram(), program, start)),
            (start + i) as u16,
        ) == Ok::<u8, Error>(program[i]),
{
    let blank = blank_ram();
    loaded_keeps_length(blank, program, start);
    loaded_in_place(blank, program, start);
    ram_bus_covers_all::<M>(loaded(blank, program, start), (start + i) as u16);
}

} // verus!
