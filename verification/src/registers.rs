//! The processor's registers and its packed status byte.

use vstd::prelude::*;

verus! {

/// The eight flags of the status byte, from bit 7 down to bit 0.
#[derive(Debug, Clone, Copy, PartialEq, Eq, Structural)]
pub enum Flag {
    Negative,
    Overflow,
    Unused,
    BreakCommand,
    DecimalMode,
    Interrupt,
    Zero,
    Carry,
}

impl Flag {
    /// The bit of the status byte that holds this flag.
    pub open spec fn mask_spec(self) -> u8 {
        match self {
            Flag::Negative => Status::NEGATIVE,
            Flag::Overflow => Status::OVERFLOW,
            Flag::Unused => Status::UNUSED,
            Flag::BreakCommand => Status::BREAK_COMMAND,
            Flag::DecimalMode => Status::DECIMAL_MODE,
            Flag::Interrupt => Status::INTERRUPT,
            Flag::Zero => Status::ZERO,
            Flag::Carry => Status::CARRY,
        }
    }

    /// The bit of the status byte that holds this flag.
    #[verifier::when_used_as_spec(mask_spec)]
    pub fn mask(self) -> (mask: u8)
        ensures
            mask == self.mask_spec(),
    {
        match self {
            Flag::Negative => Status::NEGATIVE,
            Flag::Overflow => Status::OVERFLOW,
            Flag::Unused => Status::UNUSED,
            Flag::BreakCommand => Status::BREAK_COMMAND,
            Flag::DecimalMode => Status::DECIMAL_MODE,
            Flag::Interrupt => Status::INTERRUPT,
            Flag::Zero => Status::ZERO,
            Flag::Carry => Status::CARRY,
        }
    }
}

/// The status flags spelled out one by one.
#[derive(Debug, Clone, Copy, PartialEq, Eq, Structural)]
pub struct StatusFlags {
    pub negative: bool,
    pub overflow: bool,
    pub unused: bool,
    pub break_command: bool,
    pub decimal_mode: bool,
    pub interrupt: bool,
    pub zero: bool,
    pub carry: bool,
}

impl StatusFlags {
    /// Whether the given flag is raised.
    pub open spec fn get(self, flag: Flag) -> bool {
        match flag {
            Flag::Negative => self.negative,
            Flag::Overflow => self.overflow,
            Flag::Unused => self.unused,
            Flag::BreakCommand => self.break_command,
            Flag::DecimalMode => self.decimal_mode,
            Flag::Interrupt => self.interrupt,
            Flag::Zero => self.zero,
            Flag::Carry => self.carry,
        }
    }

    /// The byte that has exactly the raised flags' bits set.
    pub open spec fn pack(self) -> u8 {
        (if self.negative { Status::NEGATIVE } else { 0u8 })
            | (if self.overflow { Status::OVERFLOW } else { 0u8 })
            | (if self.unused { Status::UNUSED } else { 0u8 })
            | (if self.break_command { Status::BREAK_COMMAND } else { 0u8 })
            | (if self.decimal_mode { Status::DECIMAL_MODE } else { 0u8 })
            | (if self.interrupt { Status::INTERRUPT } else { 0u8 })
            | (if self.zero { Status::ZERO } else { 0u8 })
            | (if self.carry { Status::CARRY } else { 0u8 })
    }
}

/// The status byte: eight flags at fixed bit positions.
#[derive(Debug, Clone, Copy, PartialEq, Eq, Structural)]
pub struct Status {
    pub bits: u8,
}

impl Status {
    /// Bit 7: the last result had its bit 7 set.
    pub const NEGATIVE: u8 = 0b1000_0000;
    /// Bit 6: the last addition overflowed as a signed sum.
    pub const OVERFLOW: u8 = 0b0100_0000;
    /// Bit 5: unused, raised after reset.
    pub const UNUSED: u8 = 0b0010_0000;
    /// Bit 4: break command.
    pub const BREAK_COMMAND: u8 = 0b0001_0000;
    /// Bit 3: decimal mode.
    pub const DECIMAL_MODE: u8 = 0b0000_1000;
    /// Bit 2: interrupts disabled.
    pub const INTERRUPT: u8 = 0b0000_0100;
    /// Bit 1: the last result was zero.
    pub const ZERO: u8 = 0b0000_0010;
    /// Bit 0: the last addition carried out of bit 7.
    pub const CARRY: u8 = 0b0000_0001;

    /// Whether every bit of `mask` is set.
    pub open spec fn has(self, mask: u8) -> bool {
        self.bits & mask == mask
    }

    /// The status with the bits of `mask` set if `on`, cleared otherwise.
    pub open spec fn put(self, mask: u8, on: bool) -> Status {
        Status { bits: if on { self.bits | mask } else { self.bits & !mask } }
    }

    /// The status after a result `value` has been written to a register:
    /// the zero flag says whether `value` is zero, the negative flag is bit 7
    /// of `value`, and the other flags stay.
    pub open spec fn with_result(self, value: u8) -> Status {
        self.put(Status::ZERO, value == 0).put(Status::NEGATIVE, value & 0x80 == 0x80)
    }

    /// The status with no flag raised.
    pub fn empty() -> (status: Status)
        ensures
            status.bits == 0,
    {
        Status { bits: 0 }
    }

    /// The status after reset: only the unused flag is raised.
    pub fn default() -> (status: Status)
        ensures
            status.bits == Status::UNUSED,
    {
        let status = Status::new(
            StatusFlags {
                negative: false,
                overflow: false,
                unused: true,
                break_command: false,
                decimal_mode: false,
                interrupt: false,
                zero: false,
                carry: false,
            },
        );
        assert(0u8 | 0u8 | 0x20u8 | 0u8 | 0u8 | 0u8 | 0u8 | 0u8 == 0x20u8) by (bit_vector);
        status
    }

    /// Packs the given flags into a status byte.
    pub fn new(flags: StatusFlags) -> (status: Status)
        ensures
            status.bits == flags.pack(),
            forall|flag: Flag| status.has(flag.mask()) == flags.get(flag),
    {
        let mut status = Status::empty();
        if flags.negative {
            status.insert(Status::NEGATIVE);
        }
        let ghost b1: u8 = status.bits;
        if flags.overflow {
            status.insert(Status::OVERFLOW);
        }
        let ghost b2: u8 = status.bits;
        if flags.unused {
            status.insert(Status::UNUSED);
        }
        let ghost b3: u8 = status.bits;
        if flags.break_command {
            status.insert(Status::BREAK_COMMAND);
        }
        let ghost b4: u8 = status.bits;
        if flags.decimal_mode {
            status.insert(Status::DECIMAL_MODE);
        }
        let ghost b5: u8 = status.bits;
        if flags.interrupt {
            status.insert(Status::INTERRUPT);
        }
        let ghost b6: u8 = status.bits;
        if flags.zero {
            status.insert(Status::ZERO);
        }
        let ghost b7: u8 = status.bits;
        if flags.carry {
            status.insert(Status::CARRY);
        }
        proof {
            let b8: u8 = status.bits;
            let n = flags.negative;
            let v = flags.overflow;
            let u = flags.unused;
            let b = flags.break_command;
            let d = flags.decimal_mode;
            let i = flags.interrupt;
            let z = flags.zero;
            let c = flags.carry;
            let p: u8 = flags.pack();
            assert(b8 == p && (p & 0x80 == 0x80) == n && (p & 0x40 == 0x40) == v && (p & 0x20
                == 0x20) == u && (p & 0x10 == 0x10) == b && (p & 0x08 == 0x08) == d && (p & 0x04
                == 0x04) == i && (p & 0x02 == 0x02) == z && (p & 0x01 == 0x01) == c)
                by (bit_vector)
                requires
                    b1 == (if n { 0u8 | 0x80u8 } else { 0u8 }),
                    b2 == (if v { b1 | 0x40u8 } else { b1 }),
                    b3 == (if u { b2 | 0x20u8 } else { b2 }),
                    b4 == (if b { b3 | 0x10u8 } else { b3 }),
                    b5 == (if d { b4 | 0x08u8 } else { b4 }),
                    b6 == (if i { b5 | 0x04u8 } else { b5 }),
                    b7 == (if z { b6 | 0x02u8 } else { b6 }),
                    b8 == (if c { b7 | 0x01u8 } else { b7 }),
                    p == (if n { 0x80u8 } else { 0u8 }) | (if v { 0x40u8 } else { 0u8 }) | (if u {
                        0x20u8
                    } else {
                        0u8
                    }) | (if b { 0x10u8 } else { 0u8 }) | (if d { 0x08u8 } else { 0u8 }) | (if i {
                        0x04u8
                    } else {
                        0u8
                    }) | (if z { 0x02u8 } else { 0u8 }) | (if c { 0x01u8 } else { 0u8 }),
            ;
            assert forall|flag: Flag| status.has(flag.mask()) == flags.get(flag) by {
                match flag {
                    Flag::Negative => {},
                    Flag::Overflow => {},
                    Flag::Unused => {},
                    Flag::BreakCommand => {},
                    Flag::DecimalMode => {},
                    Flag::Interrupt => {},
                    Flag::Zero => {},
                    Flag::Carry => {},
                }
            }
        }
        status
    }

    /// The status whose byte is `bits`. All eight bits are flags, so none is
    /// dropped.
    pub fn from_bits_truncate(bits: u8) -> (status: Status)
        ensures
            status.bits == bits,
    {
        Status { bits }
    }

    /// The status as a byte.
    pub fn bits(&self) -> (bits: u8)
        ensures
            bits == self.bits,
    {
        self.bits
    }

    /// Whether every bit of `mask` is set.
    pub fn contains(&self, mask: u8) -> (found: bool)
        ensures
            found == self.has(mask),
    {
        self.bits & mask == mask
    }

    /// Sets the bits of `mask`.
    pub fn insert(&mut self, mask: u8)
        ensures
            *final(self) == old(self).put(mask, true),
    {
        self.bits = self.bits | mask;
    }

    /// Clears the bits of `mask`.
    pub fn remove(&mut self, mask: u8)
        ensures
            *final(self) == old(self).put(mask, false),
    {
        self.bits = self.bits & !mask;
    }

    /// Sets the bits of `mask` if `value`, and clears them otherwise.
    pub fn set(&mut self, mask: u8, value: bool)
        ensures
            *final(self) == old(self).put(mask, value),
    {
        if value {
            self.insert(mask);
        } else {
            self.remove(mask);
        }
    }
    /// Records a result written to a register: raises the zero flag exactly
    /// when `value` is zero and the negative flag exactly when bit 7 of
    /// `value` is set.
    pub fn set_result(&mut self, value: u8)
        ensures
            *final(self) == old(self).with_result(value),
    {
        self.set(Status::ZERO, value == 0);
        self.set(Status::NEGATIVE, value & 0x80 == 0x80);
    }
}

/// Raising or clearing one flag makes that flag read as it was set and leaves
/// every other flag as it was.
pub proof fn put_changes_one_flag(status: Status, changed: Flag, on: bool, asked: Flag)
    ensures
        status.put(changed.mask(), on).has(asked.mask()) == (if changed == asked {
            on
        } else {
            status.has(asked.mask())
        }),
{
    let b: u8 = status.bits;
    let m: u8 = changed.mask();
    let k: u8 = asked.mask();
    assert(changed == asked <==> m == k);
    assert(((if on { b | m } else { b & !m }) & k == k) == (if m == k { on } else { b & k == k }))
        by (bit_vector)
        requires
            m == 1 || m == 2 || m == 4 || m == 8 || m == 16 || m == 32 || m == 64 || m == 128,
            k == 1 || k == 2 || k == 4 || k == 8 || k == 16 || k == 32 || k == 64 || k == 128,
    ;
}

/// After a result has been recorded, the zero flag is raised exactly when the
/// result is zero, the negative flag exactly when its bit 7 is set, and no
/// other flag has changed.
pub proof fn result_sets_zero_and_negative(status: Status, value: u8)
    ensures
        status.with_result(value).has(Status::ZERO) <==> value == 0,
        status.with_result(value).has(Status::NEGATIVE) <==> value & 0x80 == 0x80,
        status.with_result(value).has(Status::NEGATIVE) <==> value >= 0x80,
        forall|flag: Flag|
            flag != Flag::Zero && flag != Flag::Negative ==> status.with_result(value).has(
                flag.mask(),
            ) == status.has(flag.mask()),
{
    let zeroed = status.put(Status::ZERO, value == 0);
    put_changes_one_flag(status, Flag::Zero, value == 0, Flag::Zero);
    put_changes_one_flag(zeroed, Flag::Negative, value & 0x80 == 0x80, Flag::Zero);
    put_changes_one_flag(zeroed, Flag::Negative, value & 0x80 == 0x80, Flag::Negative);
    assert((value & 0x80 == 0x80) <==> value >= 0x80) by (bit_vector);
    assert forall|flag: Flag|
        flag != Flag::Zero && flag != Flag::Negative implies status.with_result(value).has(
            flag.mask(),
        ) == status.has(flag.mask()) by {
        put_changes_one_flag(status, Flag::Zero, value == 0, flag);
        put_changes_one_flag(zeroed, Flag::Negative, value & 0x80 == 0x80, flag);
    }
}

/// The six registers of the processor.
#[derive(Debug, Clone, Copy, PartialEq, Eq, Structural)]
pub struct Registers {
    /// Program counter: the address of the next byte to fetch.
    pub pc: u16,
    /// Stack pointer: an offset into page one.
    pub sp: u8,
    /// Accumulator.
    pub acc: u8,
    /// Index register X.
    pub x: u8,
    /// Index register Y.
    pub y: u8,
    /// Status flags.
    pub status: Status,
}

impl Registers {
    /// The registers after reset: everything zero but the program counter,
    /// which is 0x8000, and the unused flag, which is raised.
    pub fn new() -> (registers: Registers)
        ensures
            registers == (Registers {
                pc: 0x8000,
                sp: 0,
                acc: 0,
                x: 0,
                y: 0,
                status: Status { bits: Status::UNUSED },
            }),
    {
        Registers { pc: 0x8000, sp: 0x00, acc: 0x00, x: 0x00, y: 0x00, status: Status::default() }
    }
}

} // verus!
