//! The instruction set: opcode bytes, mnemonics, addressing modes, and the
//! table that decodes one into the others.

use vstd::prelude::*;

verus! {

// Load accumulator
pub const LDA_IM: u8 = 0xA9;
pub const LDA_ZP: u8 = 0xA5;
pub const LDA_ZPX: u8 = 0xB5;
pub const LDA_ABS: u8 = 0xAD;
pub const LDA_ABSX: u8 = 0xBD;
pub const LDA_ABSY: u8 = 0xB9;
pub const LDA_INDX: u8 = 0xA1;
pub const LDA_INDY: u8 = 0xB1;

// Load X
pub const LDX_IM: u8 = 0xA2;
pub const LDX_ZP: u8 = 0xA6;
pub const LDX_ZPY: u8 = 0xB6;
pub const LDX_ABS: u8 = 0xAE;
pub const LDX_ABSY: u8 = 0xBE;

// Load Y
pub const LDY_IM: u8 = 0xA0;
pub const LDY_ZP: u8 = 0xA4;
pub const LDY_ZPX: u8 = 0xB4;
pub const LDY_ABS: u8 = 0xAC;
pub const LDY_ABSX: u8 = 0xBC;

// Store accumulator
pub const STA_ZP: u8 = 0x85;
pub const STA_ZPX: u8 = 0x95;
pub const STA_ABS: u8 = 0x8D;
pub const STA_ABSX: u8 = 0x9D;
pub const STA_ABSY: u8 = 0x99;
pub const STA_INDX: u8 = 0x81;
pub const STA_INDY: u8 = 0x91;

// Store X
pub const STX_ZP: u8 = 0x86;
pub const STX_ZPY: u8 = 0x96;
pub const STX_ABS: u8 = 0x8E;

// Store Y
pub const STY_ZP: u8 = 0x84;
pub const STY_ZPX: u8 = 0x94;
pub const STY_ABS: u8 = 0x8C;

// Logical AND
pub const AND_IM: u8 = 0x29;
pub const AND_ZP: u8 = 0x25;
pub const AND_ZPX: u8 = 0x35;
pub const AND_ABS: u8 = 0x2D;
pub const AND_ABSX: u8 = 0x3D;
pub const AND_ABSY: u8 = 0x39;
pub const AND_INDX: u8 = 0x21;
pub const AND_INDY: u8 = 0x31;

// Logical exclusive OR
pub const EOR_IM: u8 = 0x49;
pub const EOR_ZP: u8 = 0x45;
pub const EOR_ZPX: u8 = 0x55;
pub const EOR_ABS: u8 = 0x4D;
pub const EOR_ABSX: u8 = 0x5D;
pub const EOR_ABSY: u8 = 0x59;
pub const EOR_INDX: u8 = 0x41;
pub const EOR_INDY: u8 = 0x51;

// Logical inclusive OR
pub const ORA_IM: u8 = 0x09;
pub const ORA_ZP: u8 = 0x05;
pub const ORA_ZPX: u8 = 0x15;
pub const ORA_ABS: u8 = 0x0D;
pub const ORA_ABSX: u8 = 0x1D;
pub const ORA_ABSY: u8 = 0x19;
pub const ORA_INDX: u8 = 0x01;
pub const ORA_INDY: u8 = 0x11;

// Bit test
pub const BIT_ZP: u8 = 0x24;
pub const BIT_ABS: u8 = 0x2C;

// Add with carry
pub const ADC_IM: u8 = 0x69;
pub const ADC_ZP: u8 = 0x65;
pub const ADC_ZPX: u8 = 0x75;
pub const ADC_ABS: u8 = 0x6D;
pub const ADC_ABSX: u8 = 0x7D;
pub const ADC_ABSY: u8 = 0x79;
pub const ADC_INDX: u8 = 0x61;
pub const ADC_INDY: u8 = 0x71;

// Register transfers and stack
/// Transfer accumulator to X.
pub const TAX: u8 = 0xAA;
/// Transfer accumulator to Y.
pub const TAY: u8 = 0xA8;
/// Transfer X to accumulator.
pub const TXA: u8 = 0x8A;
/// Transfer Y to accumulator.
pub const TYA: u8 = 0x98;
/// Transfer stack pointer to X.
pub const TSX: u8 = 0xBA;
/// Transfer X to stack pointer.
pub const TXS: u8 = 0x9A;
/// Push accumulator on the stack.
pub const PHA: u8 = 0x48;
/// Push processor status on the stack.
pub const PHP: u8 = 0x08;
/// Pull accumulator from the stack.
pub const PLA: u8 = 0x68;
/// Pull processor status from the stack.
pub const PLP: u8 = 0x28;

/// What an instruction does, apart from where its operand comes from.
#[derive(Debug, Clone, Copy, PartialEq, Eq, Structural)]
pub enum Mnemonic {
    Lda,
    Ldx,
    Ldy,
    Sta,
    Stx,
    Sty,
    Tax,
    Tay,
    Txa,
    Tya,
    Tsx,
    Txs,
    Pha,
    Php,
    Pla,
    Plp,
    And,
    Eor,
    Ora,
    Bit,
    Adc,
}

/// Where an instruction's operand comes from.
#[derive(Debug, Clone, Copy, PartialEq, Eq, Structural)]
pub enum Mode {
    /// No operand bytes: the instruction names its registers.
    Implied,
    /// One byte: the operand itself.
    Immediate,
    /// One byte: an address in page zero.
    ZeroPage,
    /// One byte, to which X is added within page zero.
    ZeroPageX,
    /// One byte, to which Y is added within page zero.
    ZeroPageY,
    /// Two bytes, low first: an address.
    Absolute,
    /// Two bytes, low first: an address, to which X is added.
    AbsoluteX,
    /// Two bytes, low first: an address, to which Y is added.
    AbsoluteY,
    /// One byte, to which X is added within page zero: the place of a
    /// pointer to the operand.
    IndirectX,
    /// One byte: the place in page zero of a pointer, to which Y is added.
    IndirectY,
}

impl Mode {
    /// The number of operand bytes that follow the opcode.
    pub open spec fn operand_len(self) -> int {
        match self {
            Mode::Implied => 0,
            Mode::Absolute | Mode::AbsoluteX | Mode::AbsoluteY => 2,
            _ => 1,
        }
    }
}

/// The instruction that an opcode byte stands for, if it is one.
pub open spec fn decode(opcode: u8) -> Option<(Mnemonic, Mode)> {
    match opcode {
        LDA_IM => Some((Mnemonic::Lda, Mode::Immediate)),
        LDA_ZP => Some((Mnemonic::Lda, Mode::ZeroPage)),
        LDA_ZPX => Some((Mnemonic::Lda, Mode::ZeroPageX)),
        LDA_ABS => Some((Mnemonic::Lda, Mode::Absolute)),
        LDA_ABSX => Some((Mnemonic::Lda, Mode::AbsoluteX)),
        LDA_ABSY => Some((Mnemonic::Lda, Mode::AbsoluteY)),
        LDA_INDX => Some((Mnemonic::Lda, Mode::IndirectX)),
        LDA_INDY => Some((Mnemonic::Lda, Mode::IndirectY)),
        LDX_IM => Some((Mnemonic::Ldx, Mode::Immediate)),
        LDX_ZP => Some((Mnemonic::Ldx, Mode::ZeroPage)),
        LDX_ZPY => Some((Mnemonic::Ldx, Mode::ZeroPageY)),
        LDX_ABS => Some((Mnemonic::Ldx, Mode::Absolute)),
        LDX_ABSY => Some((Mnemonic::Ldx, Mode::AbsoluteY)),
        LDY_IM => Some((Mnemonic::Ldy, Mode::Immediate)),
        LDY_ZP => Some((Mnemonic::Ldy, Mode::ZeroPage)),
        LDY_ZPX => Some((Mnemonic::Ldy, Mode::ZeroPageX)),
        LDY_ABS => Some((Mnemonic::Ldy, Mode::Absolute)),
        LDY_ABSX => Some((Mnemonic::Ldy, Mode::AbsoluteX)),
        STA_ZP => Some((Mnemonic::Sta, Mode::ZeroPage)),
        STA_ZPX => Some((Mnemonic::Sta, Mode::ZeroPageX)),
        STA_ABS => Some((Mnemonic::Sta, Mode::Absolute)),
        STA_ABSX => Some((Mnemonic::Sta, Mode::AbsoluteX)),
        STA_ABSY => Some((Mnemonic::Sta, Mode::AbsoluteY)),
        STA_INDX => Some((Mnemonic::Sta, Mode::IndirectX)),
        STA_INDY => Some((Mnemonic::Sta, Mode::IndirectY)),
        STX_ZP => Some((Mnemonic::Stx, Mode::ZeroPage)),
        STX_ZPY => Some((Mnemonic::Stx, Mode::ZeroPageY)),
        STX_ABS => Some((Mnemonic::Stx, Mode::Absolute)),
        STY_ZP => Some((Mnemonic::Sty, Mode::ZeroPage)),
        STY_ZPX => Some((Mnemonic::Sty, Mode::ZeroPageX)),
        STY_ABS => Some((Mnemonic::Sty, Mode::Absolute)),
        AND_IM => Some((Mnemonic::And, Mode::Immediate)),
        AND_ZP => Some((Mnemonic::And, Mode::ZeroPage)),
        AND_ZPX => Some((Mnemonic::And, Mode::ZeroPageX)),
        AND_ABS => Some((Mnemonic::And, Mode::Absolute)),
        AND_ABSX => Some((Mnemonic::And, Mode::AbsoluteX)),
        AND_ABSY => Some((Mnemonic::And, Mode::AbsoluteY)),
        AND_INDX => Some((Mnemonic::And, Mode::IndirectX)),
        AND_INDY => Some((Mnemonic::And, Mode::IndirectY)),
        EOR_IM => Some((Mnemonic::Eor, Mode::Immediate)),
        EOR_ZP => Some((Mnemonic::Eor, Mode::ZeroPage)),
        EOR_ZPX => Some((Mnemonic::Eor, Mode::ZeroPageX)),
        EOR_ABS => Some((Mnemonic::Eor, Mode::Absolute)),
        EOR_ABSX => Some((Mnemonic::Eor, Mode::AbsoluteX)),
        EOR_ABSY => Some((Mnemonic::Eor, Mode::AbsoluteY)),
        EOR_INDX => Some((Mnemonic::Eor, Mode::IndirectX)),
        EOR_INDY => Some((Mnemonic::Eor, Mode::IndirectY)),
        ORA_IM => Some((Mnemonic::Ora, Mode::Immediate)),
        ORA_ZP => Some((Mnemonic::Ora, Mode::ZeroPage)),
        ORA_ZPX => Some((Mnemonic::Ora, Mode::ZeroPageX)),
        ORA_ABS => Some((Mnemonic::Ora, Mode::Absolute)),
        ORA_ABSX => Some((Mnemonic::Ora, Mode::AbsoluteX)),
        ORA_ABSY => Some((Mnemonic::Ora, Mode::AbsoluteY)),
        ORA_INDX => Some((Mnemonic::Ora, Mode::IndirectX)),
        ORA_INDY => Some((Mnemonic::Ora, Mode::IndirectY)),
        BIT_ZP => Some((Mnemonic::Bit, Mode::ZeroPage)),
        BIT_ABS => Some((Mnemonic::Bit, Mode::Absolute)),
        ADC_IM => Some((Mnemonic::Adc, Mode::Immediate)),
        ADC_ZP => Some((Mnemonic::Adc, Mode::ZeroPage)),
        ADC_ZPX => Some((Mnemonic::Adc, Mode::ZeroPageX)),
        ADC_ABS => Some((Mnemonic::Adc, Mode::Absolute)),
        ADC_ABSX => Some((Mnemonic::Adc, Mode::AbsoluteX)),
        ADC_ABSY => Some((Mnemonic::Adc, Mode::AbsoluteY)),
        ADC_INDX => Some((Mnemonic::Adc, Mode::IndirectX)),
        ADC_INDY => Some((Mnemonic::Adc, Mode::IndirectY)),
        TAX => Some((Mnemonic::Tax, Mode::Implied)),
        TAY => Some((Mnemonic::Tay, Mode::Implied)),
        TXA => Some((Mnemonic::Txa, Mode::Implied)),
        TYA => Some((Mnemonic::Tya, Mode::Implied)),
        TSX => Some((Mnemonic::Tsx, Mode::Implied)),
        TXS => Some((Mnemonic::Txs, Mode::Implied)),
        PHA => Some((Mnemonic::Pha, Mode::Implied)),
        PHP => Some((Mnemonic::Php, Mode::Implied)),
        PLA => Some((Mnemonic::Pla, Mode::Implied)),
        PLP => Some((Mnemonic::Plp, Mode::Implied)),
        _ => None,
    }
}

} // verus!
