use vstd::prelude::*;
use crate::cpu::cpu::AddressingMode;

verus! {

/// What an instruction does, apart from how it finds its operand. The
/// undocumented operations of the processor are included.
#[derive(Debug, Clone, Copy, PartialEq, Eq)]
pub enum Operation {
    Brk,
    Ora,
    Nop,
    Slo,
    NopRead,
    Asl,
    Php,
    AslAccumulator,
    Anc,
    Bpl,
    Clc,
    Jsr,
    And,
    Rla,
    Bit,
    Rol,
    Plp,
    RolAccumulator,
    Bmi,
    Sec,
    Rti,
    Eor,
    Sre,
    Lsr,
    Pha,
    LsrAccumulator,
    Alr,
    JmpAbsolute,
    Bvc,
    Cli,
    Rts,
    Adc,
    Rra,
    Ror,
    Pla,
    RorAccumulator,
    Arr,
    JmpIndirect,
    Bvs,
    Sei,
    Skb,
    Sta,
    Sax,
    Sty,
    Stx,
    Dey,
    Txa,
    Xaa,
    Bcc,
    AhxIndirectY,
    Tya,
    Txs,
    Tas,
    Shy,
    Shx,
    AhxAbsoluteY,
    Ldy,
    Lda,
    Ldx,
    Lax,
    Tay,
    Tax,
    Lxa,
    Bcs,
    Clv,
    Tsx,
    Las,
    Cpy,
    Compare,
    Dcp,
    Dec,
    Iny,
    Dex,
    Axs,
    Bne,
    Cld,
    Cpx,
    Sbc,
    Isb,
    Inc,
    Inx,
    Beq,
    Sed,
}

impl Operation {
    /// The operation finds its operand through the entry's addressing
    /// mode.
    pub open spec fn uses_mode(self) -> bool {
        match self {
            Operation::Lda
            | Operation::Ldx
            | Operation::Ldy
            | Operation::Sta
            | Operation::Stx
            | Operation::Sty
            | Operation::Adc
            | Operation::Sbc
            | Operation::And
            | Operation::Eor
            | Operation::Ora
            | Operation::Lsr
            | Operation::Asl
            | Operation::Rol
            | Operation::Ror
            | Operation::Inc
            | Operation::Dec
            | Operation::Compare
            | Operation::Cpy
            | Operation::Cpx
            | Operation::Bit
            | Operation::Dcp
            | Operation::Rla
            | Operation::Slo
            | Operation::Sre
            | Operation::Axs
            | Operation::Arr
            | Operation::Anc
            | Operation::Alr
            | Operation::NopRead
            | Operation::Rra
            | Operation::Isb
            | Operation::Lax
            | Operation::Sax
            | Operation::Lxa
            | Operation::Xaa
            | Operation::Las => true,
            _ => false,
        }
    }
}

/// One entry of the instruction table.
#[derive(Debug, Clone, Copy)]
pub struct OpCode {
    pub code: u8,
    pub operation: Operation,
    /// Bytes of the instruction, the opcode byte included.
    pub len: u8,
    /// Base cost in processor cycles.
    pub cycles: u8,
    pub mode: AddressingMode,
}

/// The entry with these fields.
pub open spec fn row(
    code: u8,
    operation: Operation,
    len: u8,
    cycles: u8,
    mode: AddressingMode,
) -> OpCode {
    OpCode { code, operation, len, cycles, mode }
}

/// Bytes of operand that an addressing mode reads from the instruction
/// stream. The mode that addresses nothing says nothing about them.
pub open spec fn operand_bytes(mode: AddressingMode) -> int {
    match mode {
        AddressingMode::Immediate => 1,
        AddressingMode::ZeroPage => 1,
        AddressingMode::ZeroPage_X => 1,
        AddressingMode::ZeroPage_Y => 1,
        AddressingMode::Absolute => 2,
        AddressingMode::Absolute_X => 2,
        AddressingMode::Absolute_Y => 2,
        AddressingMode::Indirect_X => 1,
        AddressingMode::Indirect_Y => 1,
        AddressingMode::NoneAddressing => 0,
    }
}

/// The instruction table: the entry of each of the 256 opcode bytes.
pub open spec fn entry(code: u8) -> OpCode {
    match code {
        0x00 => row(code, Operation::Brk, 1, 7, AddressingMode::NoneAddressing),
        0x01 => row(code, Operation::Ora, 2, 6, AddressingMode::Indirect_X),
        0x02 => row(code, Operation::Nop, 1, 2, AddressingMode::NoneAddressing),
        0x03 => row(code, Operation::Slo, 2, 8, AddressingMode::Indirect_X),
        0x04 => row(code, Operation::NopRead, 2, 3, AddressingMode::ZeroPage),
        0x05 => row(code, Operation::Ora, 2, 3, AddressingMode::ZeroPage),
        0x06 => row(code, Operation::Asl, 2, 5, AddressingMode::ZeroPage),
        0x07 => row(code, Operation::Slo, 2, 5, AddressingMode::ZeroPage),
        0x08 => row(code, Operation::Php, 1, 3, AddressingMode::NoneAddressing),
        0x09 => row(code, Operation::Ora, 2, 2, AddressingMode::Immediate),
        0x0A => row(code, Operation::AslAccumulator, 1, 2, AddressingMode::NoneAddressing),
        0x0B => row(code, Operation::Anc, 2, 2, AddressingMode::Immediate),
        0x0C => row(code, Operation::NopRead, 3, 4, AddressingMode::Absolute),
        0x0D => row(code, Operation::Ora, 3, 4, AddressingMode::Absolute),
        0x0E => row(code, Operation::Asl, 3, 6, AddressingMode::Absolute),
        0x0F => row(code, Operation::Slo, 3, 6, AddressingMode::Absolute),
        0x10 => row(code, Operation::Bpl, 2, 2, AddressingMode::NoneAddressing),
        0x11 => row(code, Operation::Ora, 2, 5, AddressingMode::Indirect_Y),
        0x12 => row(code, Operation::Nop, 1, 2, AddressingMode::NoneAddressing),
        0x13 => row(code, Operation::Slo, 2, 8, AddressingMode::Indirect_Y),
        0x14 => row(code, Operation::NopRead, 2, 4, AddressingMode::ZeroPage_X),
        0x15 => row(code, Operation::Ora, 2, 4, AddressingMode::ZeroPage_X),
        0x16 => row(code, Operation::Asl, 2, 6, AddressingMode::ZeroPage_X),
        0x17 => row(code, Operation::Slo, 2, 6, AddressingMode::ZeroPage_X),
        0x18 => row(code, Operation::Clc, 1, 2, AddressingMode::NoneAddressing),
        0x19 => row(code, Operation::Ora, 3, 4, AddressingMode::Absolute_Y),
        0x1A => row(code, Operation::Nop, 1, 2, AddressingMode::NoneAddressing),
        0x1B => row(code, Operation::Slo, 3, 7, AddressingMode::Absolute_Y),
        0x1C => row(code, Operation::NopRead, 3, 4, AddressingMode::Absolute_X),
        0x1D => row(code, Operation::Ora, 3, 4, AddressingMode::Absolute_X),
        0x1E => row(code, Operation::Asl, 3, 7, AddressingMode::Absolute_X),
        0x1F => row(code, Operation::Slo, 3, 7, AddressingMode::Absolute_X),
        0x20 => row(code, Operation::Jsr, 3, 6, AddressingMode::NoneAddressing),
        0x21 => row(code, Operation::And, 2, 6, AddressingMode::Indirect_X),
        0x22 => row(code, Operation::Nop, 1, 2, AddressingMode::NoneAddressing),
        0x23 => row(code, Operation::Rla, 2, 8, AddressingMode::Indirect_X),
        0x24 => row(code, Operation::Bit, 2, 3, AddressingMode::ZeroPage),
        0x25 => row(code, Operation::And, 2, 3, AddressingMode::ZeroPage),
        0x26 => row(code, Operation::Rol, 2, 5, AddressingMode::ZeroPage),
        0x27 => row(code, Operation::Rla, 2, 5, AddressingMode::ZeroPage),
        0x28 => row(code, Operation::Plp, 1, 4, AddressingMode::NoneAddressing),
        0x29 => row(code, Operation::And, 2, 2, AddressingMode::Immediate),
        0x2A => row(code, Operation::RolAccumulator, 1, 2, AddressingMode::NoneAddressing),
        0x2B => row(code, Operation::Anc, 2, 2, AddressingMode::Immediate),
        0x2C => row(code, Operation::Bit, 3, 4, AddressingMode::Absolute),
        0x2D => row(code, Operation::And, 3, 4, AddressingMode::Absolute),
        0x2E => row(code, Operation::Rol, 3, 6, AddressingMode::Absolute),
        0x2F => row(code, Operation::Rla, 3, 6, AddressingMode::Absolute),
        0x30 => row(code, Operation::Bmi, 2, 2, AddressingMode::NoneAddressing),
        0x31 => row(code, Operation::And, 2, 5, AddressingMode::Indirect_Y),
        0x32 => row(code, Operation::Nop, 1, 2, AddressingMode::NoneAddressing),
        0x33 => row(code, Operation::Rla, 2, 8, AddressingMode::Indirect_Y),
        0x34 => row(code, Operation::NopRead, 2, 4, AddressingMode::ZeroPage_X),
        0x35 => row(code, Operation::And, 2, 4, AddressingMode::ZeroPage_X),
        0x36 => row(code, Operation::Rol, 2, 6, AddressingMode::ZeroPage_X),
        0x37 => row(code, Operation::Rla, 2, 6, AddressingMode::ZeroPage_X),
        0x38 => row(code, Operation::Sec, 1, 2, AddressingMode::NoneAddressing),
        0x39 => row(code, Operation::And, 3, 4, AddressingMode::Absolute_Y),
        0x3A => row(code, Operation::Nop, 1, 2, AddressingMode::NoneAddressing),
        0x3B => row(code, Operation::Rla, 3, 7, AddressingMode::Absolute_Y),
        0x3C => row(code, Operation::NopRead, 3, 4, AddressingMode::Absolute_X),
        0x3D => row(code, Operation::And, 3, 4, AddressingMode::Absolute_X),
        0x3E => row(code, Operation::Rol, 3, 7, AddressingMode::Absolute_X),
        0x3F => row(code, Operation::Rla, 3, 7, AddressingMode::Absolute_X),
        0x40 => row(code, Operation::Rti, 1, 6, AddressingMode::NoneAddressing),
        0x41 => row(code, Operation::Eor, 2, 6, AddressingMode::Indirect_X),
        0x42 => row(code, Operation::Nop, 1, 2, AddressingMode::NoneAddressing),
        0x43 => row(code, Operation::Sre, 2, 8, AddressingMode::Indirect_X),
        0x44 => row(code, Operation::NopRead, 2, 3, AddressingMode::ZeroPage),
        0x45 => row(code, Operation::Eor, 2, 3, AddressingMode::ZeroPage),
        0x46 => row(code, Operation::Lsr, 2, 5, AddressingMode::ZeroPage),
        0x47 => row(code, Operation::Sre, 2, 5, AddressingMode::ZeroPage),
        0x48 => row(code, Operation::Pha, 1, 3, AddressingMode::NoneAddressing),
        0x49 => row(code, Operation::Eor, 2, 2, AddressingMode::Immediate),
        0x4A => row(code, Operation::LsrAccumulator, 1, 2, AddressingMode::NoneAddressing),
        0x4B => row(code, Operation::Alr, 2, 2, AddressingMode::Immediate),
        0x4C => row(code, Operation::JmpAbsolute, 3, 3, AddressingMode::NoneAddressing),
        0x4D => row(code, Operation::Eor, 3, 4, AddressingMode::Absolute),
        0x4E => row(code, Operation::Lsr, 3, 6, AddressingMode::Absolute),
        0x4F => row(code, Operation::Sre, 3, 6, AddressingMode::Absolute),
        0x50 => row(code, Operation::Bvc, 2, 2, AddressingMode::NoneAddressing),
        0x51 => row(code, Operation::Eor, 2, 5, AddressingMode::Indirect_Y),
        0x52 => row(code, Operation::Nop, 1, 2, AddressingMode::NoneAddressing),
        0x53 => row(code, Operation::Sre, 2, 8, AddressingMode::Indirect_Y),
        0x54 => row(code, Operation::NopRead, 2, 4, AddressingMode::ZeroPage_X),
        0x55 => row(code, Operation::Eor, 2, 4, AddressingMode::ZeroPage_X),
        0x56 => row(code, Operation::Lsr, 2, 6, AddressingMode::ZeroPage_X),
        0x57 => row(code, Operation::Sre, 2, 6, AddressingMode::ZeroPage_X),
        0x58 => row(code, Operation::Cli, 1, 2, AddressingMode::NoneAddressing),
        0x59 => row(code, Operation::Eor, 3, 4, AddressingMode::Absolute_Y),
        0x5A => row(code, Operation::Nop, 1, 2, AddressingMode::NoneAddressing),
        0x5B => row(code, Operation::Sre, 3, 7, AddressingMode::Absolute_Y),
        0x5C => row(code, Operation::NopRead, 3, 4, AddressingMode::Absolute_X),
        0x5D => row(code, Operation::Eor, 3, 4, AddressingMode::Absolute_X),
        0x5E => row(code, Operation::Lsr, 3, 7, AddressingMode::Absolute_X),
        0x5F => row(code, Operation::Sre, 3, 7, AddressingMode::Absolute_X),
        0x60 => row(code, Operation::Rts, 1, 6, AddressingMode::NoneAddressing),
        0x61 => row(code, Operation::Adc, 2, 6, AddressingMode::Indirect_X),
        0x62 => row(code, Operation::Nop, 1, 2, AddressingMode::NoneAddressing),
        0x63 => row(code, Operation::Rra, 2, 8, AddressingMode::Indirect_X),
        0x64 => row(code, Operation::NopRead, 2, 3, AddressingMode::ZeroPage),
        0x65 => row(code, Operation::Adc, 2, 3, AddressingMode::ZeroPage),
        0x66 => row(code, Operation::Ror, 2, 5, AddressingMode::ZeroPage),
        0x67 => row(code, Operation::Rra, 2, 5, AddressingMode::ZeroPage),
        0x68 => row(code, Operation::Pla, 1, 4, AddressingMode::NoneAddressing),
        0x69 => row(code, Operation::Adc, 2, 2, AddressingMode::Immediate),
        0x6A => row(code, Operation::RorAccumulator, 1, 2, AddressingMode::NoneAddressing),
        0x6B => row(code, Operation::Arr, 2, 2, AddressingMode::Immediate),
        0x6C => row(code, Operation::JmpIndirect, 3, 5, AddressingMode::NoneAddressing),
        0x6D => row(code, Operation::Adc, 3, 4, AddressingMode::Absolute),
        0x6E => row(code, Operation::Ror, 3, 6, AddressingMode::Absolute),
        0x6F => row(code, Operation::Rra, 3, 6, AddressingMode::Absolute),
        0x70 => row(code, Operation::Bvs, 2, 2, AddressingMode::NoneAddressing),
        0x71 => row(code, Operation::Adc, 2, 5, AddressingMode::Indirect_Y),
        0x72 => row(code, Operation::Nop, 1, 2, AddressingMode::NoneAddressing),
        0x73 => row(code, Operation::Rra, 2, 8, AddressingMode::Indirect_Y),
        0x74 => row(code, Operation::NopRead, 2, 4, AddressingMode::ZeroPage_X),
        0x75 => row(code, Operation::Adc, 2, 4, AddressingMode::ZeroPage_X),
        0x76 => row(code, Operation::Ror, 2, 6, AddressingMode::ZeroPage_X),
        0x77 => row(code, Operation::Rra, 2, 6, AddressingMode::ZeroPage_X),
        0x78 => row(code, Operation::Sei, 1, 2, AddressingMode::NoneAddressing),
        0x79 => row(code, Operation::Adc, 3, 4, AddressingMode::Absolute_Y),
        0x7A => row(code, Operation::Nop, 1, 2, AddressingMode::NoneAddressing),
        0x7B => row(code, Operation::Rra, 3, 7, AddressingMode::Absolute_Y),
        0x7C => row(code, Operation::NopRead, 3, 4, AddressingMode::Absolute_X),
        0x7D => row(code, Operation::Adc, 3, 4, AddressingMode::Absolute_X),
        0x7E => row(code, Operation::Ror, 3, 7, AddressingMode::Absolute_X),
        0x7F => row(code, Operation::Rra, 3, 7, AddressingMode::Absolute_X),
        0x80 => row(code, Operation::Skb, 2, 2, AddressingMode::Immediate),
        0x81 => row(code, Operation::Sta, 2, 6, AddressingMode::Indirect_X),
        0x82 => row(code, Operation::Skb, 2, 2, AddressingMode::Immediate),
        0x83 => row(code, Operation::Sax, 2, 6, AddressingMode::Indirect_X),
        0x84 => row(code, Operation::Sty, 2, 3, AddressingMode::ZeroPage),
        0x85 => row(code, Operation::Sta, 2, 3, AddressingMode::ZeroPage),
        0x86 => row(code, Operation::Stx, 2, 3, AddressingMode::ZeroPage),
        0x87 => row(code, Operation::Sax, 2, 3, AddressingMode::ZeroPage),
        0x88 => row(code, Operation::Dey, 1, 2, AddressingMode::NoneAddressing),
        0x89 => row(code, Operation::Skb, 2, 2, AddressingMode::Immediate),
        0x8A => row(code, Operation::Txa, 1, 2, AddressingMode::NoneAddressing),
        0x8B => row(code, Operation::Xaa, 2, 3, AddressingMode::Immediate),
        0x8C => row(code, Operation::Sty, 3, 4, AddressingMode::Absolute),
        0x8D => row(code, Operation::Sta, 3, 4, AddressingMode::Absolute),
        0x8E => row(code, Operation::Stx, 3, 4, AddressingMode::Absolute),
        0x8F => row(code, Operation::Sax, 3, 4, AddressingMode::Absolute),
        0x90 => row(code, Operation::Bcc, 2, 2, AddressingMode::NoneAddressing),
        0x91 => row(code, Operation::Sta, 2, 6, AddressingMode::Indirect_Y),
        0x92 => row(code, Operation::Nop, 1, 2, AddressingMode::NoneAddressing),
        0x93 => row(code, Operation::AhxIndirectY, 2, 8, AddressingMode::Indirect_Y),
        0x94 => row(code, Operation::Sty, 2, 4, AddressingMode::ZeroPage_X),
        0x95 => row(code, Operation::Sta, 2, 4, AddressingMode::ZeroPage_X),
        0x96 => row(code, Operation::Stx, 2, 4, AddressingMode::ZeroPage_Y),
        0x97 => row(code, Operation::Sax, 2, 4, AddressingMode::ZeroPage_Y),
        0x98 => row(code, Operation::Tya, 1, 2, AddressingMode::NoneAddressing),
        0x99 => row(code, Operation::Sta, 3, 5, AddressingMode::Absolute_Y),
        0x9A => row(code, Operation::Txs, 1, 2, AddressingMode::NoneAddressing),
        0x9B => row(code, Operation::Tas, 3, 2, AddressingMode::Absolute_Y),
        0x9C => row(code, Operation::Shy, 3, 4, AddressingMode::Absolute_X),
        0x9D => row(code, Operation::Sta, 3, 5, AddressingMode::Absolute_X),
        0x9E => row(code, Operation::Shx, 3, 4, AddressingMode::Absolute_Y),
        0x9F => row(code, Operation::AhxAbsoluteY, 3, 4, AddressingMode::Absolute_Y),
        0xA0 => row(code, Operation::Ldy, 2, 2, AddressingMode::Immediate),
        0xA1 => row(code, Operation::Lda, 2, 6, AddressingMode::Indirect_X),
        0xA2 => row(code, Operation::Ldx, 2, 2, AddressingMode::Immediate),
        0xA3 => row(code, Operation::Lax, 2, 6, AddressingMode::Indirect_X),
        0xA4 => row(code, Operation::Ldy, 2, 3, AddressingMode::ZeroPage),
        0xA5 => row(code, Operation::Lda, 2, 3, AddressingMode::ZeroPage),
        0xA6 => row(code, Operation::Ldx, 2, 3, AddressingMode::ZeroPage),
        0xA7 => row(code, Operation::Lax, 2, 3, AddressingMode::ZeroPage),
        0xA8 => row(code, Operation::Tay, 1, 2, AddressingMode::NoneAddressing),
        0xA9 => row(code, Operation::Lda, 2, 2, AddressingMode::Immediate),
        0xAA => row(code, Operation::Tax, 1, 2, AddressingMode::NoneAddressing),
        0xAB => row(code, Operation::Lxa, 2, 3, AddressingMode::Immediate),
        0xAC => row(code, Operation::Ldy, 3, 4, AddressingMode::Absolute),
        0xAD => row(code, Operation::Lda, 3, 4, AddressingMode::Absolute),
        0xAE => row(code, Operation::Ldx, 3, 4, AddressingMode::Absolute),
        0xAF => row(code, Operation::Lax, 3, 4, AddressingMode::Absolute),
        0xB0 => row(code, Operation::Bcs, 2, 2, AddressingMode::NoneAddressing),
        0xB1 => row(code, Operation::Lda, 2, 5, AddressingMode::Indirect_Y),
        0xB2 => row(code, Operation::Nop, 1, 2, AddressingMode::NoneAddressing),
        0xB3 => row(code, Operation::Lax, 2, 5, AddressingMode::Indirect_Y),
        0xB4 => row(code, Operation::Ldy, 2, 4, AddressingMode::ZeroPage_X),
        0xB5 => row(code, Operation::Lda, 2, 4, AddressingMode::ZeroPage_X),
        0xB6 => row(code, Operation::Ldx, 2, 4, AddressingMode::ZeroPage_Y),
        0xB7 => row(code, Operation::Lax, 2, 4, AddressingMode::ZeroPage_Y),
        0xB8 => row(code, Operation::Clv, 1, 2, AddressingMode::NoneAddressing),
        0xB9 => row(code, Operation::Lda, 3, 4, AddressingMode::Absolute_Y),
        0xBA => row(code, Operation::Tsx, 1, 2, AddressingMode::NoneAddressing),
        0xBB => row(code, Operation::Las, 3, 2, AddressingMode::Absolute_Y),
        0xBC => row(code, Operation::Ldy, 3, 4, AddressingMode::Absolute_X),
        0xBD => row(code, Operation::Lda, 3, 4, AddressingMode::Absolute_X),
        0xBE => row(code, Operation::Ldx, 3, 4, AddressingMode::Absolute_Y),
        0xBF => row(code, Operation::Lax, 3, 4, AddressingMode::Absolute_Y),
        0xC0 => row(code, Operation::Cpy, 2, 2, AddressingMode::Immediate),
        0xC1 => row(code, Operation::Compare, 2, 6, AddressingMode::Indirect_X),
        0xC2 => row(code, Operation::Skb, 2, 2, AddressingMode::Immediate),
        0xC3 => row(code, Operation::Dcp, 2, 8, AddressingMode::Indirect_X),
        0xC4 => row(code, Operation::Cpy, 2, 3, AddressingMode::ZeroPage),
        0xC5 => row(code, Operation::Compare, 2, 3, AddressingMode::ZeroPage),
        0xC6 => row(code, Operation::Dec, 2, 5, AddressingMode::ZeroPage),
        0xC7 => row(code, Operation::Dcp, 2, 5, AddressingMode::ZeroPage),
        0xC8 => row(code, Operation::Iny, 1, 2, AddressingMode::NoneAddressing),
        0xC9 => row(code, Operation::Compare, 2, 2, AddressingMode::Immediate),
        0xCA => row(code, Operation::Dex, 1, 2, AddressingMode::NoneAddressing),
        0xCB => row(code, Operation::Axs, 2, 2, AddressingMode::Immediate),
        0xCC => row(code, Operation::Cpy, 3, 4, AddressingMode::Absolute),
        0xCD => row(code, Operation::Compare, 3, 4, AddressingMode::Absolute),
        0xCE => row(code, Operation::Dec, 3, 6, AddressingMode::Absolute),
        0xCF => row(code, Operation::Dcp, 3, 6, AddressingMode::Absolute),
        0xD0 => row(code, Operation::Bne, 2, 2, AddressingMode::NoneAddressing),
        0xD1 => row(code, Operation::Compare, 2, 5, AddressingMode::Indirect_Y),
        0xD2 => row(code, Operation::Nop, 1, 2, AddressingMode::NoneAddressing),
        0xD3 => row(code, Operation::Dcp, 2, 8, AddressingMode::Indirect_Y),
        0xD4 => row(code, Operation::NopRead, 2, 4, AddressingMode::ZeroPage_X),
        0xD5 => row(code, Operation::Compare, 2, 4, AddressingMode::ZeroPage_X),
        0xD6 => row(code, Operation::Dec, 2, 6, AddressingMode::ZeroPage_X),
        0xD7 => row(code, Operation::Dcp, 2, 6, AddressingMode::ZeroPage_X),
        0xD8 => row(code, Operation::Cld, 1, 2, AddressingMode::NoneAddressing),
        0xD9 => row(code, Operation::Compare, 3, 4, AddressingMode::Absolute_Y),
        0xDA => row(code, Operation::Nop, 1, 2, AddressingMode::NoneAddressing),
        0xDB => row(code, Operation::Dcp, 3, 7, AddressingMode::Absolute_Y),
        0xDC => row(code, Operation::NopRead, 3, 4, AddressingMode::Absolute_X),
        0xDD => row(code, Operation::Compare, 3, 4, AddressingMode::Absolute_X),
        0xDE => row(code, Operation::Dec, 3, 7, AddressingMode::Absolute_X),
        0xDF => row(code, Operation::Dcp, 3, 7, AddressingMode::Absolute_X),
        0xE0 => row(code, Operation::Cpx, 2, 2, AddressingMode::Immediate),
        0xE1 => row(code, Operation::Sbc, 2, 6, AddressingMode::Indirect_X),
        0xE2 => row(code, Operation::Skb, 2, 2, AddressingMode::Immediate),
        0xE3 => row(code, Operation::Isb, 2, 8, AddressingMode::Indirect_X),
        0xE4 => row(code, Operation::Cpx, 2, 3, AddressingMode::ZeroPage),
        0xE5 => row(code, Operation::Sbc, 2, 3, AddressingMode::ZeroPage),
        0xE6 => row(code, Operation::Inc, 2, 5, AddressingMode::ZeroPage),
        0xE7 => row(code, Operation::Isb, 2, 5, AddressingMode::ZeroPage),
        0xE8 => row(code, Operation::Inx, 1, 2, AddressingMode::NoneAddressing),
        0xE9 => row(code, Operation::Sbc, 2, 2, AddressingMode::Immediate),
        0xEA => row(code, Operation::Nop, 1, 2, AddressingMode::NoneAddressing),
        0xEB => row(code, Operation::Sbc, 2, 2, AddressingMode::Immediate),
        0xEC => row(code, Operation::Cpx, 3, 4, AddressingMode::Absolute),
        0xED => row(code, Operation::Sbc, 3, 4, AddressingMode::Absolute),
        0xEE => row(code, Operation::Inc, 3, 6, AddressingMode::Absolute),
        0xEF => row(code, Operation::Isb, 3, 6, AddressingMode::Absolute),
        0xF0 => row(code, Operation::Beq, 2, 2, AddressingMode::NoneAddressing),
        0xF1 => row(code, Operation::Sbc, 2, 5, AddressingMode::Indirect_Y),
        0xF2 => row(code, Operation::Nop, 1, 2, AddressingMode::NoneAddressing),
        0xF3 => row(code, Operation::Isb, 2, 8, AddressingMode::Indirect_Y),
        0xF4 => row(code, Operation::NopRead, 2, 4, AddressingMode::ZeroPage_X),
        0xF5 => row(code, Operation::Sbc, 2, 4, AddressingMode::ZeroPage_X),
        0xF6 => row(code, Operation::Inc, 2, 6, AddressingMode::ZeroPage_X),
        0xF7 => row(code, Operation::Isb, 2, 6, AddressingMode::ZeroPage_X),
        0xF8 => row(code, Operation::Sed, 1, 2, AddressingMode::NoneAddressing),
        0xF9 => row(code, Operation::Sbc, 3, 4, AddressingMode::Absolute_Y),
        0xFA => row(code, Operation::Nop, 1, 2, AddressingMode::NoneAddressing),
        0xFB => row(code, Operation::Isb, 3, 7, AddressingMode::Absolute_Y),
        0xFC => row(code, Operation::NopRead, 3, 4, AddressingMode::Absolute_X),
        0xFD => row(code, Operation::Sbc, 3, 4, AddressingMode::Absolute_X),
        0xFE => row(code, Operation::Inc, 3, 7, AddressingMode::Absolute_X),
        0xFF => row(code, Operation::Isb, 3, 7, AddressingMode::Absolute_X),
    }
}

/// Looks an opcode byte up in the instruction table. Every byte has an
/// entry.
pub fn lookup(code: u8) -> (r: OpCode)
    ensures
        r == entry(code),
{
    match code {
        0x00 => OpCode {
            code, operation: Operation::Brk, len: 1, cycles: 7, mode: AddressingMode::NoneAddressing,
        },
        0x01 => OpCode {
            code, operation: Operation::Ora, len: 2, cycles: 6, mode: AddressingMode::Indirect_X,
        },
        0x02 => OpCode {
            code, operation: Operation::Nop, len: 1, cycles: 2, mode: AddressingMode::NoneAddressing,
        },
        0x03 => OpCode {
            code, operation: Operation::Slo, len: 2, cycles: 8, mode: AddressingMode::Indirect_X,
        },
        0x04 => OpCode {
            code, operation: Operation::NopRead, len: 2, cycles: 3, mode: AddressingMode::ZeroPage,
        },
        0x05 => OpCode {
            code, operation: Operation::Ora, len: 2, cycles: 3, mode: AddressingMode::ZeroPage,
        },
        0x06 => OpCode {
            code, operation: Operation::Asl, len: 2, cycles: 5, mode: AddressingMode::ZeroPage,
        },
        0x07 => OpCode {
            code, operation: Operation::Slo, len: 2, cycles: 5, mode: AddressingMode::ZeroPage,
        },
        0x08 => OpCode {
            code, operation: Operation::Php, len: 1, cycles: 3, mode: AddressingMode::NoneAddressing,
        },
        0x09 => OpCode {
            code, operation: Operation::Ora, len: 2, cycles: 2, mode: AddressingMode::Immediate,
        },
        0x0A => OpCode {
            code, operation: Operation::AslAccumulator, len: 1, cycles: 2, mode: AddressingMode::NoneAddressing,
        },
        0x0B => OpCode {
            code, operation: Operation::Anc, len: 2, cycles: 2, mode: AddressingMode::Immediate,
        },
        0x0C => OpCode {
            code, operation: Operation::NopRead, len: 3, cycles: 4, mode: AddressingMode::Absolute,
        },
        0x0D => OpCode {
            code, operation: Operation::Ora, len: 3, cycles: 4, mode: AddressingMode::Absolute,
        },
        0x0E => OpCode {
            code, operation: Operation::Asl, len: 3, cycles: 6, mode: AddressingMode::Absolute,
        },
        0x0F => OpCode {
            code, operation: Operation::Slo, len: 3, cycles: 6, mode: AddressingMode::Absolute,
        },
        0x10 => OpCode {
            code, operation: Operation::Bpl, len: 2, cycles: 2, mode: AddressingMode::NoneAddressing,
        },
        0x11 => OpCode {
            code, operation: Operation::Ora, len: 2, cycles: 5, mode: AddressingMode::Indirect_Y,
        },
        0x12 => OpCode {
            code, operation: Operation::Nop, len: 1, cycles: 2, mode: AddressingMode::NoneAddressing,
        },
        0x13 => OpCode {
            code, operation: Operation::Slo, len: 2, cycles: 8, mode: AddressingMode::Indirect_Y,
        },
        0x14 => OpCode {
            code, operation: Operation::NopRead, len: 2, cycles: 4, mode: AddressingMode::ZeroPage_X,
        },
        0x15 => OpCode {
            code, operation: Operation::Ora, len: 2, cycles: 4, mode: AddressingMode::ZeroPage_X,
        },
        0x16 => OpCode {
            code, operation: Operation::Asl, len: 2, cycles: 6, mode: AddressingMode::ZeroPage_X,
        },
        0x17 => OpCode {
            code, operation: Operation::Slo, len: 2, cycles: 6, mode: AddressingMode::ZeroPage_X,
        },
        0x18 => OpCode {
            code, operation: Operation::Clc, len: 1, cycles: 2, mode: AddressingMode::NoneAddressing,
        },
        0x19 => OpCode {
            code, operation: Operation::Ora, len: 3, cycles: 4, mode: AddressingMode::Absolute_Y,
        },
        0x1A => OpCode {
            code, operation: Operation::Nop, len: 1, cycles: 2, mode: AddressingMode::NoneAddressing,
        },
        0x1B => OpCode {
            code, operation: Operation::Slo, len: 3, cycles: 7, mode: AddressingMode::Absolute_Y,
        },
        0x1C => OpCode {
            code, operation: Operation::NopRead, len: 3, cycles: 4, mode: AddressingMode::Absolute_X,
        },
        0x1D => OpCode {
            code, operation: Operation::Ora, len: 3, cycles: 4, mode: AddressingMode::Absolute_X,
        },
        0x1E => OpCode {
            code, operation: Operation::Asl, len: 3, cycles: 7, mode: AddressingMode::Absolute_X,
        },
        0x1F => OpCode {
            code, operation: Operation::Slo, len: 3, cycles: 7, mode: AddressingMode::Absolute_X,
        },
        0x20 => OpCode {
            code, operation: Operation::Jsr, len: 3, cycles: 6, mode: AddressingMode::NoneAddressing,
        },
        0x21 => OpCode {
            code, operation: Operation::And, len: 2, cycles: 6, mode: AddressingMode::Indirect_X,
        },
        0x22 => OpCode {
            code, operation: Operation::Nop, len: 1, cycles: 2, mode: AddressingMode::NoneAddressing,
        },
        0x23 => OpCode {
            code, operation: Operation::Rla, len: 2, cycles: 8, mode: AddressingMode::Indirect_X,
        },
        0x24 => OpCode {
            code, operation: Operation::Bit, len: 2, cycles: 3, mode: AddressingMode::ZeroPage,
        },
        0x25 => OpCode {
            code, operation: Operation::And, len: 2, cycles: 3, mode: AddressingMode::ZeroPage,
        },
        0x26 => OpCode {
            code, operation: Operation::Rol, len: 2, cycles: 5, mode: AddressingMode::ZeroPage,
        },
        0x27 => OpCode {
            code, operation: Operation::Rla, len: 2, cycles: 5, mode: AddressingMode::ZeroPage,
        },
        0x28 => OpCode {
            code, operation: Operation::Plp, len: 1, cycles: 4, mode: AddressingMode::NoneAddressing,
        },
        0x29 => OpCode {
            code, operation: Operation::And, len: 2, cycles: 2, mode: AddressingMode::Immediate,
        },
        0x2A => OpCode {
            code, operation: Operation::RolAccumulator, len: 1, cycles: 2, mode: AddressingMode::NoneAddressing,
        },
        0x2B => OpCode {
            code, operation: Operation::Anc, len: 2, cycles: 2, mode: AddressingMode::Immediate,
        },
        0x2C => OpCode {
            code, operation: Operation::Bit, len: 3, cycles: 4, mode: AddressingMode::Absolute,
        },
        0x2D => OpCode {
            code, operation: Operation::And, len: 3, cycles: 4, mode: AddressingMode::Absolute,
        },
        0x2E => OpCode {
            code, operation: Operation::Rol, len: 3, cycles: 6, mode: AddressingMode::Absolute,
        },
        0x2F => OpCode {
            code, operation: Operation::Rla, len: 3, cycles: 6, mode: AddressingMode::Absolute,
        },
        0x30 => OpCode {
            code, operation: Operation::Bmi, len: 2, cycles: 2, mode: AddressingMode::NoneAddressing,
        },
        0x31 => OpCode {
            code, operation: Operation::And, len: 2, cycles: 5, mode: AddressingMode::Indirect_Y,
        },
        0x32 => OpCode {
            code, operation: Operation::Nop, len: 1, cycles: 2, mode: AddressingMode::NoneAddressing,
        },
        0x33 => OpCode {
            code, operation: Operation::Rla, len: 2, cycles: 8, mode: AddressingMode::Indirect_Y,
        },
        0x34 => OpCode {
            code, operation: Operation::NopRead, len: 2, cycles: 4, mode: AddressingMode::ZeroPage_X,
        },
        0x35 => OpCode {
            code, operation: Operation::And, len: 2, cycles: 4, mode: AddressingMode::ZeroPage_X,
        },
        0x36 => OpCode {
            code, operation: Operation::Rol, len: 2, cycles: 6, mode: AddressingMode::ZeroPage_X,
        },
        0x37 => OpCode {
            code, operation: Operation::Rla, len: 2, cycles: 6, mode: AddressingMode::ZeroPage_X,
        },
        0x38 => OpCode {
            code, operation: Operation::Sec, len: 1, cycles: 2, mode: AddressingMode::NoneAddressing,
        },
        0x39 => OpCode {
            code, operation: Operation::And, len: 3, cycles: 4, mode: AddressingMode::Absolute_Y,
        },
        0x3A => OpCode {
            code, operation: Operation::Nop, len: 1, cycles: 2, mode: AddressingMode::NoneAddressing,
        },
        0x3B => OpCode {
            code, operation: Operation::Rla, len: 3, cycles: 7, mode: AddressingMode::Absolute_Y,
        },
        0x3C => OpCode {
            code, operation: Operation::NopRead, len: 3, cycles: 4, mode: AddressingMode::Absolute_X,
        },
        0x3D => OpCode {
            code, operation: Operation::And, len: 3, cycles: 4, mode: AddressingMode::Absolute_X,
        },
        0x3E => OpCode {
            code, operation: Operation::Rol, len: 3, cycles: 7, mode: AddressingMode::Absolute_X,
        },
        0x3F => OpCode {
            code, operation: Operation::Rla, len: 3, cycles: 7, mode: AddressingMode::Absolute_X,
        },
        0x40 => OpCode {
            code, operation: Operation::Rti, len: 1, cycles: 6, mode: AddressingMode::NoneAddressing,
        },
        0x41 => OpCode {
            code, operation: Operation::Eor, len: 2, cycles: 6, mode: AddressingMode::Indirect_X,
        },
        0x42 => OpCode {
            code, operation: Operation::Nop, len: 1, cycles: 2, mode: AddressingMode::NoneAddressing,
        },
        0x43 => OpCode {
            code, operation: Operation::Sre, len: 2, cycles: 8, mode: AddressingMode::Indirect_X,
        },
        0x44 => OpCode {
            code, operation: Operation::NopRead, len: 2, cycles: 3, mode: AddressingMode::ZeroPage,
        },
        0x45 => OpCode {
            code, operation: Operation::Eor, len: 2, cycles: 3, mode: AddressingMode::ZeroPage,
        },
        0x46 => OpCode {
            code, operation: Operation::Lsr, len: 2, cycles: 5, mode: AddressingMode::ZeroPage,
        },
        0x47 => OpCode {
            code, operation: Operation::Sre, len: 2, cycles: 5, mode: AddressingMode::ZeroPage,
        },
        0x48 => OpCode {
            code, operation: Operation::Pha, len: 1, cycles: 3, mode: AddressingMode::NoneAddressing,
        },
        0x49 => OpCode {
            code, operation: Operation::Eor, len: 2, cycles: 2, mode: AddressingMode::Immediate,
        },
        0x4A => OpCode {
            code, operation: Operation::LsrAccumulator, len: 1, cycles: 2, mode: AddressingMode::NoneAddressing,
        },
        0x4B => OpCode {
            code, operation: Operation::Alr, len: 2, cycles: 2, mode: AddressingMode::Immediate,
        },
        0x4C => OpCode {
            code, operation: Operation::JmpAbsolute, len: 3, cycles: 3, mode: AddressingMode::NoneAddressing,
        },
        0x4D => OpCode {
            code, operation: Operation::Eor, len: 3, cycles: 4, mode: AddressingMode::Absolute,
        },
        0x4E => OpCode {
            code, operation: Operation::Lsr, len: 3, cycles: 6, mode: AddressingMode::Absolute,
        },
        0x4F => OpCode {
            code, operation: Operation::Sre, len: 3, cycles: 6, mode: AddressingMode::Absolute,
        },
        0x50 => OpCode {
            code, operation: Operation::Bvc, len: 2, cycles: 2, mode: AddressingMode::NoneAddressing,
        },
        0x51 => OpCode {
            code, operation: Operation::Eor, len: 2, cycles: 5, mode: AddressingMode::Indirect_Y,
        },
        0x52 => OpCode {
            code, operation: Operation::Nop, len: 1, cycles: 2, mode: AddressingMode::NoneAddressing,
        },
        0x53 => OpCode {
            code, operation: Operation::Sre, len: 2, cycles: 8, mode: AddressingMode::Indirect_Y,
        },
        0x54 => OpCode {
            code, operation: Operation::NopRead, len: 2, cycles: 4, mode: AddressingMode::ZeroPage_X,
        },
        0x55 => OpCode {
            code, operation: Operation::Eor, len: 2, cycles: 4, mode: AddressingMode::ZeroPage_X,
        },
        0x56 => OpCode {
            code, operation: Operation::Lsr, len: 2, cycles: 6, mode: AddressingMode::ZeroPage_X,
        },
        0x57 => OpCode {
            code, operation: Operation::Sre, len: 2, cycles: 6, mode: AddressingMode::ZeroPage_X,
        },
        0x58 => OpCode {
            code, operation: Operation::Cli, len: 1, cycles: 2, mode: AddressingMode::NoneAddressing,
        },
        0x59 => OpCode {
            code, operation: Operation::Eor, len: 3, cycles: 4, mode: AddressingMode::Absolute_Y,
        },
        0x5A => OpCode {
            code, operation: Operation::Nop, len: 1, cycles: 2, mode: AddressingMode::NoneAddressing,
        },
        0x5B => OpCode {
            code, operation: Operation::Sre, len: 3, cycles: 7, mode: AddressingMode::Absolute_Y,
        },
        0x5C => OpCode {
            code, operation: Operation::NopRead, len: 3, cycles: 4, mode: AddressingMode::Absolute_X,
        },
        0x5D => OpCode {
            code, operation: Operation::Eor, len: 3, cycles: 4, mode: AddressingMode::Absolute_X,
        },
        0x5E => OpCode {
            code, operation: Operation::Lsr, len: 3, cycles: 7, mode: AddressingMode::Absolute_X,
        },
        0x5F => OpCode {
            code, operation: Operation::Sre, len: 3, cycles: 7, mode: AddressingMode::Absolute_X,
        },
        0x60 => OpCode {
            code, operation: Operation::Rts, len: 1, cycles: 6, mode: AddressingMode::NoneAddressing,
        },
        0x61 => OpCode {
            code, operation: Operation::Adc, len: 2, cycles: 6, mode: AddressingMode::Indirect_X,
        },
        0x62 => OpCode {
            code, operation: Operation::Nop, len: 1, cycles: 2, mode: AddressingMode::NoneAddressing,
        },
        0x63 => OpCode {
            code, operation: Operation::Rra, len: 2, cycles: 8, mode: AddressingMode::Indirect_X,
        },
        0x64 => OpCode {
            code, operation: Operation::NopRead, len: 2, cycles: 3, mode: AddressingMode::ZeroPage,
        },
        0x65 => OpCode {
            code, operation: Operation::Adc, len: 2, cycles: 3, mode: AddressingMode::ZeroPage,
        },
        0x66 => OpCode {
            code, operation: Operation::Ror, len: 2, cycles: 5, mode: AddressingMode::ZeroPage,
        },
        0x67 => OpCode {
            code, operation: Operation::Rra, len: 2, cycles: 5, mode: AddressingMode::ZeroPage,
        },
        0x68 => OpCode {
            code, operation: Operation::Pla, len: 1, cycles: 4, mode: AddressingMode::NoneAddressing,
        },
        0x69 => OpCode {
            code, operation: Operation::Adc, len: 2, cycles: 2, mode: AddressingMode::Immediate,
        },
        0x6A => OpCode {
            code, operation: Operation::RorAccumulator, len: 1, cycles: 2, mode: AddressingMode::NoneAddressing,
        },
        0x6B => OpCode {
            code, operation: Operation::Arr, len: 2, cycles: 2, mode: AddressingMode::Immediate,
        },
        0x6C => OpCode {
            code, operation: Operation::JmpIndirect, len: 3, cycles: 5, mode: AddressingMode::NoneAddressing,
        },
        0x6D => OpCode {
            code, operation: Operation::Adc, len: 3, cycles: 4, mode: AddressingMode::Absolute,
        },
        0x6E => OpCode {
            code, operation: Operation::Ror, len: 3, cycles: 6, mode: AddressingMode::Absolute,
        },
        0x6F => OpCode {
            code, operation: Operation::Rra, len: 3, cycles: 6, mode: AddressingMode::Absolute,
        },
        0x70 => OpCode {
            code, operation: Operation::Bvs, len: 2, cycles: 2, mode: AddressingMode::NoneAddressing,
        },
        0x71 => OpCode {
            code, operation: Operation::Adc, len: 2, cycles: 5, mode: AddressingMode::Indirect_Y,
        },
        0x72 => OpCode {
            code, operation: Operation::Nop, len: 1, cycles: 2, mode: AddressingMode::NoneAddressing,
        },
        0x73 => OpCode {
            code, operation: Operation::Rra, len: 2, cycles: 8, mode: AddressingMode::Indirect_Y,
        },
        0x74 => OpCode {
            code, operation: Operation::NopRead, len: 2, cycles: 4, mode: AddressingMode::ZeroPage_X,
        },
        0x75 => OpCode {
            code, operation: Operation::Adc, len: 2, cycles: 4, mode: AddressingMode::ZeroPage_X,
        },
        0x76 => OpCode {
            code, operation: Operation::Ror, len: 2, cycles: 6, mode: AddressingMode::ZeroPage_X,
        },
        0x77 => OpCode {
            code, operation: Operation::Rra, len: 2, cycles: 6, mode: AddressingMode::ZeroPage_X,
        },
        0x78 => OpCode {
            code, operation: Operation::Sei, len: 1, cycles: 2, mode: AddressingMode::NoneAddressing,
        },
        0x79 => OpCode {
            code, operation: Operation::Adc, len: 3, cycles: 4, mode: AddressingMode::Absolute_Y,
        },
        0x7A => OpCode {
            code, operation: Operation::Nop, len: 1, cycles: 2, mode: AddressingMode::NoneAddressing,
        },
        0x7B => OpCode {
            code, operation: Operation::Rra, len: 3, cycles: 7, mode: AddressingMode::Absolute_Y,
        },
        0x7C => OpCode {
            code, operation: Operation::NopRead, len: 3, cycles: 4, mode: AddressingMode::Absolute_X,
        },
        0x7D => OpCode {
            code, operation: Operation::Adc, len: 3, cycles: 4, mode: AddressingMode::Absolute_X,
        },
        0x7E => OpCode {
            code, operation: Operation::Ror, len: 3, cycles: 7, mode: AddressingMode::Absolute_X,
        },
        0x7F => OpCode {
            code, operation: Operation::Rra, len: 3, cycles: 7, mode: AddressingMode::Absolute_X,
        },
        0x80 => OpCode {
            code, operation: Operation::Skb, len: 2, cycles: 2, mode: AddressingMode::Immediate,
        },
        0x81 => OpCode {
            code, operation: Operation::Sta, len: 2, cycles: 6, mode: AddressingMode::Indirect_X,
        },
        0x82 => OpCode {
            code, operation: Operation::Skb, len: 2, cycles: 2, mode: AddressingMode::Immediate,
        },
        0x83 => OpCode {
            code, operation: Operation::Sax, len: 2, cycles: 6, mode: AddressingMode::Indirect_X,
        },
        0x84 => OpCode {
            code, operation: Operation::Sty, len: 2, cycles: 3, mode: AddressingMode::ZeroPage,
        },
        0x85 => OpCode {
            code, operation: Operation::Sta, len: 2, cycles: 3, mode: AddressingMode::ZeroPage,
        },
        0x86 => OpCode {
            code, operation: Operation::Stx, len: 2, cycles: 3, mode: AddressingMode::ZeroPage,
        },
        0x87 => OpCode {
            code, operation: Operation::Sax, len: 2, cycles: 3, mode: AddressingMode::ZeroPage,
        },
        0x88 => OpCode {
            code, operation: Operation::Dey, len: 1, cycles: 2, mode: AddressingMode::NoneAddressing,
        },
        0x89 => OpCode {
            code, operation: Operation::Skb, len: 2, cycles: 2, mode: AddressingMode::Immediate,
        },
        0x8A => OpCode {
            code, operation: Operation::Txa, len: 1, cycles: 2, mode: AddressingMode::NoneAddressing,
        },
        0x8B => OpCode {
            code, operation: Operation::Xaa, len: 2, cycles: 3, mode: AddressingMode::Immediate,
        },
        0x8C => OpCode {
            code, operation: Operation::Sty, len: 3, cycles: 4, mode: AddressingMode::Absolute,
        },
        0x8D => OpCode {
            code, operation: Operation::Sta, len: 3, cycles: 4, mode: AddressingMode::Absolute,
        },
        0x8E => OpCode {
            code, operation: Operation::Stx, len: 3, cycles: 4, mode: AddressingMode::Absolute,
        },
        0x8F => OpCode {
            code, operation: Operation::Sax, len: 3, cycles: 4, mode: AddressingMode::Absolute,
        },
        0x90 => OpCode {
            code, operation: Operation::Bcc, len: 2, cycles: 2, mode: AddressingMode::NoneAddressing,
        },
        0x91 => OpCode {
            code, operation: Operation::Sta, len: 2, cycles: 6, mode: AddressingMode::Indirect_Y,
        },
        0x92 => OpCode {
            code, operation: Operation::Nop, len: 1, cycles: 2, mode: AddressingMode::NoneAddressing,
        },
        0x93 => OpCode {
            code, operation: Operation::AhxIndirectY, len: 2, cycles: 8, mode: AddressingMode::Indirect_Y,
        },
        0x94 => OpCode {
            code, operation: Operation::Sty, len: 2, cycles: 4, mode: AddressingMode::ZeroPage_X,
        },
        0x95 => OpCode {
            code, operation: Operation::Sta, len: 2, cycles: 4, mode: AddressingMode::ZeroPage_X,
        },
        0x96 => OpCode {
            code, operation: Operation::Stx, len: 2, cycles: 4, mode: AddressingMode::ZeroPage_Y,
        },
        0x97 => OpCode {
            code, operation: Operation::Sax, len: 2, cycles: 4, mode: AddressingMode::ZeroPage_Y,
        },
        0x98 => OpCode {
            code, operation: Operation::Tya, len: 1, cycles: 2, mode: AddressingMode::NoneAddressing,
        },
        0x99 => OpCode {
            code, operation: Operation::Sta, len: 3, cycles: 5, mode: AddressingMode::Absolute_Y,
        },
        0x9A => OpCode {
            code, operation: Operation::Txs, len: 1, cycles: 2, mode: AddressingMode::NoneAddressing,
        },
        0x9B => OpCode {
            code, operation: Operation::Tas, len: 3, cycles: 2, mode: AddressingMode::Absolute_Y,
        },
        0x9C => OpCode {
            code, operation: Operation::Shy, len: 3, cycles: 4, mode: AddressingMode::Absolute_X,
        },
        0x9D => OpCode {
            code, operation: Operation::Sta, len: 3, cycles: 5, mode: AddressingMode::Absolute_X,
        },
        0x9E => OpCode {
            code, operation: Operation::Shx, len: 3, cycles: 4, mode: AddressingMode::Absolute_Y,
        },
        0x9F => OpCode {
            code, operation: Operation::AhxAbsoluteY, len: 3, cycles: 4, mode: AddressingMode::Absolute_Y,
        },
        0xA0 => OpCode {
            code, operation: Operation::Ldy, len: 2, cycles: 2, mode: AddressingMode::Immediate,
        },
        0xA1 => OpCode {
            code, operation: Operation::Lda, len: 2, cycles: 6, mode: AddressingMode::Indirect_X,
        },
        0xA2 => OpCode {
            code, operation: Operation::Ldx, len: 2, cycles: 2, mode: AddressingMode::Immediate,
        },
        0xA3 => OpCode {
            code, operation: Operation::Lax, len: 2, cycles: 6, mode: AddressingMode::Indirect_X,
        },
        0xA4 => OpCode {
            code, operation: Operation::Ldy, len: 2, cycles: 3, mode: AddressingMode::ZeroPage,
        },
        0xA5 => OpCode {
            code, operation: Operation::Lda, len: 2, cycles: 3, mode: AddressingMode::ZeroPage,
        },
        0xA6 => OpCode {
            code, operation: Operation::Ldx, len: 2, cycles: 3, mode: AddressingMode::ZeroPage,
        },
        0xA7 => OpCode {
            code, operation: Operation::Lax, len: 2, cycles: 3, mode: AddressingMode::ZeroPage,
        },
        0xA8 => OpCode {
            code, operation: Operation::Tay, len: 1, cycles: 2, mode: AddressingMode::NoneAddressing,
        },
        0xA9 => OpCode {
            code, operation: Operation::Lda, len: 2, cycles: 2, mode: AddressingMode::Immediate,
        },
        0xAA => OpCode {
            code, operation: Operation::Tax, len: 1, cycles: 2, mode: AddressingMode::NoneAddressing,
        },
        0xAB => OpCode {
            code, operation: Operation::Lxa, len: 2, cycles: 3, mode: AddressingMode::Immediate,
        },
        0xAC => OpCode {
            code, operation: Operation::Ldy, len: 3, cycles: 4, mode: AddressingMode::Absolute,
        },
        0xAD => OpCode {
            code, operation: Operation::Lda, len: 3, cycles: 4, mode: AddressingMode::Absolute,
        },
        0xAE => OpCode {
            code, operation: Operation::Ldx, len: 3, cycles: 4, mode: AddressingMode::Absolute,
        },
        0xAF => OpCode {
            code, operation: Operation::Lax, len: 3, cycles: 4, mode: AddressingMode::Absolute,
        },
        0xB0 => OpCode {
            code, operation: Operation::Bcs, len: 2, cycles: 2, mode: AddressingMode::NoneAddressing,
        },
        0xB1 => OpCode {
            code, operation: Operation::Lda, len: 2, cycles: 5, mode: AddressingMode::Indirect_Y,
        },
        0xB2 => OpCode {
            code, operation: Operation::Nop, len: 1, cycles: 2, mode: AddressingMode::NoneAddressing,
        },
        0xB3 => OpCode {
            code, operation: Operation::Lax, len: 2, cycles: 5, mode: AddressingMode::Indirect_Y,
        },
        0xB4 => OpCode {
            code, operation: Operation::Ldy, len: 2, cycles: 4, mode: AddressingMode::ZeroPage_X,
        },
        0xB5 => OpCode {
            code, operation: Operation::Lda, len: 2, cycles: 4, mode: AddressingMode::ZeroPage_X,
        },
        0xB6 => OpCode {
            code, operation: Operation::Ldx, len: 2, cycles: 4, mode: AddressingMode::ZeroPage_Y,
        },
        0xB7 => OpCode {
            code, operation: Operation::Lax, len: 2, cycles: 4, mode: AddressingMode::ZeroPage_Y,
        },
        0xB8 => OpCode {
            code, operation: Operation::Clv, len: 1, cycles: 2, mode: AddressingMode::NoneAddressing,
        },
        0xB9 => OpCode {
            code, operation: Operation::Lda, len: 3, cycles: 4, mode: AddressingMode::Absolute_Y,
        },
        0xBA => OpCode {
            code, operation: Operation::Tsx, len: 1, cycles: 2, mode: AddressingMode::NoneAddressing,
        },
        0xBB => OpCode {
            code, operation: Operation::Las, len: 3, cycles: 2, mode: AddressingMode::Absolute_Y,
        },
        0xBC => OpCode {
            code, operation: Operation::Ldy, len: 3, cycles: 4, mode: AddressingMode::Absolute_X,
        },
        0xBD => OpCode {
            code, operation: Operation::Lda, len: 3, cycles: 4, mode: AddressingMode::Absolute_X,
        },
        0xBE => OpCode {
            code, operation: Operation::Ldx, len: 3, cycles: 4, mode: AddressingMode::Absolute_Y,
        },
        0xBF => OpCode {
            code, operation: Operation::Lax, len: 3, cycles: 4, mode: AddressingMode::Absolute_Y,
        },
        0xC0 => OpCode {
            code, operation: Operation::Cpy, len: 2, cycles: 2, mode: AddressingMode::Immediate,
        },
        0xC1 => OpCode {
            code, operation: Operation::Compare, len: 2, cycles: 6, mode: AddressingMode::Indirect_X,
        },
        0xC2 => OpCode {
            code, operation: Operation::Skb, len: 2, cycles: 2, mode: AddressingMode::Immediate,
        },
        0xC3 => OpCode {
            code, operation: Operation::Dcp, len: 2, cycles: 8, mode: AddressingMode::Indirect_X,
        },
        0xC4 => OpCode {
            code, operation: Operation::Cpy, len: 2, cycles: 3, mode: AddressingMode::ZeroPage,
        },
        0xC5 => OpCode {
            code, operation: Operation::Compare, len: 2, cycles: 3, mode: AddressingMode::ZeroPage,
        },
        0xC6 => OpCode {
            code, operation: Operation::Dec, len: 2, cycles: 5, mode: AddressingMode::ZeroPage,
        },
        0xC7 => OpCode {
            code, operation: Operation::Dcp, len: 2, cycles: 5, mode: AddressingMode::ZeroPage,
        },
        0xC8 => OpCode {
            code, operation: Operation::Iny, len: 1, cycles: 2, mode: AddressingMode::NoneAddressing,
        },
        0xC9 => OpCode {
            code, operation: Operation::Compare, len: 2, cycles: 2, mode: AddressingMode::Immediate,
        },
        0xCA => OpCode {
            code, operation: Operation::Dex, len: 1, cycles: 2, mode: AddressingMode::NoneAddressing,
        },
        0xCB => OpCode {
            code, operation: Operation::Axs, len: 2, cycles: 2, mode: AddressingMode::Immediate,
        },
        0xCC => OpCode {
            code, operation: Operation::Cpy, len: 3, cycles: 4, mode: AddressingMode::Absolute,
        },
        0xCD => OpCode {
            code, operation: Operation::Compare, len: 3, cycles: 4, mode: AddressingMode::Absolute,
        },
        0xCE => OpCode {
            code, operation: Operation::Dec, len: 3, cycles: 6, mode: AddressingMode::Absolute,
        },
        0xCF => OpCode {
            code, operation: Operation::Dcp, len: 3, cycles: 6, mode: AddressingMode::Absolute,
        },
        0xD0 => OpCode {
            code, operation: Operation::Bne, len: 2, cycles: 2, mode: AddressingMode::NoneAddressing,
        },
        0xD1 => OpCode {
            code, operation: Operation::Compare, len: 2, cycles: 5, mode: AddressingMode::Indirect_Y,
        },
        0xD2 => OpCode {
            code, operation: Operation::Nop, len: 1, cycles: 2, mode: AddressingMode::NoneAddressing,
        },
        0xD3 => OpCode {
            code, operation: Operation::Dcp, len: 2, cycles: 8, mode: AddressingMode::Indirect_Y,
        },
        0xD4 => OpCode {
            code, operation: Operation::NopRead, len: 2, cycles: 4, mode: AddressingMode::ZeroPage_X,
        },
        0xD5 => OpCode {
            code, operation: Operation::Compare, len: 2, cycles: 4, mode: AddressingMode::ZeroPage_X,
        },
        0xD6 => OpCode {
            code, operation: Operation::Dec, len: 2, cycles: 6, mode: AddressingMode::ZeroPage_X,
        },
        0xD7 => OpCode {
            code, operation: Operation::Dcp, len: 2, cycles: 6, mode: AddressingMode::ZeroPage_X,
        },
        0xD8 => OpCode {
            code, operation: Operation::Cld, len: 1, cycles: 2, mode: AddressingMode::NoneAddressing,
        },
        0xD9 => OpCode {
            code, operation: Operation::Compare, len: 3, cycles: 4, mode: AddressingMode::Absolute_Y,
        },
        0xDA => OpCode {
            code, operation: Operation::Nop, len: 1, cycles: 2, mode: AddressingMode::NoneAddressing,
        },
        0xDB => OpCode {
            code, operation: Operation::Dcp, len: 3, cycles: 7, mode: AddressingMode::Absolute_Y,
        },
        0xDC => OpCode {
            code, operation: Operation::NopRead, len: 3, cycles: 4, mode: AddressingMode::Absolute_X,
        },
        0xDD => OpCode {
            code, operation: Operation::Compare, len: 3, cycles: 4, mode: AddressingMode::Absolute_X,
        },
        0xDE => OpCode {
            code, operation: Operation::Dec, len: 3, cycles: 7, mode: AddressingMode::Absolute_X,
        },
        0xDF => OpCode {
            code, operation: Operation::Dcp, len: 3, cycles: 7, mode: AddressingMode::Absolute_X,
        },
        0xE0 => OpCode {
            code, operation: Operation::Cpx, len: 2, cycles: 2, mode: AddressingMode::Immediate,
        },
        0xE1 => OpCode {
            code, operation: Operation::Sbc, len: 2, cycles: 6, mode: AddressingMode::Indirect_X,
        },
        0xE2 => OpCode {
            code, operation: Operation::Skb, len: 2, cycles: 2, mode: AddressingMode::Immediate,
        },
        0xE3 => OpCode {
            code, operation: Operation::Isb, len: 2, cycles: 8, mode: AddressingMode::Indirect_X,
        },
        0xE4 => OpCode {
            code, operation: Operation::Cpx, len: 2, cycles: 3, mode: AddressingMode::ZeroPage,
        },
        0xE5 => OpCode {
            code, operation: Operation::Sbc, len: 2, cycles: 3, mode: AddressingMode::ZeroPage,
        },
        0xE6 => OpCode {
            code, operation: Operation::Inc, len: 2, cycles: 5, mode: AddressingMode::ZeroPage,
        },
        0xE7 => OpCode {
            code, operation: Operation::Isb, len: 2, cycles: 5, mode: AddressingMode::ZeroPage,
        },
        0xE8 => OpCode {
            code, operation: Operation::Inx, len: 1, cycles: 2, mode: AddressingMode::NoneAddressing,
        },
        0xE9 => OpCode {
            code, operation: Operation::Sbc, len: 2, cycles: 2, mode: AddressingMode::Immediate,
        },
        0xEA => OpCode {
            code, operation: Operation::Nop, len: 1, cycles: 2, mode: AddressingMode::NoneAddressing,
        },
        0xEB => OpCode {
            code, operation: Operation::Sbc, len: 2, cycles: 2, mode: AddressingMode::Immediate,
        },
        0xEC => OpCode {
            code, operation: Operation::Cpx, len: 3, cycles: 4, mode: AddressingMode::Absolute,
        },
        0xED => OpCode {
            code, operation: Operation::Sbc, len: 3, cycles: 4, mode: AddressingMode::Absolute,
        },
        0xEE => OpCode {
            code, operation: Operation::Inc, len: 3, cycles: 6, mode: AddressingMode::Absolute,
        },
        0xEF => OpCode {
            code, operation: Operation::Isb, len: 3, cycles: 6, mode: AddressingMode::Absolute,
        },
        0xF0 => OpCode {
            code, operation: Operation::Beq, len: 2, cycles: 2, mode: AddressingMode::NoneAddressing,
        },
        0xF1 => OpCode {
            code, operation: Operation::Sbc, len: 2, cycles: 5, mode: AddressingMode::Indirect_Y,
        },
        0xF2 => OpCode {
            code, operation: Operation::Nop, len: 1, cycles: 2, mode: AddressingMode::NoneAddressing,
        },
        0xF3 => OpCode {
            code, operation: Operation::Isb, len: 2, cycles: 8, mode: AddressingMode::Indirect_Y,
        },
        0xF4 => OpCode {
            code, operation: Operation::NopRead, len: 2, cycles: 4, mode: AddressingMode::ZeroPage_X,
        },
        0xF5 => OpCode {
            code, operation: Operation::Sbc, len: 2, cycles: 4, mode: AddressingMode::ZeroPage_X,
        },
        0xF6 => OpCode {
            code, operation: Operation::Inc, len: 2, cycles: 6, mode: AddressingMode::ZeroPage_X,
        },
        0xF7 => OpCode {
            code, operation: Operation::Isb, len: 2, cycles: 6, mode: AddressingMode::ZeroPage_X,
        },
        0xF8 => OpCode {
            code, operation: Operation::Sed, len: 1, cycles: 2, mode: AddressingMode::NoneAddressing,
        },
        0xF9 => OpCode {
            code, operation: Operation::Sbc, len: 3, cycles: 4, mode: AddressingMode::Absolute_Y,
        },
        0xFA => OpCode {
            code, operation: Operation::Nop, len: 1, cycles: 2, mode: AddressingMode::NoneAddressing,
        },
        0xFB => OpCode {
            code, operation: Operation::Isb, len: 3, cycles: 7, mode: AddressingMode::Absolute_Y,
        },
        0xFC => OpCode {
            code, operation: Operation::NopRead, len: 3, cycles: 4, mode: AddressingMode::Absolute_X,
        },
        0xFD => OpCode {
            code, operation: Operation::Sbc, len: 3, cycles: 4, mode: AddressingMode::Absolute_X,
        },
        0xFE => OpCode {
            code, operation: Operation::Inc, len: 3, cycles: 7, mode: AddressingMode::Absolute_X,
        },
        0xFF => OpCode {
            code, operation: Operation::Isb, len: 3, cycles: 7, mode: AddressingMode::Absolute_X,
        },
    }
}

/// The table is exhaustive and consistent: each byte's entry carries that
/// byte, a length of one to three bytes that fits its addressing mode, and a
/// cost of one to eight cycles; and an operation that finds its operand
/// through the addressing mode always has one.
pub proof fn lemma_table_exhaustive(code: u8)
    ensures
        entry(code).code == code,
        1 <= entry(code).len <= 3,
        1 <= entry(code).cycles <= 8,
        !(entry(code).mode is NoneAddressing) ==> entry(code).len == 1 + operand_bytes(
            entry(code).mode,
        ),
        entry(code).operation.uses_mode() ==> !(entry(code).mode is NoneAddressing),
{
}

} // verus!
