//! The opcode table: for each documented opcode byte, its instruction,
//! encoded length and addressing mode.
use crate::cpu::AddressingMode;
use crate::cpu::AddressingMode::{
    Absolute, Absolute_X, Absolute_Y, Immediate, Indirect, Indirect_X, Indirect_Y, NoneAddressing,
    ZeroPage, ZeroPage_X, ZeroPage_Y,
};
use vstd::prelude::*;

verus! {

/// The documented 6502 instructions.
#[derive(Clone, Copy, Debug, PartialEq, Eq, Structural)]
pub enum Mnemonic {
    Adc,
    And,
    Asl,
    Bcc,
    Bcs,
    Beq,
    Bit,
    Bmi,
    Bne,
    Bpl,
    Brk,
    Bvc,
    Bvs,
    Clc,
    Cld,
    Cli,
    Clv,
    Cmp,
    Cpx,
    Cpy,
    Dec,
    Dex,
    Dey,
    Eor,
    Inc,
    Inx,
    Iny,
    Jmp,
    Jsr,
    Lda,
    Ldx,
    Ldy,
    Lsr,
    Nop,
    Ora,
    Pha,
    Php,
    Pla,
    Plp,
    Rol,
    Ror,
    Rti,
    Rts,
    Sbc,
    Sec,
    Sed,
    Sei,
    Sta,
    Stx,
    Sty,
    Tax,
    Tay,
    Tsx,
    Txa,
    Txs,
    Tya,
}

use Mnemonic::{
    Adc, And, Asl, Bcc, Bcs, Beq, Bit, Bmi, Bne, Bpl, Brk, Bvc,
    Bvs, Clc, Cld, Cli, Clv, Cmp, Cpx, Cpy, Dec, Dex, Dey, Eor,
    Inc, Inx, Iny, Jmp, Jsr, Lda, Ldx, Ldy, Lsr, Nop, Ora, Pha,
    Php, Pla, Plp, Rol, Ror, Rti, Rts, Sbc, Sec, Sed, Sei, Sta,
    Stx, Sty, Tax, Tay, Tsx, Txa, Txs, Tya,
};

/// One entry of the opcode table.
#[derive(Clone, Copy, Debug, PartialEq, Eq, Structural)]
pub struct OpCode {
    pub code: u8,
    pub mnemonic: Mnemonic,
    pub len: u8,
    pub mode: AddressingMode,
}

/// The table itself: the entry for `code`, if it is a documented opcode.
pub open spec fn opcode_table(code: u8) -> Option<OpCode> {
    match code {
        0x00 => Some(OpCode { code: 0x00, mnemonic: Brk, len: 1, mode: NoneAddressing }),
        0x01 => Some(OpCode { code: 0x01, mnemonic: Ora, len: 2, mode: Indirect_X }),
        0x05 => Some(OpCode { code: 0x05, mnemonic: Ora, len: 2, mode: ZeroPage }),
        0x06 => Some(OpCode { code: 0x06, mnemonic: Asl, len: 2, mode: ZeroPage }),
        0x08 => Some(OpCode { code: 0x08, mnemonic: Php, len: 1, mode: NoneAddressing }),
        0x09 => Some(OpCode { code: 0x09, mnemonic: Ora, len: 2, mode: Immediate }),
        0x0a => Some(OpCode { code: 0x0a, mnemonic: Asl, len: 1, mode: NoneAddressing }),
        0x0d => Some(OpCode { code: 0x0d, mnemonic: Ora, len: 3, mode: Absolute }),
        0x0e => Some(OpCode { code: 0x0e, mnemonic: Asl, len: 3, mode: Absolute }),
        0x10 => Some(OpCode { code: 0x10, mnemonic: Bpl, len: 2, mode: NoneAddressing }),
        0x11 => Some(OpCode { code: 0x11, mnemonic: Ora, len: 2, mode: Indirect_Y }),
        0x15 => Some(OpCode { code: 0x15, mnemonic: Ora, len: 2, mode: ZeroPage_X }),
        0x16 => Some(OpCode { code: 0x16, mnemonic: Asl, len: 2, mode: ZeroPage_X }),
        0x18 => Some(OpCode { code: 0x18, mnemonic: Clc, len: 1, mode: NoneAddressing }),
        0x19 => Some(OpCode { code: 0x19, mnemonic: Ora, len: 3, mode: Absolute_Y }),
        0x1d => Some(OpCode { code: 0x1d, mnemonic: Ora, len: 3, mode: Absolute_X }),
        0x1e => Some(OpCode { code: 0x1e, mnemonic: Asl, len: 3, mode: Absolute_X }),
        0x20 => Some(OpCode { code: 0x20, mnemonic: Jsr, len: 3, mode: Absolute }),
        0x21 => Some(OpCode { code: 0x21, mnemonic: And, len: 2, mode: Indirect_X }),
        0x24 => Some(OpCode { code: 0x24, mnemonic: Bit, len: 2, mode: ZeroPage }),
        0x25 => Some(OpCode { code: 0x25, mnemonic: And, len: 2, mode: ZeroPage }),
        0x26 => Some(OpCode { code: 0x26, mnemonic: Rol, len: 2, mode: ZeroPage }),
        0x28 => Some(OpCode { code: 0x28, mnemonic: Plp, len: 1, mode: NoneAddressing }),
        0x29 => Some(OpCode { code: 0x29, mnemonic: And, len: 2, mode: Immediate }),
        0x2a => Some(OpCode { code: 0x2a, mnemonic: Rol, len: 1, mode: NoneAddressing }),
        0x2c => Some(OpCode { code: 0x2c, mnemonic: Bit, len: 3, mode: Absolute }),
        0x2d => Some(OpCode { code: 0x2d, mnemonic: And, len: 3, mode: Absolute }),
        0x2e => Some(OpCode { code: 0x2e, mnemonic: Rol, len: 3, mode: Absolute }),
        0x30 => Some(OpCode { code: 0x30, mnemonic: Bmi, len: 2, mode: NoneAddressing }),
        0x31 => Some(OpCode { code: 0x31, mnemonic: And, len: 2, mode: Indirect_Y }),
        0x35 => Some(OpCode { code: 0x35, mnemonic: And, len: 2, mode: ZeroPage_X }),
        0x36 => Some(OpCode { code: 0x36, mnemonic: Rol, len: 2, mode: ZeroPage_X }),
        0x38 => Some(OpCode { code: 0x38, mnemonic: Sec, len: 1, mode: NoneAddressing }),
        0x39 => Some(OpCode { code: 0x39, mnemonic: And, len: 3, mode: Absolute_Y }),
        0x3d => Some(OpCode { code: 0x3d, mnemonic: And, len: 3, mode: Absolute_X }),
        0x3e => Some(OpCode { code: 0x3e, mnemonic: Rol, len: 3, mode: Absolute_X }),
        0x40 => Some(OpCode { code: 0x40, mnemonic: Rti, len: 1, mode: NoneAddressing }),
        0x41 => Some(OpCode { code: 0x41, mnemonic: Eor, len: 2, mode: Indirect_X }),
        0x45 => Some(OpCode { code: 0x45, mnemonic: Eor, len: 2, mode: ZeroPage }),
        0x46 => Some(OpCode { code: 0x46, mnemonic: Lsr, len: 2, mode: ZeroPage }),
        0x48 => Some(OpCode { code: 0x48, mnemonic: Pha, len: 1, mode: NoneAddressing }),
        0x49 => Some(OpCode { code: 0x49, mnemonic: Eor, len: 2, mode: Immediate }),
        0x4a => Some(OpCode { code: 0x4a, mnemonic: Lsr, len: 1, mode: NoneAddressing }),
        0x4c => Some(OpCode { code: 0x4c, mnemonic: Jmp, len: 3, mode: Absolute }),
        0x4d => Some(OpCode { code: 0x4d, mnemonic: Eor, len: 3, mode: Absolute }),
        0x4e => Some(OpCode { code: 0x4e, mnemonic: Lsr, len: 3, mode: Absolute }),
        0x50 => Some(OpCode { code: 0x50, mnemonic: Bvc, len: 2, mode: NoneAddressing }),
        0x51 => Some(OpCode { code: 0x51, mnemonic: Eor, len: 2, mode: Indirect_Y }),
        0x55 => Some(OpCode { code: 0x55, mnemonic: Eor, len: 2, mode: ZeroPage_X }),
        0x56 => Some(OpCode { code: 0x56, mnemonic: Lsr, len: 2, mode: ZeroPage_X }),
        0x58 => Some(OpCode { code: 0x58, mnemonic: Cli, len: 1, mode: NoneAddressing }),
        0x59 => Some(OpCode { code: 0x59, mnemonic: Eor, len: 3, mode: Absolute_Y }),
        0x5d => Some(OpCode { code: 0x5d, mnemonic: Eor, len: 3, mode: Absolute_X }),
        0x5e => Some(OpCode { code: 0x5e, mnemonic: Lsr, len: 3, mode: Absolute_X }),
        0x60 => Some(OpCode { code: 0x60, mnemonic: Rts, len: 1, mode: NoneAddressing }),
        0x61 => Some(OpCode { code: 0x61, mnemonic: Adc, len: 2, mode: Indirect_X }),
        0x65 => Some(OpCode { code: 0x65, mnemonic: Adc, len: 2, mode: ZeroPage }),
        0x66 => Some(OpCode { code: 0x66, mnemonic: Ror, len: 2, mode: ZeroPage }),
        0x68 => Some(OpCode { code: 0x68, mnemonic: Pla, len: 1, mode: NoneAddressing }),
        0x69 => Some(OpCode { code: 0x69, mnemonic: Adc, len: 2, mode: Immediate }),
        0x6a => Some(OpCode { code: 0x6a, mnemonic: Ror, len: 1, mode: NoneAddressing }),
        0x6c => Some(OpCode { code: 0x6c, mnemonic: Jmp, len: 3, mode: Indirect }),
        0x6d => Some(OpCode { code: 0x6d, mnemonic: Adc, len: 3, mode: Absolute }),
        0x6e => Some(OpCode { code: 0x6e, mnemonic: Ror, len: 3, mode: Absolute }),
        0x70 => Some(OpCode { code: 0x70, mnemonic: Bvs, len: 2, mode: NoneAddressing }),
        0x71 => Some(OpCode { code: 0x71, mnemonic: Adc, len: 2, mode: Indirect_Y }),
        0x75 => Some(OpCode { code: 0x75, mnemonic: Adc, len: 2, mode: ZeroPage_X }),
        0x76 => Some(OpCode { code: 0x76, mnemonic: Ror, len: 2, mode: ZeroPage_X }),
        0x78 => Some(OpCode { code: 0x78, mnemonic: Sei, len: 1, mode: NoneAddressing }),
        0x79 => Some(OpCode { code: 0x79, mnemonic: Adc, len: 3, mode: Absolute_Y }),
        0x7d => Some(OpCode { code: 0x7d, mnemonic: Adc, len: 3, mode: Absolute_X }),
        0x7e => Some(OpCode { code: 0x7e, mnemonic: Ror, len: 3, mode: Absolute_X }),
        0x81 => Some(OpCode { code: 0x81, mnemonic: Sta, len: 2, mode: Indirect_X }),
        0x84 => Some(OpCode { code: 0x84, mnemonic: Sty, len: 2, mode: ZeroPage }),
        0x85 => Some(OpCode { code: 0x85, mnemonic: Sta, len: 2, mode: ZeroPage }),
        0x86 => Some(OpCode { code: 0x86, mnemonic: Stx, len: 2, mode: ZeroPage }),
        0x88 => Some(OpCode { code: 0x88, mnemonic: Dey, len: 1, mode: NoneAddressing }),
        0x8a => Some(OpCode { code: 0x8a, mnemonic: Txa, len: 1, mode: NoneAddressing }),
        0x8c => Some(OpCode { code: 0x8c, mnemonic: Sty, len: 3, mode: Absolute }),
        0x8d => Some(OpCode { code: 0x8d, mnemonic: Sta, len: 3, mode: Absolute }),
        0x8e => Some(OpCode { code: 0x8e, mnemonic: Stx, len: 3, mode: Absolute }),
        0x90 => Some(OpCode { code: 0x90, mnemonic: Bcc, len: 2, mode: NoneAddressing }),
        0x91 => Some(OpCode { code: 0x91, mnemonic: Sta, len: 2, mode: Indirect_Y }),
        0x94 => Some(OpCode { code: 0x94, mnemonic: Sty, len: 2, mode: ZeroPage_X }),
        0x95 => Some(OpCode { code: 0x95, mnemonic: Sta, len: 2, mode: ZeroPage_X }),
        0x96 => Some(OpCode { code: 0x96, mnemonic: Stx, len: 2, mode: ZeroPage_Y }),
        0x98 => Some(OpCode { code: 0x98, mnemonic: Tya, len: 1, mode: NoneAddressing }),
        0x99 => Some(OpCode { code: 0x99, mnemonic: Sta, len: 3, mode: Absolute_Y }),
        0x9a => Some(OpCode { code: 0x9a, mnemonic: Txs, len: 1, mode: NoneAddressing }),
        0x9d => Some(OpCode { code: 0x9d, mnemonic: Sta, len: 3, mode: Absolute_X }),
        0xa0 => Some(OpCode { code: 0xa0, mnemonic: Ldy, len: 2, mode: Immediate }),
        0xa1 => Some(OpCode { code: 0xa1, mnemonic: Lda, len: 2, mode: Indirect_X }),
        0xa2 => Some(OpCode { code: 0xa2, mnemonic: Ldx, len: 2, mode: Immediate }),
        0xa4 => Some(OpCode { code: 0xa4, mnemonic: Ldy, len: 2, mode: ZeroPage }),
        0xa5 => Some(OpCode { code: 0xa5, mnemonic: Lda, len: 2, mode: ZeroPage }),
        0xa6 => Some(OpCode { code: 0xa6, mnemonic: Ldx, len: 2, mode: ZeroPage }),
        0xa8 => Some(OpCode { code: 0xa8, mnemonic: Tay, len: 1, mode: NoneAddressing }),
        0xa9 => Some(OpCode { code: 0xa9, mnemonic: Lda, len: 2, mode: Immediate }),
        0xaa => Some(OpCode { code: 0xaa, mnemonic: Tax, len: 1, mode: NoneAddressing }),
        0xac => Some(OpCode { code: 0xac, mnemonic: Ldy, len: 3, mode: Absolute }),
        0xad => Some(OpCode { code: 0xad, mnemonic: Lda, len: 3, mode: Absolute }),
        0xae => Some(OpCode { code: 0xae, mnemonic: Ldx, len: 3, mode: Absolute }),
        0xb0 => Some(OpCode { code: 0xb0, mnemonic: Bcs, len: 2, mode: NoneAddressing }),
        0xb1 => Some(OpCode { code: 0xb1, mnemonic: Lda, len: 2, mode: Indirect_Y }),
        0xb4 => Some(OpCode { code: 0xb4, mnemonic: Ldy, len: 2, mode: ZeroPage_X }),
        0xb5 => Some(OpCode { code: 0xb5, mnemonic: Lda, len: 2, mode: ZeroPage_X }),
        0xb6 => Some(OpCode { code: 0xb6, mnemonic: Ldx, len: 2, mode: ZeroPage_Y }),
        0xb8 => Some(OpCode { code: 0xb8, mnemonic: Clv, len: 1, mode: NoneAddressing }),
        0xb9 => Some(OpCode { code: 0xb9, mnemonic: Lda, len: 3, mode: Absolute_Y }),
        0xba => Some(OpCode { code: 0xba, mnemonic: Tsx, len: 1, mode: NoneAddressing }),
        0xbc => Some(OpCode { code: 0xbc, mnemonic: Ldy, len: 3, mode: Absolute_X }),
        0xbd => Some(OpCode { code: 0xbd, mnemonic: Lda, len: 3, mode: Absolute_X }),
        0xbe => Some(OpCode { code: 0xbe, mnemonic: Ldx, len: 3, mode: Absolute_Y }),
        0xc0 => Some(OpCode { code: 0xc0, mnemonic: Cpy, len: 2, mode: Immediate }),
        0xc1 => Some(OpCode { code: 0xc1, mnemonic: Cmp, len: 2, mode: Indirect_X }),
        0xc4 => Some(OpCode { code: 0xc4, mnemonic: Cpy, len: 2, mode: ZeroPage }),
        0xc5 => Some(OpCode { code: 0xc5, mnemonic: Cmp, len: 2, mode: ZeroPage }),
        0xc6 => Some(OpCode { code: 0xc6, mnemonic: Dec, len: 2, mode: ZeroPage }),
        0xc8 => Some(OpCode { code: 0xc8, mnemonic: Iny, len: 1, mode: NoneAddressing }),
        0xc9 => Some(OpCode { code: 0xc9, mnemonic: Cmp, len: 2, mode: Immediate }),
        0xca => Some(OpCode { code: 0xca, mnemonic: Dex, len: 1, mode: NoneAddressing }),
        0xcc => Some(OpCode { code: 0xcc, mnemonic: Cpy, len: 3, mode: Absolute }),
        0xcd => Some(OpCode { code: 0xcd, mnemonic: Cmp, len: 3, mode: Absolute }),
        0xce => Some(OpCode { code: 0xce, mnemonic: Dec, len: 3, mode: Absolute }),
        0xd0 => Some(OpCode { code: 0xd0, mnemonic: Bne, len: 2, mode: NoneAddressing }),
        0xd1 => Some(OpCode { code: 0xd1, mnemonic: Cmp, len: 2, mode: Indirect_Y }),
        0xd5 => Some(OpCode { code: 0xd5, mnemonic: Cmp, len: 2, mode: ZeroPage_X }),
        0xd6 => Some(OpCode { code: 0xd6, mnemonic: Dec, len: 2, mode: ZeroPage_X }),
        0xd8 => Some(OpCode { code: 0xd8, mnemonic: Cld, len: 1, mode: NoneAddressing }),
        0xd9 => Some(OpCode { code: 0xd9, mnemonic: Cmp, len: 3, mode: Absolute_Y }),
        0xdd => Some(OpCode { code: 0xdd, mnemonic: Cmp, len: 3, mode: Absolute_X }),
        0xde => Some(OpCode { code: 0xde, mnemonic: Dec, len: 3, mode: Absolute_X }),
        0xe0 => Some(OpCode { code: 0xe0, mnemonic: Cpx, len: 2, mode: Immediate }),
        0xe1 => Some(OpCode { code: 0xe1, mnemonic: Sbc, len: 2, mode: Indirect_X }),
        0xe4 => Some(OpCode { code: 0xe4, mnemonic: Cpx, len: 2, mode: ZeroPage }),
        0xe5 => Some(OpCode { code: 0xe5, mnemonic: Sbc, len: 2, mode: ZeroPage }),
        0xe6 => Some(OpCode { code: 0xe6, mnemonic: Inc, len: 2, mode: ZeroPage }),
        0xe8 => Some(OpCode { code: 0xe8, mnemonic: Inx, len: 1, mode: NoneAddressing }),
        0xe9 => Some(OpCode { code: 0xe9, mnemonic: Sbc, len: 2, mode: Immediate }),
        0xea => Some(OpCode { code: 0xea, mnemonic: Nop, len: 1, mode: NoneAddressing }),
        0xec => Some(OpCode { code: 0xec, mnemonic: Cpx, len: 3, mode: Absolute }),
        0xed => Some(OpCode { code: 0xed, mnemonic: Sbc, len: 3, mode: Absolute }),
        0xee => Some(OpCode { code: 0xee, mnemonic: Inc, len: 3, mode: Absolute }),
        0xf0 => Some(OpCode { code: 0xf0, mnemonic: Beq, len: 2, mode: NoneAddressing }),
        0xf1 => Some(OpCode { code: 0xf1, mnemonic: Sbc, len: 2, mode: Indirect_Y }),
        0xf5 => Some(OpCode { code: 0xf5, mnemonic: Sbc, len: 2, mode: ZeroPage_X }),
        0xf6 => Some(OpCode { code: 0xf6, mnemonic: Inc, len: 2, mode: ZeroPage_X }),
        0xf8 => Some(OpCode { code: 0xf8, mnemonic: Sed, len: 1, mode: NoneAddressing }),
        0xf9 => Some(OpCode { code: 0xf9, mnemonic: Sbc, len: 3, mode: Absolute_Y }),
        0xfd => Some(OpCode { code: 0xfd, mnemonic: Sbc, len: 3, mode: Absolute_X }),
        0xfe => Some(OpCode { code: 0xfe, mnemonic: Inc, len: 3, mode: Absolute_X }),
        _ => None,
    }
}

/// Looks `code` up in the opcode table.
pub fn lookup(code: u8) -> (r: Option<OpCode>)
    ensures
        r == opcode_table(code),
{
    match code {
        0x00 => Some(OpCode { code: 0x00, mnemonic: Brk, len: 1, mode: NoneAddressing }),
        0x01 => Some(OpCode { code: 0x01, mnemonic: Ora, len: 2, mode: Indirect_X }),
        0x05 => Some(OpCode { code: 0x05, mnemonic: Ora, len: 2, mode: ZeroPage }),
        0x06 => Some(OpCode { code: 0x06, mnemonic: Asl, len: 2, mode: ZeroPage }),
        0x08 => Some(OpCode { code: 0x08, mnemonic: Php, len: 1, mode: NoneAddressing }),
        0x09 => Some(OpCode { code: 0x09, mnemonic: Ora, len: 2, mode: Immediate }),
        0x0a => Some(OpCode { code: 0x0a, mnemonic: Asl, len: 1, mode: NoneAddressing }),
        0x0d => Some(OpCode { code: 0x0d, mnemonic: Ora, len: 3, mode: Absolute }),
        0x0e => Some(OpCode { code: 0x0e, mnemonic: Asl, len: 3, mode: Absolute }),
        0x10 => Some(OpCode { code: 0x10, mnemonic: Bpl, len: 2, mode: NoneAddressing }),
        0x11 => Some(OpCode { code: 0x11, mnemonic: Ora, len: 2, mode: Indirect_Y }),
        0x15 => Some(OpCode { code: 0x15, mnemonic: Ora, len: 2, mode: ZeroPage_X }),
        0x16 => Some(OpCode { code: 0x16, mnemonic: Asl, len: 2, mode: ZeroPage_X }),
        0x18 => Some(OpCode { code: 0x18, mnemonic: Clc, len: 1, mode: NoneAddressing }),
        0x19 => Some(OpCode { code: 0x19, mnemonic: Ora, len: 3, mode: Absolute_Y }),
        0x1d => Some(OpCode { code: 0x1d, mnemonic: Ora, len: 3, mode: Absolute_X }),
        0x1e => Some(OpCode { code: 0x1e, mnemonic: Asl, len: 3, mode: Absolute_X }),
        0x20 => Some(OpCode { code: 0x20, mnemonic: Jsr, len: 3, mode: Absolute }),
        0x21 => Some(OpCode { code: 0x21, mnemonic: And, len: 2, mode: Indirect_X }),
        0x24 => Some(OpCode { code: 0x24, mnemonic: Bit, len: 2, mode: ZeroPage }),
        0x25 => Some(OpCode { code: 0x25, mnemonic: And, len: 2, mode: ZeroPage }),
        0x26 => Some(OpCode { code: 0x26, mnemonic: Rol, len: 2, mode: ZeroPage }),
        0x28 => Some(OpCode { code: 0x28, mnemonic: Plp, len: 1, mode: NoneAddressing }),
        0x29 => Some(OpCode { code: 0x29, mnemonic: And, len: 2, mode: Immediate }),
        0x2a => Some(OpCode { code: 0x2a, mnemonic: Rol, len: 1, mode: NoneAddressing }),
        0x2c => Some(OpCode { code: 0x2c, mnemonic: Bit, len: 3, mode: Absolute }),
        0x2d => Some(OpCode { code: 0x2d, mnemonic: And, len: 3, mode: Absolute }),
        0x2e => Some(OpCode { code: 0x2e, mnemonic: Rol, len: 3, mode: Absolute }),
        0x30 => Some(OpCode { code: 0x30, mnemonic: Bmi, len: 2, mode: NoneAddressing }),
        0x31 => Some(OpCode { code: 0x31, mnemonic: And, len: 2, mode: Indirect_Y }),
        0x35 => Some(OpCode { code: 0x35, mnemonic: And, len: 2, mode: ZeroPage_X }),
        0x36 => Some(OpCode { code: 0x36, mnemonic: Rol, len: 2, mode: ZeroPage_X }),
        0x38 => Some(OpCode { code: 0x38, mnemonic: Sec, len: 1, mode: NoneAddressing }),
        0x39 => Some(OpCode { code: 0x39, mnemonic: And, len: 3, mode: Absolute_Y }),
        0x3d => Some(OpCode { code: 0x3d, mnemonic: And, len: 3, mode: Absolute_X }),
        0x3e => Some(OpCode { code: 0x3e, mnemonic: Rol, len: 3, mode: Absolute_X }),
        0x40 => Some(OpCode { code: 0x40, mnemonic: Rti, len: 1, mode: NoneAddressing }),
        0x41 => Some(OpCode { code: 0x41, mnemonic: Eor, len: 2, mode: Indirect_X }),
        0x45 => Some(OpCode { code: 0x45, mnemonic: Eor, len: 2, mode: ZeroPage }),
        0x46 => Some(OpCode { code: 0x46, mnemonic: Lsr, len: 2, mode: ZeroPage }),
        0x48 => Some(OpCode { code: 0x48, mnemonic: Pha, len: 1, mode: NoneAddressing }),
        0x49 => Some(OpCode { code: 0x49, mnemonic: Eor, len: 2, mode: Immediate }),
        0x4a => Some(OpCode { code: 0x4a, mnemonic: Lsr, len: 1, mode: NoneAddressing }),
        0x4c => Some(OpCode { code: 0x4c, mnemonic: Jmp, len: 3, mode: Absolute }),
        0x4d => Some(OpCode { code: 0x4d, mnemonic: Eor, len: 3, mode: Absolute }),
        0x4e => Some(OpCode { code: 0x4e, mnemonic: Lsr, len: 3, mode: Absolute }),
        0x50 => Some(OpCode { code: 0x50, mnemonic: Bvc, len: 2, mode: NoneAddressing }),
        0x51 => Some(OpCode { code: 0x51, mnemonic: Eor, len: 2, mode: Indirect_Y }),
        0x55 => Some(OpCode { code: 0x55, mnemonic: Eor, len: 2, mode: ZeroPage_X }),
        0x56 => Some(OpCode { code: 0x56, mnemonic: Lsr, len: 2, mode: ZeroPage_X }),
        0x58 => Some(OpCode { code: 0x58, mnemonic: Cli, len: 1, mode: NoneAddressing }),
        0x59 => Some(OpCode { code: 0x59, mnemonic: Eor, len: 3, mode: Absolute_Y }),
        0x5d => Some(OpCode { code: 0x5d, mnemonic: Eor, len: 3, mode: Absolute_X }),
        0x5e => Some(OpCode { code: 0x5e, mnemonic: Lsr, len: 3, mode: Absolute_X }),
        0x60 => Some(OpCode { code: 0x60, mnemonic: Rts, len: 1, mode: NoneAddressing }),
        0x61 => Some(OpCode { code: 0x61, mnemonic: Adc, len: 2, mode: Indirect_X }),
        0x65 => Some(OpCode { code: 0x65, mnemonic: Adc, len: 2, mode: ZeroPage }),
        0x66 => Some(OpCode { code: 0x66, mnemonic: Ror, len: 2, mode: ZeroPage }),
        0x68 => Some(OpCode { code: 0x68, mnemonic: Pla, len: 1, mode: NoneAddressing }),
        0x69 => Some(OpCode { code: 0x69, mnemonic: Adc, len: 2, mode: Immediate }),
        0x6a => Some(OpCode { code: 0x6a, mnemonic: Ror, len: 1, mode: NoneAddressing }),
        0x6c => Some(OpCode { code: 0x6c, mnemonic: Jmp, len: 3, mode: Indirect }),
        0x6d => Some(OpCode { code: 0x6d, mnemonic: Adc, len: 3, mode: Absolute }),
        0x6e => Some(OpCode { code: 0x6e, mnemonic: Ror, len: 3, mode: Absolute }),
        0x70 => Some(OpCode { code: 0x70, mnemonic: Bvs, len: 2, mode: NoneAddressing }),
        0x71 => Some(OpCode { code: 0x71, mnemonic: Adc, len: 2, mode: Indirect_Y }),
        0x75 => Some(OpCode { code: 0x75, mnemonic: Adc, len: 2, mode: ZeroPage_X }),
        0x76 => Some(OpCode { code: 0x76, mnemonic: Ror, len: 2, mode: ZeroPage_X }),
        0x78 => Some(OpCode { code: 0x78, mnemonic: Sei, len: 1, mode: NoneAddressing }),
        0x79 => Some(OpCode { code: 0x79, mnemonic: Adc, len: 3, mode: Absolute_Y }),
        0x7d => Some(OpCode { code: 0x7d, mnemonic: Adc, len: 3, mode: Absolute_X }),
        0x7e => Some(OpCode { code: 0x7e, mnemonic: Ror, len: 3, mode: Absolute_X }),
        0x81 => Some(OpCode { code: 0x81, mnemonic: Sta, len: 2, mode: Indirect_X }),
        0x84 => Some(OpCode { code: 0x84, mnemonic: Sty, len: 2, mode: ZeroPage }),
        0x85 => Some(OpCode { code: 0x85, mnemonic: Sta, len: 2, mode: ZeroPage }),
        0x86 => Some(OpCode { code: 0x86, mnemonic: Stx, len: 2, mode: ZeroPage }),
        0x88 => Some(OpCode { code: 0x88, mnemonic: Dey, len: 1, mode: NoneAddressing }),
        0x8a => Some(OpCode { code: 0x8a, mnemonic: Txa, len: 1, mode: NoneAddressing }),
        0x8c => Some(OpCode { code: 0x8c, mnemonic: Sty, len: 3, mode: Absolute }),
        0x8d => Some(OpCode { code: 0x8d, mnemonic: Sta, len: 3, mode: Absolute }),
        0x8e => Some(OpCode { code: 0x8e, mnemonic: Stx, len: 3, mode: Absolute }),
        0x90 => Some(OpCode { code: 0x90, mnemonic: Bcc, len: 2, mode: NoneAddressing }),
        0x91 => Some(OpCode { code: 0x91, mnemonic: Sta, len: 2, mode: Indirect_Y }),
        0x94 => Some(OpCode { code: 0x94, mnemonic: Sty, len: 2, mode: ZeroPage_X }),
        0x95 => Some(OpCode { code: 0x95, mnemonic: Sta, len: 2, mode: ZeroPage_X }),
        0x96 => Some(OpCode { code: 0x96, mnemonic: Stx, len: 2, mode: ZeroPage_Y }),
        0x98 => Some(OpCode { code: 0x98, mnemonic: Tya, len: 1, mode: NoneAddressing }),
        0x99 => Some(OpCode { code: 0x99, mnemonic: Sta, len: 3, mode: Absolute_Y }),
        0x9a => Some(OpCode { code: 0x9a, mnemonic: Txs, len: 1, mode: NoneAddressing }),
        0x9d => Some(OpCode { code: 0x9d, mnemonic: Sta, len: 3, mode: Absolute_X }),
        0xa0 => Some(OpCode { code: 0xa0, mnemonic: Ldy, len: 2, mode: Immediate }),
        0xa1 => Some(OpCode { code: 0xa1, mnemonic: Lda, len: 2, mode: Indirect_X }),
        0xa2 => Some(OpCode { code: 0xa2, mnemonic: Ldx, len: 2, mode: Immediate }),
        0xa4 => Some(OpCode { code: 0xa4, mnemonic: Ldy, len: 2, mode: ZeroPage }),
        0xa5 => Some(OpCode { code: 0xa5, mnemonic: Lda, len: 2, mode: ZeroPage }),
        0xa6 => Some(OpCode { code: 0xa6, mnemonic: Ldx, len: 2, mode: ZeroPage }),
        0xa8 => Some(OpCode { code: 0xa8, mnemonic: Tay, len: 1, mode: NoneAddressing }),
        0xa9 => Some(OpCode { code: 0xa9, mnemonic: Lda, len: 2, mode: Immediate }),
        0xaa => Some(OpCode { code: 0xaa, mnemonic: Tax, len: 1, mode: NoneAddressing }),
        0xac => Some(OpCode { code: 0xac, mnemonic: Ldy, len: 3, mode: Absolute }),
        0xad => Some(OpCode { code: 0xad, mnemonic: Lda, len: 3, mode: Absolute }),
        0xae => Some(OpCode { code: 0xae, mnemonic: Ldx, len: 3, mode: Absolute }),
        0xb0 => Some(OpCode { code: 0xb0, mnemonic: Bcs, len: 2, mode: NoneAddressing }),
        0xb1 => Some(OpCode { code: 0xb1, mnemonic: Lda, len: 2, mode: Indirect_Y }),
        0xb4 => Some(OpCode { code: 0xb4, mnemonic: Ldy, len: 2, mode: ZeroPage_X }),
        0xb5 => Some(OpCode { code: 0xb5, mnemonic: Lda, len: 2, mode: ZeroPage_X }),
        0xb6 => Some(OpCode { code: 0xb6, mnemonic: Ldx, len: 2, mode: ZeroPage_Y }),
        0xb8 => Some(OpCode { code: 0xb8, mnemonic: Clv, len: 1, mode: NoneAddressing }),
        0xb9 => Some(OpCode { code: 0xb9, mnemonic: Lda, len: 3, mode: Absolute_Y }),
        0xba => Some(OpCode { code: 0xba, mnemonic: Tsx, len: 1, mode: NoneAddressing }),
        0xbc => Some(OpCode { code: 0xbc, mnemonic: Ldy, len: 3, mode: Absolute_X }),
        0xbd => Some(OpCode { code: 0xbd, mnemonic: Lda, len: 3, mode: Absolute_X }),
        0xbe => Some(OpCode { code: 0xbe, mnemonic: Ldx, len: 3, mode: Absolute_Y }),
        0xc0 => Some(OpCode { code: 0xc0, mnemonic: Cpy, len: 2, mode: Immediate }),
        0xc1 => Some(OpCode { code: 0xc1, mnemonic: Cmp, len: 2, mode: Indirect_X }),
        0xc4 => Some(OpCode { code: 0xc4, mnemonic: Cpy, len: 2, mode: ZeroPage }),
        0xc5 => Some(OpCode { code: 0xc5, mnemonic: Cmp, len: 2, mode: ZeroPage }),
        0xc6 => Some(OpCode { code: 0xc6, mnemonic: Dec, len: 2, mode: ZeroPage }),
        0xc8 => Some(OpCode { code: 0xc8, mnemonic: Iny, len: 1, mode: NoneAddressing }),
        0xc9 => Some(OpCode { code: 0xc9, mnemonic: Cmp, len: 2, mode: Immediate }),
        0xca => Some(OpCode { code: 0xca, mnemonic: Dex, len: 1, mode: NoneAddressing }),
        0xcc => Some(OpCode { code: 0xcc, mnemonic: Cpy, len: 3, mode: Absolute }),
        0xcd => Some(OpCode { code: 0xcd, mnemonic: Cmp, len: 3, mode: Absolute }),
        0xce => Some(OpCode { code: 0xce, mnemonic: Dec, len: 3, mode: Absolute }),
        0xd0 => Some(OpCode { code: 0xd0, mnemonic: Bne, len: 2, mode: NoneAddressing }),
        0xd1 => Some(OpCode { code: 0xd1, mnemonic: Cmp, len: 2, mode: Indirect_Y }),
        0xd5 => Some(OpCode { code: 0xd5, mnemonic: Cmp, len: 2, mode: ZeroPage_X }),
        0xd6 => Some(OpCode { code: 0xd6, mnemonic: Dec, len: 2, mode: ZeroPage_X }),
        0xd8 => Some(OpCode { code: 0xd8, mnemonic: Cld, len: 1, mode: NoneAddressing }),
        0xd9 => Some(OpCode { code: 0xd9, mnemonic: Cmp, len: 3, mode: Absolute_Y }),
        0xdd => Some(OpCode { code: 0xdd, mnemonic: Cmp, len: 3, mode: Absolute_X }),
        0xde => Some(OpCode { code: 0xde, mnemonic: Dec, len: 3, mode: Absolute_X }),
        0xe0 => Some(OpCode { code: 0xe0, mnemonic: Cpx, len: 2, mode: Immediate }),
        0xe1 => Some(OpCode { code: 0xe1, mnemonic: Sbc, len: 2, mode: Indirect_X }),
        0xe4 => Some(OpCode { code: 0xe4, mnemonic: Cpx, len: 2, mode: ZeroPage }),
        0xe5 => Some(OpCode { code: 0xe5, mnemonic: Sbc, len: 2, mode: ZeroPage }),
        0xe6 => Some(OpCode { code: 0xe6, mnemonic: Inc, len: 2, mode: ZeroPage }),
        0xe8 => Some(OpCode { code: 0xe8, mnemonic: Inx, len: 1, mode: NoneAddressing }),
        0xe9 => Some(OpCode { code: 0xe9, mnemonic: Sbc, len: 2, mode: Immediate }),
        0xea => Some(OpCode { code: 0xea, mnemonic: Nop, len: 1, mode: NoneAddressing }),
        0xec => Some(OpCode { code: 0xec, mnemonic: Cpx, len: 3, mode: Absolute }),
        0xed => Some(OpCode { code: 0xed, mnemonic: Sbc, len: 3, mode: Absolute }),
        0xee => Some(OpCode { code: 0xee, mnemonic: Inc, len: 3, mode: Absolute }),
        0xf0 => Some(OpCode { code: 0xf0, mnemonic: Beq, len: 2, mode: NoneAddressing }),
        0xf1 => Some(OpCode { code: 0xf1, mnemonic: Sbc, len: 2, mode: Indirect_Y }),
        0xf5 => Some(OpCode { code: 0xf5, mnemonic: Sbc, len: 2, mode: ZeroPage_X }),
        0xf6 => Some(OpCode { code: 0xf6, mnemonic: Inc, len: 2, mode: ZeroPage_X }),
        0xf8 => Some(OpCode { code: 0xf8, mnemonic: Sed, len: 1, mode: NoneAddressing }),
        0xf9 => Some(OpCode { code: 0xf9, mnemonic: Sbc, len: 3, mode: Absolute_Y }),
        0xfd => Some(OpCode { code: 0xfd, mnemonic: Sbc, len: 3, mode: Absolute_X }),
        0xfe => Some(OpCode { code: 0xfe, mnemonic: Inc, len: 3, mode: Absolute_X }),
        _ => None,
    }
}

} // verus!
