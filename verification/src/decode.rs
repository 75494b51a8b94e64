//! The opcode decoder: a total map from every raw opcode byte to its
//! mnemonic, addressing mode, base cycle count and page-cross sensitivity.
//!
//! The 256-entry table is data, not control flow; decoding can never fail,
//! so a malformed descriptor is unrepresentable.

use vstd::prelude::*;
use crate::consts::{AddrMode, OpCode};

verus! {

/// What one raw opcode byte decodes to.
///
/// `base` is the base cycle count minus one; an instruction that raises no
/// timing adjustment takes `1 + base` cycles.  `extra` is 1 exactly on the
/// page-cross-sensitive opcodes, else 0.
#[derive(Clone, Copy, Debug, PartialEq, Eq, Structural)]
pub struct Decoded {
    pub op: OpCode,
    pub mode: AddrMode,
    pub base: u8,
    pub extra: u8,
}

/// Whether a mnemonic is a conditional branch.
pub open spec fn is_branch(op: OpCode) -> bool {
    ||| op is Bcc
    ||| op is Bcs
    ||| op is Beq
    ||| op is Bmi
    ||| op is Bne
    ||| op is Bpl
    ||| op is Bvc
    ||| op is Bvs
}

/// The decode table as a mathematical function.
pub open spec fn spec_decode(op: u8) -> Decoded {
    match op {
        0x00 => Decoded { op: OpCode::Brk, mode: AddrMode::Implied, base: 6, extra: 0 },
        0x01 => Decoded { op: OpCode::Ora, mode: AddrMode::IndirectX, base: 5, extra: 0 },
        0x02 | 0x12 | 0x22 | 0x32 | 0x42 | 0x52 | 0x62 | 0x72 => Decoded { op: OpCode::Jam, mode: AddrMode::Implied, base: 0, extra: 0 },
        0x92 | 0xb2 | 0xd2 | 0xf2 => Decoded { op: OpCode::Jam, mode: AddrMode::Immediate, base: 0, extra: 0 },
        0x03 => Decoded { op: OpCode::Slo, mode: AddrMode::IndirectX, base: 7, extra: 0 },
        0x04 | 0x44 | 0x64 => Decoded { op: OpCode::Nop, mode: AddrMode::ZeroPage, base: 2, extra: 0 },
        0x05 => Decoded { op: OpCode::Ora, mode: AddrMode::ZeroPage, base: 2, extra: 0 },
        0x06 => Decoded { op: OpCode::Asl, mode: AddrMode::ZeroPage, base: 4, extra: 0 },
        0x07 => Decoded { op: OpCode::Slo, mode: AddrMode::ZeroPage, base: 4, extra: 0 },
        0x08 => Decoded { op: OpCode::Php, mode: AddrMode::Implied, base: 2, extra: 0 },
        0x09 => Decoded { op: OpCode::Ora, mode: AddrMode::Immediate, base: 1, extra: 0 },
        0x0a => Decoded { op: OpCode::Asl, mode: AddrMode::Accumulator, base: 1, extra: 0 },
        0x0b => Decoded { op: OpCode::An1, mode: AddrMode::Immediate, base: 1, extra: 0 },
        0x0c => Decoded { op: OpCode::Nop, mode: AddrMode::Absolute, base: 3, extra: 0 },
        0x0d => Decoded { op: OpCode::Ora, mode: AddrMode::Absolute, base: 3, extra: 0 },
        0x0e => Decoded { op: OpCode::Asl, mode: AddrMode::Absolute, base: 5, extra: 0 },
        0x0f => Decoded { op: OpCode::Slo, mode: AddrMode::Absolute, base: 5, extra: 0 },
        0x10 => Decoded { op: OpCode::Bpl, mode: AddrMode::Relative, base: 1, extra: 1 },
        0x11 => Decoded { op: OpCode::Ora, mode: AddrMode::IndirectY, base: 4, extra: 1 },
        0x13 => Decoded { op: OpCode::Slo, mode: AddrMode::IndirectY, base: 7, extra: 0 },
        0x14 | 0x34 | 0x54 | 0x74 | 0xd4 | 0xf4 => Decoded { op: OpCode::Nop, mode: AddrMode::ZeroPageX, base: 3, extra: 0 },
        0x15 => Decoded { op: OpCode::Ora, mode: AddrMode::ZeroPageX, base: 3, extra: 0 },
        0x16 => Decoded { op: OpCode::Asl, mode: AddrMode::ZeroPageX, base: 5, extra: 0 },
        0x17 => Decoded { op: OpCode::Slo, mode: AddrMode::ZeroPageX, base: 5, extra: 0 },
        0x18 => Decoded { op: OpCode::Clc, mode: AddrMode::Implied, base: 1, extra: 0 },
        0x19 => Decoded { op: OpCode::Ora, mode: AddrMode::AbsoluteY, base: 3, extra: 1 },
        0x1a | 0x3a | 0x5a | 0x7a | 0xda | 0xea | 0xfa => Decoded { op: OpCode::Nop, mode: AddrMode::Implied, base: 1, extra: 0 },
        0x1b => Decoded { op: OpCode::Slo, mode: AddrMode::AbsoluteY, base: 6, extra: 0 },
        0x1c | 0x3c | 0x5c | 0x7c | 0xdc | 0xfc => Decoded { op: OpCode::Nop, mode: AddrMode::AbsoluteX, base: 3, extra: 1 },
        0x1d => Decoded { op: OpCode::Ora, mode: AddrMode::AbsoluteX, base: 3, extra: 1 },
        0x1e => Decoded { op: OpCode::Asl, mode: AddrMode::AbsoluteX, base: 6, extra: 0 },
        0x1f => Decoded { op: OpCode::Slo, mode: AddrMode::AbsoluteX, base: 6, extra: 0 },
        0x20 => Decoded { op: OpCode::Jsr, mode: AddrMode::Absolute, base: 5, extra: 0 },
        0x21 => Decoded { op: OpCode::And, mode: AddrMode::IndirectX, base: 5, extra: 0 },
        0x23 => Decoded { op: OpCode::Rla, mode: AddrMode::IndirectX, base: 7, extra: 0 },
        0x24 => Decoded { op: OpCode::Bit, mode: AddrMode::ZeroPage, base: 2, extra: 0 },
        0x25 => Decoded { op: OpCode::And, mode: AddrMode::ZeroPage, base: 2, extra: 0 },
        0x26 => Decoded { op: OpCode::Rol, mode: AddrMode::ZeroPage, base: 4, extra: 0 },
        0x27 => Decoded { op: OpCode::Rla, mode: AddrMode::ZeroPage, base: 4, extra: 0 },
        0x28 => Decoded { op: OpCode::Plp, mode: AddrMode::Implied, base: 3, extra: 0 },
        0x29 => Decoded { op: OpCode::And, mode: AddrMode::Immediate, base: 1, extra: 0 },
        0x2a => Decoded { op: OpCode::Rol, mode: AddrMode::Accumulator, base: 1, extra: 0 },
        0x2b => Decoded { op: OpCode::An2, mode: AddrMode::Immediate, base: 1, extra: 0 },
        0x2c => Decoded { op: OpCode::Bit, mode: AddrMode::Absolute, base: 3, extra: 0 },
        0x2d => Decoded { op: OpCode::And, mode: AddrMode::Absolute, base: 3, extra: 0 },
        0x2e => Decoded { op: OpCode::Rol, mode: AddrMode::Absolute, base: 5, extra: 0 },
        0x2f => Decoded { op: OpCode::Rla, mode: AddrMode::Absolute, base: 5, extra: 0 },
        0x30 => Decoded { op: OpCode::Bmi, mode: AddrMode::Relative, base: 1, extra: 1 },
        0x31 => Decoded { op: OpCode::And, mode: AddrMode::IndirectY, base: 4, extra: 1 },
        0x33 => Decoded { op: OpCode::Rla, mode: AddrMode::IndirectY, base: 7, extra: 0 },
        0x35 => Decoded { op: OpCode::And, mode: AddrMode::ZeroPageX, base: 3, extra: 0 },
        0x36 => Decoded { op: OpCode::Rol, mode: AddrMode::ZeroPageX, base: 5, extra: 0 },
        0x37 => Decoded { op: OpCode::Rla, mode: AddrMode::ZeroPageX, base: 5, extra: 0 },
        0x38 => Decoded { op: OpCode::Sec, mode: AddrMode::Implied, base: 1, extra: 0 },
        0x39 => Decoded { op: OpCode::And, mode: AddrMode::AbsoluteY, base: 3, extra: 1 },
        0x3b => Decoded { op: OpCode::Rla, mode: AddrMode::AbsoluteY, base: 6, extra: 0 },
        0x3d => Decoded { op: OpCode::And, mode: AddrMode::AbsoluteX, base: 3, extra: 1 },
        0x3e => Decoded { op: OpCode::Rol, mode: AddrMode::AbsoluteX, base: 6, extra: 0 },
        0x3f => Decoded { op: OpCode::Rla, mode: AddrMode::AbsoluteX, base: 6, extra: 0 },
        0x40 => Decoded { op: OpCode::Rti, mode: AddrMode::Implied, base: 5, extra: 0 },
        0x41 => Decoded { op: OpCode::Eor, mode: AddrMode::IndirectX, base: 5, extra: 0 },
        0x43 => Decoded { op: OpCode::Sre, mode: AddrMode::IndirectX, base: 7, extra: 0 },
        0x45 => Decoded { op: OpCode::Eor, mode: AddrMode::ZeroPage, base: 2, extra: 0 },
        0x46 => Decoded { op: OpCode::Lsr, mode: AddrMode::ZeroPage, base: 4, extra: 0 },
        0x47 => Decoded { op: OpCode::Sre, mode: AddrMode::ZeroPage, base: 4, extra: 0 },
        0x48 => Decoded { op: OpCode::Pha, mode: AddrMode::Implied, base: 2, extra: 0 },
        0x49 => Decoded { op: OpCode::Eor, mode: AddrMode::Immediate, base: 1, extra: 0 },
        0x4a => Decoded { op: OpCode::Lsr, mode: AddrMode::Accumulator, base: 1, extra: 0 },
        0x4b => Decoded { op: OpCode::Asr, mode: AddrMode::Immediate, base: 1, extra: 0 },
        0x4c => Decoded { op: OpCode::Jmp, mode: AddrMode::Absolute, base: 2, extra: 0 },
        0x4d => Decoded { op: OpCode::Eor, mode: AddrMode::Absolute, base: 3, extra: 0 },
        0x4e => Decoded { op: OpCode::Lsr, mode: AddrMode::Absolute, base: 5, extra: 0 },
        0x4f => Decoded { op: OpCode::Sre, mode: AddrMode::Absolute, base: 5, extra: 0 },
        0x50 => Decoded { op: OpCode::Bvc, mode: AddrMode::Relative, base: 1, extra: 1 },
        0x51 => Decoded { op: OpCode::Eor, mode: AddrMode::IndirectY, base: 4, extra: 1 },
        0x53 => Decoded { op: OpCode::Sre, mode: AddrMode::IndirectY, base: 7, extra: 0 },
        0x55 => Decoded { op: OpCode::Eor, mode: AddrMode::ZeroPageX, base: 3, extra: 0 },
        0x56 => Decoded { op: OpCode::Lsr, mode: AddrMode::ZeroPageX, base: 5, extra: 0 },
        0x57 => Decoded { op: OpCode::Sre, mode: AddrMode::ZeroPageX, base: 5, extra: 0 },
        0x58 => Decoded { op: OpCode::Cli, mode: AddrMode::Implied, base: 1, extra: 0 },
        0x59 => Decoded { op: OpCode::Eor, mode: AddrMode::AbsoluteY, base: 3, extra: 1 },
        0x5b => Decoded { op: OpCode::Sre, mode: AddrMode::AbsoluteY, base: 6, extra: 0 },
        0x5d => Decoded { op: OpCode::Eor, mode: AddrMode::AbsoluteX, base: 3, extra: 1 },
        0x5e => Decoded { op: OpCode::Lsr, mode: AddrMode::AbsoluteX, base: 6, extra: 0 },
        0x5f => Decoded { op: OpCode::Sre, mode: AddrMode::AbsoluteX, base: 6, extra: 0 },
        0x60 => Decoded { op: OpCode::Rts, mode: AddrMode::Implied, base: 5, extra: 0 },
        0x61 => Decoded { op: OpCode::Adc, mode: AddrMode::IndirectX, base: 5, extra: 0 },
        0x63 => Decoded { op: OpCode::Rra, mode: AddrMode::IndirectX, base: 7, extra: 0 },
        0x65 => Decoded { op: OpCode::Adc, mode: AddrMode::ZeroPage, base: 2, extra: 0 },
        0x66 => Decoded { op: OpCode::Ror, mode: AddrMode::ZeroPage, base: 4, extra: 0 },
        0x67 => Decoded { op: OpCode::Rra, mode: AddrMode::ZeroPage, base: 4, extra: 0 },
        0x68 => Decoded { op: OpCode::Pla, mode: AddrMode::Implied, base: 3, extra: 0 },
        0x69 => Decoded { op: OpCode::Adc, mode: AddrMode::Immediate, base: 1, extra: 0 },
        0x6a => Decoded { op: OpCode::Ror, mode: AddrMode::Accumulator, base: 1, extra: 0 },
        0x6b => Decoded { op: OpCode::Arr, mode: AddrMode::Immediate, base: 1, extra: 0 },
        0x6c => Decoded { op: OpCode::Jmp, mode: AddrMode::Indirect, base: 4, extra: 0 },
        0x6d => Decoded { op: OpCode::Adc, mode: AddrMode::Absolute, base: 3, extra: 0 },
        0x6e => Decoded { op: OpCode::Ror, mode: AddrMode::Absolute, base: 5, extra: 0 },
        0x6f => Decoded { op: OpCode::Rra, mode: AddrMode::Absolute, base: 5, extra: 0 },
        0x70 => Decoded { op: OpCode::Bvs, mode: AddrMode::Relative, base: 1, extra: 1 },
        0x71 => Decoded { op: OpCode::Adc, mode: AddrMode::IndirectY, base: 4, extra: 1 },
        0x73 => Decoded { op: OpCode::Rra, mode: AddrMode::IndirectY, base: 7, extra: 0 },
        0x75 => Decoded { op: OpCode::Adc, mode: AddrMode::ZeroPageX, base: 3, extra: 0 },
        0x76 => Decoded { op: OpCode::Ror, mode: AddrMode::ZeroPageX, base: 5, extra: 0 },
        0x77 => Decoded { op: OpCode::Rra, mode: AddrMode::ZeroPageX, base: 5, extra: 0 },
        0x78 => Decoded { op: OpCode::Sei, mode: AddrMode::Implied, base: 1, extra: 0 },
        0x79 => Decoded { op: OpCode::Adc, mode: AddrMode::AbsoluteY, base: 3, extra: 1 },
        0x7b => Decoded { op: OpCode::Rra, mode: AddrMode::AbsoluteY, base: 6, extra: 0 },
        0x7d => Decoded { op: OpCode::Adc, mode: AddrMode::AbsoluteX, base: 3, extra: 1 },
        0x7e => Decoded { op: OpCode::Ror, mode: AddrMode::AbsoluteX, base: 6, extra: 0 },
        0x7f => Decoded { op: OpCode::Rra, mode: AddrMode::AbsoluteX, base: 6, extra: 0 },
        0x80 | 0x82 | 0x89 | 0xc2 | 0xe2 => Decoded { op: OpCode::Nop, mode: AddrMode::Immediate, base: 1, extra: 0 },
        0x81 => Decoded { op: OpCode::Sta, mode: AddrMode::IndirectX, base: 5, extra: 0 },
        0x83 => Decoded { op: OpCode::Sax, mode: AddrMode::IndirectX, base: 5, extra: 0 },
        0x84 => Decoded { op: OpCode::Sty, mode: AddrMode::ZeroPage, base: 2, extra: 0 },
        0x85 => Decoded { op: OpCode::Sta, mode: AddrMode::ZeroPage, base: 2, extra: 0 },
        0x86 => Decoded { op: OpCode::Stx, mode: AddrMode::ZeroPage, base: 2, extra: 0 },
        0x87 => Decoded { op: OpCode::Sax, mode: AddrMode::ZeroPage, base: 2, extra: 0 },
        0x88 => Decoded { op: OpCode::Dey, mode: AddrMode::Implied, base: 1, extra: 0 },
        0x8a => Decoded { op: OpCode::Txa, mode: AddrMode::Implied, base: 1, extra: 0 },
        0x8b => Decoded { op: OpCode::Ane, mode: AddrMode::Immediate, base: 1, extra: 0 },
        0x8c => Decoded { op: OpCode::Sty, mode: AddrMode::Absolute, base: 3, extra: 0 },
        0x8d => Decoded { op: OpCode::Sta, mode: AddrMode::Absolute, base: 3, extra: 0 },
        0x8e => Decoded { op: OpCode::Stx, mode: AddrMode::Absolute, base: 3, extra: 0 },
        0x8f => Decoded { op: OpCode::Sax, mode: AddrMode::Absolute, base: 3, extra: 0 },
        0x90 => Decoded { op: OpCode::Bcc, mode: AddrMode::Relative, base: 1, extra: 1 },
        0x91 => Decoded { op: OpCode::Sta, mode: AddrMode::IndirectY, base: 5, extra: 0 },
        0x93 => Decoded { op: OpCode::Sha, mode: AddrMode::IndirectY, base: 5, extra: 0 },
        0x94 => Decoded { op: OpCode::Sty, mode: AddrMode::ZeroPageX, base: 3, extra: 0 },
        0x95 => Decoded { op: OpCode::Sta, mode: AddrMode::ZeroPageX, base: 3, extra: 0 },
        0x96 => Decoded { op: OpCode::Stx, mode: AddrMode::ZeroPageY, base: 3, extra: 0 },
        0x97 => Decoded { op: OpCode::Sax, mode: AddrMode::ZeroPageY, base: 3, extra: 0 },
        0x98 => Decoded { op: OpCode::Tya, mode: AddrMode::Implied, base: 1, extra: 0 },
        0x99 => Decoded { op: OpCode::Sta, mode: AddrMode::AbsoluteY, base: 4, extra: 0 },
        0x9a => Decoded { op: OpCode::Txs, mode: AddrMode::Implied, base: 1, extra: 0 },
        0x9b => Decoded { op: OpCode::Tas, mode: AddrMode::AbsoluteY, base: 4, extra: 0 },
        0x9c => Decoded { op: OpCode::Shy, mode: AddrMode::AbsoluteX, base: 4, extra: 0 },
        0x9d => Decoded { op: OpCode::Sta, mode: AddrMode::AbsoluteX, base: 4, extra: 0 },
        0x9e => Decoded { op: OpCode::Shx, mode: AddrMode::AbsoluteY, base: 4, extra: 0 },
        0x9f => Decoded { op: OpCode::Sha, mode: AddrMode::AbsoluteY, base: 4, extra: 0 },
        0xa0 => Decoded { op: OpCode::Ldy, mode: AddrMode::Immediate, base: 1, extra: 0 },
        0xa1 => Decoded { op: OpCode::Lda, mode: AddrMode::IndirectX, base: 5, extra: 0 },
        0xa2 => Decoded { op: OpCode::Ldx, mode: AddrMode::Immediate, base: 1, extra: 0 },
        0xa3 => Decoded { op: OpCode::Lax, mode: AddrMode::IndirectX, base: 5, extra: 0 },
        0xa4 => Decoded { op: OpCode::Ldy, mode: AddrMode::ZeroPage, base: 2, extra: 0 },
        0xa5 => Decoded { op: OpCode::Lda, mode: AddrMode::ZeroPage, base: 2, extra: 0 },
        0xa6 => Decoded { op: OpCode::Ldx, mode: AddrMode::ZeroPage, base: 2, extra: 0 },
        0xa7 => Decoded { op: OpCode::Lax, mode: AddrMode::ZeroPage, base: 2, extra: 0 },
        0xa8 => Decoded { op: OpCode::Tay, mode: AddrMode::Implied, base: 1, extra: 0 },
        0xa9 => Decoded { op: OpCode::Lda, mode: AddrMode::Immediate, base: 1, extra: 0 },
        0xaa => Decoded { op: OpCode::Tax, mode: AddrMode::Implied, base: 1, extra: 0 },
        0xab => Decoded { op: OpCode::Lxa, mode: AddrMode::Immediate, base: 1, extra: 0 },
        0xac => Decoded { op: OpCode::Ldy, mode: AddrMode::Absolute, base: 3, extra: 0 },
        0xad => Decoded { op: OpCode::Lda, mode: AddrMode::Absolute, base: 3, extra: 0 },
        0xae => Decoded { op: OpCode::Ldx, mode: AddrMode::Absolute, base: 3, extra: 0 },
        0xaf => Decoded { op: OpCode::Lax, mode: AddrMode::Absolute, base: 3, extra: 0 },
        0xb0 => Decoded { op: OpCode::Bcs, mode: AddrMode::Relative, base: 1, extra: 1 },
        0xb1 => Decoded { op: OpCode::Lda, mode: AddrMode::IndirectY, base: 4, extra: 1 },
        0xb3 => Decoded { op: OpCode::Lax, mode: AddrMode::IndirectY, base: 4, extra: 1 },
        0xb4 => Decoded { op: OpCode::Ldy, mode: AddrMode::ZeroPageX, base: 3, extra: 0 },
        0xb5 => Decoded { op: OpCode::Lda, mode: AddrMode::ZeroPageX, base: 3, extra: 0 },
        0xb6 => Decoded { op: OpCode::Ldx, mode: AddrMode::ZeroPageY, base: 3, extra: 0 },
        0xb7 => Decoded { op: OpCode::Lax, mode: AddrMode::ZeroPageY, base: 3, extra: 0 },
        0xb8 => Decoded { op: OpCode::Clv, mode: AddrMode::Implied, base: 1, extra: 0 },
        0xb9 => Decoded { op: OpCode::Lda, mode: AddrMode::AbsoluteY, base: 3, extra: 1 },
        0xba => Decoded { op: OpCode::Tsx, mode: AddrMode::Implied, base: 1, extra: 0 },
        0xbb => Decoded { op: OpCode::Las, mode: AddrMode::AbsoluteY, base: 3, extra: 1 },
        0xbc => Decoded { op: OpCode::Ldy, mode: AddrMode::AbsoluteX, base: 3, extra: 1 },
        0xbd => Decoded { op: OpCode::Lda, mode: AddrMode::AbsoluteX, base: 3, extra: 1 },
        0xbe => Decoded { op: OpCode::Ldx, mode: AddrMode::AbsoluteY, base: 3, extra: 1 },
        0xbf => Decoded { op: OpCode::Lax, mode: AddrMode::AbsoluteY, base: 3, extra: 1 },
        0xc0 => Decoded { op: OpCode::Cpy, mode: AddrMode::Immediate, base: 1, extra: 0 },
        0xc1 => Decoded { op: OpCode::Cmp, mode: AddrMode::IndirectX, base: 5, extra: 0 },
        0xc3 => Decoded { op: OpCode::Dcp, mode: AddrMode::IndirectX, base: 7, extra: 0 },
        0xc4 => Decoded { op: OpCode::Cpy, mode: AddrMode::ZeroPage, base: 2, extra: 0 },
        0xc5 => Decoded { op: OpCode::Cmp, mode: AddrMode::ZeroPage, base: 2, extra: 0 },
        0xc6 => Decoded { op: OpCode::Dec, mode: AddrMode::ZeroPage, base: 4, extra: 0 },
        0xc7 => Decoded { op: OpCode::Dcp, mode: AddrMode::ZeroPage, base: 4, extra: 0 },
        0xc8 => Decoded { op: OpCode::Iny, mode: AddrMode::Implied, base: 1, extra: 0 },
        0xc9 => Decoded { op: OpCode::Cmp, mode: AddrMode::Immediate, base: 1, extra: 0 },
        0xca => Decoded { op: OpCode::Dex, mode: AddrMode::Implied, base: 1, extra: 0 },
        0xcb => Decoded { op: OpCode::Sbx, mode: AddrMode::Immediate, base: 1, extra: 0 },
        0xcc => Decoded { op: OpCode::Cpy, mode: AddrMode::Absolute, base: 3, extra: 0 },
        0xcd => Decoded { op: OpCode::Cmp, mode: AddrMode::Absolute, base: 3, extra: 0 },
        0xce => Decoded { op: OpCode::Dec, mode: AddrMode::Absolute, base: 5, extra: 0 },
        0xcf => Decoded { op: OpCode::Dcp, mode: AddrMode::Absolute, base: 5, extra: 0 },
        0xd0 => Decoded { op: OpCode::Bne, mode: AddrMode::Relative, base: 1, extra: 1 },
        0xd1 => Decoded { op: OpCode::Cmp, mode: AddrMode::IndirectY, base: 4, extra: 1 },
        0xd3 => Decoded { op: OpCode::Dcp, mode: AddrMode::IndirectY, base: 7, extra: 0 },
        0xd5 => Decoded { op: OpCode::Cmp, mode: AddrMode::ZeroPageX, base: 3, extra: 0 },
        0xd6 => Decoded { op: OpCode::Dec, mode: AddrMode::ZeroPageX, base: 5, extra: 0 },
        0xd7 => Decoded { op: OpCode::Dcp, mode: AddrMode::ZeroPageX, base: 5, extra: 0 },
        0xd8 => Decoded { op: OpCode::Cld, mode: AddrMode::Implied, base: 1, extra: 0 },
        0xd9 => Decoded { op: OpCode::Cmp, mode: AddrMode::AbsoluteY, base: 3, extra: 1 },
        0xdb => Decoded { op: OpCode::Dcp, mode: AddrMode::AbsoluteY, base: 6, extra: 0 },
        0xdd => Decoded { op: OpCode::Cmp, mode: AddrMode::AbsoluteX, base: 3, extra: 1 },
        0xde => Decoded { op: OpCode::Dec, mode: AddrMode::AbsoluteX, base: 6, extra: 0 },
        0xdf => Decoded { op: OpCode::Dcp, mode: AddrMode::AbsoluteX, base: 6, extra: 0 },
        0xe0 => Decoded { op: OpCode::Cpx, mode: AddrMode::Immediate, base: 1, extra: 0 },
        0xe1 => Decoded { op: OpCode::Sbc, mode: AddrMode::IndirectX, base: 5, extra: 0 },
        0xe3 => Decoded { op: OpCode::Isc, mode: AddrMode::IndirectX, base: 7, extra: 0 },
        0xe4 => Decoded { op: OpCode::Cpx, mode: AddrMode::ZeroPage, base: 2, extra: 0 },
        0xe5 => Decoded { op: OpCode::Sbc, mode: AddrMode::ZeroPage, base: 2, extra: 0 },
        0xe6 => Decoded { op: OpCode::Inc, mode: AddrMode::ZeroPage, base: 4, extra: 0 },
        0xe7 => Decoded { op: OpCode::Isc, mode: AddrMode::ZeroPage, base: 4, extra: 0 },
        0xe8 => Decoded { op: OpCode::Inx, mode: AddrMode::Implied, base: 1, extra: 0 },
        0xe9 | 0xeb => Decoded { op: OpCode::Sbc, mode: AddrMode::Immediate, base: 1, extra: 0 },
        0xec => Decoded { op: OpCode::Cpx, mode: AddrMode::Absolute, base: 3, extra: 0 },
        0xed => Decoded { op: OpCode::Sbc, mode: AddrMode::Absolute, base: 3, extra: 0 },
        0xee => Decoded { op: OpCode::Inc, mode: AddrMode::Absolute, base: 5, extra: 0 },
        0xef => Decoded { op: OpCode::Isc, mode: AddrMode::Absolute, base: 5, extra: 0 },
        0xf0 => Decoded { op: OpCode::Beq, mode: AddrMode::Relative, base: 1, extra: 1 },
        0xf1 => Decoded { op: OpCode::Sbc, mode: AddrMode::IndirectY, base: 4, extra: 1 },
        0xf3 => Decoded { op: OpCode::Isc, mode: AddrMode::IndirectY, base: 7, extra: 0 },
        0xf5 => Decoded { op: OpCode::Sbc, mode: AddrMode::ZeroPageX, base: 3, extra: 0 },
        0xf6 => Decoded { op: OpCode::Inc, mode: AddrMode::ZeroPageX, base: 5, extra: 0 },
        0xf7 => Decoded { op: OpCode::Isc, mode: AddrMode::ZeroPageX, base: 5, extra: 0 },
        0xf8 => Decoded { op: OpCode::Sed, mode: AddrMode::Implied, base: 1, extra: 0 },
        0xf9 => Decoded { op: OpCode::Sbc, mode: AddrMode::AbsoluteY, base: 3, extra: 1 },
        0xfb => Decoded { op: OpCode::Isc, mode: AddrMode::AbsoluteY, base: 6, extra: 0 },
        0xfd => Decoded { op: OpCode::Sbc, mode: AddrMode::AbsoluteX, base: 3, extra: 1 },
        0xfe => Decoded { op: OpCode::Inc, mode: AddrMode::AbsoluteX, base: 6, extra: 0 },
        0xff => Decoded { op: OpCode::Isc, mode: AddrMode::AbsoluteX, base: 6, extra: 0 },
    }
}

/// Decodes one raw opcode byte.  Total: every one of the 256 bytes has a
/// descriptor, and branches always carry the relative addressing mode.
#[verifier::rlimit(100)]
pub fn decode(op: u8) -> (r: Decoded)
    ensures
        r == spec_decode(op),
        r.base <= 7,
        r.extra <= 1,
        is_branch(r.op) ==> r.mode is Relative,
{
    match op {
        0x00 => Decoded { op: OpCode::Brk, mode: AddrMode::Implied, base: 6, extra: 0 },
        0x01 => Decoded { op: OpCode::Ora, mode: AddrMode::IndirectX, base: 5, extra: 0 },
        0x02 | 0x12 | 0x22 | 0x32 | 0x42 | 0x52 | 0x62 | 0x72 => Decoded { op: OpCode::Jam, mode: AddrMode::Implied, base: 0, extra: 0 },
        0x92 | 0xb2 | 0xd2 | 0xf2 => Decoded { op: OpCode::Jam, mode: AddrMode::Immediate, base: 0, extra: 0 },
        0x03 => Decoded { op: OpCode::Slo, mode: AddrMode::IndirectX, base: 7, extra: 0 },
        0x04 | 0x44 | 0x64 => Decoded { op: OpCode::Nop, mode: AddrMode::ZeroPage, base: 2, extra: 0 },
        0x05 => Decoded { op: OpCode::Ora, mode: AddrMode::ZeroPage, base: 2, extra: 0 },
        0x06 => Decoded { op: OpCode::Asl, mode: AddrMode::ZeroPage, base: 4, extra: 0 },
        0x07 => Decoded { op: OpCode::Slo, mode: AddrMode::ZeroPage, base: 4, extra: 0 },
        0x08 => Decoded { op: OpCode::Php, mode: AddrMode::Implied, base: 2, extra: 0 },
        0x09 => Decoded { op: OpCode::Ora, mode: AddrMode::Immediate, base: 1, extra: 0 },
        0x0a => Decoded { op: OpCode::Asl, mode: AddrMode::Accumulator, base: 1, extra: 0 },
        0x0b => Decoded { op: OpCode::An1, mode: AddrMode::Immediate, base: 1, extra: 0 },
        0x0c => Decoded { op: OpCode::Nop, mode: AddrMode::Absolute, base: 3, extra: 0 },
        0x0d => Decoded { op: OpCode::Ora, mode: AddrMode::Absolute, base: 3, extra: 0 },
        0x0e => Decoded { op: OpCode::Asl, mode: AddrMode::Absolute, base: 5, extra: 0 },
        0x0f => Decoded { op: OpCode::Slo, mode: AddrMode::Absolute, base: 5, extra: 0 },
        0x10 => Decoded { op: OpCode::Bpl, mode: AddrMode::Relative, base: 1, extra: 1 },
        0x11 => Decoded { op: OpCode::Ora, mode: AddrMode::IndirectY, base: 4, extra: 1 },
        0x13 => Decoded { op: OpCode::Slo, mode: AddrMode::IndirectY, base: 7, extra: 0 },
        0x14 | 0x34 | 0x54 | 0x74 | 0xd4 | 0xf4 => Decoded { op: OpCode::Nop, mode: AddrMode::ZeroPageX, base: 3, extra: 0 },
        0x15 => Decoded { op: OpCode::Ora, mode: AddrMode::ZeroPageX, base: 3, extra: 0 },
        0x16 => Decoded { op: OpCode::Asl, mode: AddrMode::ZeroPageX, base: 5, extra: 0 },
        0x17 => Decoded { op: OpCode::Slo, mode: AddrMode::ZeroPageX, base: 5, extra: 0 },
        0x18 => Decoded { op: OpCode::Clc, mode: AddrMode::Implied, base: 1, extra: 0 },
        0x19 => Decoded { op: OpCode::Ora, mode: AddrMode::AbsoluteY, base: 3, extra: 1 },
        0x1a | 0x3a | 0x5a | 0x7a | 0xda | 0xea | 0xfa => Decoded { op: OpCode::Nop, mode: AddrMode::Implied, base: 1, extra: 0 },
        0x1b => Decoded { op: OpCode::Slo, mode: AddrMode::AbsoluteY, base: 6, extra: 0 },
        0x1c | 0x3c | 0x5c | 0x7c | 0xdc | 0xfc => Decoded { op: OpCode::Nop, mode: AddrMode::AbsoluteX, base: 3, extra: 1 },
        0x1d => Decoded { op: OpCode::Ora, mode: AddrMode::AbsoluteX, base: 3, extra: 1 },
        0x1e => Decoded { op: OpCode::Asl, mode: AddrMode::AbsoluteX, base: 6, extra: 0 },
        0x1f => Decoded { op: OpCode::Slo, mode: AddrMode::AbsoluteX, base: 6, extra: 0 },
        0x20 => Decoded { op: OpCode::Jsr, mode: AddrMode::Absolute, base: 5, extra: 0 },
        0x21 => Decoded { op: OpCode::And, mode: AddrMode::IndirectX, base: 5, extra: 0 },
        0x23 => Decoded { op: OpCode::Rla, mode: AddrMode::IndirectX, base: 7, extra: 0 },
        0x24 => Decoded { op: OpCode::Bit, mode: AddrMode::ZeroPage, base: 2, extra: 0 },
        0x25 => Decoded { op: OpCode::And, mode: AddrMode::ZeroPage, base: 2, extra: 0 },
        0x26 => Decoded { op: OpCode::Rol, mode: AddrMode::ZeroPage, base: 4, extra: 0 },
        0x27 => Decoded { op: OpCode::Rla, mode: AddrMode::ZeroPage, base: 4, extra: 0 },
        0x28 => Decoded { op: OpCode::Plp, mode: AddrMode::Implied, base: 3, extra: 0 },
        0x29 => Decoded { op: OpCode::And, mode: AddrMode::Immediate, base: 1, extra: 0 },
        0x2a => Decoded { op: OpCode::Rol, mode: AddrMode::Accumulator, base: 1, extra: 0 },
        0x2b => Decoded { op: OpCode::An2, mode: AddrMode::Immediate, base: 1, extra: 0 },
        0x2c => Decoded { op: OpCode::Bit, mode: AddrMode::Absolute, base: 3, extra: 0 },
        0x2d => Decoded { op: OpCode::And, mode: AddrMode::Absolute, base: 3, extra: 0 },
        0x2e => Decoded { op: OpCode::Rol, mode: AddrMode::Absolute, base: 5, extra: 0 },
        0x2f => Decoded { op: OpCode::Rla, mode: AddrMode::Absolute, base: 5, extra: 0 },
        0x30 => Decoded { op: OpCode::Bmi, mode: AddrMode::Relative, base: 1, extra: 1 },
        0x31 => Decoded { op: OpCode::And, mode: AddrMode::IndirectY, base: 4, extra: 1 },
        0x33 => Decoded { op: OpCode::Rla, mode: AddrMode::IndirectY, base: 7, extra: 0 },
        0x35 => Decoded { op: OpCode::And, mode: AddrMode::ZeroPageX, base: 3, extra: 0 },
        0x36 => Decoded { op: OpCode::Rol, mode: AddrMode::ZeroPageX, base: 5, extra: 0 },
        0x37 => Decoded { op: OpCode::Rla, mode: AddrMode::ZeroPageX, base: 5, extra: 0 },
        0x38 => Decoded { op: OpCode::Sec, mode: AddrMode::Implied, base: 1, extra: 0 },
        0x39 => Decoded { op: OpCode::And, mode: AddrMode::AbsoluteY, base: 3, extra: 1 },
        0x3b => Decoded { op: OpCode::Rla, mode: AddrMode::AbsoluteY, base: 6, extra: 0 },
        0x3d => Decoded { op: OpCode::And, mode: AddrMode::AbsoluteX, base: 3, extra: 1 },
        0x3e => Decoded { op: OpCode::Rol, mode: AddrMode::AbsoluteX, base: 6, extra: 0 },
        0x3f => Decoded { op: OpCode::Rla, mode: AddrMode::AbsoluteX, base: 6, extra: 0 },
        0x40 => Decoded { op: OpCode::Rti, mode: AddrMode::Implied, base: 5, extra: 0 },
        0x41 => Decoded { op: OpCode::Eor, mode: AddrMode::IndirectX, base: 5, extra: 0 },
        0x43 => Decoded { op: OpCode::Sre, mode: AddrMode::IndirectX, base: 7, extra: 0 },
        0x45 => Decoded { op: OpCode::Eor, mode: AddrMode::ZeroPage, base: 2, extra: 0 },
        0x46 => Decoded { op: OpCode::Lsr, mode: AddrMode::ZeroPage, base: 4, extra: 0 },
        0x47 => Decoded { op: OpCode::Sre, mode: AddrMode::ZeroPage, base: 4, extra: 0 },
        0x48 => Decoded { op: OpCode::Pha, mode: AddrMode::Implied, base: 2, extra: 0 },
        0x49 => Decoded { op: OpCode::Eor, mode: AddrMode::Immediate, base: 1, extra: 0 },
        0x4a => Decoded { op: OpCode::Lsr, mode: AddrMode::Accumulator, base: 1, extra: 0 },
        0x4b => Decoded { op: OpCode::Asr, mode: AddrMode::Immediate, base: 1, extra: 0 },
        0x4c => Decoded { op: OpCode::Jmp, mode: AddrMode::Absolute, base: 2, extra: 0 },
        0x4d => Decoded { op: OpCode::Eor, mode: AddrMode::Absolute, base: 3, extra: 0 },
        0x4e => Decoded { op: OpCode::Lsr, mode: AddrMode::Absolute, base: 5, extra: 0 },
        0x4f => Decoded { op: OpCode::Sre, mode: AddrMode::Absolute, base: 5, extra: 0 },
        0x50 => Decoded { op: OpCode::Bvc, mode: AddrMode::Relative, base: 1, extra: 1 },
        0x51 => Decoded { op: OpCode::Eor, mode: AddrMode::IndirectY, base: 4, extra: 1 },
        0x53 => Decoded { op: OpCode::Sre, mode: AddrMode::IndirectY, base: 7, extra: 0 },
        0x55 => Decoded { op: OpCode::Eor, mode: AddrMode::ZeroPageX, base: 3, extra: 0 },
        0x56 => Decoded { op: OpCode::Lsr, mode: AddrMode::ZeroPageX, base: 5, extra: 0 },
        0x57 => Decoded { op: OpCode::Sre, mode: AddrMode::ZeroPageX, base: 5, extra: 0 },
        0x58 => Decoded { op: OpCode::Cli, mode: AddrMode::Implied, base: 1, extra: 0 },
        0x59 => Decoded { op: OpCode::Eor, mode: AddrMode::AbsoluteY, base: 3, extra: 1 },
        0x5b => Decoded { op: OpCode::Sre, mode: AddrMode::AbsoluteY, base: 6, extra: 0 },
        0x5d => Decoded { op: OpCode::Eor, mode: AddrMode::AbsoluteX, base: 3, extra: 1 },
        0x5e => Decoded { op: OpCode::Lsr, mode: AddrMode::AbsoluteX, base: 6, extra: 0 },
        0x5f => Decoded { op: OpCode::Sre, mode: AddrMode::AbsoluteX, base: 6, extra: 0 },
        0x60 => Decoded { op: OpCode::Rts, mode: AddrMode::Implied, base: 5, extra: 0 },
        0x61 => Decoded { op: OpCode::Adc, mode: AddrMode::IndirectX, base: 5, extra: 0 },
        0x63 => Decoded { op: OpCode::Rra, mode: AddrMode::IndirectX, base: 7, extra: 0 },
        0x65 => Decoded { op: OpCode::Adc, mode: AddrMode::ZeroPage, base: 2, extra: 0 },
        0x66 => Decoded { op: OpCode::Ror, mode: AddrMode::ZeroPage, base: 4, extra: 0 },
        0x67 => Decoded { op: OpCode::Rra, mode: AddrMode::ZeroPage, base: 4, extra: 0 },
        0x68 => Decoded { op: OpCode::Pla, mode: AddrMode::Implied, base: 3, extra: 0 },
        0x69 => Decoded { op: OpCode::Adc, mode: AddrMode::Immediate, base: 1, extra: 0 },
        0x6a => Decoded { op: OpCode::Ror, mode: AddrMode::Accumulator, base: 1, extra: 0 },
        0x6b => Decoded { op: OpCode::Arr, mode: AddrMode::Immediate, base: 1, extra: 0 },
        0x6c => Decoded { op: OpCode::Jmp, mode: AddrMode::Indirect, base: 4, extra: 0 },
        0x6d => Decoded { op: OpCode::Adc, mode: AddrMode::Absolute, base: 3, extra: 0 },
        0x6e => Decoded { op: OpCode::Ror, mode: AddrMode::Absolute, base: 5, extra: 0 },
        0x6f => Decoded { op: OpCode::Rra, mode: AddrMode::Absolute, base: 5, extra: 0 },
        0x70 => Decoded { op: OpCode::Bvs, mode: AddrMode::Relative, base: 1, extra: 1 },
        0x71 => Decoded { op: OpCode::Adc, mode: AddrMode::IndirectY, base: 4, extra: 1 },
        0x73 => Decoded { op: OpCode::Rra, mode: AddrMode::IndirectY, base: 7, extra: 0 },
        0x75 => Decoded { op: OpCode::Adc, mode: AddrMode::ZeroPageX, base: 3, extra: 0 },
        0x76 => Decoded { op: OpCode::Ror, mode: AddrMode::ZeroPageX, base: 5, extra: 0 },
        0x77 => Decoded { op: OpCode::Rra, mode: AddrMode::ZeroPageX, base: 5, extra: 0 },
        0x78 => Decoded { op: OpCode::Sei, mode: AddrMode::Implied, base: 1, extra: 0 },
        0x79 => Decoded { op: OpCode::Adc, mode: AddrMode::AbsoluteY, base: 3, extra: 1 },
        0x7b => Decoded { op: OpCode::Rra, mode: AddrMode::AbsoluteY, base: 6, extra: 0 },
        0x7d => Decoded { op: OpCode::Adc, mode: AddrMode::AbsoluteX, base: 3, extra: 1 },
        0x7e => Decoded { op: OpCode::Ror, mode: AddrMode::AbsoluteX, base: 6, extra: 0 },
        0x7f => Decoded { op: OpCode::Rra, mode: AddrMode::AbsoluteX, base: 6, extra: 0 },
        0x80 | 0x82 | 0x89 | 0xc2 | 0xe2 => Decoded { op: OpCode::Nop, mode: AddrMode::Immediate, base: 1, extra: 0 },
        0x81 => Decoded { op: OpCode::Sta, mode: AddrMode::IndirectX, base: 5, extra: 0 },
        0x83 => Decoded { op: OpCode::Sax, mode: AddrMode::IndirectX, base: 5, extra: 0 },
        0x84 => Decoded { op: OpCode::Sty, mode: AddrMode::ZeroPage, base: 2, extra: 0 },
        0x85 => Decoded { op: OpCode::Sta, mode: AddrMode::ZeroPage, base: 2, extra: 0 },
        0x86 => Decoded { op: OpCode::Stx, mode: AddrMode::ZeroPage, base: 2, extra: 0 },
        0x87 => Decoded { op: OpCode::Sax, mode: AddrMode::ZeroPage, base: 2, extra: 0 },
        0x88 => Decoded { op: OpCode::Dey, mode: AddrMode::Implied, base: 1, extra: 0 },
        0x8a => Decoded { op: OpCode::Txa, mode: AddrMode::Implied, base: 1, extra: 0 },
        0x8b => Decoded { op: OpCode::Ane, mode: AddrMode::Immediate, base: 1, extra: 0 },
        0x8c => Decoded { op: OpCode::Sty, mode: AddrMode::Absolute, base: 3, extra: 0 },
        0x8d => Decoded { op: OpCode::Sta, mode: AddrMode::Absolute, base: 3, extra: 0 },
        0x8e => Decoded { op: OpCode::Stx, mode: AddrMode::Absolute, base: 3, extra: 0 },
        0x8f => Decoded { op: OpCode::Sax, mode: AddrMode::Absolute, base: 3, extra: 0 },
        0x90 => Decoded { op: OpCode::Bcc, mode: AddrMode::Relative, base: 1, extra: 1 },
        0x91 => Decoded { op: OpCode::Sta, mode: AddrMode::IndirectY, base: 5, extra: 0 },
        0x93 => Decoded { op: OpCode::Sha, mode: AddrMode::IndirectY, base: 5, extra: 0 },
        0x94 => Decoded { op: OpCode::Sty, mode: AddrMode::ZeroPageX, base: 3, extra: 0 },
        0x95 => Decoded { op: OpCode::Sta, mode: AddrMode::ZeroPageX, base: 3, extra: 0 },
        0x96 => Decoded { op: OpCode::Stx, mode: AddrMode::ZeroPageY, base: 3, extra: 0 },
        0x97 => Decoded { op: OpCode::Sax, mode: AddrMode::ZeroPageY, base: 3, extra: 0 },
        0x98 => Decoded { op: OpCode::Tya, mode: AddrMode::Implied, base: 1, extra: 0 },
        0x99 => Decoded { op: OpCode::Sta, mode: AddrMode::AbsoluteY, base: 4, extra: 0 },
        0x9a => Decoded { op: OpCode::Txs, mode: AddrMode::Implied, base: 1, extra: 0 },
        0x9b => Decoded { op: OpCode::Tas, mode: AddrMode::AbsoluteY, base: 4, extra: 0 },
        0x9c => Decoded { op: OpCode::Shy, mode: AddrMode::AbsoluteX, base: 4, extra: 0 },
        0x9d => Decoded { op: OpCode::Sta, mode: AddrMode::AbsoluteX, base: 4, extra: 0 },
        0x9e => Decoded { op: OpCode::Shx, mode: AddrMode::AbsoluteY, base: 4, extra: 0 },
        0x9f => Decoded { op: OpCode::Sha, mode: AddrMode::AbsoluteY, base: 4, extra: 0 },
        0xa0 => Decoded { op: OpCode::Ldy, mode: AddrMode::Immediate, base: 1, extra: 0 },
        0xa1 => Decoded { op: OpCode::Lda, mode: AddrMode::IndirectX, base: 5, extra: 0 },
        0xa2 => Decoded { op: OpCode::Ldx, mode: AddrMode::Immediate, base: 1, extra: 0 },
        0xa3 => Decoded { op: OpCode::Lax, mode: AddrMode::IndirectX, base: 5, extra: 0 },
        0xa4 => Decoded { op: OpCode::Ldy, mode: AddrMode::ZeroPage, base: 2, extra: 0 },
        0xa5 => Decoded { op: OpCode::Lda, mode: AddrMode::ZeroPage, base: 2, extra: 0 },
        0xa6 => Decoded { op: OpCode::Ldx, mode: AddrMode::ZeroPage, base: 2, extra: 0 },
        0xa7 => Decoded { op: OpCode::Lax, mode: AddrMode::ZeroPage, base: 2, extra: 0 },
        0xa8 => Decoded { op: OpCode::Tay, mode: AddrMode::Implied, base: 1, extra: 0 },
        0xa9 => Decoded { op: OpCode::Lda, mode: AddrMode::Immediate, base: 1, extra: 0 },
        0xaa => Decoded { op: OpCode::Tax, mode: AddrMode::Implied, base: 1, extra: 0 },
        0xab => Decoded { op: OpCode::Lxa, mode: AddrMode::Immediate, base: 1, extra: 0 },
        0xac => Decoded { op: OpCode::Ldy, mode: AddrMode::Absolute, base: 3, extra: 0 },
        0xad => Decoded { op: OpCode::Lda, mode: AddrMode::Absolute, base: 3, extra: 0 },
        0xae => Decoded { op: OpCode::Ldx, mode: AddrMode::Absolute, base: 3, extra: 0 },
        0xaf => Decoded { op: OpCode::Lax, mode: AddrMode::Absolute, base: 3, extra: 0 },
        0xb0 => Decoded { op: OpCode::Bcs, mode: AddrMode::Relative, base: 1, extra: 1 },
        0xb1 => Decoded { op: OpCode::Lda, mode: AddrMode::IndirectY, base: 4, extra: 1 },
        0xb3 => Decoded { op: OpCode::Lax, mode: AddrMode::IndirectY, base: 4, extra: 1 },
        0xb4 => Decoded { op: OpCode::Ldy, mode: AddrMode::ZeroPageX, base: 3, extra: 0 },
        0xb5 => Decoded { op: OpCode::Lda, mode: AddrMode::ZeroPageX, base: 3, extra: 0 },
        0xb6 => Decoded { op: OpCode::Ldx, mode: AddrMode::ZeroPageY, base: 3, extra: 0 },
        0xb7 => Decoded { op: OpCode::Lax, mode: AddrMode::ZeroPageY, base: 3, extra: 0 },
        0xb8 => Decoded { op: OpCode::Clv, mode: AddrMode::Implied, base: 1, extra: 0 },
        0xb9 => Decoded { op: OpCode::Lda, mode: AddrMode::AbsoluteY, base: 3, extra: 1 },
        0xba => Decoded { op: OpCode::Tsx, mode: AddrMode::Implied, base: 1, extra: 0 },
        0xbb => Decoded { op: OpCode::Las, mode: AddrMode::AbsoluteY, base: 3, extra: 1 },
        0xbc => Decoded { op: OpCode::Ldy, mode: AddrMode::AbsoluteX, base: 3, extra: 1 },
        0xbd => Decoded { op: OpCode::Lda, mode: AddrMode::AbsoluteX, base: 3, extra: 1 },
        0xbe => Decoded { op: OpCode::Ldx, mode: AddrMode::AbsoluteY, base: 3, extra: 1 },
        0xbf => Decoded { op: OpCode::Lax, mode: AddrMode::AbsoluteY, base: 3, extra: 1 },
        0xc0 => Decoded { op: OpCode::Cpy, mode: AddrMode::Immediate, base: 1, extra: 0 },
        0xc1 => Decoded { op: OpCode::Cmp, mode: AddrMode::IndirectX, base: 5, extra: 0 },
        0xc3 => Decoded { op: OpCode::Dcp, mode: AddrMode::IndirectX, base: 7, extra: 0 },
        0xc4 => Decoded { op: OpCode::Cpy, mode: AddrMode::ZeroPage, base: 2, extra: 0 },
        0xc5 => Decoded { op: OpCode::Cmp, mode: AddrMode::ZeroPage, base: 2, extra: 0 },
        0xc6 => Decoded { op: OpCode::Dec, mode: AddrMode::ZeroPage, base: 4, extra: 0 },
        0xc7 => Decoded { op: OpCode::Dcp, mode: AddrMode::ZeroPage, base: 4, extra: 0 },
        0xc8 => Decoded { op: OpCode::Iny, mode: AddrMode::Implied, base: 1, extra: 0 },
        0xc9 => Decoded { op: OpCode::Cmp, mode: AddrMode::Immediate, base: 1, extra: 0 },
        0xca => Decoded { op: OpCode::Dex, mode: AddrMode::Implied, base: 1, extra: 0 },
        0xcb => Decoded { op: OpCode::Sbx, mode: AddrMode::Immediate, base: 1, extra: 0 },
        0xcc => Decoded { op: OpCode::Cpy, mode: AddrMode::Absolute, base: 3, extra: 0 },
        0xcd => Decoded { op: OpCode::Cmp, mode: AddrMode::Absolute, base: 3, extra: 0 },
        0xce => Decoded { op: OpCode::Dec, mode: AddrMode::Absolute, base: 5, extra: 0 },
        0xcf => Decoded { op: OpCode::Dcp, mode: AddrMode::Absolute, base: 5, extra: 0 },
        0xd0 => Decoded { op: OpCode::Bne, mode: AddrMode::Relative, base: 1, extra: 1 },
        0xd1 => Decoded { op: OpCode::Cmp, mode: AddrMode::IndirectY, base: 4, extra: 1 },
        0xd3 => Decoded { op: OpCode::Dcp, mode: AddrMode::IndirectY, base: 7, extra: 0 },
        0xd5 => Decoded { op: OpCode::Cmp, mode: AddrMode::ZeroPageX, base: 3, extra: 0 },
        0xd6 => Decoded { op: OpCode::Dec, mode: AddrMode::ZeroPageX, base: 5, extra: 0 },
        0xd7 => Decoded { op: OpCode::Dcp, mode: AddrMode::ZeroPageX, base: 5, extra: 0 },
        0xd8 => Decoded { op: OpCode::Cld, mode: AddrMode::Implied, base: 1, extra: 0 },
        0xd9 => Decoded { op: OpCode::Cmp, mode: AddrMode::AbsoluteY, base: 3, extra: 1 },
        0xdb => Decoded { op: OpCode::Dcp, mode: AddrMode::AbsoluteY, base: 6, extra: 0 },
        0xdd => Decoded { op: OpCode::Cmp, mode: AddrMode::AbsoluteX, base: 3, extra: 1 },
        0xde => Decoded { op: OpCode::Dec, mode: AddrMode::AbsoluteX, base: 6, extra: 0 },
        0xdf => Decoded { op: OpCode::Dcp, mode: AddrMode::AbsoluteX, base: 6, extra: 0 },
        0xe0 => Decoded { op: OpCode::Cpx, mode: AddrMode::Immediate, base: 1, extra: 0 },
        0xe1 => Decoded { op: OpCode::Sbc, mode: AddrMode::IndirectX, base: 5, extra: 0 },
        0xe3 => Decoded { op: OpCode::Isc, mode: AddrMode::IndirectX, base: 7, extra: 0 },
        0xe4 => Decoded { op: OpCode::Cpx, mode: AddrMode::ZeroPage, base: 2, extra: 0 },
        0xe5 => Decoded { op: OpCode::Sbc, mode: AddrMode::ZeroPage, base: 2, extra: 0 },
        0xe6 => Decoded { op: OpCode::Inc, mode: AddrMode::ZeroPage, base: 4, extra: 0 },
        0xe7 => Decoded { op: OpCode::Isc, mode: AddrMode::ZeroPage, base: 4, extra: 0 },
        0xe8 => Decoded { op: OpCode::Inx, mode: AddrMode::Implied, base: 1, extra: 0 },
        0xe9 | 0xeb => Decoded { op: OpCode::Sbc, mode: AddrMode::Immediate, base: 1, extra: 0 },
        0xec => Decoded { op: OpCode::Cpx, mode: AddrMode::Absolute, base: 3, extra: 0 },
        0xed => Decoded { op: OpCode::Sbc, mode: AddrMode::Absolute, base: 3, extra: 0 },
        0xee => Decoded { op: OpCode::Inc, mode: AddrMode::Absolute, base: 5, extra: 0 },
        0xef => Decoded { op: OpCode::Isc, mode: AddrMode::Absolute, base: 5, extra: 0 },
        0xf0 => Decoded { op: OpCode::Beq, mode: AddrMode::Relative, base: 1, extra: 1 },
        0xf1 => Decoded { op: OpCode::Sbc, mode: AddrMode::IndirectY, base: 4, extra: 1 },
        0xf3 => Decoded { op: OpCode::Isc, mode: AddrMode::IndirectY, base: 7, extra: 0 },
        0xf5 => Decoded { op: OpCode::Sbc, mode: AddrMode::ZeroPageX, base: 3, extra: 0 },
        0xf6 => Decoded { op: OpCode::Inc, mode: AddrMode::ZeroPageX, base: 5, extra: 0 },
        0xf7 => Decoded { op: OpCode::Isc, mode: AddrMode::ZeroPageX, base: 5, extra: 0 },
        0xf8 => Decoded { op: OpCode::Sed, mode: AddrMode::Implied, base: 1, extra: 0 },
        0xf9 => Decoded { op: OpCode::Sbc, mode: AddrMode::AbsoluteY, base: 3, extra: 1 },
        0xfb => Decoded { op: OpCode::Isc, mode: AddrMode::AbsoluteY, base: 6, extra: 0 },
        0xfd => Decoded { op: OpCode::Sbc, mode: AddrMode::AbsoluteX, base: 3, extra: 1 },
        0xfe => Decoded { op: OpCode::Inc, mode: AddrMode::AbsoluteX, base: 6, extra: 0 },
        0xff => Decoded { op: OpCode::Isc, mode: AddrMode::AbsoluteX, base: 6, extra: 0 },
    }
}

} // verus!
