//! Unit tests of the decode tables, the raw-code conversions, the
//! architectural constants and the disassembly text.

use effnes::addr::{AddressingMode, IndexRegister};
use effnes::bus::{BasicMemory, MemoryBus};
use effnes::consts::{AddrMode, CPUVector, Flag, OpCode};
use effnes::decode::decode;
use effnes::inspect::{disassemble, hex2, hex4, mnemonic_text};

#[test]
fn vectors_sit_at_the_top_of_the_address_space() {
    assert_eq!(CPUVector::Nmi.addr(), 0xFFFA);
    assert_eq!(CPUVector::Rst.addr(), 0xFFFC);
    assert_eq!(CPUVector::Brk.addr(), 0xFFFE);
}

#[test]
fn flag_masks_cover_the_status_bits() {
    assert_eq!(Flag::Carry.mask(), 0x01);
    assert_eq!(Flag::Zero.mask(), 0x02);
    assert_eq!(Flag::IntDis.mask(), 0x04);
    assert_eq!(Flag::Decimal.mask(), 0x08);
    assert_eq!(Flag::Break.mask(), 0x10);
    assert_eq!(Flag::Reserved.mask(), 0x20);
    assert_eq!(Flag::Overflow.mask(), 0x40);
    assert_eq!(Flag::Negative.mask(), 0x80);
}

#[test]
fn addr_mode_try_from_round_trips() {
    for code in 0..=12u8 {
        let m = AddrMode::try_from(code).unwrap();
        let again = match m {
            AddrMode::Absolute => 4,
            AddrMode::AbsoluteX => 7,
            AddrMode::AbsoluteY => 8,
            AddrMode::Accumulator => 0,
            AddrMode::Immediate => 1,
            AddrMode::Implied => 2,
            AddrMode::Indirect => 6,
            AddrMode::IndirectX => 11,
            AddrMode::IndirectY => 12,
            AddrMode::Relative => 3,
            AddrMode::ZeroPage => 5,
            AddrMode::ZeroPageX => 9,
            AddrMode::ZeroPageY => 10,
        };
        assert_eq!(again, code);
    }
    assert!(AddrMode::try_from(13).is_err());
    assert!(AddrMode::try_from(255).is_err());
}

#[test]
fn op_code_try_from_accepts_exactly_the_defined_codes() {
    for code in 1..=77u8 {
        assert!(OpCode::try_from(code).is_ok());
    }
    assert!(OpCode::try_from(0).is_err());
    assert!(OpCode::try_from(78).is_err());
    assert!(OpCode::try_from(255).is_err());
}

#[test]
fn decode_knows_the_documented_descriptors() {
    let d = decode(0xA9);
    assert_eq!(d.op, OpCode::Lda);
    assert_eq!(d.mode, AddrMode::Immediate);
    assert_eq!(d.base, 1);
    assert_eq!(d.extra, 0);

    let d = decode(0xBD);
    assert_eq!(d.op, OpCode::Lda);
    assert_eq!(d.mode, AddrMode::AbsoluteX);
    assert_eq!(d.base, 3);
    assert_eq!(d.extra, 1, "page-cross sensitive");

    let d = decode(0x9D);
    assert_eq!(d.op, OpCode::Sta);
    assert_eq!(d.mode, AddrMode::AbsoluteX);
    assert_eq!(d.extra, 0, "stores are not page-cross sensitive");

    let d = decode(0x00);
    assert_eq!(d.op, OpCode::Brk);
    assert_eq!(d.base, 6);

    let d = decode(0x6C);
    assert_eq!(d.op, OpCode::Jmp);
    assert_eq!(d.mode, AddrMode::Indirect);

    let d = decode(0x02);
    assert_eq!(d.op, OpCode::Jam);

    let d = decode(0x90);
    assert_eq!(d.op, OpCode::Bcc);
    assert_eq!(d.mode, AddrMode::Relative);
}

#[test]
fn structural_mode_classification_matches_the_columns() {
    assert_eq!(AddressingMode::from(0x20), AddressingMode::Absolute);
    assert_eq!(AddressingMode::from(0x6C), AddressingMode::Indirect);
    assert_eq!(
        AddressingMode::from(0xB6),
        AddressingMode::ZeroPageI(IndexRegister::Y)
    );
    assert_eq!(
        AddressingMode::from(0xBE),
        AddressingMode::AbsoluteI(IndexRegister::Y)
    );
    assert_eq!(AddressingMode::from(0xA9), AddressingMode::Immediate);
    assert_eq!(AddressingMode::from(0xA5), AddressingMode::ZeroPage);
    assert_eq!(
        AddressingMode::from(0xB5),
        AddressingMode::ZeroPageI(IndexRegister::X)
    );
    assert_eq!(AddressingMode::from(0xAD), AddressingMode::Absolute);
    assert_eq!(
        AddressingMode::from(0xBD),
        AddressingMode::AbsoluteI(IndexRegister::X)
    );
    assert_eq!(
        AddressingMode::from(0xA1),
        AddressingMode::IndirectI(IndexRegister::X)
    );
    assert_eq!(
        AddressingMode::from(0xB1),
        AddressingMode::IndirectI(IndexRegister::Y)
    );
    assert_eq!(AddressingMode::from(0x90), AddressingMode::Relative);
    assert_eq!(AddressingMode::from(0xEA), AddressingMode::Implied);
    assert_eq!(AddressingMode::from(0x0A), AddressingMode::Implied);
}

#[test]
fn hex_formatting() {
    assert_eq!(hex2(0x00).as_str(), "00");
    assert_eq!(hex2(0x4A).as_str(), "4a");
    assert_eq!(hex2(0xFF).as_str(), "ff");
    assert_eq!(hex4(0x0000).as_str(), "0000");
    assert_eq!(hex4(0x12FF).as_str(), "12ff");
    assert_eq!(hex4(0xBEEF).as_str(), "beef");
}

#[test]
fn mnemonic_texts() {
    assert_eq!(mnemonic_text(OpCode::Lda), "LDA");
    assert_eq!(mnemonic_text(OpCode::An1), "ANC");
    assert_eq!(mnemonic_text(OpCode::An2), "ANC");
    assert_eq!(mnemonic_text(OpCode::Jam), "JAM");
}

#[test]
fn disassembly_formats_every_mode() {
    let mut mem = BasicMemory::default_with(0);
    let mut put = |at: u16, bytes: &[u8]| {
        for (i, b) in bytes.iter().enumerate() {
            mem.write_u8(at.wrapping_add(i as u16), *b);
        }
    };
    put(0x0000, &[0xA9, 0x42]);
    put(0x0010, &[0xA5, 0x20]);
    put(0x0020, &[0xB5, 0x20]);
    put(0x0030, &[0xB6, 0x20]);
    put(0x0040, &[0xAD, 0x34, 0x12]);
    put(0x0050, &[0xBD, 0x34, 0x12]);
    put(0x0060, &[0xB9, 0x34, 0x12]);
    put(0x0070, &[0x6C, 0x34, 0x12]);
    put(0x0080, &[0xA1, 0x20]);
    put(0x0090, &[0xB1, 0x20]);
    put(0x00A0, &[0xD0, 0x05]);
    put(0x00B0, &[0x0A]);
    put(0x00C0, &[0xEA]);

    assert_eq!(disassemble(&mem, 0x0000).as_str(), "LDA #$42");
    assert_eq!(disassemble(&mem, 0x0010).as_str(), "LDA $20");
    assert_eq!(disassemble(&mem, 0x0020).as_str(), "LDA $20,X");
    assert_eq!(disassemble(&mem, 0x0030).as_str(), "LDX $20,Y");
    assert_eq!(disassemble(&mem, 0x0040).as_str(), "LDA $1234");
    assert_eq!(disassemble(&mem, 0x0050).as_str(), "LDA $1234,X");
    assert_eq!(disassemble(&mem, 0x0060).as_str(), "LDA $1234,Y");
    assert_eq!(disassemble(&mem, 0x0070).as_str(), "JMP ($1234)");
    assert_eq!(disassemble(&mem, 0x0080).as_str(), "LDA ($20,X)");
    assert_eq!(disassemble(&mem, 0x0090).as_str(), "LDA ($20),Y");
    assert_eq!(disassemble(&mem, 0x00A0).as_str(), "BNE $00a7");
    assert_eq!(disassemble(&mem, 0x00B0).as_str(), "ASL A");
    assert_eq!(disassemble(&mem, 0x00C0).as_str(), "NOP");
}
