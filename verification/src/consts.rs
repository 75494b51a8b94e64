//! Architectural constants of the 6502: interrupt vectors, status flags,
//! addressing modes and the instruction set.

use vstd::prelude::*;

verus! {

/// Fixed addresses at the top of the address space holding the
/// little-endian entry points for interrupts and reset.
#[derive(Clone, Copy, Debug, PartialEq, Eq, Structural)]
pub enum CPUVector {
    /// Non-Maskable Interrupt
    Nmi,
    /// Reset
    Rst,
    /// Break / IRQ
    Brk,
}

impl CPUVector {
    /// The address at which this vector is stored.
    pub open spec fn spec_addr(self) -> u16 {
        match self {
            CPUVector::Nmi => 0xFFFA,
            CPUVector::Rst => 0xFFFC,
            CPUVector::Brk => 0xFFFE,
        }
    }

    pub fn addr(self) -> (r: u16)
        ensures
            r == self.spec_addr(),
    {
        match self {
            CPUVector::Nmi => 0xFFFA,
            CPUVector::Rst => 0xFFFC,
            CPUVector::Brk => 0xFFFE,
        }
    }
}

/// CPU status flags, one per bit of the status register `p`,
/// bit positions 0..7 in declaration order.
#[derive(Clone, Copy, Debug, PartialEq, Eq, Structural)]
pub enum Flag {
    Carry,
    Zero,
    IntDis,
    Decimal,
    Break,
    Reserved,
    Overflow,
    Negative,
}

impl Flag {
    /// The single-bit mask of this flag inside the status register.
    pub open spec fn spec_mask(self) -> u8 {
        match self {
            Flag::Carry => 0x01,
            Flag::Zero => 0x02,
            Flag::IntDis => 0x04,
            Flag::Decimal => 0x08,
            Flag::Break => 0x10,
            Flag::Reserved => 0x20,
            Flag::Overflow => 0x40,
            Flag::Negative => 0x80,
        }
    }

    pub fn mask(self) -> (r: u8)
        ensures
            r == self.spec_mask(),
    {
        match self {
            Flag::Carry => 0x01,
            Flag::Zero => 0x02,
            Flag::IntDis => 0x04,
            Flag::Decimal => 0x08,
            Flag::Break => 0x10,
            Flag::Reserved => 0x20,
            Flag::Overflow => 0x40,
            Flag::Negative => 0x80,
        }
    }
}

/// The closed set of 6502 addressing modes.
#[derive(Clone, Copy, Debug, PartialEq, Eq, Structural)]
pub enum AddrMode {
    Absolute,
    AbsoluteX,
    AbsoluteY,
    Accumulator,
    Immediate,
    Implied,
    Indirect,
    IndirectX,
    IndirectY,
    Relative,
    ZeroPage,
    ZeroPageX,
    ZeroPageY,
}

impl AddrMode {
    /// The raw code this mode decodes from.
    pub open spec fn spec_code(self) -> u8 {
        match self {
            AddrMode::Absolute => 4,
            AddrMode::AbsoluteX => 7,
            AddrMode::AbsoluteY => 8,
            AddrMode::Accumulator => 0,
            AddrMode::Immediate => 1,
            AddrMode::Implied => 2,
            AddrMode::Indirect => 6,
            AddrMode::IndirectX => 11,
            AddrMode::IndirectY => 12,
            AddrMode::Relative => 3,
            AddrMode::ZeroPage => 5,
            AddrMode::ZeroPageX => 9,
            AddrMode::ZeroPageY => 10,
        }
    }

    /// Decodes a raw addressing-mode code; every code outside 0..=12 is refused.
    pub fn try_from(value: u8) -> (r: Result<AddrMode, ()>)
        ensures
            r is Ok <==> value <= 12,
            r matches Ok(m) ==> m.spec_code() == value,
    {
        match value {
            4 => Ok(AddrMode::Absolute),
            7 => Ok(AddrMode::AbsoluteX),
            8 => Ok(AddrMode::AbsoluteY),
            0 => Ok(AddrMode::Accumulator),
            1 => Ok(AddrMode::Immediate),
            2 => Ok(AddrMode::Implied),
            6 => Ok(AddrMode::Indirect),
            11 => Ok(AddrMode::IndirectX),
            12 => Ok(AddrMode::IndirectY),
            3 => Ok(AddrMode::Relative),
            5 => Ok(AddrMode::ZeroPage),
            9 => Ok(AddrMode::ZeroPageX),
            10 => Ok(AddrMode::ZeroPageY),
            _ => Err(()),
        }
    }
}

/// The instruction set: 56 official mnemonics and the illegal/combined
/// families present in the silicon.  `An1` and `An2` are the two encodings
/// of ANC; `Asr` is also known as ALR.
#[derive(Clone, Copy, Debug, PartialEq, Eq, Structural)]
pub enum OpCode {
    Adc,
    An1,
    An2,
    And,
    Ane,
    Arr,
    Asl,
    Asr,
    Bcc,
    Bcs,
    Beq,
    Bit,
    Bmi,
    Bne,
    Bpl,
    Brk,
    Bvc,
    Bvs,
    Clc,
    Cld,
    Cli,
    Clv,
    Cmp,
    Cpx,
    Cpy,
    Dcp,
    Dec,
    Dex,
    Dey,
    Eor,
    Inc,
    Inx,
    Iny,
    Isc,
    Jam,
    Jmp,
    Jsr,
    Las,
    Lax,
    Lda,
    Ldx,
    Ldy,
    Lsr,
    Lxa,
    Nop,
    Ora,
    Pha,
    Php,
    Pla,
    Plp,
    Rla,
    Rol,
    Ror,
    Rra,
    Rti,
    Rts,
    Sax,
    Sbc,
    Sbx,
    Sec,
    Sed,
    Sei,
    Sha,
    Shx,
    Shy,
    Slo,
    Sre,
    Sta,
    Stx,
    Sty,
    Tas,
    Tax,
    Tay,
    Tsx,
    Txa,
    Txs,
    Tya,
}

impl OpCode {
    /// The raw internal code this mnemonic decodes from.
    pub open spec fn spec_code(self) -> u8 {
        match self {
            OpCode::Adc => 0x01,
            OpCode::An1 => 0x3a,
            OpCode::An2 => 0x3b,
            OpCode::And => 0x02,
            OpCode::Ane => 0x3c,
            OpCode::Arr => 0x3d,
            OpCode::Asl => 0x03,
            OpCode::Asr => 0x39,
            OpCode::Bcc => 0x09,
            OpCode::Bcs => 0x0a,
            OpCode::Beq => 0x0c,
            OpCode::Bit => 0x04,
            OpCode::Bmi => 0x06,
            OpCode::Bne => 0x0b,
            OpCode::Bpl => 0x05,
            OpCode::Brk => 0x0d,
            OpCode::Bvc => 0x07,
            OpCode::Bvs => 0x08,
            OpCode::Clc => 0x13,
            OpCode::Cld => 0x18,
            OpCode::Cli => 0x15,
            OpCode::Clv => 0x17,
            OpCode::Cmp => 0x0e,
            OpCode::Cpx => 0x0f,
            OpCode::Cpy => 0x10,
            OpCode::Dcp => 0x3e,
            OpCode::Dec => 0x11,
            OpCode::Dex => 0x25,
            OpCode::Dey => 0x29,
            OpCode::Eor => 0x12,
            OpCode::Inc => 0x1a,
            OpCode::Inx => 0x26,
            OpCode::Iny => 0x2a,
            OpCode::Isc => 0x3f,
            OpCode::Jam => 0x4d,
            OpCode::Jmp => 0x1b,
            OpCode::Jsr => 0x1c,
            OpCode::Las => 0x40,
            OpCode::Lax => 0x41,
            OpCode::Lda => 0x1d,
            OpCode::Ldx => 0x1e,
            OpCode::Ldy => 0x1f,
            OpCode::Lsr => 0x20,
            OpCode::Lxa => 0x42,
            OpCode::Nop => 0x21,
            OpCode::Ora => 0x22,
            OpCode::Pha => 0x33,
            OpCode::Php => 0x35,
            OpCode::Pla => 0x34,
            OpCode::Plp => 0x36,
            OpCode::Rla => 0x43,
            OpCode::Rol => 0x2b,
            OpCode::Ror => 0x2c,
            OpCode::Rra => 0x44,
            OpCode::Rti => 0x2d,
            OpCode::Rts => 0x2e,
            OpCode::Sax => 0x45,
            OpCode::Sbc => 0x2f,
            OpCode::Sbx => 0x46,
            OpCode::Sec => 0x14,
            OpCode::Sed => 0x19,
            OpCode::Sei => 0x16,
            OpCode::Sha => 0x47,
            OpCode::Shx => 0x48,
            OpCode::Shy => 0x49,
            OpCode::Slo => 0x4a,
            OpCode::Sre => 0x4b,
            OpCode::Sta => 0x30,
            OpCode::Stx => 0x37,
            OpCode::Sty => 0x38,
            OpCode::Tas => 0x4c,
            OpCode::Tax => 0x23,
            OpCode::Tay => 0x27,
            OpCode::Tsx => 0x32,
            OpCode::Txa => 0x24,
            OpCode::Txs => 0x31,
            OpCode::Tya => 0x28,
        }
    }

    /// Decodes a raw internal opcode; every code outside 1..=77 is refused.
    pub fn try_from(value: u8) -> (r: Result<OpCode, ()>)
        ensures
            r is Ok <==> 1 <= value <= 77,
            r matches Ok(m) ==> m.spec_code() == value,
    {
        match value {
            1 => Ok(OpCode::Adc),
            58 => Ok(OpCode::An1),
            59 => Ok(OpCode::An2),
            2 => Ok(OpCode::And),
            60 => Ok(OpCode::Ane),
            61 => Ok(OpCode::Arr),
            3 => Ok(OpCode::Asl),
            57 => Ok(OpCode::Asr),
            9 => Ok(OpCode::Bcc),
            10 => Ok(OpCode::Bcs),
            12 => Ok(OpCode::Beq),
            4 => Ok(OpCode::Bit),
            6 => Ok(OpCode::Bmi),
            11 => Ok(OpCode::Bne),
            5 => Ok(OpCode::Bpl),
            13 => Ok(OpCode::Brk),
            7 => Ok(OpCode::Bvc),
            8 => Ok(OpCode::Bvs),
            19 => Ok(OpCode::Clc),
            24 => Ok(OpCode::Cld),
            21 => Ok(OpCode::Cli),
            23 => Ok(OpCode::Clv),
            14 => Ok(OpCode::Cmp),
            15 => Ok(OpCode::Cpx),
            16 => Ok(OpCode::Cpy),
            62 => Ok(OpCode::Dcp),
            17 => Ok(OpCode::Dec),
            37 => Ok(OpCode::Dex),
            41 => Ok(OpCode::Dey),
            18 => Ok(OpCode::Eor),
            26 => Ok(OpCode::Inc),
            38 => Ok(OpCode::Inx),
            42 => Ok(OpCode::Iny),
            63 => Ok(OpCode::Isc),
            77 => Ok(OpCode::Jam),
            27 => Ok(OpCode::Jmp),
            28 => Ok(OpCode::Jsr),
            64 => Ok(OpCode::Las),
            65 => Ok(OpCode::Lax),
            29 => Ok(OpCode::Lda),
            30 => Ok(OpCode::Ldx),
            31 => Ok(OpCode::Ldy),
            32 => Ok(OpCode::Lsr),
            66 => Ok(OpCode::Lxa),
            33 => Ok(OpCode::Nop),
            34 => Ok(OpCode::Ora),
            51 => Ok(OpCode::Pha),
            53 => Ok(OpCode::Php),
            52 => Ok(OpCode::Pla),
            54 => Ok(OpCode::Plp),
            67 => Ok(OpCode::Rla),
            43 => Ok(OpCode::Rol),
            44 => Ok(OpCode::Ror),
            68 => Ok(OpCode::Rra),
            45 => Ok(OpCode::Rti),
            46 => Ok(OpCode::Rts),
            69 => Ok(OpCode::Sax),
            47 => Ok(OpCode::Sbc),
            70 => Ok(OpCode::Sbx),
            20 => Ok(OpCode::Sec),
            25 => Ok(OpCode::Sed),
            22 => Ok(OpCode::Sei),
            71 => Ok(OpCode::Sha),
            72 => Ok(OpCode::Shx),
            73 => Ok(OpCode::Shy),
            74 => Ok(OpCode::Slo),
            75 => Ok(OpCode::Sre),
            48 => Ok(OpCode::Sta),
            55 => Ok(OpCode::Stx),
            56 => Ok(OpCode::Sty),
            76 => Ok(OpCode::Tas),
            35 => Ok(OpCode::Tax),
            39 => Ok(OpCode::Tay),
            50 => Ok(OpCode::Tsx),
            36 => Ok(OpCode::Txa),
            49 => Ok(OpCode::Txs),
            40 => Ok(OpCode::Tya),
            _ => Err(()),
        }
    }
}

} // verus!
