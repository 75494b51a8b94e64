//! The inspection surface: a read-only snapshot of the register file and
//! a disassembly of the instruction at the program counter, built from
//! side-effect-free peeks only.

use vstd::prelude::*;
use crate::addr::AddressingMode;
use crate::bus::{word_le, InspectBus};
use crate::consts::{AddrMode, OpCode};
use crate::decode::{decode, spec_decode};
use crate::model::mget;

verus! {

/// A read-only snapshot of a CPU's architectural state.
#[derive(Clone, Copy, Debug, PartialEq, Eq, Structural)]
pub struct State {
    pub pc: u16,
    pub sp: u8,
    pub ac: u8,
    pub ix: u8,
    pub iy: u8,
    pub am: AddressingMode,
    pub ps: u8,
    pub cc: usize,
}

/// A CPU that can be inspected without disturbing it.
pub trait InspectCpu: Sized {
    /// Whether this engine advances one bus cycle per step.
    fn is_cycle_accurate(&self) -> bool;

    /// A snapshot of the architectural state.
    fn state(&self) -> State;
}

impl<T: crate::bus::MemoryBus> InspectCpu for crate::cycle::VM<T> {
    fn is_cycle_accurate(&self) -> (r: bool)
        ensures
            r == true,
    {
        true
    }

    fn state(&self) -> (r: State)
        ensures
            r == (State {
                pc: self.r_pc,
                sp: self.r_sp,
                ac: self.r_ac,
                ix: self.r_ix,
                iy: self.r_iy,
                am: self.addr_mode,
                ps: self.r_ps,
                cc: self.cycles,
            }),
    {
        State {
            pc: self.r_pc,
            sp: self.r_sp,
            ac: self.r_ac,
            ix: self.r_ix,
            iy: self.r_iy,
            am: self.addr_mode,
            ps: self.r_ps,
            cc: self.cycles,
        }
    }
}

/// The text of one hexadecimal digit.
pub open spec fn spec_hex_digit(n: u8) -> Seq<char> {
    match n {
        0 => "0"@,
        1 => "1"@,
        2 => "2"@,
        3 => "3"@,
        4 => "4"@,
        5 => "5"@,
        6 => "6"@,
        7 => "7"@,
        8 => "8"@,
        9 => "9"@,
        10 => "a"@,
        11 => "b"@,
        12 => "c"@,
        13 => "d"@,
        14 => "e"@,
        15 => "f"@,
        _ => ""@,
    }
}

fn hex_digit(n: u8) -> (r: &'static str)
    requires
        n <= 15,
    ensures
        r@ == spec_hex_digit(n),
{
    match n {
        0 => "0",
        1 => "1",
        2 => "2",
        3 => "3",
        4 => "4",
        5 => "5",
        6 => "6",
        7 => "7",
        8 => "8",
        9 => "9",
        10 => "a",
        11 => "b",
        12 => "c",
        13 => "d",
        14 => "e",
        _ => "f",
    }
}

/// The two lower-case hexadecimal digits of a byte.
pub open spec fn spec_hex2(v: u8) -> Seq<char> {
    spec_hex_digit(v >> 4) + spec_hex_digit(v & 0xF)
}

/// Formats a byte as two lower-case hexadecimal digits.
pub fn hex2(v: u8) -> (r: String)
    ensures
        r@ == spec_hex2(v),
{
    let mut s = String::new();
    proof {
        assert(v >> 4 <= 15 && v & 0xF <= 15) by (bit_vector);
    }
    s.append(hex_digit(v >> 4));
    s.append(hex_digit(v & 0xF));
    s
}

/// The four lower-case hexadecimal digits of a 16-bit word.
pub open spec fn spec_hex4(v: u16) -> Seq<char> {
    spec_hex2((v >> 8) as u8) + spec_hex2(v as u8)
}

/// Formats a 16-bit word as four lower-case hexadecimal digits.
pub fn hex4(v: u16) -> (r: String)
    ensures
        r@ == spec_hex4(v),
{
    let mut s = hex2((v >> 8) as u8);
    let lo = hex2(v as u8);
    s.append(lo.as_str());
    s
}

/// The canonical text of a mnemonic.
pub open spec fn spec_mnemonic_text(op: OpCode) -> Seq<char> {
    match op {
        OpCode::Adc => "ADC"@,
        OpCode::An1 => "ANC"@,
        OpCode::An2 => "ANC"@,
        OpCode::And => "AND"@,
        OpCode::Ane => "ANE"@,
        OpCode::Arr => "ARR"@,
        OpCode::Asl => "ASL"@,
        OpCode::Asr => "ASR"@,
        OpCode::Bcc => "BCC"@,
        OpCode::Bcs => "BCS"@,
        OpCode::Beq => "BEQ"@,
        OpCode::Bit => "BIT"@,
        OpCode::Bmi => "BMI"@,
        OpCode::Bne => "BNE"@,
        OpCode::Bpl => "BPL"@,
        OpCode::Brk => "BRK"@,
        OpCode::Bvc => "BVC"@,
        OpCode::Bvs => "BVS"@,
        OpCode::Clc => "CLC"@,
        OpCode::Cld => "CLD"@,
        OpCode::Cli => "CLI"@,
        OpCode::Clv => "CLV"@,
        OpCode::Cmp => "CMP"@,
        OpCode::Cpx => "CPX"@,
        OpCode::Cpy => "CPY"@,
        OpCode::Dcp => "DCP"@,
        OpCode::Dec => "DEC"@,
        OpCode::Dex => "DEX"@,
        OpCode::Dey => "DEY"@,
        OpCode::Eor => "EOR"@,
        OpCode::Inc => "INC"@,
        OpCode::Inx => "INX"@,
        OpCode::Iny => "INY"@,
        OpCode::Isc => "ISC"@,
        OpCode::Jam => "JAM"@,
        OpCode::Jmp => "JMP"@,
        OpCode::Jsr => "JSR"@,
        OpCode::Las => "LAS"@,
        OpCode::Lax => "LAX"@,
        OpCode::Lda => "LDA"@,
        OpCode::Ldx => "LDX"@,
        OpCode::Ldy => "LDY"@,
        OpCode::Lsr => "LSR"@,
        OpCode::Lxa => "LXA"@,
        OpCode::Nop => "NOP"@,
        OpCode::Ora => "ORA"@,
        OpCode::Pha => "PHA"@,
        OpCode::Php => "PHP"@,
        OpCode::Pla => "PLA"@,
        OpCode::Plp => "PLP"@,
        OpCode::Rla => "RLA"@,
        OpCode::Rol => "ROL"@,
        OpCode::Ror => "ROR"@,
        OpCode::Rra => "RRA"@,
        OpCode::Rti => "RTI"@,
        OpCode::Rts => "RTS"@,
        OpCode::Sax => "SAX"@,
        OpCode::Sbc => "SBC"@,
        OpCode::Sbx => "SBX"@,
        OpCode::Sec => "SEC"@,
        OpCode::Sed => "SED"@,
        OpCode::Sei => "SEI"@,
        OpCode::Sha => "SHA"@,
        OpCode::Shx => "SHX"@,
        OpCode::Shy => "SHY"@,
        OpCode::Slo => "SLO"@,
        OpCode::Sre => "SRE"@,
        OpCode::Sta => "STA"@,
        OpCode::Stx => "STX"@,
        OpCode::Sty => "STY"@,
        OpCode::Tas => "TAS"@,
        OpCode::Tax => "TAX"@,
        OpCode::Tay => "TAY"@,
        OpCode::Tsx => "TSX"@,
        OpCode::Txa => "TXA"@,
        OpCode::Txs => "TXS"@,
        OpCode::Tya => "TYA"@,
    }
}

/// The canonical text of a mnemonic (ANC covers both of its encodings).
pub fn mnemonic_text(op: OpCode) -> (r: &'static str)
    ensures
        r@ == spec_mnemonic_text(op),
{
    match op {
        OpCode::Adc => "ADC",
        OpCode::An1 => "ANC",
        OpCode::An2 => "ANC",
        OpCode::And => "AND",
        OpCode::Ane => "ANE",
        OpCode::Arr => "ARR",
        OpCode::Asl => "ASL",
        OpCode::Asr => "ASR",
        OpCode::Bcc => "BCC",
        OpCode::Bcs => "BCS",
        OpCode::Beq => "BEQ",
        OpCode::Bit => "BIT",
        OpCode::Bmi => "BMI",
        OpCode::Bne => "BNE",
        OpCode::Bpl => "BPL",
        OpCode::Brk => "BRK",
        OpCode::Bvc => "BVC",
        OpCode::Bvs => "BVS",
        OpCode::Clc => "CLC",
        OpCode::Cld => "CLD",
        OpCode::Cli => "CLI",
        OpCode::Clv => "CLV",
        OpCode::Cmp => "CMP",
        OpCode::Cpx => "CPX",
        OpCode::Cpy => "CPY",
        OpCode::Dcp => "DCP",
        OpCode::Dec => "DEC",
        OpCode::Dex => "DEX",
        OpCode::Dey => "DEY",
        OpCode::Eor => "EOR",
        OpCode::Inc => "INC",
        OpCode::Inx => "INX",
        OpCode::Iny => "INY",
        OpCode::Isc => "ISC",
        OpCode::Jam => "JAM",
        OpCode::Jmp => "JMP",
        OpCode::Jsr => "JSR",
        OpCode::Las => "LAS",
        OpCode::Lax => "LAX",
        OpCode::Lda => "LDA",
        OpCode::Ldx => "LDX",
        OpCode::Ldy => "LDY",
        OpCode::Lsr => "LSR",
        OpCode::Lxa => "LXA",
        OpCode::Nop => "NOP",
        OpCode::Ora => "ORA",
        OpCode::Pha => "PHA",
        OpCode::Php => "PHP",
        OpCode::Pla => "PLA",
        OpCode::Plp => "PLP",
        OpCode::Rla => "RLA",
        OpCode::Rol => "ROL",
        OpCode::Ror => "ROR",
        OpCode::Rra => "RRA",
        OpCode::Rti => "RTI",
        OpCode::Rts => "RTS",
        OpCode::Sax => "SAX",
        OpCode::Sbc => "SBC",
        OpCode::Sbx => "SBX",
        OpCode::Sec => "SEC",
        OpCode::Sed => "SED",
        OpCode::Sei => "SEI",
        OpCode::Sha => "SHA",
        OpCode::Shx => "SHX",
        OpCode::Shy => "SHY",
        OpCode::Slo => "SLO",
        OpCode::Sre => "SRE",
        OpCode::Sta => "STA",
        OpCode::Stx => "STX",
        OpCode::Sty => "STY",
        OpCode::Tas => "TAS",
        OpCode::Tax => "TAX",
        OpCode::Tay => "TAY",
        OpCode::Tsx => "TSX",
        OpCode::Txa => "TXA",
        OpCode::Txs => "TXS",
        OpCode::Tya => "TYA",
    }
}

/// How many operand bytes an addressing mode takes from the instruction
/// stream.
pub open spec fn spec_operand_len(mode: AddrMode) -> u16 {
    match mode {
        AddrMode::Implied => 0,
        AddrMode::Accumulator => 0,
        AddrMode::Immediate => 1,
        AddrMode::Relative => 1,
        AddrMode::ZeroPage => 1,
        AddrMode::ZeroPageX => 1,
        AddrMode::ZeroPageY => 1,
        AddrMode::IndirectX => 1,
        AddrMode::IndirectY => 1,
        AddrMode::Absolute => 2,
        AddrMode::AbsoluteX => 2,
        AddrMode::AbsoluteY => 2,
        AddrMode::Indirect => 2,
    }
}

/// The number of operand bytes following the opcode, fixed by the
/// addressing mode: none, one, or two.
pub fn operand_len(mode: AddrMode) -> (r: u16)
    ensures
        r == spec_operand_len(mode),
        r <= 2,
{
    match mode {
        AddrMode::Implied => 0,
        AddrMode::Accumulator => 0,
        AddrMode::Immediate => 1,
        AddrMode::Relative => 1,
        AddrMode::ZeroPage => 1,
        AddrMode::ZeroPageX => 1,
        AddrMode::ZeroPageY => 1,
        AddrMode::IndirectX => 1,
        AddrMode::IndirectY => 1,
        AddrMode::Absolute => 2,
        AddrMode::AbsoluteX => 2,
        AddrMode::AbsoluteY => 2,
        AddrMode::Indirect => 2,
    }
}

/// The operand text of the instruction at `pc` in `mem`, in the
/// addressing-mode-specific syntax; relative operands print the branch
/// target rather than the raw offset.
pub open spec fn spec_operand_text(mem: Seq<u8>, pc: u16) -> Seq<char> {
    let d = spec_decode(mget(mem, pc));
    let b = mget(mem, pc.wrapping_add(1));
    let w = word_le(mem, pc.wrapping_add(1));
    match d.mode {
        AddrMode::Immediate => "#$"@ + spec_hex2(b),
        AddrMode::ZeroPage => "$"@ + spec_hex2(b),
        AddrMode::ZeroPageX => "$"@ + spec_hex2(b) + ",X"@,
        AddrMode::ZeroPageY => "$"@ + spec_hex2(b) + ",Y"@,
        AddrMode::Absolute => "$"@ + spec_hex4(w),
        AddrMode::AbsoluteX => "$"@ + spec_hex4(w) + ",X"@,
        AddrMode::AbsoluteY => "$"@ + spec_hex4(w) + ",Y"@,
        AddrMode::Indirect => "($"@ + spec_hex4(w) + ")"@,
        AddrMode::IndirectX => "($"@ + spec_hex2(b) + ",X)"@,
        AddrMode::IndirectY => "($"@ + spec_hex2(b) + "),Y"@,
        AddrMode::Relative => "$"@ + spec_hex4(
            pc.wrapping_add(2).wrapping_add_signed((b as i8) as i16),
        ),
        AddrMode::Accumulator => "A"@,
        AddrMode::Implied => ""@,
    }
}

/// The full disassembly of the instruction at `pc`: the mnemonic, then a
/// space and the operand where the mode takes one.
pub open spec fn spec_instruction_text(mem: Seq<u8>, pc: u16) -> Seq<char> {
    let d = spec_decode(mget(mem, pc));
    if d.mode is Implied {
        spec_mnemonic_text(d.op)
    } else {
        spec_mnemonic_text(d.op) + " "@ + spec_operand_text(mem, pc)
    }
}

/// Disassembles the instruction at `pc`, using side-effect-free peeks
/// only.
pub fn disassemble<T: InspectBus>(io: &T, pc: u16) -> (r: String)
    requires
        io.peek_mem().len() == 0x10000,
    ensures
        r@ == spec_instruction_text(io.peek_mem(), pc),
{
    let op = io.peek_u8(pc);
    let d = decode(op);
    let b = io.peek_u8(pc.wrapping_add(1));
    let w = io.peek_u16(pc.wrapping_add(1));
    let mut s = String::from_str(mnemonic_text(d.op));
    if matches!(d.mode, AddrMode::Implied) {
        return s;
    }
    s.append(" ");
    match d.mode {
        AddrMode::Immediate => {
            s.append("#$");
            let h = hex2(b);
            s.append(h.as_str());
        },
        AddrMode::ZeroPage => {
            s.append("$");
            let h = hex2(b);
            s.append(h.as_str());
        },
        AddrMode::ZeroPageX => {
            s.append("$");
            let h = hex2(b);
            s.append(h.as_str());
            s.append(",X");
        },
        AddrMode::ZeroPageY => {
            s.append("$");
            let h = hex2(b);
            s.append(h.as_str());
            s.append(",Y");
        },
        AddrMode::Absolute => {
            s.append("$");
            let h = hex4(w);
            s.append(h.as_str());
        },
        AddrMode::AbsoluteX => {
            s.append("$");
            let h = hex4(w);
            s.append(h.as_str());
            s.append(",X");
        },
        AddrMode::AbsoluteY => {
            s.append("$");
            let h = hex4(w);
            s.append(h.as_str());
            s.append(",Y");
        },
        AddrMode::Indirect => {
            s.append("($");
            let h = hex4(w);
            s.append(h.as_str());
            s.append(")");
        },
        AddrMode::IndirectX => {
            s.append("($");
            let h = hex2(b);
            s.append(h.as_str());
            s.append(",X)");
        },
        AddrMode::IndirectY => {
            s.append("($");
            let h = hex2(b);
            s.append(h.as_str());
            s.append("),Y");
        },
        AddrMode::Relative => {
            s.append("$");
            let h = hex4(pc.wrapping_add(2).wrapping_add_signed((b as i8) as i16));
            s.append(h.as_str());
        },
        _ => {
            s.append("A");
        },
    }
    s
}

} // verus!
