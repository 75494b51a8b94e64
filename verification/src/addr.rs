//! The structural addressing-mode classification used by the
//! cycle-accurate engine: the mode is computed from the opcode byte's
//! column layout instead of a table.

use vstd::prelude::*;

verus! {

/// Which index register an indexed mode adds.
#[derive(Clone, Copy, Debug, PartialEq, Eq, Structural)]
pub enum IndexRegister {
    X,
    Y,
}

/// The addressing modes as the cycle-accurate engine classifies them.
/// Accumulator operands are folded into `Implied`; the executor tells the
/// two apart by the mnemonic.
#[derive(Clone, Copy, Debug, PartialEq, Eq, Structural)]
pub enum AddressingMode {
    Implied,
    Immediate,
    ZeroPage,
    ZeroPageI(IndexRegister),
    Absolute,
    AbsoluteI(IndexRegister),
    Indirect,
    IndirectI(IndexRegister),
    Relative,
}

/// The structural decode as a mathematical function: a handful of
/// exceptional opcodes, then the column rules over the opcode's nibbles.
pub open spec fn spec_mode_of(opcode: u8) -> AddressingMode {
    match opcode {
        0x20 => AddressingMode::Absolute,
        0x6C => AddressingMode::Indirect,
        0x96 | 0x97 | 0xB6 | 0xB7 => AddressingMode::ZeroPageI(IndexRegister::Y),
        0x9E | 0x9F | 0xBE | 0xBF => AddressingMode::AbsoluteI(IndexRegister::Y),
        _ => {
            let high = opcode >> 4;
            let low = opcode & 0xF;
            if high & 0x1 != 0 && low == 0 {
                AddressingMode::Relative
            } else {
                match low {
                    0x0 | 0x2 => if high <= 0x7 {
                        AddressingMode::Implied
                    } else {
                        AddressingMode::Immediate
                    },
                    0x1 | 0x3 => AddressingMode::IndirectI(
                        if high & 1 != 0 {
                            IndexRegister::Y
                        } else {
                            IndexRegister::X
                        },
                    ),
                    0x4 | 0x5 | 0x6 | 0x7 => if high & 1 != 0 {
                        AddressingMode::ZeroPageI(IndexRegister::X)
                    } else {
                        AddressingMode::ZeroPage
                    },
                    0x8 | 0xA => AddressingMode::Implied,
                    0x9 | 0xB => if high & 1 != 0 {
                        AddressingMode::AbsoluteI(IndexRegister::Y)
                    } else {
                        AddressingMode::Immediate
                    },
                    _ => if high & 1 != 0 {
                        AddressingMode::AbsoluteI(IndexRegister::X)
                    } else {
                        AddressingMode::Absolute
                    },
                }
            }
        },
    }
}

impl AddressingMode {
    /// Classifies one raw opcode byte.
    pub fn from(opcode: u8) -> (r: AddressingMode)
        ensures
            r == spec_mode_of(opcode),
    {
        match opcode {
            0x20 => AddressingMode::Absolute,
            0x6C => AddressingMode::Indirect,
            0x96 | 0x97 | 0xB6 | 0xB7 => AddressingMode::ZeroPageI(IndexRegister::Y),
            0x9E | 0x9F | 0xBE | 0xBF => AddressingMode::AbsoluteI(IndexRegister::Y),
            _ => {
                let high = opcode >> 4;
                let low = opcode & 0xF;
                if high & 0x1 != 0 && low == 0 {
                    AddressingMode::Relative
                } else {
                    match low {
                        0x0 | 0x2 => if high <= 0x7 {
                            AddressingMode::Implied
                        } else {
                            AddressingMode::Immediate
                        },
                        0x1 | 0x3 => AddressingMode::IndirectI(
                            if high & 1 != 0 {
                                IndexRegister::Y
                            } else {
                                IndexRegister::X
                            },
                        ),
                        0x4 | 0x5 | 0x6 | 0x7 => if high & 1 != 0 {
                            AddressingMode::ZeroPageI(IndexRegister::X)
                        } else {
                            AddressingMode::ZeroPage
                        },
                        0x8 | 0xA => AddressingMode::Implied,
                        0x9 | 0xB => if high & 1 != 0 {
                            AddressingMode::AbsoluteI(IndexRegister::Y)
                        } else {
                            AddressingMode::Immediate
                        },
                        _ => if high & 1 != 0 {
                            AddressingMode::AbsoluteI(IndexRegister::X)
                        } else {
                            AddressingMode::Absolute
                        },
                    }
                }
            },
        }
    }
}

} // verus!
