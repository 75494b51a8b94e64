//! The mathematical model of the cycle-accurate engine.
//!
//! A [`CaMach`] value is the complete per-cycle state: register file, the
//! state-machine position, the values held across cycles (current opcode,
//! addressing mode, operand, effective address), the bus operation the
//! last cycle performed, and the memory image.  [`ca_step`] is the meaning
//! of one bus cycle; the executable engine in `cycle` is proved equal to
//! it cycle for cycle.

use vstd::prelude::*;
use crate::addr::{AddressingMode, IndexRegister, spec_mode_of};
use crate::consts::OpCode;
use crate::decode::spec_decode;
use crate::model::{adc_a, adc_p, mget, nz_flags, with_flag};

verus! {

/// The micro-states of effective-address resolution.
#[derive(Clone, Copy, Debug, PartialEq, Eq, Structural)]
pub enum AddressResolverState {
    FetchOperand,
    FetchAddress { high_byte: bool },
    FetchZeroPageAddress { high_byte: bool },
    IndXDummyRead,
    IndZPDummyRead,
    AddIndexRegister { index_register: IndexRegister, bump_page: bool },
    ZeroPageAddIndexRegister,
}

/// The top-level states of the per-cycle machine.  `Write` carries the
/// byte the next cycle stores; its dummy phase re-writes the unmodified
/// operand of a read-modify-write instruction, as the hardware does.
/// `BranchPenalty` burns the extra cycle of a taken branch, and one more
/// when the branch crossed a page.  `Halt` is absorbing.
#[derive(Clone, Copy, Debug, PartialEq, Eq, Structural)]
pub enum State {
    FetchOpCode,
    ResolveAddress(AddressResolverState),
    Process,
    Write { dummy: bool, data: u8 },
    BranchPenalty { page_cross: bool },
    Halt,
}

/// The bus operation one cycle performed, part of the inspection surface:
/// dummy reads and dummy writes are observable here.
#[derive(Clone, Copy, Debug, PartialEq, Eq, Structural)]
pub enum BusOp {
    Idle,
    Read(u16),
    Write(u16, u8),
}

/// The abstract state of the cycle-accurate machine.  The program counter
/// always holds the address of the next byte to consume: a fetch reads
/// the opcode at the counter and advances it once, and every operand read
/// from the instruction stream advances it once more.
#[verifier::ext_equal]
pub struct CaMach {
    pub pc: u16,
    pub sp: u8,
    pub ac: u8,
    pub ix: u8,
    pub iy: u8,
    pub ps: u8,
    pub state: State,
    pub addr_mode: AddressingMode,
    pub operand: u8,
    pub execute: u8,
    pub address: u16,
    pub t: u8,
    pub cycles: int,
    pub bus_op: BusOp,
    pub mem: Seq<u8>,
}

/// The opcode-fetch cycle: read the opcode at the program counter,
/// advance the counter by one, classify the addressing mode, and enter
/// the first resolution state (immediate operands resolve at once to the
/// byte after the opcode).
pub open spec fn ca_fetch(m: CaMach) -> CaMach {
    let op = mget(m.mem, m.pc);
    let mode = spec_mode_of(op);
    let m1 = CaMach {
        t: 0,
        pc: m.pc.wrapping_add(1),
        execute: op,
        addr_mode: mode,
        bus_op: BusOp::Read(m.pc),
        ..m
    };
    match mode {
        AddressingMode::Implied => CaMach { state: State::Process, ..m1 },
        AddressingMode::Immediate => CaMach { state: State::Process, address: m1.pc, ..m1 },
        AddressingMode::ZeroPage | AddressingMode::ZeroPageI(_) | AddressingMode::IndirectI(_)
            | AddressingMode::Relative => CaMach {
            state: State::ResolveAddress(AddressResolverState::FetchOperand),
            ..m1
        },
        _ => CaMach {
            state: State::ResolveAddress(AddressResolverState::FetchAddress { high_byte: false }),
            ..m1
        },
    }
}

/// One cycle of effective-address resolution.
pub open spec fn ca_resolve(m: CaMach, ads: AddressResolverState) -> CaMach {
    match ads {
        AddressResolverState::FetchOperand => {
            let v = mget(m.mem, m.pc);
            let m1 = CaMach {
                pc: m.pc.wrapping_add(1),
                operand: v,
                address: v as u16,
                bus_op: BusOp::Read(m.pc),
                ..m
            };
            match m.addr_mode {
                AddressingMode::ZeroPage => CaMach { state: State::Process, ..m1 },
                AddressingMode::Relative => CaMach { state: State::Process, ..m1 },
                AddressingMode::ZeroPageI(_) => CaMach {
                    state: State::ResolveAddress(AddressResolverState::IndZPDummyRead),
                    ..m1
                },
                AddressingMode::IndirectI(ir) => CaMach {
                    state: State::ResolveAddress(
                        if ir is X {
                            AddressResolverState::IndXDummyRead
                        } else {
                            AddressResolverState::FetchZeroPageAddress { high_byte: false }
                        },
                    ),
                    ..m1
                },
                _ => CaMach { state: State::Process, ..m1 },
            }
        },
        AddressResolverState::FetchAddress { high_byte } => {
            if !high_byte {
                let v = mget(m.mem, m.pc);
                CaMach {
                    pc: m.pc.wrapping_add(1),
                    address: v as u16,
                    bus_op: BusOp::Read(m.pc),
                    state: State::ResolveAddress(
                        AddressResolverState::FetchAddress { high_byte: true },
                    ),
                    ..m
                }
            } else {
                let v = mget(m.mem, m.pc);
                let ab = m.address.wrapping_add((v as u16) << 8);
                let st = match m.addr_mode {
                    AddressingMode::AbsoluteI(ir) => State::ResolveAddress(
                        AddressResolverState::AddIndexRegister {
                            index_register: ir,
                            bump_page: false,
                        },
                    ),
                    _ => State::Process,
                };
                CaMach {
                    pc: m.pc.wrapping_add(1),
                    address: ab,
                    bus_op: BusOp::Read(m.pc),
                    state: st,
                    ..m
                }
            }
        },
        AddressResolverState::IndXDummyRead => CaMach {
            operand: m.operand.wrapping_add(m.ix),
            bus_op: BusOp::Read(m.operand as u16),
            state: State::ResolveAddress(
                AddressResolverState::FetchZeroPageAddress { high_byte: false },
            ),
            ..m
        },
        AddressResolverState::IndZPDummyRead => CaMach {
            bus_op: BusOp::Read(m.address),
            state: State::ResolveAddress(AddressResolverState::ZeroPageAddIndexRegister),
            ..m
        },
        AddressResolverState::FetchZeroPageAddress { high_byte } => {
            if !high_byte {
                let v = mget(m.mem, m.operand as u16);
                CaMach {
                    address: v as u16,
                    operand: m.operand.wrapping_add(1),
                    bus_op: BusOp::Read(m.operand as u16),
                    state: State::ResolveAddress(
                        AddressResolverState::FetchZeroPageAddress { high_byte: true },
                    ),
                    ..m
                }
            } else {
                let v = mget(m.mem, m.operand as u16);
                let ab = m.address.wrapping_add((v as u16) << 8);
                let st = match m.addr_mode {
                    AddressingMode::IndirectI(IndexRegister::Y) => State::ResolveAddress(
                        AddressResolverState::AddIndexRegister {
                            index_register: IndexRegister::Y,
                            bump_page: false,
                        },
                    ),
                    _ => State::Process,
                };
                CaMach { address: ab, bus_op: BusOp::Read(m.operand as u16), state: st, ..m }
            }
        },
        AddressResolverState::AddIndexRegister { index_register, bump_page } => {
            if bump_page {
                CaMach {
                    address: m.address.wrapping_add(0x0100),
                    bus_op: BusOp::Idle,
                    state: State::Process,
                    ..m
                }
            } else {
                let index = if index_register is X {
                    m.ix
                } else {
                    m.iy
                };
                let low = (m.address as u8).wrapping_add(index);
                if low < index {
                    let ab = (m.address & 0xFF00).wrapping_add(low as u16);
                    CaMach {
                        address: ab,
                        bus_op: BusOp::Read(ab),
                        state: State::ResolveAddress(
                            AddressResolverState::AddIndexRegister {
                                index_register,
                                bump_page: true,
                            },
                        ),
                        ..m
                    }
                } else {
                    CaMach {
                        address: m.address.wrapping_add(index as u16),
                        bus_op: BusOp::Idle,
                        state: State::Process,
                        ..m
                    }
                }
            }
        },
        AddressResolverState::ZeroPageAddIndexRegister => {
            let op1 = match m.addr_mode {
                AddressingMode::ZeroPageI(ir) => m.operand.wrapping_add(
                    if ir is X {
                        m.ix
                    } else {
                        m.iy
                    },
                ),
                _ => m.operand,
            };
            CaMach {
                operand: op1,
                address: op1 as u16,
                bus_op: BusOp::Idle,
                state: State::Process,
                ..m
            }
        },
    }
}

/// Whether the process cycle reads the operand from the effective address:
/// implied and relative operands are already at hand, and stores and jumps
/// read nothing.
pub open spec fn ca_reads_operand(op: OpCode, mode: AddressingMode) -> bool {
    &&& !(mode is Implied)
    &&& !(mode is Relative)
    &&& !(op is Sta)
    &&& !(op is Stx)
    &&& !(op is Sty)
    &&& !(op is Jmp)
}

/// A read-modify-write result: set N and Z now, write back the unmodified
/// value next cycle, then the result (`res` is parked in `operand`).
pub open spec fn ca_rmw(m: CaMach, old_v: u8, res: u8, ps: u8) -> CaMach {
    CaMach {
        ps: nz_flags(ps, res),
        operand: res,
        state: State::Write { dummy: true, data: old_v },
        ..m
    }
}

/// A register result: set N and Z and fetch the next opcode.
pub open spec fn ca_reg_nz(m: CaMach, ps: u8, res: u8) -> u8 {
    nz_flags(ps, res)
}

/// A store: the register goes out on the bus and the next opcode follows.
pub open spec fn ca_store(m: CaMach, v: u8) -> CaMach {
    CaMach {
        mem: m.mem.update(m.address as int, v),
        bus_op: BusOp::Write(m.address, v),
        state: State::FetchOpCode,
        ..m
    }
}

/// A taken or skipped branch over the relative offset in `operand`.  At
/// this point the counter has consumed the opcode and the offset, so a
/// taken branch lands exactly at opcode address + 2 + offset; it then
/// burns one penalty cycle, and one more when the target page differs
/// from the page of the counter.
pub open spec fn ca_branch(m: CaMach, taken: bool) -> CaMach {
    if taken {
        let target = m.pc.wrapping_add_signed((m.operand as i8) as i16);
        CaMach {
            pc: target,
            state: State::BranchPenalty { page_cross: (target & 0xff00) != (m.pc & 0xff00) },
            ..m
        }
    } else {
        CaMach { state: State::FetchOpCode, ..m }
    }
}

/// A branch-penalty cycle: no bus work; a page crossing burns one more
/// cycle before the next fetch.
pub open spec fn ca_branch_penalty(m: CaMach, page_cross: bool) -> CaMach {
    if page_cross {
        CaMach { bus_op: BusOp::Idle, state: State::BranchPenalty { page_cross: false }, ..m }
    } else {
        CaMach { bus_op: BusOp::Idle, state: State::FetchOpCode, ..m }
    }
}

/// The execute step of the process cycle, after the operand read.
/// Mnemonics whose micro-states this machine does not model (the stack
/// and interrupt instructions, indirect jumps and the illegal families)
/// are reported as a halting fault.
pub open spec fn ca_execute(op: OpCode, m: CaMach) -> CaMach {
    let v = m.operand;
    let go = State::FetchOpCode;
    match op {
        OpCode::Jam => CaMach { state: State::Halt, ..m },
        OpCode::Nop => CaMach { state: go, ..m },
        OpCode::Lda => CaMach { ac: v, ps: nz_flags(m.ps, v), state: go, ..m },
        OpCode::Ldx => CaMach { ix: v, ps: nz_flags(m.ps, v), state: go, ..m },
        OpCode::Ldy => CaMach { iy: v, ps: nz_flags(m.ps, v), state: go, ..m },
        OpCode::Sta => ca_store(m, m.ac),
        OpCode::Stx => ca_store(m, m.ix),
        OpCode::Sty => ca_store(m, m.iy),
        OpCode::Tax => CaMach { ix: m.ac, ps: nz_flags(m.ps, m.ac), state: go, ..m },
        OpCode::Tay => CaMach { iy: m.ac, ps: nz_flags(m.ps, m.ac), state: go, ..m },
        OpCode::Tsx => CaMach { ix: m.sp, ps: nz_flags(m.ps, m.sp), state: go, ..m },
        OpCode::Txa => CaMach { ac: m.ix, ps: nz_flags(m.ps, m.ix), state: go, ..m },
        OpCode::Txs => CaMach { sp: m.ix, state: go, ..m },
        OpCode::Tya => CaMach { ac: m.iy, ps: nz_flags(m.ps, m.iy), state: go, ..m },
        OpCode::Inx => {
            let r = m.ix.wrapping_add(1);
            CaMach { ix: r, ps: nz_flags(m.ps, r), state: go, ..m }
        },
        OpCode::Iny => {
            let r = m.iy.wrapping_add(1);
            CaMach { iy: r, ps: nz_flags(m.ps, r), state: go, ..m }
        },
        OpCode::Dex => {
            let r = m.ix.wrapping_sub(1);
            CaMach { ix: r, ps: nz_flags(m.ps, r), state: go, ..m }
        },
        OpCode::Dey => {
            let r = m.iy.wrapping_sub(1);
            CaMach { iy: r, ps: nz_flags(m.ps, r), state: go, ..m }
        },
        OpCode::Clc => CaMach { ps: m.ps & !0x01, state: go, ..m },
        OpCode::Cld => CaMach { ps: m.ps & !0x08, state: go, ..m },
        OpCode::Cli => CaMach { ps: m.ps & !0x04, state: go, ..m },
        OpCode::Clv => CaMach { ps: m.ps & !0x40, state: go, ..m },
        OpCode::Sec => CaMach { ps: m.ps | 0x01, state: go, ..m },
        OpCode::Sed => CaMach { ps: m.ps | 0x08, state: go, ..m },
        OpCode::Sei => CaMach { ps: m.ps | 0x04, state: go, ..m },
        OpCode::Adc => CaMach {
            ac: adc_a(m.ac, v, m.ps),
            ps: adc_p(m.ac, v, m.ps),
            state: go,
            ..m
        },
        OpCode::Sbc => CaMach {
            ac: adc_a(m.ac, !v, m.ps),
            ps: adc_p(m.ac, !v, m.ps),
            state: go,
            ..m
        },
        OpCode::And => {
            let r = m.ac & v;
            CaMach { ac: r, ps: nz_flags(m.ps, r), state: go, ..m }
        },
        OpCode::Eor => {
            let r = m.ac ^ v;
            CaMach { ac: r, ps: nz_flags(m.ps, r), state: go, ..m }
        },
        OpCode::Ora => {
            let r = m.ac | v;
            CaMach { ac: r, ps: nz_flags(m.ps, r), state: go, ..m }
        },
        OpCode::Bit => {
            let p1 = with_flag(m.ps, 0x02, m.ac & v == 0);
            let p2 = with_flag(p1, 0x80, v & 0x80 != 0);
            let p3 = with_flag(p2, 0x40, v & 0x40 != 0);
            CaMach { ps: p3, state: go, ..m }
        },
        OpCode::Cmp => {
            let p1 = with_flag(m.ps, 0x01, m.ac >= v);
            CaMach { ps: nz_flags(p1, m.ac.wrapping_sub(v)), state: go, ..m }
        },
        OpCode::Cpx => {
            let p1 = with_flag(m.ps, 0x01, m.ix >= v);
            CaMach { ps: nz_flags(p1, m.ix.wrapping_sub(v)), state: go, ..m }
        },
        OpCode::Cpy => {
            let p1 = with_flag(m.ps, 0x01, m.iy >= v);
            CaMach { ps: nz_flags(p1, m.iy.wrapping_sub(v)), state: go, ..m }
        },
        OpCode::Bcc => ca_branch(m, m.ps & 0x01 == 0),
        OpCode::Bcs => ca_branch(m, m.ps & 0x01 != 0),
        OpCode::Beq => ca_branch(m, m.ps & 0x02 != 0),
        OpCode::Bmi => ca_branch(m, m.ps & 0x80 != 0),
        OpCode::Bne => ca_branch(m, m.ps & 0x02 == 0),
        OpCode::Bpl => ca_branch(m, m.ps & 0x80 == 0),
        OpCode::Bvc => ca_branch(m, m.ps & 0x40 == 0),
        OpCode::Bvs => ca_branch(m, m.ps & 0x40 != 0),
        OpCode::Jmp => {
            if m.addr_mode is Absolute {
                CaMach { pc: m.address, state: go, ..m }
            } else {
                CaMach { state: State::Halt, ..m }
            }
        },
        OpCode::Asl => {
            let p1 = with_flag(m.ps, 0x01, v & 0x80 != 0);
            let r = v << 1;
            if m.addr_mode is Implied {
                CaMach { ac: r, ps: nz_flags(p1, r), state: go, ..m }
            } else {
                ca_rmw(m, v, r, p1)
            }
        },
        OpCode::Lsr => {
            let p1 = with_flag(m.ps, 0x01, v & 0x1 != 0);
            let r = v >> 1;
            if m.addr_mode is Implied {
                CaMach { ac: r, ps: nz_flags(p1, r), state: go, ..m }
            } else {
                ca_rmw(m, v, r, p1)
            }
        },
        OpCode::Rol => {
            let c = m.ps & 0x01;
            let p1 = with_flag(m.ps, 0x01, v & 0x80 != 0);
            let r = (v << 1).wrapping_add(c);
            if m.addr_mode is Implied {
                CaMach { ac: r, ps: nz_flags(p1, r), state: go, ..m }
            } else {
                ca_rmw(m, v, r, p1)
            }
        },
        OpCode::Ror => {
            let c = m.ps & 0x01;
            let p1 = with_flag(m.ps, 0x01, v & 0x1 != 0);
            let r = (v >> 1).wrapping_add(
                if c == 1 {
                    0x80
                } else {
                    0
                },
            );
            if m.addr_mode is Implied {
                CaMach { ac: r, ps: nz_flags(p1, r), state: go, ..m }
            } else {
                ca_rmw(m, v, r, p1)
            }
        },
        OpCode::Inc => ca_rmw(m, v, v.wrapping_add(1), m.ps),
        OpCode::Dec => ca_rmw(m, v, v.wrapping_sub(1), m.ps),
        _ => CaMach { state: State::Halt, ..m },
    }
}

/// The process cycle: read the operand where the instruction calls for
/// it (the accumulator reading of implied-mode shift instructions uses
/// the accumulator instead), then execute.  An immediate operand comes
/// from the instruction stream, so its read advances the program counter
/// past it.
pub open spec fn ca_process(m: CaMach) -> CaMach {
    let op = spec_decode(m.execute).op;
    let reads = ca_reads_operand(op, m.addr_mode);
    let v = if reads {
        mget(m.mem, m.address)
    } else if m.addr_mode is Implied {
        m.ac
    } else {
        m.operand
    };
    let m1 = CaMach {
        pc: if m.addr_mode is Immediate {
            m.pc.wrapping_add(1)
        } else {
            m.pc
        },
        operand: v,
        bus_op: if reads {
            BusOp::Read(m.address)
        } else {
            BusOp::Idle
        },
        ..m
    };
    ca_execute(op, m1)
}

/// A write cycle: the dummy phase re-writes the unmodified value and the
/// final phase writes the result parked in `operand`.
pub open spec fn ca_write(m: CaMach, dummy: bool, data: u8) -> CaMach {
    if dummy {
        CaMach {
            mem: m.mem.update(m.address as int, data),
            bus_op: BusOp::Write(m.address, data),
            state: State::Write { dummy: false, data: m.operand },
            ..m
        }
    } else {
        CaMach {
            mem: m.mem.update(m.address as int, data),
            bus_op: BusOp::Write(m.address, data),
            state: State::FetchOpCode,
            ..m
        }
    }
}

/// One bus cycle of the cycle-accurate machine.  A halted machine is left
/// untouched; any other cycle charges one cycle, advances the intra-
/// instruction counter and performs exactly one state's work.
pub open spec fn ca_step(m: CaMach) -> CaMach {
    match m.state {
        State::Halt => m,
        _ => {
            let m1 = CaMach { t: m.t.wrapping_add(1), cycles: m.cycles + 1, ..m };
            match m.state {
                State::FetchOpCode => ca_fetch(m1),
                State::ResolveAddress(ads) => ca_resolve(m1, ads),
                State::Process => ca_process(m1),
                State::Write { dummy, data } => ca_write(m1, dummy, data),
                State::BranchPenalty { page_cross } => ca_branch_penalty(m1, page_cross),
                State::Halt => m1,
            }
        },
    }
}

} // verus!
