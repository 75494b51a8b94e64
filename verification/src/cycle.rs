//! The cycle-accurate 6502 engine: each `cycle` call advances exactly one
//! bus cycle and at most one state transition, performing the same reads
//! and writes a real chip would perform (dummy reads on indexed page
//! crossings, dummy writes on read-modify-write instructions).
//!
//! Every cycle is proved equal to the mathematical step [`ca_step`] of
//! `cycle_model`.  The mnemonics whose micro-states this machine does not
//! model (the stack and interrupt instructions, indirect jumps and the
//! illegal families) are reported as a halting fault, as the error design
//! allows for unimplemented operations.

use vstd::prelude::*;
use crate::addr::AddressingMode;
use crate::bus::MemoryBus;
use crate::consts::OpCode;
use crate::cycle_model::{
    AddressResolverState, BusOp, ca_execute, ca_fetch, ca_process, ca_reads_operand, ca_resolve,
    ca_step, ca_write, CaMach, State,
};
use crate::decode::decode;
use crate::model::{adc_a, adc_p, nz_flags};

verus! {

/// The cycle-accurate 6502 virtual machine over a memory bus `T`.
///
/// The program counter always holds the address of the next byte to
/// consume: a fetch reads the opcode at the counter and advances it once,
/// and operand reads from the instruction stream advance it further.
/// The internal fields (`operand`,
/// `execute`, `address`, `i_tm`) carry values across the cycles of one
/// instruction; `bus_op` reports the bus operation the last cycle
/// performed.
pub struct VM<T: MemoryBus> {
    /// The program counter.
    pub r_pc: u16,
    /// The stack pointer.
    pub r_sp: u8,
    /// The accumulator.
    pub r_ac: u8,
    /// The X index register.
    pub r_ix: u8,
    /// The Y index register.
    pub r_iy: u8,
    /// The status register.
    pub r_ps: u8,
    /// The state the next cycle will execute.
    pub next_state: State,
    /// The addressing mode of the current opcode, set at fetch.
    pub addr_mode: AddressingMode,
    /// The operand byte held across cycles.
    pub operand: u8,
    /// The opcode being executed, set at fetch.
    pub execute: u8,
    /// The address bus value held across cycles.
    pub address: u16,
    /// The cycle number within the current instruction, zeroed at fetch.
    pub i_tm: u8,
    /// The total count of elapsed bus cycles.
    pub cycles: usize,
    /// The bus operation the last cycle performed.
    pub bus_op: BusOp,
    /// The memory bus.
    pub io: T,
}

impl<T: MemoryBus> VM<T> {
    /// The abstract per-cycle machine state.
    pub open spec fn ca(&self) -> CaMach {
        CaMach {
            pc: self.r_pc,
            sp: self.r_sp,
            ac: self.r_ac,
            ix: self.r_ix,
            iy: self.r_iy,
            ps: self.r_ps,
            state: self.next_state,
            addr_mode: self.addr_mode,
            operand: self.operand,
            execute: self.execute,
            address: self.address,
            t: self.i_tm,
            cycles: self.cycles as int,
            bus_op: self.bus_op,
            mem: self.io.mem(),
        }
    }

    /// The bus must present the full 64 KiB address space.
    pub open spec fn wf(&self) -> bool {
        self.io.mem().len() == 0x10000
    }

    /// A machine over the given bus, in the documented power-on state; a
    /// driver normally calls `cold_reset` next.
    pub fn new(memory: T) -> (r: VM<T>)
        ensures
            r.r_pc == 0x8000,
            r.r_sp == 0 && r.r_ac == 0 && r.r_ix == 0 && r.r_iy == 0 && r.r_ps == 0,
            r.next_state is FetchOpCode,
            r.addr_mode is Implied,
            r.operand == 0 && r.execute == 0 && r.address == 0 && r.i_tm == 0,
            r.cycles == 0,
            r.bus_op is Idle,
            r.io == memory,
    {
        VM {
            r_pc: 0x8000,
            r_sp: 0,
            r_ac: 0,
            r_ix: 0,
            r_iy: 0,
            r_ps: 0,
            next_state: State::FetchOpCode,
            addr_mode: AddressingMode::Implied,
            operand: 0,
            execute: 0,
            address: 0,
            i_tm: 0,
            cycles: 0,
            bus_op: BusOp::Idle,
            io: memory,
        }
    }

    /// Cold-resets the machine: registers cleared, status = Reserved |
    /// Break | IntDis | Zero, stack pointer 0xFD, and the program counter
    /// loaded from the reset vector at 0xFFFC, so that the next fetch
    /// consumes the opcode at that entry point.  The internal state
    /// machine and cycle counter restart.
    pub fn cold_reset(&mut self)
        requires
            old(self).wf(),
        ensures
            final(self).r_pc == crate::bus::word_le(old(self).io.mem(), 0xFFFC),
            final(self).r_sp == 0xFD,
            final(self).r_ac == 0 && final(self).r_ix == 0 && final(self).r_iy == 0,
            final(self).r_ps == 0x36,
            final(self).next_state is FetchOpCode,
            final(self).addr_mode is Implied,
            final(self).operand == 0 && final(self).execute == 0 && final(self).address == 0,
            final(self).i_tm == 0,
            final(self).cycles == 0,
            final(self).bus_op is Idle,
            final(self).io.mem() == old(self).io.mem(),
            final(self).wf(),
    {
        self.r_ps = 0x36;
        self.r_sp = 0xFD;
        self.r_ac = 0;
        self.r_ix = 0;
        self.r_iy = 0;
        self.r_pc = self.io.read_u16(0xFFFC);
        self.cycles = 0;
        self.warm_reset_state();
    }

    /// Warm-resets the machine: sets the interrupt-disable flag, moves the
    /// stack pointer down by three with page wrap (as the hardware's
    /// aborted interrupt sequence does), and restarts the internal state
    /// machine; the registers and the program counter keep their values.
    pub fn warm_reset(&mut self)
        ensures
            final(self).r_ps == old(self).r_ps | 0x04,
            final(self).r_sp == old(self).r_sp.wrapping_sub(3),
            final(self).r_pc == old(self).r_pc,
            final(self).r_ac == old(self).r_ac,
            final(self).r_ix == old(self).r_ix,
            final(self).r_iy == old(self).r_iy,
            final(self).next_state is FetchOpCode,
            final(self).addr_mode is Implied,
            final(self).operand == 0 && final(self).execute == 0 && final(self).address == 0,
            final(self).i_tm == 0,
            final(self).cycles == old(self).cycles,
            final(self).bus_op is Idle,
            final(self).io == old(self).io,
    {
        self.r_ps = self.r_ps | 0x04;
        self.r_sp = self.r_sp.wrapping_sub(3);
        self.warm_reset_state();
    }

    fn warm_reset_state(&mut self)
        ensures
            *final(self) == (VM {
                next_state: State::FetchOpCode,
                addr_mode: AddressingMode::Implied,
                operand: 0,
                execute: 0,
                address: 0,
                i_tm: 0,
                bus_op: BusOp::Idle,
                ..*old(self)
            }),
    {
        self.next_state = State::FetchOpCode;
        self.addr_mode = AddressingMode::Implied;
        self.operand = 0;
        self.execute = 0;
        self.address = 0;
        self.i_tm = 0;
        self.bus_op = BusOp::Idle;
    }

    fn fetch_cycle(&mut self)
        requires
            old(self).wf(),
        ensures
            final(self).ca() == ca_fetch(old(self).ca()),
            final(self).wf(),
    {
        self.i_tm = 0;
        let op = self.io.read_u8(self.r_pc);
        self.bus_op = BusOp::Read(self.r_pc);
        self.r_pc = self.r_pc.wrapping_add(1);
        self.execute = op;
        let mode = AddressingMode::from(op);
        self.addr_mode = mode;
        match mode {
            AddressingMode::Implied => {
                self.next_state = State::Process;
            },
            AddressingMode::Immediate => {
                self.address = self.r_pc;
                self.next_state = State::Process;
            },
            AddressingMode::ZeroPage | AddressingMode::ZeroPageI(_) | AddressingMode::IndirectI(_)
                | AddressingMode::Relative => {
                self.next_state = State::ResolveAddress(AddressResolverState::FetchOperand);
            },
            _ => {
                self.next_state = State::ResolveAddress(
                    AddressResolverState::FetchAddress { high_byte: false },
                );
            },
        }
        proof {
            assert(self.ca() =~= ca_fetch(old(self).ca()));
        }
    }

    fn resolve_cycle(&mut self, ads: AddressResolverState)
        requires
            old(self).wf(),
        ensures
            final(self).ca() == ca_resolve(old(self).ca(), ads),
            final(self).wf(),
    {
        match ads {
            AddressResolverState::FetchOperand => {
                let v = self.io.read_u8(self.r_pc);
                self.bus_op = BusOp::Read(self.r_pc);
                self.r_pc = self.r_pc.wrapping_add(1);
                self.operand = v;
                self.address = v as u16;
                match self.addr_mode {
                    AddressingMode::ZeroPage => {
                        self.next_state = State::Process;
                    },
                    AddressingMode::Relative => {
                        self.next_state = State::Process;
                    },
                    AddressingMode::ZeroPageI(_) => {
                        self.next_state = State::ResolveAddress(
                            AddressResolverState::IndZPDummyRead,
                        );
                    },
                    AddressingMode::IndirectI(ir) => {
                        self.next_state = State::ResolveAddress(
                            if ir == crate::addr::IndexRegister::X {
                                AddressResolverState::IndXDummyRead
                            } else {
                                AddressResolverState::FetchZeroPageAddress { high_byte: false }
                            },
                        );
                    },
                    _ => {
                        self.next_state = State::Process;
                    },
                }
                proof {
                    assert(self.ca() =~= ca_resolve(old(self).ca(), ads));
                }
            },
            AddressResolverState::FetchAddress { high_byte } => {
                if !high_byte {
                    let v = self.io.read_u8(self.r_pc);
                    self.bus_op = BusOp::Read(self.r_pc);
                    self.r_pc = self.r_pc.wrapping_add(1);
                    self.address = v as u16;
                    self.next_state = State::ResolveAddress(
                        AddressResolverState::FetchAddress { high_byte: true },
                    );
                } else {
                    let v = self.io.read_u8(self.r_pc);
                    self.bus_op = BusOp::Read(self.r_pc);
                    self.r_pc = self.r_pc.wrapping_add(1);
                    self.address = self.address.wrapping_add((v as u16) << 8);
                    match self.addr_mode {
                        AddressingMode::AbsoluteI(ir) => {
                            self.next_state = State::ResolveAddress(
                                AddressResolverState::AddIndexRegister {
                                    index_register: ir,
                                    bump_page: false,
                                },
                            );
                        },
                        _ => {
                            self.next_state = State::Process;
                        },
                    }
                }
                proof {
                    assert(self.ca() =~= ca_resolve(old(self).ca(), ads));
                }
            },
            AddressResolverState::IndXDummyRead => {
                let _dummy = self.io.read_u8(self.operand as u16);
                self.bus_op = BusOp::Read(self.operand as u16);
                self.operand = self.operand.wrapping_add(self.r_ix);
                self.next_state = State::ResolveAddress(
                    AddressResolverState::FetchZeroPageAddress { high_byte: false },
                );
                proof {
                    assert(self.ca() =~= ca_resolve(old(self).ca(), ads));
                }
            },
            AddressResolverState::IndZPDummyRead => {
                let _dummy = self.io.read_u8(self.address);
                self.bus_op = BusOp::Read(self.address);
                self.next_state = State::ResolveAddress(
                    AddressResolverState::ZeroPageAddIndexRegister,
                );
                proof {
                    assert(self.ca() =~= ca_resolve(old(self).ca(), ads));
                }
            },
            AddressResolverState::FetchZeroPageAddress { high_byte } => {
                if !high_byte {
                    let v = self.io.read_u8(self.operand as u16);
                    self.bus_op = BusOp::Read(self.operand as u16);
                    self.address = v as u16;
                    self.operand = self.operand.wrapping_add(1);
                    self.next_state = State::ResolveAddress(
                        AddressResolverState::FetchZeroPageAddress { high_byte: true },
                    );
                } else {
                    let v = self.io.read_u8(self.operand as u16);
                    self.bus_op = BusOp::Read(self.operand as u16);
                    self.address = self.address.wrapping_add((v as u16) << 8);
                    match self.addr_mode {
                        AddressingMode::IndirectI(crate::addr::IndexRegister::Y) => {
                            self.next_state = State::ResolveAddress(
                                AddressResolverState::AddIndexRegister {
                                    index_register: crate::addr::IndexRegister::Y,
                                    bump_page: false,
                                },
                            );
                        },
                        _ => {
                            self.next_state = State::Process;
                        },
                    }
                }
                proof {
                    assert(self.ca() =~= ca_resolve(old(self).ca(), ads));
                }
            },
            AddressResolverState::AddIndexRegister { index_register, bump_page } => {
                if bump_page {
                    self.address = self.address.wrapping_add(0x0100);
                    self.bus_op = BusOp::Idle;
                    self.next_state = State::Process;
                } else {
                    let index = if index_register == crate::addr::IndexRegister::X {
                        self.r_ix
                    } else {
                        self.r_iy
                    };
                    let low = (self.address as u8).wrapping_add(index);
                    if low < index {
                        let ab = (self.address & 0xFF00).wrapping_add(low as u16);
                        self.address = ab;
                        let _dummy = self.io.read_u8(ab);
                        self.bus_op = BusOp::Read(ab);
                        self.next_state = State::ResolveAddress(
                            AddressResolverState::AddIndexRegister {
                                index_register,
                                bump_page: true,
                            },
                        );
                    } else {
                        self.address = self.address.wrapping_add(index as u16);
                        self.bus_op = BusOp::Idle;
                        self.next_state = State::Process;
                    }
                }
                proof {
                    assert(self.ca() =~= ca_resolve(old(self).ca(), ads));
                }
            },
            AddressResolverState::ZeroPageAddIndexRegister => {
                match self.addr_mode {
                    AddressingMode::ZeroPageI(ir) => {
                        self.operand = self.operand.wrapping_add(
                            if ir == crate::addr::IndexRegister::X {
                                self.r_ix
                            } else {
                                self.r_iy
                            },
                        );
                    },
                    _ => {},
                }
                self.address = self.operand as u16;
                self.bus_op = BusOp::Idle;
                self.next_state = State::Process;
                proof {
                    assert(self.ca() =~= ca_resolve(old(self).ca(), ads));
                }
            },
        }
    }

    #[verifier::rlimit(60)]
    fn process_cycle(&mut self)
        requires
            old(self).wf(),
        ensures
            final(self).ca() == ca_process(old(self).ca()),
            final(self).wf(),
    {
        let d = decode(self.execute);
        let op = d.op;
        let reads = !matches!(self.addr_mode, AddressingMode::Implied)
            && !matches!(self.addr_mode, AddressingMode::Relative)
            && !matches!(op, OpCode::Sta)
            && !matches!(op, OpCode::Stx)
            && !matches!(op, OpCode::Sty)
            && !matches!(op, OpCode::Jmp);
        if matches!(self.addr_mode, AddressingMode::Immediate) {
            self.r_pc = self.r_pc.wrapping_add(1);
        }
        if reads {
            let v = self.io.read_u8(self.address);
            self.operand = v;
            self.bus_op = BusOp::Read(self.address);
        } else {
            if matches!(self.addr_mode, AddressingMode::Implied) {
                self.operand = self.r_ac;
            }
            self.bus_op = BusOp::Idle;
        }
        let ghost m1 = self.ca();
        proof {
            assert(reads == ca_reads_operand(op, old(self).ca().addr_mode));
            assert(ca_process(old(self).ca()) == ca_execute(op, m1));
        }
        self.execute_cycle(op);
        proof {
            assert(self.ca() =~= ca_execute(op, m1));
        }
    }

    #[verifier::rlimit(100)]
    fn execute_cycle(&mut self, op: OpCode)
        requires
            old(self).wf(),
        ensures
            final(self).ca() == ca_execute(op, old(self).ca()),
            final(self).wf(),
    {
        let v = self.operand;
        match op {
            OpCode::Jam => {
                self.next_state = State::Halt;
                return ;
            },
            OpCode::Nop => {
                self.next_state = State::FetchOpCode;
                return ;
            },
            OpCode::Lda => {
                self.r_ac = v;
                self.set_nz(v);
                self.next_state = State::FetchOpCode;
                return ;
            },
            OpCode::Ldx => {
                self.r_ix = v;
                self.set_nz(v);
                self.next_state = State::FetchOpCode;
                return ;
            },
            OpCode::Ldy => {
                self.r_iy = v;
                self.set_nz(v);
                self.next_state = State::FetchOpCode;
                return ;
            },
            OpCode::Sta => {
                let w = self.r_ac;
                self.io.write_u8(self.address, w);
                self.bus_op = BusOp::Write(self.address, w);
                self.next_state = State::FetchOpCode;
                return ;
            },
            OpCode::Stx => {
                let w = self.r_ix;
                self.io.write_u8(self.address, w);
                self.bus_op = BusOp::Write(self.address, w);
                self.next_state = State::FetchOpCode;
                return ;
            },
            OpCode::Sty => {
                let w = self.r_iy;
                self.io.write_u8(self.address, w);
                self.bus_op = BusOp::Write(self.address, w);
                self.next_state = State::FetchOpCode;
                return ;
            },
            OpCode::Tax => {
                let w = self.r_ac;
                self.r_ix = w;
                self.set_nz(w);
                self.next_state = State::FetchOpCode;
                return ;
            },
            OpCode::Tay => {
                let w = self.r_ac;
                self.r_iy = w;
                self.set_nz(w);
                self.next_state = State::FetchOpCode;
                return ;
            },
            OpCode::Tsx => {
                let w = self.r_sp;
                self.r_ix = w;
                self.set_nz(w);
                self.next_state = State::FetchOpCode;
                return ;
            },
            OpCode::Txa => {
                let w = self.r_ix;
                self.r_ac = w;
                self.set_nz(w);
                self.next_state = State::FetchOpCode;
                return ;
            },
            OpCode::Txs => {
                self.r_sp = self.r_ix;
                self.next_state = State::FetchOpCode;
                return ;
            },
            OpCode::Tya => {
                let w = self.r_iy;
                self.r_ac = w;
                self.set_nz(w);
                self.next_state = State::FetchOpCode;
                return ;
            },
            OpCode::Inx => {
                let w = self.r_ix.wrapping_add(1);
                self.r_ix = w;
                self.set_nz(w);
                self.next_state = State::FetchOpCode;
                return ;
            },
            OpCode::Iny => {
                let w = self.r_iy.wrapping_add(1);
                self.r_iy = w;
                self.set_nz(w);
                self.next_state = State::FetchOpCode;
                return ;
            },
            OpCode::Dex => {
                let w = self.r_ix.wrapping_sub(1);
                self.r_ix = w;
                self.set_nz(w);
                self.next_state = State::FetchOpCode;
                return ;
            },
            OpCode::Dey => {
                let w = self.r_iy.wrapping_sub(1);
                self.r_iy = w;
                self.set_nz(w);
                self.next_state = State::FetchOpCode;
                return ;
            },
            OpCode::Clc => {
                self.r_ps = self.r_ps & !0x01;
                self.next_state = State::FetchOpCode;
                return ;
            },
            OpCode::Cld => {
                self.r_ps = self.r_ps & !0x08;
                self.next_state = State::FetchOpCode;
                return ;
            },
            OpCode::Cli => {
                self.r_ps = self.r_ps & !0x04;
                self.next_state = State::FetchOpCode;
                return ;
            },
            OpCode::Clv => {
                self.r_ps = self.r_ps & !0x40;
                self.next_state = State::FetchOpCode;
                return ;
            },
            OpCode::Sec => {
                self.r_ps = self.r_ps | 0x01;
                self.next_state = State::FetchOpCode;
                return ;
            },
            OpCode::Sed => {
                self.r_ps = self.r_ps | 0x08;
                self.next_state = State::FetchOpCode;
                return ;
            },
            OpCode::Sei => {
                self.r_ps = self.r_ps | 0x04;
                self.next_state = State::FetchOpCode;
                return ;
            },
            OpCode::Adc => {
                let a0 = self.r_ac;
                let p0 = self.r_ps;
                self.r_ac = self.alu_adc(a0, v, p0);
                self.next_state = State::FetchOpCode;
                return ;
            },
            OpCode::Sbc => {
                let a0 = self.r_ac;
                let p0 = self.r_ps;
                self.r_ac = self.alu_adc(a0, !v, p0);
                self.next_state = State::FetchOpCode;
                return ;
            },
            OpCode::And => {
                let w = self.r_ac & v;
                self.r_ac = w;
                self.set_nz(w);
                self.next_state = State::FetchOpCode;
                return ;
            },
            OpCode::Eor => {
                let w = self.r_ac ^ v;
                self.r_ac = w;
                self.set_nz(w);
                self.next_state = State::FetchOpCode;
                return ;
            },
            OpCode::Ora => {
                let w = self.r_ac | v;
                self.r_ac = w;
                self.set_nz(w);
                self.next_state = State::FetchOpCode;
                return ;
            },
            OpCode::Bit => {
                let z = self.r_ac & v == 0;
                self.r_ps = if z {
                    self.r_ps | 0x02
                } else {
                    self.r_ps & !0x02
                };
                self.r_ps = if v & 0x80 != 0 {
                    self.r_ps | 0x80
                } else {
                    self.r_ps & !0x80
                };
                self.r_ps = if v & 0x40 != 0 {
                    self.r_ps | 0x40
                } else {
                    self.r_ps & !0x40
                };
                self.next_state = State::FetchOpCode;
                return ;
            },
            OpCode::Cmp => {
                let r0 = self.r_ac;
                self.r_ps = if r0 >= v {
                    self.r_ps | 0x01
                } else {
                    self.r_ps & !0x01
                };
                self.set_nz(r0.wrapping_sub(v));
                self.next_state = State::FetchOpCode;
                return ;
            },
            OpCode::Cpx => {
                let r0 = self.r_ix;
                self.r_ps = if r0 >= v {
                    self.r_ps | 0x01
                } else {
                    self.r_ps & !0x01
                };
                self.set_nz(r0.wrapping_sub(v));
                self.next_state = State::FetchOpCode;
                return ;
            },
            OpCode::Cpy => {
                let r0 = self.r_iy;
                self.r_ps = if r0 >= v {
                    self.r_ps | 0x01
                } else {
                    self.r_ps & !0x01
                };
                self.set_nz(r0.wrapping_sub(v));
                self.next_state = State::FetchOpCode;
                return ;
            },
            OpCode::Bcc => {
                let c = self.r_ps & 0x01 == 0;
                self.take_branch(c);
                return ;
            },
            OpCode::Bcs => {
                let c = self.r_ps & 0x01 != 0;
                self.take_branch(c);
                return ;
            },
            OpCode::Beq => {
                let c = self.r_ps & 0x02 != 0;
                self.take_branch(c);
                return ;
            },
            OpCode::Bmi => {
                let c = self.r_ps & 0x80 != 0;
                self.take_branch(c);
                return ;
            },
            OpCode::Bne => {
                let c = self.r_ps & 0x02 == 0;
                self.take_branch(c);
                return ;
            },
            OpCode::Bpl => {
                let c = self.r_ps & 0x80 == 0;
                self.take_branch(c);
                return ;
            },
            OpCode::Bvc => {
                let c = self.r_ps & 0x40 == 0;
                self.take_branch(c);
                return ;
            },
            OpCode::Bvs => {
                let c = self.r_ps & 0x40 != 0;
                self.take_branch(c);
                return ;
            },
            OpCode::Jmp => {
                if matches!(self.addr_mode, AddressingMode::Absolute) {
                    self.r_pc = self.address;
                    self.next_state = State::FetchOpCode;
                } else {
                    self.next_state = State::Halt;
                }
                return ;
            },
            OpCode::Asl => {
                let c = v & 0x80 != 0;
                self.r_ps = if c {
                    self.r_ps | 0x01
                } else {
                    self.r_ps & !0x01
                };
                let w = v << 1;
                self.finish_shift(v, w);
                return ;
            },
            OpCode::Lsr => {
                let c = v & 0x1 != 0;
                self.r_ps = if c {
                    self.r_ps | 0x01
                } else {
                    self.r_ps & !0x01
                };
                let w = v >> 1;
                self.finish_shift(v, w);
                return ;
            },
            OpCode::Rol => {
                let c0 = self.r_ps & 0x01;
                let c = v & 0x80 != 0;
                self.r_ps = if c {
                    self.r_ps | 0x01
                } else {
                    self.r_ps & !0x01
                };
                let w = (v << 1).wrapping_add(c0);
                self.finish_shift(v, w);
                return ;
            },
            OpCode::Ror => {
                let c0 = self.r_ps & 0x01;
                let c = v & 0x1 != 0;
                self.r_ps = if c {
                    self.r_ps | 0x01
                } else {
                    self.r_ps & !0x01
                };
                let w = (v >> 1).wrapping_add(
                    if c0 == 1 {
                        0x80
                    } else {
                        0
                    },
                );
                self.finish_shift(v, w);
                return ;
            },
            OpCode::Inc => {
                let w = v.wrapping_add(1);
                self.set_nz(w);
                self.operand = w;
                self.next_state = State::Write { dummy: true, data: v };
                return ;
            },
            OpCode::Dec => {
                let w = v.wrapping_sub(1);
                self.set_nz(w);
                self.operand = w;
                self.next_state = State::Write { dummy: true, data: v };
                return ;
            },
            _ => {
                self.next_state = State::Halt;
                return ;
            },
        }
    }

    /// N and Z from a result byte.
    fn set_nz(&mut self, v: u8)
        ensures
            *final(self) == (VM { r_ps: nz_flags(old(self).r_ps, v), ..*old(self) }),
    {
        self.r_ps = if v & 0x80 > 0 {
            self.r_ps | 0x80
        } else {
            self.r_ps & !0x80
        };
        self.r_ps = if v == 0 {
            self.r_ps | 0x02
        } else {
            self.r_ps & !0x02
        };
    }

    /// The shared add-with-carry data path: returns the new accumulator
    /// and sets C, V, N, Z.
    fn alu_adc(&mut self, a0: u8, b: u8, p0: u8) -> (r: u8)
        requires
            old(self).r_ac == a0,
            old(self).r_ps == p0,
        ensures
            r == adc_a(a0, b, p0),
            *final(self) == (VM { r_ps: adc_p(a0, b, p0), ..*old(self) }),
    {
        let sum: u16 = (a0 as u16) + (b as u16) + ((p0 & 0x01) as u16);
        self.r_ps = if sum > 0xFF {
            self.r_ps | 0x01
        } else {
            self.r_ps & !0x01
        };
        self.r_ps = if (!(a0 ^ b) & (a0 ^ (sum as u8))) & 0x80 != 0 {
            self.r_ps | 0x40
        } else {
            self.r_ps & !0x40
        };
        self.set_nz(sum as u8);
        sum as u8
    }

    /// Takes or skips a branch over the offset in `operand`: a taken
    /// branch loads the target and enters the penalty cycle, with the
    /// page-cross flag recording whether a second penalty cycle is owed.
    fn take_branch(&mut self, taken: bool)
        ensures
            final(self).ca() == crate::cycle_model::ca_branch(old(self).ca(), taken),
    {
        if taken {
            let target = self.r_pc.wrapping_add_signed((self.operand as i8) as i16);
            let cross = (target & 0xff00) != (self.r_pc & 0xff00);
            self.r_pc = target;
            self.next_state = State::BranchPenalty { page_cross: cross };
        } else {
            self.next_state = State::FetchOpCode;
        }
    }

    /// Finishes a shift or rotate after the carry update: an implied
    /// (accumulator) operand lands in the accumulator; a memory operand
    /// enters the dummy-write sequence with the result parked in
    /// `operand`.
    fn finish_shift(&mut self, v: u8, w: u8)
        ensures
            *final(self) == (
            if old(self).addr_mode is Implied {
                VM {
                    r_ac: w,
                    r_ps: nz_flags(old(self).r_ps, w),
                    next_state: State::FetchOpCode,
                    ..*old(self)
                }
            } else {
                VM {
                    r_ps: nz_flags(old(self).r_ps, w),
                    operand: w,
                    next_state: State::Write { dummy: true, data: v },
                    ..*old(self)
                }
            }),
    {
        self.set_nz(w);
        if matches!(self.addr_mode, AddressingMode::Implied) {
            self.r_ac = w;
            self.next_state = State::FetchOpCode;
        } else {
            self.operand = w;
            self.next_state = State::Write { dummy: true, data: v };
        }
    }

    fn write_cycle(&mut self, dummy: bool, data: u8)
        requires
            old(self).wf(),
        ensures
            final(self).ca() == ca_write(old(self).ca(), dummy, data),
            final(self).wf(),
    {
        self.io.write_u8(self.address, data);
        self.bus_op = BusOp::Write(self.address, data);
        if dummy {
            self.next_state = State::Write { dummy: false, data: self.operand };
        } else {
            self.next_state = State::FetchOpCode;
        }
        proof {
            assert(self.ca() =~= ca_write(old(self).ca(), dummy, data));
        }
    }

    /// Advances the machine by exactly one bus cycle: a halted machine is
    /// left untouched, any other cycle performs one state's work.  The
    /// resulting state is exactly [`ca_step`] of the old state.
    pub fn cycle(&mut self)
        requires
            old(self).wf(),
            old(self).cycles < usize::MAX,
        ensures
            final(self).ca() == ca_step(old(self).ca()),
            final(self).wf(),
    {
        let st = self.next_state;
        if matches!(st, State::Halt) {
            return ;
        }
        self.i_tm = self.i_tm.wrapping_add(1);
        self.cycles = self.cycles + 1;
        match st {
            State::FetchOpCode => {
                self.fetch_cycle();
            },
            State::ResolveAddress(ads) => {
                self.resolve_cycle(ads);
            },
            State::Process => {
                self.process_cycle();
            },
            State::Write { dummy, data } => {
                self.write_cycle(dummy, data);
            },
            State::BranchPenalty { page_cross } => {
                self.bus_op = BusOp::Idle;
                if page_cross {
                    self.next_state = State::BranchPenalty { page_cross: false };
                } else {
                    self.next_state = State::FetchOpCode;
                }
            },
            State::Halt => {},
        }
        proof {
            assert(self.ca() =~= ca_step(old(self).ca()));
        }
    }
}

} // verus!
