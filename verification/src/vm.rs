//! The fast-path 6502 engine: one whole instruction per `step_instruction`
//! call, with the elapsed cycles accumulated on the machine.
//!
//! Every mutation is proved equal to the mathematical machine of `model`:
//! `step_instruction` implements [`spec_step`] and `run` implements
//! [`spec_run`], so each public contract pins the machine state exactly.

use vstd::prelude::*;
use crate::bus::MemoryBus;
use crate::consts::{AddrMode, CPUVector, Flag, OpCode};
use crate::decode::{decode, is_branch};
use crate::model::{
    adc_mach, branch, clamp_at, irq_mach, Mach, mget, nmi_mach, nz_flags, pop_addr, pop_byte,
    push_addr, push_byte, reset_mach, Resolved, spec_execute, spec_resolve, spec_run, spec_step,
    with_flag,
};

verus! {

/// The 6502 virtual machine over a memory bus `T`.
pub struct VM<T: MemoryBus> {
    /// The program counter.
    pub pc: u16,
    /// The X index register.
    pub x: u8,
    /// The Y index register.
    pub y: u8,
    /// The accumulator.
    pub a: u8,
    /// The stack pointer; the hardware stack lives at 0x0100..=0x01FF.
    pub s: u8,
    /// The status register.
    pub p: u8,
    /// The halt flag: set when a JAM opcode was hit; `run` then stops.
    pub h: u8,
    /// An external-halt request line, owned by the driver.
    pub ex_interrupt: u8,
    /// The monotonically increasing count of elapsed bus cycles.
    pub cycles: usize,
    /// The memory bus.
    pub io: T,
    /// The documented constant used by the unstable illegal opcodes
    /// (ANE, LXA); 0xFE by default.
    pub magic: u8,
}

impl<T: MemoryBus> VM<T> {
    /// The abstract machine state.
    pub open spec fn m(&self) -> Mach {
        Mach {
            pc: self.pc,
            x: self.x,
            y: self.y,
            a: self.a,
            s: self.s,
            p: self.p,
            h: self.h,
            ex_interrupt: self.ex_interrupt,
            magic: self.magic,
            cycles: self.cycles as int,
            mem: self.io.mem(),
        }
    }

    /// The bus must present the full 64 KiB address space.
    pub open spec fn wf(&self) -> bool {
        self.io.mem().len() == 0x10000
    }

    /// A machine over the given bus, in the documented power-on register
    /// state; a driver normally calls `reset` next.
    pub fn new(io: T) -> (r: VM<T>)
        ensures
            r.pc == 0x8000,
            r.x == 0 && r.y == 0 && r.a == 0 && r.s == 0 && r.p == 0,
            r.h == 0 && r.ex_interrupt == 0 && r.cycles == 0,
            r.magic == 0xFE,
            r.io == io,
    {
        VM {
            pc: 0x8000,
            x: 0,
            y: 0,
            a: 0,
            s: 0,
            p: 0,
            h: 0,
            ex_interrupt: 0,
            cycles: 0,
            io,
            magic: 0xFE,
        }
    }

    fn enable_flag(&mut self, flag: Flag)
        ensures
            final(self).m() == (Mach { p: old(self).p | flag.spec_mask(), ..old(self).m() }),
    {
        let mask = flag.mask();
        self.p = self.p | mask;
    }

    fn disable_flag(&mut self, flag: Flag)
        ensures
            final(self).m() == (Mach { p: old(self).p & !flag.spec_mask(), ..old(self).m() }),
    {
        let mask = flag.mask();
        self.p = self.p & !mask;
    }

    fn set_flag(&mut self, flag: Flag, value: bool)
        ensures
            final(self).m() == (Mach {
                p: with_flag(old(self).p, flag.spec_mask(), value),
                ..old(self).m()
            }),
    {
        if value {
            self.enable_flag(flag);
        } else {
            self.disable_flag(flag);
        }
    }

    fn get_flag(&self, flag: Flag) -> (r: u8)
        ensures
            r == self.p & flag.spec_mask(),
    {
        self.p & flag.mask()
    }

    fn set_nz_flags(&mut self, value: u8)
        ensures
            final(self).m() == (Mach { p: nz_flags(old(self).p, value), ..old(self).m() }),
    {
        self.set_flag(Flag::Negative, value & 0x80 > 0);
        self.set_flag(Flag::Zero, value == 0);
    }

    fn next_byte(&mut self) -> (r: u8)
        requires
            old(self).wf(),
        ensures
            final(self).m() == (Mach { pc: old(self).pc.wrapping_add(1), ..old(self).m() }),
            r == mget(old(self).m().mem, old(self).pc),
            final(self).wf(),
    {
        let out: u8 = self.io.read_u8(self.pc);
        self.pc = self.pc.wrapping_add(1);
        out
    }

    fn next_addr(&mut self) -> (r: u16)
        requires
            old(self).wf(),
        ensures
            final(self).m() == (Mach { pc: old(self).pc.wrapping_add(2), ..old(self).m() }),
            r == crate::bus::word_le(old(self).m().mem, old(self).pc),
            final(self).wf(),
    {
        let out: u16 = self.io.read_u16(self.pc);
        self.pc = self.pc.wrapping_add(2);
        out
    }

    /// Pushes a byte onto the hardware stack: it lands at `0x0100 | s`,
    /// then the stack pointer decrements, wrapping inside the page
    /// (pushing with s = 0x00 writes to 0x0100 and leaves s = 0xFF).
    pub fn stack_push_byte(&mut self, value: u8)
        requires
            old(self).wf(),
        ensures
            final(self).m() == push_byte(old(self).m(), value),
            final(self).wf(),
    {
        self.io.write_u8((self.s as u16) | 0x100, value);
        self.s = self.s.wrapping_sub(1);
    }

    /// Pushes a 16-bit address: high byte first, then low byte; the stack
    /// pointer decrements by two with page wrap.
    pub fn stack_push_addr(&mut self, value: u16)
        requires
            old(self).wf(),
        ensures
            final(self).m() == push_addr(old(self).m(), value),
            final(self).wf(),
    {
        self.stack_push_byte((value >> 8) as u8);
        self.stack_push_byte(value as u8);
    }

    /// Pops a byte: the stack pointer increments with page wrap, then the
    /// byte at the new slot is returned.
    pub fn stack_pop_byte(&mut self) -> (r: u8)
        requires
            old(self).wf(),
        ensures
            final(self).m() == pop_byte(old(self).m()).0,
            r == pop_byte(old(self).m()).1,
            final(self).wf(),
    {
        self.s = self.s.wrapping_add(1);
        self.io.read_u8((self.s as u16) | 0x100)
    }

    /// Pops a 16-bit address: low byte first, then high byte; the stack
    /// pointer increments by two with page wrap.
    pub fn stack_pop_addr(&mut self) -> (r: u16)
        requires
            old(self).wf(),
        ensures
            final(self).m() == pop_addr(old(self).m()).0,
            r == pop_addr(old(self).m()).1,
            final(self).wf(),
    {
        let lo = self.stack_pop_byte();
        let hi = self.stack_pop_byte();
        (lo as u16) + (hi as u16) * 0x100
    }

    /// Requests an IRQ, honoured at this instruction boundary: with the
    /// interrupt-disable flag set it has no effect; otherwise the program
    /// counter and the status (Break cleared) are pushed, interrupts are
    /// disabled and the handler at 0xFFFE is entered.
    pub fn irq(&mut self)
        requires
            old(self).wf(),
        ensures
            final(self).m() == irq_mach(old(self).m()),
            final(self).wf(),
    {
        let dis = self.get_flag(Flag::IntDis);
        if dis != 0 {
            return ;
        }
        let pc = self.pc;
        self.stack_push_addr(pc);
        let flags = self.p & !Flag::Break.mask();
        self.stack_push_byte(flags);
        self.enable_flag(Flag::IntDis);
        self.pc = self.io.read_u16(CPUVector::Brk.addr());
    }

    /// Requests an NMI, honoured at this instruction boundary: the program
    /// counter and the status (Break cleared) are pushed unconditionally,
    /// interrupts are disabled and the handler at 0xFFFA is entered.
    pub fn nmi(&mut self)
        requires
            old(self).wf(),
        ensures
            final(self).m() == nmi_mach(old(self).m()),
            final(self).wf(),
    {
        let pc = self.pc;
        self.stack_push_addr(pc);
        let flags = self.p & !Flag::Break.mask();
        self.stack_push_byte(flags);
        self.enable_flag(Flag::IntDis);
        self.pc = self.io.read_u16(CPUVector::Nmi.addr());
    }

    /// Cold-resets the CPU into its documented power-on state: registers
    /// cleared, status = Reserved | Break | IntDis | Zero, stack pointer
    /// 0xFD, program counter loaded from the reset vector at 0xFFFC, halt
    /// flags and cycle counter cleared.  Returns true: the reset took the
    /// cold path.
    pub fn reset(&mut self) -> (r: bool)
        requires
            old(self).wf(),
        ensures
            final(self).m() == reset_mach(old(self).m()),
            r == true,
            final(self).wf(),
    {
        self.h = 0;
        self.cycles = 0;
        self.ex_interrupt = 0;
        self.pc = self.io.read_u16(CPUVector::Rst.addr());
        self.p = 0x36;
        self.s = 0xFD;
        self.a = 0;
        self.x = 0;
        self.y = 0;
        true
    }

    /// Resolves the effective address for one addressing mode.  Returns
    /// the effective address, the scratch byte (for relative mode, the
    /// page-cross indicator of the branch target) and the updated timing
    /// adjustment.
    fn resolve_addr(&mut self, mode: AddrMode, extra: u8) -> (r: (u16, u8, u8))
        requires
            old(self).wf(),
            extra <= 1,
        ensures
            ({
                let rr = spec_resolve(mode, old(self).m(), extra);
                &&& final(self).m() == rr.m
                &&& r.0 == rr.addr
                &&& r.1 == rr.t1
                &&& r.2 == rr.timing
            }),
            r.2 <= 2,
            mode is Relative ==> r.1 <= 1 && r.2 <= 1,
            final(self).wf(),
    {
        match mode {
            AddrMode::Immediate => {
                let addr = self.pc;
                self.pc = self.pc.wrapping_add(1);
                return (addr, 0, extra);
            },
            AddrMode::Relative => {
                let off = self.next_byte();
                let target = self.pc.wrapping_add_signed((off as i8) as i16);
                let cross: u8 = if (target & 0xff00) != (self.pc & 0xff00) {
                    1
                } else {
                    0
                };
                return (target, cross, extra);
            },
            AddrMode::Absolute => {
                let addr = self.next_addr();
                return (addr, 0, extra);
            },
            AddrMode::Indirect => {
                let ptr = self.next_addr();
                if ptr & 0xFF == 0xFF {
                    let lo = self.io.read_u8(ptr);
                    let hi = self.io.read_u8(ptr & 0xff00);
                    return ((lo as u16) | ((hi as u16) << 8), 0, extra);
                } else {
                    let addr = self.io.read_u16(ptr);
                    return (addr, 0, extra);
                }
            },
            AddrMode::ZeroPage => {
                let b = self.next_byte();
                return (b as u16, 0, extra);
            },
            AddrMode::AbsoluteX => {
                let base = self.next_addr();
                let cross: u8 = if (base.wrapping_add(self.x as u16) & 0xff00) != (base & 0xff00) {
                    1
                } else {
                    0
                };
                return (base.wrapping_add(self.x as u16), 0, extra + cross);
            },
            AddrMode::AbsoluteY => {
                let base = self.next_addr();
                let cross: u8 = if (base.wrapping_add(self.y as u16) & 0xff00) != (base & 0xff00) {
                    1
                } else {
                    0
                };
                return (base.wrapping_add(self.y as u16), 0, extra + cross);
            },
            AddrMode::ZeroPageX => {
                let b = self.next_byte();
                return (b.wrapping_add(self.x) as u16, b, extra);
            },
            AddrMode::ZeroPageY => {
                let b = self.next_byte();
                return (b.wrapping_add(self.y) as u16, b, extra);
            },
            AddrMode::IndirectX => {
                let b = self.next_byte();
                let lo = self.io.read_u8(b.wrapping_add(self.x) as u16);
                let hi = self.io.read_u8(b.wrapping_add(self.x).wrapping_add(1) as u16);
                return ((lo as u16) + (hi as u16) * 0x100, b, extra);
            },
            AddrMode::IndirectY => {
                let b = self.next_byte();
                let lo = self.io.read_u8(b as u16);
                let hi = self.io.read_u8(b.wrapping_add(1) as u16);
                let pre = (lo as u16) + (hi as u16) * 0x100;
                let cross: u8 = if (pre.wrapping_add(self.y as u16) & 0xff00) != (pre & 0xff00) {
                    1
                } else {
                    0
                };
                return (pre.wrapping_add(self.y as u16), b, extra + cross);
            },
            _ => {
                return (0, 0, extra);
            },
        }
    }

    /// Adds `b` and the carry-in to the accumulator, setting C, V, N, Z.
    fn do_adc(&mut self, b: u8)
        ensures
            final(self).m() == adc_mach(old(self).m(), b),
    {
        let a0 = self.a;
        let sum: u16 = (self.a as u16) + (b as u16) + (self.get_flag(Flag::Carry) as u16);
        self.set_flag(Flag::Carry, sum > 0xFF);
        self.set_flag(Flag::Overflow, (!(a0 ^ b) & (a0 ^ (sum as u8))) & 0x80 != 0);
        self.a = sum as u8;
        self.set_nz_flags(sum as u8);
    }

    /// Takes or skips a conditional branch, returning the updated timing:
    /// a taken branch loads the target and costs one extra cycle, plus one
    /// more if it crossed a page.
    fn do_branch(&mut self, cond: bool, t_addr: u16, t_byte1: u8, timing: u8) -> (r: u8)
        ensures
            ({
                let e = branch(old(self).m(), t_addr, t_byte1, timing, cond);
                &&& final(self).m() == e.m
                &&& r == e.timing
            }),
    {
        if cond {
            self.pc = t_addr;
            timing.wrapping_add(1).wrapping_add(t_byte1)
        } else {
            timing
        }
    }

    /// Executes one decoded operation over its resolved effective address.
    /// Returns the final timing adjustment and whether the instruction
    /// completed (false exactly when an unstable store aborted into a
    /// halt, in which case no cycles may be charged).
    #[verifier::rlimit(100)]
    fn execute_op(&mut self, op: OpCode, mode: AddrMode, t_addr: u16, t_byte1: u8, timing: u8) -> (r:
        (u8, bool))
        requires
            old(self).wf(),
            timing <= 2,
            is_branch(op) ==> t_byte1 <= 1 && timing <= 1,
        ensures
            ({
                let rr = Resolved { m: old(self).m(), addr: t_addr, t1: t_byte1, timing };
                let e = spec_execute(op, mode, rr);
                &&& final(self).m() == e.m
                &&& r.0 == e.timing
                &&& r.1 == e.count_cycles
            }),
            r.0 <= 3,
            final(self).wf(),
    {
        match op {
            OpCode::Lda => {
                let v = self.io.read_u8(t_addr);
                self.a = v;
                self.set_nz_flags(v);
                return (timing, true);
            },
            OpCode::Ldx => {
                let v = self.io.read_u8(t_addr);
                self.x = v;
                self.set_nz_flags(v);
                return (timing, true);
            },
            OpCode::Ldy => {
                let v = self.io.read_u8(t_addr);
                self.y = v;
                self.set_nz_flags(v);
                return (timing, true);
            },
            OpCode::Lax => {
                let v = self.io.read_u8(t_addr);
                self.a = v;
                self.x = v;
                self.set_nz_flags(v);
                return (timing, true);
            },
            OpCode::Sax => {
                let v = self.a & self.x;
                self.io.write_u8(t_addr, v);
                return (timing, true);
            },
            OpCode::Sta => {
                let v = self.a;
                self.io.write_u8(t_addr, v);
                return (timing, true);
            },
            OpCode::Stx => {
                let v = self.x;
                self.io.write_u8(t_addr, v);
                return (timing, true);
            },
            OpCode::Sty => {
                let v = self.y;
                self.io.write_u8(t_addr, v);
                return (timing, true);
            },
            OpCode::Tax => {
                let v = self.a;
                self.x = v;
                self.set_nz_flags(v);
                return (timing, true);
            },
            OpCode::Tay => {
                let v = self.a;
                self.y = v;
                self.set_nz_flags(v);
                return (timing, true);
            },
            OpCode::Tsx => {
                let v = self.s;
                self.x = v;
                self.set_nz_flags(v);
                return (timing, true);
            },
            OpCode::Txa => {
                let v = self.x;
                self.a = v;
                self.set_nz_flags(v);
                return (timing, true);
            },
            OpCode::Txs => {
                self.s = self.x;
                return (timing, true);
            },
            OpCode::Tya => {
                let v = self.y;
                self.a = v;
                self.set_nz_flags(v);
                return (timing, true);
            },
            OpCode::Pha => {
                let v = self.a;
                self.stack_push_byte(v);
                return (timing, true);
            },
            OpCode::Php => {
                let v = self.p | Flag::Break.mask();
                self.stack_push_byte(v);
                return (timing, true);
            },
            OpCode::Pla => {
                let v = self.stack_pop_byte();
                self.a = v;
                self.set_nz_flags(v);
                return (timing, true);
            },
            OpCode::Plp => {
                let v = self.stack_pop_byte();
                self.p = (v & !Flag::Break.mask()) | Flag::Reserved.mask();
                return (timing, true);
            },
            OpCode::Dec => {
                let v = self.io.read_u8(t_addr).wrapping_sub(1);
                self.io.write_u8(t_addr, v);
                self.set_nz_flags(v);
                return (timing, true);
            },
            OpCode::Dex => {
                let v = self.x.wrapping_sub(1);
                self.x = v;
                self.set_nz_flags(v);
                return (timing, true);
            },
            OpCode::Dey => {
                let v = self.y.wrapping_sub(1);
                self.y = v;
                self.set_nz_flags(v);
                return (timing, true);
            },
            OpCode::Inc => {
                let v = self.io.read_u8(t_addr).wrapping_add(1);
                self.io.write_u8(t_addr, v);
                self.set_nz_flags(v);
                return (timing, true);
            },
            OpCode::Inx => {
                let v = self.x.wrapping_add(1);
                self.x = v;
                self.set_nz_flags(v);
                return (timing, true);
            },
            OpCode::Iny => {
                let v = self.y.wrapping_add(1);
                self.y = v;
                self.set_nz_flags(v);
                return (timing, true);
            },
            OpCode::Isc => {
                let v = self.io.read_u8(t_addr).wrapping_add(1);
                self.io.write_u8(t_addr, v);
                self.do_adc(!v);
                return (timing, true);
            },
            OpCode::Sbc => {
                let v = !self.io.read_u8(t_addr);
                self.do_adc(v);
                return (timing, true);
            },
            OpCode::Adc => {
                let v = self.io.read_u8(t_addr);
                self.do_adc(v);
                return (timing, true);
            },
            OpCode::Rra => {
                let v = self.io.read_u8(t_addr);
                let c = self.get_flag(Flag::Carry);
                self.set_flag(Flag::Carry, v & 0x1 != 0);
                let v1 = (v >> 1).wrapping_add(
                    if c != 0 {
                        0x80
                    } else {
                        0
                    },
                );
                self.io.write_u8(t_addr, v1);
                self.do_adc(v1);
                return (timing, true);
            },
            OpCode::Rla => {
                let v = self.io.read_u8(t_addr);
                let c = self.get_flag(Flag::Carry);
                self.set_flag(Flag::Carry, v & 0x80 != 0);
                let v1 = (v << 1).wrapping_add(c);
                self.io.write_u8(t_addr, v1);
                let a1 = self.a & v1;
                self.a = a1;
                self.set_nz_flags(a1);
                return (timing, true);
            },
            OpCode::And => {
                let a1 = self.a & self.io.read_u8(t_addr);
                self.a = a1;
                self.set_nz_flags(a1);
                return (timing, true);
            },
            OpCode::Sre => {
                let v = self.io.read_u8(t_addr);
                self.set_flag(Flag::Carry, v & 0x1 != 0);
                let v1 = v >> 1;
                self.io.write_u8(t_addr, v1);
                let a1 = self.a ^ v1;
                self.a = a1;
                self.set_nz_flags(a1);
                return (timing, true);
            },
            OpCode::Eor => {
                let a1 = self.a ^ self.io.read_u8(t_addr);
                self.a = a1;
                self.set_nz_flags(a1);
                return (timing, true);
            },
            OpCode::Slo => {
                let v = self.io.read_u8(t_addr);
                self.set_flag(Flag::Carry, v & 0x80 != 0);
                let v1 = v << 1;
                self.io.write_u8(t_addr, v1);
                let a1 = self.a | self.io.read_u8(t_addr);
                self.a = a1;
                self.set_nz_flags(a1);
                return (timing, true);
            },
            OpCode::Ora => {
                let a1 = self.a | self.io.read_u8(t_addr);
                self.a = a1;
                self.set_nz_flags(a1);
                return (timing, true);
            },
            OpCode::Asl => {
                let v = if mode == AddrMode::Accumulator {
                    self.a
                } else {
                    self.io.read_u8(t_addr)
                };
                self.set_flag(Flag::Carry, v & 0x80 != 0);
                let v1 = v << 1;
                if mode == AddrMode::Accumulator {
                    self.a = v1;
                } else {
                    self.io.write_u8(t_addr, v1);
                }
                self.set_nz_flags(v1);
                return (timing, true);
            },
            OpCode::Lsr => {
                let v = if mode == AddrMode::Accumulator {
                    self.a
                } else {
                    self.io.read_u8(t_addr)
                };
                self.set_flag(Flag::Carry, v & 0x1 != 0);
                let v1 = v >> 1;
                if mode == AddrMode::Accumulator {
                    self.a = v1;
                } else {
                    self.io.write_u8(t_addr, v1);
                }
                self.set_nz_flags(v1);
                return (timing, true);
            },
            OpCode::Rol => {
                let v = if mode == AddrMode::Accumulator {
                    self.a
                } else {
                    self.io.read_u8(t_addr)
                };
                let c = self.get_flag(Flag::Carry);
                self.set_flag(Flag::Carry, v & 0x80 != 0);
                let v1 = (v << 1).wrapping_add(c);
                if mode == AddrMode::Accumulator {
                    self.a = v1;
                } else {
                    self.io.write_u8(t_addr, v1);
                }
                self.set_nz_flags(v1);
                return (timing, true);
            },
            OpCode::Ror => {
                let v = if mode == AddrMode::Accumulator {
                    self.a
                } else {
                    self.io.read_u8(t_addr)
                };
                let c = self.get_flag(Flag::Carry);
                self.set_flag(Flag::Carry, v & 0x1 != 0);
                let v1 = (v >> 1).wrapping_add(
                    if c == 1 {
                        0x80
                    } else {
                        0
                    },
                );
                if mode == AddrMode::Accumulator {
                    self.a = v1;
                } else {
                    self.io.write_u8(t_addr, v1);
                }
                self.set_nz_flags(v1);
                return (timing, true);
            },
            OpCode::Clc => {
                self.disable_flag(Flag::Carry);
                return (timing, true);
            },
            OpCode::Cld => {
                self.disable_flag(Flag::Decimal);
                return (timing, true);
            },
            OpCode::Cli => {
                self.disable_flag(Flag::IntDis);
                return (timing, true);
            },
            OpCode::Clv => {
                self.disable_flag(Flag::Overflow);
                return (timing, true);
            },
            OpCode::Sec => {
                self.enable_flag(Flag::Carry);
                return (timing, true);
            },
            OpCode::Sed => {
                self.enable_flag(Flag::Decimal);
                return (timing, true);
            },
            OpCode::Sei => {
                self.enable_flag(Flag::IntDis);
                return (timing, true);
            },
            OpCode::Dcp => {
                let v = self.io.read_u8(t_addr).wrapping_sub(1);
                self.io.write_u8(t_addr, v);
                let a0 = self.a;
                self.set_flag(Flag::Carry, a0 >= v);
                self.set_nz_flags(a0.wrapping_sub(v));
                return (timing, true);
            },
            OpCode::Cmp => {
                let v = self.io.read_u8(t_addr);
                let a0 = self.a;
                self.set_flag(Flag::Carry, a0 >= v);
                self.set_nz_flags(a0.wrapping_sub(v));
                return (timing, true);
            },
            OpCode::Cpx => {
                let v = self.io.read_u8(t_addr);
                let x0 = self.x;
                self.set_flag(Flag::Carry, x0 >= v);
                self.set_nz_flags(x0.wrapping_sub(v));
                return (timing, true);
            },
            OpCode::Cpy => {
                let v = self.io.read_u8(t_addr);
                let y0 = self.y;
                self.set_flag(Flag::Carry, y0 >= v);
                self.set_nz_flags(y0.wrapping_sub(v));
                return (timing, true);
            },
            OpCode::Bcc => {
                let c = self.get_flag(Flag::Carry);
                let t = self.do_branch(c == 0, t_addr, t_byte1, timing);
                return (t, true);
            },
            OpCode::Bcs => {
                let c = self.get_flag(Flag::Carry);
                let t = self.do_branch(c != 0, t_addr, t_byte1, timing);
                return (t, true);
            },
            OpCode::Beq => {
                let c = self.get_flag(Flag::Zero);
                let t = self.do_branch(c != 0, t_addr, t_byte1, timing);
                return (t, true);
            },
            OpCode::Bmi => {
                let c = self.get_flag(Flag::Negative);
                let t = self.do_branch(c != 0, t_addr, t_byte1, timing);
                return (t, true);
            },
            OpCode::Bne => {
                let c = self.get_flag(Flag::Zero);
                let t = self.do_branch(c == 0, t_addr, t_byte1, timing);
                return (t, true);
            },
            OpCode::Bpl => {
                let c = self.get_flag(Flag::Negative);
                let t = self.do_branch(c == 0, t_addr, t_byte1, timing);
                return (t, true);
            },
            OpCode::Bvc => {
                let c = self.get_flag(Flag::Overflow);
                let t = self.do_branch(c == 0, t_addr, t_byte1, timing);
                return (t, true);
            },
            OpCode::Bvs => {
                let c = self.get_flag(Flag::Overflow);
                let t = self.do_branch(c != 0, t_addr, t_byte1, timing);
                return (t, true);
            },
            OpCode::Jmp => {
                self.pc = t_addr;
                return (timing, true);
            },
            OpCode::Jsr => {
                self.pc = self.pc.wrapping_sub(1);
                let ret = self.pc;
                self.stack_push_addr(ret);
                self.pc = t_addr;
                return (timing, true);
            },
            OpCode::Rts => {
                let v = self.stack_pop_addr();
                self.pc = v.wrapping_add(1);
                return (timing, true);
            },
            OpCode::Brk => {
                let ret = self.pc.wrapping_add(1);
                self.stack_push_addr(ret);
                let flags = self.p | Flag::Break.mask();
                self.stack_push_byte(flags);
                self.enable_flag(Flag::IntDis);
                self.pc = self.io.read_u16(CPUVector::Brk.addr());
                return (timing, true);
            },
            OpCode::Rti => {
                let v = self.stack_pop_byte();
                self.p = (v & !Flag::Break.mask()) | Flag::Reserved.mask();
                let w = self.stack_pop_addr();
                self.pc = w;
                return (timing, true);
            },
            OpCode::Bit => {
                let v = self.io.read_u8(t_addr);
                let and = self.a & v;
                self.set_nz_flags(and);
                self.set_flag(Flag::Overflow, and & 0x40 != 0);
                self.p = (self.p & 0x3F) | (v & 0xC0);
                return (timing, true);
            },
            OpCode::Nop => {
                return (timing, true);
            },
            OpCode::Asr => {
                let a1 = self.a & self.io.read_u8(t_addr);
                self.set_flag(Flag::Carry, a1 & 0x1 != 0);
                let a2 = a1 >> 1;
                self.a = a2;
                self.set_nz_flags(a2);
                return (timing, true);
            },
            OpCode::An1 => {
                let a1 = self.a & self.io.read_u8(t_addr);
                self.a = a1;
                self.set_flag(Flag::Carry, a1 & 0x80 != 0);
                self.set_nz_flags(a1);
                return (timing, true);
            },
            OpCode::An2 => {
                let a1 = self.a & self.io.read_u8(t_addr);
                self.a = a1;
                self.set_flag(Flag::Carry, a1 & 0x80 != 0);
                self.set_nz_flags(a1);
                return (timing, true);
            },
            OpCode::Ane => {
                let v = self.io.read_u8(t_addr);
                let a1 = self.a & (self.magic & self.x & v);
                self.a = a1;
                self.set_nz_flags(a1);
                return (timing, true);
            },
            OpCode::Lxa => {
                let v = self.io.read_u8(t_addr);
                let a1 = (self.a | self.magic) & v;
                self.a = a1;
                self.x = a1;
                self.set_nz_flags(a1);
                return (timing, true);
            },
            OpCode::Arr => {
                let v = self.io.read_u8(t_addr);
                let c = self.get_flag(Flag::Carry);
                let a1 = ((self.a & v) >> 1) | (c << 7);
                self.a = a1;
                self.set_nz_flags(a1);
                self.set_flag(Flag::Carry, a1 & 0x40 != 0);
                self.set_flag(Flag::Overflow, (a1 & 0x40) ^ ((a1 & 0x20) << 1) != 0);
                return (timing, true);
            },
            OpCode::Las => {
                let v = self.io.read_u8(t_addr) & self.s;
                self.s = v;
                self.a = v;
                self.x = v;
                self.set_nz_flags(v);
                return (timing, true);
            },
            OpCode::Sbx => {
                let x1 = self.x & self.a;
                self.x = x1;
                let v = self.io.read_u8(t_addr);
                let t = (x1 as u16).wrapping_sub(v as u16);
                self.set_flag(Flag::Carry, t < 0x100);
                let x2 = t as u8;
                self.x = x2;
                self.set_nz_flags(x2);
                return (timing, true);
            },
            OpCode::Sha => {
                match mode {
                    AddrMode::AbsoluteY => {
                        let w = self.io.read_u16(self.pc.wrapping_sub(2));
                        let t = ((w >> 8) as u8).wrapping_add(1);
                        let v = self.a & self.x & t;
                        self.io.write_u8(t_addr, v);
                        return (timing, true);
                    },
                    AddrMode::ZeroPageY => {
                        let b = self.io.read_u8(self.pc.wrapping_sub(1));
                        let t = self.io.read_u8(b as u16).wrapping_add(1);
                        let v = self.a & self.x & t;
                        self.io.write_u8(t_addr, v);
                        return (timing, true);
                    },
                    _ => {
                        self.h = 1;
                        return (timing, false);
                    },
                }
            },
            OpCode::Shx => {
                let t2 = self.io.read_u8(self.pc.wrapping_sub(1));
                let v = t2.wrapping_add(1) & self.x;
                let addr1 = if t2 != (t_addr >> 8) as u8 {
                    (t_addr & 0xff) | ((v as u16) << 8).wrapping_add(1)
                } else {
                    t_addr
                };
                self.io.write_u8(addr1, v);
                return (timing, true);
            },
            OpCode::Shy => {
                let t2 = self.io.read_u8(self.pc.wrapping_sub(1));
                let v = t2.wrapping_add(1) & self.y;
                let addr1 = if t2 != (t_addr >> 8) as u8 {
                    (t_addr & 0xff) | ((v as u16) << 8).wrapping_add(1)
                } else {
                    t_addr
                };
                self.io.write_u8(addr1, v);
                return (timing, true);
            },
            OpCode::Tas => {
                let s1 = self.a & self.x;
                self.s = s1;
                let w = self.io.read_u16(self.pc.wrapping_sub(2));
                let t = ((w >> 8) as u8).wrapping_add(1);
                let v = s1 & t;
                self.io.write_u8(t_addr, v);
                return (timing, true);
            },
            OpCode::Jam => {
                self.h = 1;
                return (timing, true);
            },
        }
    }

    /// Executes exactly one instruction: fetch, decode, resolve the
    /// effective address, execute, and charge the elapsed cycles.  The
    /// resulting state is exactly [`spec_step`] of the old state; a
    /// completed instruction always charges between 1 and 10 cycles.
    #[verifier::rlimit(100)]
    pub fn step_instruction(&mut self)
        requires
            old(self).wf(),
            old(self).cycles + 10 <= usize::MAX,
        ensures
            final(self).m() == spec_step(old(self).m()),
            final(self).wf(),
            old(self).cycles <= final(self).cycles <= old(self).cycles + 10,
            final(self).cycles > old(self).cycles || final(self).h != 0,
    {
        let ghost m_start = self.m();
        let opcode = self.next_byte();
        let d = decode(opcode);
        let ghost m1 = self.m();
        let (t_addr, t_byte1, timing) = self.resolve_addr(d.mode, d.extra);
        let ghost rr = spec_resolve(d.mode, m1, d.extra);
        proof {
            assert(Resolved { m: self.m(), addr: t_addr, t1: t_byte1, timing } =~= rr);
        }
        let (timing2, proceed) = self.execute_op(d.op, d.mode, t_addr, t_byte1, timing);
        let ghost ee = spec_execute(d.op, d.mode, rr);
        proof {
            assert(self.m() =~= ee.m);
        }
        if proceed {
            let cycle_expr: usize = 1 + (d.base as usize) + (
            if timing2 > 0 {
                (timing2 as usize) - 1
            } else {
                0
            });
            self.cycles = self.cycles + cycle_expr;
        }
        proof {
            assert(self.m() =~= spec_step(m_start));
        }
    }

    /// Runs the CPU until at least `cycles` cycles have elapsed since the
    /// call (with an error of at most one instruction) or the machine
    /// halts.  The resulting state is exactly [`spec_run`] of the old
    /// state under that budget.
    #[verifier::rlimit(100)]
    pub fn run(&mut self, cycles: usize)
        requires
            old(self).wf(),
            old(self).cycles + cycles + 10 <= usize::MAX,
        ensures
            final(self).m() == spec_run(old(self).m(), 0, cycles as int),
            final(self).wf(),
    {
        let ghost m0 = self.m();
        let mut t_cycles: usize = 0;
        while t_cycles < cycles && self.h == 0
            invariant
                self.wf(),
                self.cycles == m0.cycles + t_cycles,
                t_cycles <= cycles + 9,
                m0.cycles >= 0,
                m0.cycles + cycles + 10 <= usize::MAX,
                spec_run(m0, 0, cycles as int) == spec_run(
                    self.m(),
                    clamp_at(t_cycles as int, cycles as int),
                    cycles as int,
                ),
            decreases (
            if t_cycles <= cycles {
                (cycles - t_cycles) as int
            } else {
                0int
            }), (
            if self.h == 0 {
                1int
            } else {
                0int
            }),
        {
            let before = self.cycles;
            let ghost m_before = self.m();
            self.step_instruction();
            let delta = self.cycles - before;
            proof {
                assert(spec_run(m_before, clamp_at(t_cycles as int, cycles as int), cycles as int)
                    == spec_run(
                    self.m(),
                    clamp_at(t_cycles as int + delta as int, cycles as int),
                    cycles as int,
                ));
            }
            t_cycles = t_cycles + delta;
        }
        proof {
            assert(spec_run(
                self.m(),
                clamp_at(t_cycles as int, cycles as int),
                cycles as int,
            ) == self.m());
        }
    }
}

} // verus!
