//! The mathematical model of the fast-path engine.
//!
//! A [`Mach`] value is the complete architectural state: register file,
//! halt flags, cycle counter and the 64 KiB memory image.  [`spec_step`]
//! is the meaning of executing one instruction; [`spec_run`] iterates it
//! under a cycle budget.  The executable engine in `vm` is proved equal
//! to these functions, step for step.

use vstd::prelude::*;
use crate::bus::word_le;
use crate::consts::{AddrMode, OpCode};
use crate::decode::{spec_decode, Decoded};

verus! {

/// The abstract state of the fast-path machine.
///
/// `h` is the halt flag (set by JAM and by unresolvable unstable opcodes),
/// `ex_interrupt` the external-halt request line, `magic` the documented
/// constant used by the unstable illegal opcodes.
#[verifier::ext_equal]
pub struct Mach {
    pub pc: u16,
    pub x: u8,
    pub y: u8,
    pub a: u8,
    pub s: u8,
    pub p: u8,
    pub h: u8,
    pub ex_interrupt: u8,
    pub magic: u8,
    pub cycles: int,
    pub mem: Seq<u8>,
}

/// The byte stored at `addr`.
pub open spec fn mget(m: Seq<u8>, addr: u16) -> u8 {
    m[addr as int]
}

/// The status register with one flag bit forced to `value`.
pub open spec fn with_flag(p: u8, mask: u8, value: bool) -> u8 {
    if value {
        p | mask
    } else {
        p & !mask
    }
}

/// The status register after storing a result byte `v`: Negative is bit 7
/// of `v`, Zero is whether `v` is zero.
pub open spec fn nz_flags(p: u8, v: u8) -> u8 {
    with_flag(with_flag(p, 0x80, v & 0x80 > 0), 0x02, v == 0)
}

/// The carry-in of the status register, as the number 0 or 1.
pub open spec fn carry_in(p: u8) -> u8 {
    p & 0x01
}

/// The 9-bit sum of an ADC: accumulator + operand + carry-in.
pub open spec fn adc_sum(a: u8, b: u8, p: u8) -> u16 {
    (a + b + carry_in(p)) as u16
}

/// The accumulator after ADC.
pub open spec fn adc_a(a: u8, b: u8, p: u8) -> u8 {
    adc_sum(a, b, p) as u8
}

/// The status register after ADC: carry is the 9th bit of the sum,
/// overflow the signed-overflow rule, N and Z from the result byte.
pub open spec fn adc_p(a: u8, b: u8, p: u8) -> u8 {
    let sum = adc_sum(a, b, p);
    let p1 = with_flag(p, 0x01, sum > 0xFF);
    let p2 = with_flag(p1, 0x40, (!(a ^ b) & (a ^ (sum as u8))) & 0x80 != 0);
    nz_flags(p2, sum as u8)
}

/// The machine after ADC of `b` into the accumulator.
pub open spec fn adc_mach(m: Mach, b: u8) -> Mach {
    Mach { a: adc_a(m.a, b, m.p), p: adc_p(m.a, b, m.p), ..m }
}

/// The hardware stack lives in page one, indexed by the stack pointer.
pub open spec fn stack_addr(s: u8) -> u16 {
    (s as u16) | 0x100
}

/// A push: the byte lands at the current stack slot, then the pointer
/// decrements with page wrap.
pub open spec fn push_byte(m: Mach, v: u8) -> Mach {
    Mach { s: m.s.wrapping_sub(1), mem: m.mem.update(stack_addr(m.s) as int, v), ..m }
}

/// An address push: high byte first, then low byte.
pub open spec fn push_addr(m: Mach, v: u16) -> Mach {
    push_byte(push_byte(m, (v >> 8) as u8), v as u8)
}

/// A pop: the pointer increments with page wrap, then the byte at the new
/// slot is read.
pub open spec fn pop_byte(m: Mach) -> (Mach, u8) {
    let s1 = m.s.wrapping_add(1);
    (Mach { s: s1, ..m }, mget(m.mem, stack_addr(s1)))
}

/// An address pop: low byte first, then high byte.
pub open spec fn pop_addr(m: Mach) -> (Mach, u16) {
    let (m1, lo) = pop_byte(m);
    let (m2, hi) = pop_byte(m1);
    (m2, (lo + hi * 0x100) as u16)
}

/// What effective-address resolution yields: the machine with the operand
/// bytes consumed, the effective address, the scratch byte `t1` (the page
/// crossing indicator for relative mode, else the raw operand byte), and
/// the running timing adjustment.
#[verifier::ext_equal]
pub struct Resolved {
    pub m: Mach,
    pub addr: u16,
    pub t1: u8,
    pub timing: u8,
}

/// Effective-address resolution, one case per addressing mode.
/// `m` is the machine just after the opcode fetch; `extra` is the decoded
/// page-cross sensitivity, seeding the timing adjustment.
pub open spec fn spec_resolve(mode: AddrMode, m: Mach, extra: u8) -> Resolved {
    match mode {
        AddrMode::Immediate => Resolved {
            m: Mach { pc: m.pc.wrapping_add(1), ..m },
            addr: m.pc,
            t1: 0,
            timing: extra,
        },
        AddrMode::Relative => {
            let off = mget(m.mem, m.pc);
            let m1 = Mach { pc: m.pc.wrapping_add(1), ..m };
            let target = m1.pc.wrapping_add_signed((off as i8) as i16);
            let cross: u8 = if (target & 0xff00) != (m1.pc & 0xff00) {
                1
            } else {
                0
            };
            Resolved { m: m1, addr: target, t1: cross, timing: extra }
        },
        AddrMode::Absolute => Resolved {
            m: Mach { pc: m.pc.wrapping_add(2), ..m },
            addr: word_le(m.mem, m.pc),
            t1: 0,
            timing: extra,
        },
        AddrMode::Indirect => {
            let ptr = word_le(m.mem, m.pc);
            let m1 = Mach { pc: m.pc.wrapping_add(2), ..m };
            let addr = if ptr & 0xFF == 0xFF {
                (mget(m.mem, ptr) as u16) | ((mget(m.mem, ptr & 0xff00) as u16) << 8)
            } else {
                word_le(m.mem, ptr)
            };
            Resolved { m: m1, addr, t1: 0, timing: extra }
        },
        AddrMode::ZeroPage => Resolved {
            m: Mach { pc: m.pc.wrapping_add(1), ..m },
            addr: mget(m.mem, m.pc) as u16,
            t1: 0,
            timing: extra,
        },
        AddrMode::AbsoluteX => {
            let base = word_le(m.mem, m.pc);
            let m1 = Mach { pc: m.pc.wrapping_add(2), ..m };
            let cross: u8 = if (base.wrapping_add(m.x as u16) & 0xff00) != (base & 0xff00) {
                1
            } else {
                0
            };
            Resolved {
                m: m1,
                addr: base.wrapping_add(m.x as u16),
                t1: 0,
                timing: (extra + cross) as u8,
            }
        },
        AddrMode::AbsoluteY => {
            let base = word_le(m.mem, m.pc);
            let m1 = Mach { pc: m.pc.wrapping_add(2), ..m };
            let cross: u8 = if (base.wrapping_add(m.y as u16) & 0xff00) != (base & 0xff00) {
                1
            } else {
                0
            };
            Resolved {
                m: m1,
                addr: base.wrapping_add(m.y as u16),
                t1: 0,
                timing: (extra + cross) as u8,
            }
        },
        AddrMode::ZeroPageX => {
            let b = mget(m.mem, m.pc);
            Resolved {
                m: Mach { pc: m.pc.wrapping_add(1), ..m },
                addr: b.wrapping_add(m.x) as u16,
                t1: b,
                timing: extra,
            }
        },
        AddrMode::ZeroPageY => {
            let b = mget(m.mem, m.pc);
            Resolved {
                m: Mach { pc: m.pc.wrapping_add(1), ..m },
                addr: b.wrapping_add(m.y) as u16,
                t1: b,
                timing: extra,
            }
        },
        AddrMode::IndirectX => {
            let b = mget(m.mem, m.pc);
            let m1 = Mach { pc: m.pc.wrapping_add(1), ..m };
            let lo = mget(m.mem, b.wrapping_add(m.x) as u16);
            let hi = mget(m.mem, b.wrapping_add(m.x).wrapping_add(1) as u16);
            Resolved { m: m1, addr: (lo + hi * 0x100) as u16, t1: b, timing: extra }
        },
        AddrMode::IndirectY => {
            let b = mget(m.mem, m.pc);
            let m1 = Mach { pc: m.pc.wrapping_add(1), ..m };
            let lo = mget(m.mem, b as u16);
            let hi = mget(m.mem, b.wrapping_add(1) as u16);
            let pre = (lo + hi * 0x100) as u16;
            let cross: u8 = if (pre.wrapping_add(m.y as u16) & 0xff00) != (pre & 0xff00) {
                1
            } else {
                0
            };
            Resolved {
                m: m1,
                addr: pre.wrapping_add(m.y as u16),
                t1: b,
                timing: (extra + cross) as u8,
            }
        },
        _ => Resolved { m, addr: 0, t1: 0, timing: extra },
    }
}

/// What executing the operation yields.  `count_cycles` is false exactly
/// when the instruction aborted into a halt before completing (an
/// unstable store whose operand cannot be reconstructed), in which case
/// no cycles are charged.
#[verifier::ext_equal]
pub struct Executed {
    pub m: Mach,
    pub timing: u8,
    pub count_cycles: bool,
}

/// A conditional branch: when taken, the program counter moves to the
/// resolved target and the timing adjustment grows by one, plus one more
/// if the branch crossed a page (`t1`).
pub open spec fn branch(m: Mach, addr: u16, t1: u8, timing: u8, taken: bool) -> Executed {
    if taken {
        Executed {
            m: Mach { pc: addr, ..m },
            timing: timing.wrapping_add(1).wrapping_add(t1),
            count_cycles: true,
        }
    } else {
        Executed { m, timing, count_cycles: true }
    }
}

/// Instruction execution, one case per mnemonic, over the resolved
/// effective address.  Mirrors the documented 6502 semantics, including
/// the illegal composite opcodes and the magic-constant approximation of
/// the unstable family.
pub open spec fn spec_execute(op: OpCode, mode: AddrMode, r: Resolved) -> Executed {
    let m = r.m;
    let addr = r.addr;
    let t1 = r.t1;
    let tm = r.timing;
    match op {
        OpCode::Lda => {
            let v = mget(m.mem, addr);
            Executed { m: Mach { a: v, p: nz_flags(m.p, v), ..m }, timing: tm, count_cycles: true }
        },
        OpCode::Ldx => {
            let v = mget(m.mem, addr);
            Executed { m: Mach { x: v, p: nz_flags(m.p, v), ..m }, timing: tm, count_cycles: true }
        },
        OpCode::Ldy => {
            let v = mget(m.mem, addr);
            Executed { m: Mach { y: v, p: nz_flags(m.p, v), ..m }, timing: tm, count_cycles: true }
        },
        OpCode::Lax => {
            let v = mget(m.mem, addr);
            Executed {
                m: Mach { a: v, x: v, p: nz_flags(m.p, v), ..m },
                timing: tm,
                count_cycles: true,
            }
        },
        OpCode::Sax => Executed {
            m: Mach { mem: m.mem.update(addr as int, m.a & m.x), ..m },
            timing: tm,
            count_cycles: true,
        },
        OpCode::Sta => Executed {
            m: Mach { mem: m.mem.update(addr as int, m.a), ..m },
            timing: tm,
            count_cycles: true,
        },
        OpCode::Stx => Executed {
            m: Mach { mem: m.mem.update(addr as int, m.x), ..m },
            timing: tm,
            count_cycles: true,
        },
        OpCode::Sty => Executed {
            m: Mach { mem: m.mem.update(addr as int, m.y), ..m },
            timing: tm,
            count_cycles: true,
        },
        OpCode::Tax => Executed {
            m: Mach { x: m.a, p: nz_flags(m.p, m.a), ..m },
            timing: tm,
            count_cycles: true,
        },
        OpCode::Tay => Executed {
            m: Mach { y: m.a, p: nz_flags(m.p, m.a), ..m },
            timing: tm,
            count_cycles: true,
        },
        OpCode::Tsx => Executed {
            m: Mach { x: m.s, p: nz_flags(m.p, m.s), ..m },
            timing: tm,
            count_cycles: true,
        },
        OpCode::Txa => Executed {
            m: Mach { a: m.x, p: nz_flags(m.p, m.x), ..m },
            timing: tm,
            count_cycles: true,
        },
        OpCode::Txs => Executed { m: Mach { s: m.x, ..m }, timing: tm, count_cycles: true },
        OpCode::Tya => Executed {
            m: Mach { a: m.y, p: nz_flags(m.p, m.y), ..m },
            timing: tm,
            count_cycles: true,
        },
        OpCode::Pha => Executed { m: push_byte(m, m.a), timing: tm, count_cycles: true },
        OpCode::Php => Executed { m: push_byte(m, m.p | 0x10), timing: tm, count_cycles: true },
        OpCode::Pla => {
            let (m1, v) = pop_byte(m);
            Executed { m: Mach { a: v, p: nz_flags(m1.p, v), ..m1 }, timing: tm, count_cycles: true }
        },
        OpCode::Plp => {
            let (m1, v) = pop_byte(m);
            Executed { m: Mach { p: (v & !0x10) | 0x20, ..m1 }, timing: tm, count_cycles: true }
        },
        OpCode::Dec => {
            let v = mget(m.mem, addr).wrapping_sub(1);
            Executed {
                m: Mach { mem: m.mem.update(addr as int, v), p: nz_flags(m.p, v), ..m },
                timing: tm,
                count_cycles: true,
            }
        },
        OpCode::Dex => {
            let v = m.x.wrapping_sub(1);
            Executed { m: Mach { x: v, p: nz_flags(m.p, v), ..m }, timing: tm, count_cycles: true }
        },
        OpCode::Dey => {
            let v = m.y.wrapping_sub(1);
            Executed { m: Mach { y: v, p: nz_flags(m.p, v), ..m }, timing: tm, count_cycles: true }
        },
        OpCode::Inc => {
            let v = mget(m.mem, addr).wrapping_add(1);
            Executed {
                m: Mach { mem: m.mem.update(addr as int, v), p: nz_flags(m.p, v), ..m },
                timing: tm,
                count_cycles: true,
            }
        },
        OpCode::Inx => {
            let v = m.x.wrapping_add(1);
            Executed { m: Mach { x: v, p: nz_flags(m.p, v), ..m }, timing: tm, count_cycles: true }
        },
        OpCode::Iny => {
            let v = m.y.wrapping_add(1);
            Executed { m: Mach { y: v, p: nz_flags(m.p, v), ..m }, timing: tm, count_cycles: true }
        },
        OpCode::Isc => {
            let v = mget(m.mem, addr).wrapping_add(1);
            let m1 = Mach { mem: m.mem.update(addr as int, v), ..m };
            Executed { m: adc_mach(m1, !v), timing: tm, count_cycles: true }
        },
        OpCode::Sbc => Executed {
            m: adc_mach(m, !mget(m.mem, addr)),
            timing: tm,
            count_cycles: true,
        },
        OpCode::Adc => Executed {
            m: adc_mach(m, mget(m.mem, addr)),
            timing: tm,
            count_cycles: true,
        },
        OpCode::Rra => {
            let v = mget(m.mem, addr);
            let c = carry_in(m.p);
            let p1 = with_flag(m.p, 0x01, v & 0x1 != 0);
            let v1 = (v >> 1).wrapping_add(
                if c != 0 {
                    0x80
                } else {
                    0
                },
            );
            let m1 = Mach { p: p1, mem: m.mem.update(addr as int, v1), ..m };
            Executed { m: adc_mach(m1, v1), timing: tm, count_cycles: true }
        },
        OpCode::Rla => {
            let v = mget(m.mem, addr);
            let c = carry_in(m.p);
            let p1 = with_flag(m.p, 0x01, v & 0x80 != 0);
            let v1 = (v << 1).wrapping_add(c);
            let a1 = m.a & v1;
            Executed {
                m: Mach {
                    a: a1,
                    p: nz_flags(p1, a1),
                    mem: m.mem.update(addr as int, v1),
                    ..m
                },
                timing: tm,
                count_cycles: true,
            }
        },
        OpCode::And => {
            let a1 = m.a & mget(m.mem, addr);
            Executed {
                m: Mach { a: a1, p: nz_flags(m.p, a1), ..m },
                timing: tm,
                count_cycles: true,
            }
        },
        OpCode::Sre => {
            let v = mget(m.mem, addr);
            let p1 = with_flag(m.p, 0x01, v & 0x1 != 0);
            let v1 = v >> 1;
            let a1 = m.a ^ v1;
            Executed {
                m: Mach {
                    a: a1,
                    p: nz_flags(p1, a1),
                    mem: m.mem.update(addr as int, v1),
                    ..m
                },
                timing: tm,
                count_cycles: true,
            }
        },
        OpCode::Eor => {
            let a1 = m.a ^ mget(m.mem, addr);
            Executed {
                m: Mach { a: a1, p: nz_flags(m.p, a1), ..m },
                timing: tm,
                count_cycles: true,
            }
        },
        OpCode::Slo => {
            let v = mget(m.mem, addr);
            let p1 = with_flag(m.p, 0x01, v & 0x80 != 0);
            let v1 = v << 1;
            let a1 = m.a | v1;
            Executed {
                m: Mach {
                    a: a1,
                    p: nz_flags(p1, a1),
                    mem: m.mem.update(addr as int, v1),
                    ..m
                },
                timing: tm,
                count_cycles: true,
            }
        },
        OpCode::Ora => {
            let a1 = m.a | mget(m.mem, addr);
            Executed {
                m: Mach { a: a1, p: nz_flags(m.p, a1), ..m },
                timing: tm,
                count_cycles: true,
            }
        },
        OpCode::Asl => {
            let v = if mode is Accumulator {
                m.a
            } else {
                mget(m.mem, addr)
            };
            let p1 = with_flag(m.p, 0x01, v & 0x80 != 0);
            let v1 = v << 1;
            let m1 = if mode is Accumulator {
                Mach { a: v1, ..m }
            } else {
                Mach { mem: m.mem.update(addr as int, v1), ..m }
            };
            Executed { m: Mach { p: nz_flags(p1, v1), ..m1 }, timing: tm, count_cycles: true }
        },
        OpCode::Lsr => {
            let v = if mode is Accumulator {
                m.a
            } else {
                mget(m.mem, addr)
            };
            let p1 = with_flag(m.p, 0x01, v & 0x1 != 0);
            let v1 = v >> 1;
            let m1 = if mode is Accumulator {
                Mach { a: v1, ..m }
            } else {
                Mach { mem: m.mem.update(addr as int, v1), ..m }
            };
            Executed { m: Mach { p: nz_flags(p1, v1), ..m1 }, timing: tm, count_cycles: true }
        },
        OpCode::Rol => {
            let v = if mode is Accumulator {
                m.a
            } else {
                mget(m.mem, addr)
            };
            let c = carry_in(m.p);
            let p1 = with_flag(m.p, 0x01, v & 0x80 != 0);
            let v1 = (v << 1).wrapping_add(c);
            let m1 = if mode is Accumulator {
                Mach { a: v1, ..m }
            } else {
                Mach { mem: m.mem.update(addr as int, v1), ..m }
            };
            Executed { m: Mach { p: nz_flags(p1, v1), ..m1 }, timing: tm, count_cycles: true }
        },
        OpCode::Ror => {
            let v = if mode is Accumulator {
                m.a
            } else {
                mget(m.mem, addr)
            };
            let c = carry_in(m.p);
            let p1 = with_flag(m.p, 0x01, v & 0x1 != 0);
            let v1 = (v >> 1).wrapping_add(
                if c == 1 {
                    0x80
                } else {
                    0
                },
            );
            let m1 = if mode is Accumulator {
                Mach { a: v1, ..m }
            } else {
                Mach { mem: m.mem.update(addr as int, v1), ..m }
            };
            Executed { m: Mach { p: nz_flags(p1, v1), ..m1 }, timing: tm, count_cycles: true }
        },
        OpCode::Clc => Executed {
            m: Mach { p: m.p & !0x01, ..m },
            timing: tm,
            count_cycles: true,
        },
        OpCode::Cld => Executed {
            m: Mach { p: m.p & !0x08, ..m },
            timing: tm,
            count_cycles: true,
        },
        OpCode::Cli => Executed {
            m: Mach { p: m.p & !0x04, ..m },
            timing: tm,
            count_cycles: true,
        },
        OpCode::Clv => Executed {
            m: Mach { p: m.p & !0x40, ..m },
            timing: tm,
            count_cycles: true,
        },
        OpCode::Sec => Executed { m: Mach { p: m.p | 0x01, ..m }, timing: tm, count_cycles: true },
        OpCode::Sed => Executed { m: Mach { p: m.p | 0x08, ..m }, timing: tm, count_cycles: true },
        OpCode::Sei => Executed { m: Mach { p: m.p | 0x04, ..m }, timing: tm, count_cycles: true },
        OpCode::Dcp => {
            let v = mget(m.mem, addr).wrapping_sub(1);
            let p1 = with_flag(m.p, 0x01, m.a >= v);
            Executed {
                m: Mach {
                    mem: m.mem.update(addr as int, v),
                    p: nz_flags(p1, m.a.wrapping_sub(v)),
                    ..m
                },
                timing: tm,
                count_cycles: true,
            }
        },
        OpCode::Cmp => {
            let v = mget(m.mem, addr);
            let p1 = with_flag(m.p, 0x01, m.a >= v);
            Executed {
                m: Mach { p: nz_flags(p1, m.a.wrapping_sub(v)), ..m },
                timing: tm,
                count_cycles: true,
            }
        },
        OpCode::Cpx => {
            let v = mget(m.mem, addr);
            let p1 = with_flag(m.p, 0x01, m.x >= v);
            Executed {
                m: Mach { p: nz_flags(p1, m.x.wrapping_sub(v)), ..m },
                timing: tm,
                count_cycles: true,
            }
        },
        OpCode::Cpy => {
            let v = mget(m.mem, addr);
            let p1 = with_flag(m.p, 0x01, m.y >= v);
            Executed {
                m: Mach { p: nz_flags(p1, m.y.wrapping_sub(v)), ..m },
                timing: tm,
                count_cycles: true,
            }
        },
        OpCode::Bcc => branch(m, addr, t1, tm, m.p & 0x01 == 0),
        OpCode::Bcs => branch(m, addr, t1, tm, m.p & 0x01 != 0),
        OpCode::Beq => branch(m, addr, t1, tm, m.p & 0x02 != 0),
        OpCode::Bmi => branch(m, addr, t1, tm, m.p & 0x80 != 0),
        OpCode::Bne => branch(m, addr, t1, tm, m.p & 0x02 == 0),
        OpCode::Bpl => branch(m, addr, t1, tm, m.p & 0x80 == 0),
        OpCode::Bvc => branch(m, addr, t1, tm, m.p & 0x40 == 0),
        OpCode::Bvs => branch(m, addr, t1, tm, m.p & 0x40 != 0),
        OpCode::Jmp => Executed { m: Mach { pc: addr, ..m }, timing: tm, count_cycles: true },
        OpCode::Jsr => {
            let ret = m.pc.wrapping_sub(1);
            let m1 = push_addr(Mach { pc: ret, ..m }, ret);
            Executed { m: Mach { pc: addr, ..m1 }, timing: tm, count_cycles: true }
        },
        OpCode::Rts => {
            let (m1, v) = pop_addr(m);
            Executed { m: Mach { pc: v.wrapping_add(1), ..m1 }, timing: tm, count_cycles: true }
        },
        OpCode::Brk => {
            let m1 = push_addr(m, m.pc.wrapping_add(1));
            let m2 = push_byte(m1, m1.p | 0x10);
            Executed {
                m: Mach { p: m2.p | 0x04, pc: word_le(m2.mem, 0xFFFE), ..m2 },
                timing: tm,
                count_cycles: true,
            }
        },
        OpCode::Rti => {
            let (m1, v) = pop_byte(m);
            let m2 = Mach { p: (v & !0x10) | 0x20, ..m1 };
            let (m3, w) = pop_addr(m2);
            Executed { m: Mach { pc: w, ..m3 }, timing: tm, count_cycles: true }
        },
        OpCode::Bit => {
            let v = mget(m.mem, addr);
            let and = m.a & v;
            let p1 = nz_flags(m.p, and);
            let p2 = with_flag(p1, 0x40, and & 0x40 != 0);
            Executed {
                m: Mach { p: (p2 & 0x3F) | (v & 0xC0), ..m },
                timing: tm,
                count_cycles: true,
            }
        },
        OpCode::Nop => Executed { m, timing: tm, count_cycles: true },
        OpCode::Asr => {
            let a1 = m.a & mget(m.mem, addr);
            let p1 = with_flag(m.p, 0x01, a1 & 0x1 != 0);
            let a2 = a1 >> 1;
            Executed {
                m: Mach { a: a2, p: nz_flags(p1, a2), ..m },
                timing: tm,
                count_cycles: true,
            }
        },
        OpCode::An1 => {
            let a1 = m.a & mget(m.mem, addr);
            let p1 = with_flag(m.p, 0x01, a1 & 0x80 != 0);
            Executed {
                m: Mach { a: a1, p: nz_flags(p1, a1), ..m },
                timing: tm,
                count_cycles: true,
            }
        },
        OpCode::An2 => {
            let a1 = m.a & mget(m.mem, addr);
            let p1 = with_flag(m.p, 0x01, a1 & 0x80 != 0);
            Executed {
                m: Mach { a: a1, p: nz_flags(p1, a1), ..m },
                timing: tm,
                count_cycles: true,
            }
        },
        OpCode::Ane => {
            let a1 = m.a & (m.magic & m.x & mget(m.mem, addr));
            Executed {
                m: Mach { a: a1, p: nz_flags(m.p, a1), ..m },
                timing: tm,
                count_cycles: true,
            }
        },
        OpCode::Lxa => {
            let a1 = (m.a | m.magic) & mget(m.mem, addr);
            Executed {
                m: Mach { a: a1, x: a1, p: nz_flags(m.p, a1), ..m },
                timing: tm,
                count_cycles: true,
            }
        },
        OpCode::Arr => {
            let a1 = ((m.a & mget(m.mem, addr)) >> 1) | (carry_in(m.p) << 7);
            let p1 = nz_flags(m.p, a1);
            let p2 = with_flag(p1, 0x01, a1 & 0x40 != 0);
            let p3 = with_flag(p2, 0x40, (a1 & 0x40) ^ ((a1 & 0x20) << 1) != 0);
            Executed { m: Mach { a: a1, p: p3, ..m }, timing: tm, count_cycles: true }
        },
        OpCode::Las => {
            let v = mget(m.mem, addr) & m.s;
            Executed {
                m: Mach { s: v, a: v, x: v, p: nz_flags(m.p, v), ..m },
                timing: tm,
                count_cycles: true,
            }
        },
        OpCode::Sbx => {
            let x1 = m.x & m.a;
            let t = (x1 as u16).wrapping_sub(mget(m.mem, addr) as u16);
            let p1 = with_flag(m.p, 0x01, t < 0x100);
            let x2 = t as u8;
            Executed {
                m: Mach { x: x2, p: nz_flags(p1, x2), ..m },
                timing: tm,
                count_cycles: true,
            }
        },
        OpCode::Sha => {
            if mode is AbsoluteY {
                let t = ((word_le(m.mem, m.pc.wrapping_sub(2)) >> 8) as u8).wrapping_add(1);
                Executed {
                    m: Mach { mem: m.mem.update(addr as int, m.a & m.x & t), ..m },
                    timing: tm,
                    count_cycles: true,
                }
            } else if mode is ZeroPageY {
                let b = mget(m.mem, m.pc.wrapping_sub(1));
                let t = mget(m.mem, b as u16).wrapping_add(1);
                Executed {
                    m: Mach { mem: m.mem.update(addr as int, m.a & m.x & t), ..m },
                    timing: tm,
                    count_cycles: true,
                }
            } else {
                Executed { m: Mach { h: 1, ..m }, timing: tm, count_cycles: false }
            }
        },
        OpCode::Shx => {
            let t2 = mget(m.mem, m.pc.wrapping_sub(1));
            let v = t2.wrapping_add(1) & m.x;
            let addr1 = if t2 != (addr >> 8) as u8 {
                (addr & 0xff) | ((v as u16) << 8).wrapping_add(1)
            } else {
                addr
            };
            Executed {
                m: Mach { mem: m.mem.update(addr1 as int, v), ..m },
                timing: tm,
                count_cycles: true,
            }
        },
        OpCode::Shy => {
            let t2 = mget(m.mem, m.pc.wrapping_sub(1));
            let v = t2.wrapping_add(1) & m.y;
            let addr1 = if t2 != (addr >> 8) as u8 {
                (addr & 0xff) | ((v as u16) << 8).wrapping_add(1)
            } else {
                addr
            };
            Executed {
                m: Mach { mem: m.mem.update(addr1 as int, v), ..m },
                timing: tm,
                count_cycles: true,
            }
        },
        OpCode::Tas => {
            let s1 = m.a & m.x;
            let t = ((word_le(m.mem, m.pc.wrapping_sub(2)) >> 8) as u8).wrapping_add(1);
            Executed {
                m: Mach { s: s1, mem: m.mem.update(addr as int, s1 & t), ..m },
                timing: tm,
                count_cycles: true,
            }
        },
        OpCode::Jam => Executed { m: Mach { h: 1, ..m }, timing: tm, count_cycles: true },
    }
}

/// One whole instruction of the fast-path engine: fetch, decode, resolve,
/// execute, then charge `1 + base + max(timing - 1, 0)` cycles (none when
/// the instruction aborted into a halt).
pub open spec fn spec_step(m: Mach) -> Mach {
    let op = mget(m.mem, m.pc);
    let m0 = Mach { pc: m.pc.wrapping_add(1), ..m };
    let d = spec_decode(op);
    let r = spec_resolve(d.mode, m0, d.extra);
    let e = spec_execute(d.op, d.mode, r);
    if e.count_cycles {
        Mach {
            cycles: e.m.cycles + 1 + d.base + (
            if e.timing > 0 {
                (e.timing - 1) as int
            } else {
                0
            }),
            ..e.m
        }
    } else {
        e.m
    }
}

/// `t` capped at `limit`.
pub open spec fn clamp_at(t: int, limit: int) -> int {
    if t > limit {
        limit
    } else {
        t
    }
}

/// Repeated stepping under a cycle budget: step while fewer than `limit`
/// cycles have elapsed since entry (`t` counts them) and the machine has
/// not halted.  A step that charges no cycles has halted the machine and
/// therefore ends the run.
pub open spec fn spec_run(m: Mach, t: int, limit: int) -> Mach
    decreases limit - t,
    when t <= limit
{
    if t >= limit || m.h != 0 {
        m
    } else {
        let m2 = spec_step(m);
        let d = m2.cycles - m.cycles;
        if d < 1 {
            m2
        } else {
            spec_run(m2, clamp_at(t + d, limit), limit)
        }
    }
}

/// A cold reset: clear the register file, force the status register to
/// Reserved | Break | IntDis | Zero, set the stack pointer to its
/// post-interrupt-sequence value, load the program counter from the reset
/// vector, and clear the halt flags and the cycle counter.
pub open spec fn reset_mach(m: Mach) -> Mach {
    Mach {
        pc: word_le(m.mem, 0xFFFC),
        a: 0,
        x: 0,
        y: 0,
        s: 0xFD,
        p: 0x36,
        h: 0,
        ex_interrupt: 0,
        cycles: 0,
        ..m
    }
}

/// An interrupt entry: push the program counter (high byte first), push
/// the status with Break cleared, set the interrupt-disable flag, and load
/// the program counter from the handler vector.
pub open spec fn interrupt_mach(m: Mach, vector: u16) -> Mach {
    let m1 = push_addr(m, m.pc);
    let m2 = push_byte(m1, m1.p & !0x10);
    Mach { p: m2.p | 0x04, pc: word_le(m2.mem, vector), ..m2 }
}

/// An IRQ is honoured only while the interrupt-disable flag is clear.
pub open spec fn irq_mach(m: Mach) -> Mach {
    if m.p & 0x04 != 0 {
        m
    } else {
        interrupt_mach(m, 0xFFFE)
    }
}

/// An NMI is unconditional.
pub open spec fn nmi_mach(m: Mach) -> Mach {
    interrupt_mach(m, 0xFFFA)
}

} // verus!
