//! The laws of the machine: properties that hold of every register state,
//! proved once over the mathematical models that the engines implement.

use vstd::prelude::*;
use crate::bus::word_le;
use crate::consts::{AddrMode, OpCode};
use crate::cycle_model::{ca_branch, ca_step, BusOp, CaMach, State};
use crate::decode::spec_decode;
use crate::model::{
    adc_a, adc_p, mget, nz_flags, push_addr, push_byte, pop_addr, spec_execute, spec_resolve,
    spec_run, spec_step, Mach, Resolved,
};

verus! {

/// For every status register and result byte: the stored Zero flag is set
/// exactly when the result is zero, the stored Negative flag exactly when
/// bit 7 of the result is set, and the carry and overflow bits are
/// untouched.  Every load, transfer, arithmetic, logical and inc/dec
/// instruction of both engines stores its destination through this rule.
pub proof fn lemma_nz_flags(p: u8, v: u8)
    ensures
        nz_flags(p, v) & 0x02 != 0 <==> v == 0,
        nz_flags(p, v) & 0x80 != 0 <==> v & 0x80 != 0,
        nz_flags(p, v) & 0x01 == p & 0x01,
        nz_flags(p, v) & 0x40 == p & 0x40,
{
    if v == 0 {
        assert(0u8 & 0x80 == 0) by (bit_vector);
        assert((((p & !0x80) | 0x02) & 0x02 != 0) && (((p & !0x80) | 0x02) & 0x80 == 0) && (((p
            & !0x80) | 0x02) & 0x01 == p & 0x01) && (((p & !0x80) | 0x02) & 0x40 == p & 0x40))
            by (bit_vector);
    } else if v & 0x80 > 0 {
        assert((((p | 0x80) & !0x02) & 0x02 == 0) && (((p | 0x80) & !0x02) & 0x80 != 0) && (((p
            | 0x80) & !0x02) & 0x01 == p & 0x01) && (((p | 0x80) & !0x02) & 0x40 == p & 0x40))
            by (bit_vector);
    } else {
        assert((((p & !0x80) & !0x02) & 0x02 == 0) && (((p & !0x80) & !0x02) & 0x80 == 0) && (((p
            & !0x80) & !0x02) & 0x01 == p & 0x01) && (((p & !0x80) & !0x02) & 0x40 == p & 0x40))
            by (bit_vector);
    }
}

/// The flag rule at work in an executed instruction: a load stores the
/// loaded byte through the N/Z rule, so the Zero flag ends set exactly
/// when the destination is zero and the Negative flag exactly when its
/// bit 7 is set.  Transfers, arithmetic, logic and the inc/dec family
/// store their destinations through the same `nz_flags` rule.
pub proof fn lemma_load_flags(mode: AddrMode, r: Resolved)
    ensures
        ({
            let e = spec_execute(OpCode::Lda, mode, r);
            let v = mget(r.m.mem, r.addr);
            &&& e.m.a == v
            &&& (e.m.p & 0x02 != 0 <==> v == 0)
            &&& (e.m.p & 0x80 != 0 <==> v & 0x80 != 0)
        }),
{
    lemma_nz_flags(r.m.p, mget(r.m.mem, r.addr));
}

/// Subtraction is addition of the one's complement: for every accumulator,
/// operand and carry-in, the SBC data path applied to the complemented
/// operand computes exactly the accumulator and the C, V, N, Z flags that
/// the ADC data path computes on the operand itself.  (Both engines
/// execute SBC of `v` as ADC of `!v`.)
pub proof fn lemma_sbc_is_adc_of_complement(a: u8, b: u8, p: u8)
    ensures
        adc_a(a, !(!b), p) == adc_a(a, b, p),
        adc_p(a, !(!b), p) == adc_p(a, b, p),
{
    assert(!(!b) == b) by (bit_vector);
}

/// The wrap arithmetic shared by the branch-target laws: adding a signed
/// offset to a counter that sits two past the opcode lands at
/// (p + 2 + d) mod 0x10000.
proof fn lemma_signed_wrap(base: u16, p: u16, d: i8)
    requires
        base == p.wrapping_add(2),
    ensures
        base.wrapping_add_signed(d as i16) == ((p + 2 + d) % 0x10000) as u16,
{
    let target = base.wrapping_add_signed(d as i16);
    assert(base == (p + 2) % 0x10000);
    assert(target == (p + 2 + d) % 0x10000) by {
        let s = p + 2 + d;
        if base + d > 0xFFFF {
            assert(target == base + d - 0x10000);
        } else if base + d < 0 {
            assert(target == base + d + 0x10000);
        } else {
            assert(target == base + d);
        }
        assert(s % 0x10000 == target) by (nonlinear_arith)
            requires
                0 <= target < 0x10000,
                s == target || s == target + 0x10000 || s == target - 0x10000 || s == target
                    + 0x20000,
        ;
    }
}

/// A taken branch of the fast-path engine lands at (p + 2 + d) mod
/// 0x10000, where p is the address of the branch opcode and d the signed
/// relative offset stored in the following byte.  `m` is the machine just
/// after the opcode fetch, so its program counter sits on the offset byte.
pub proof fn lemma_branch_target(m: Mach, p: u16, extra: u8)
    requires
        m.pc == p.wrapping_add(1),
    ensures
        spec_resolve(AddrMode::Relative, m, extra).addr == (
        (p + 2 + (mget(m.mem, m.pc) as i8)) % 0x10000) as u16,
{
    assert(m.pc.wrapping_add(1) == p.wrapping_add(2));
    lemma_signed_wrap(m.pc.wrapping_add(1), p, mget(m.mem, m.pc) as i8);
}

/// A taken branch of the cycle-accurate engine lands at the same
/// (p + 2 + d) mod 0x10000: at its process cycle the counter has consumed
/// the opcode and the offset `d` held in `operand`, and a skipped branch
/// leaves the counter in place.
pub proof fn lemma_ca_branch_target(m: CaMach, p: u16)
    requires
        m.pc == p.wrapping_add(2),
    ensures
        ca_branch(m, true).pc == ((p + 2 + (m.operand as i8)) % 0x10000) as u16,
        ca_branch(m, false).pc == m.pc,
{
    lemma_signed_wrap(m.pc, p, m.operand as i8);
}

/// A taken branch of the cycle-accurate engine costs one extra cycle, and
/// one more when the target page differs from the counter's page; the
/// penalty cycles do no bus work and touch no register or memory.
pub proof fn lemma_ca_branch_penalty(m: CaMach)
    ensures
        ({
            let b = ca_branch(m, true);
            let cross = (b.pc & 0xff00) != (m.pc & 0xff00);
            &&& b.state == (State::BranchPenalty { page_cross: cross })
            &&& !cross ==> ca_step(b).state is FetchOpCode && ca_step(b).cycles == b.cycles + 1
            &&& cross ==> ca_step(b).state == (State::BranchPenalty { page_cross: false })
                && ca_step(ca_step(b)).state is FetchOpCode && ca_step(ca_step(b)).cycles
                == b.cycles + 2
            &&& ca_step(b).pc == b.pc && ca_step(b).ac == m.ac && ca_step(b).ps == m.ps
                && ca_step(b).mem == m.mem
        }),
{
}

/// Pushing an address and popping it returns the same address and leaves
/// the stack pointer unchanged, for every stack pointer, with page wrap
/// respected: the two bytes land inside page one and come back in order.
pub proof fn lemma_push_pop_addr(m: Mach, v: u16)
    requires
        m.mem.len() == 0x10000,
    ensures
        pop_addr(push_addr(m, v)).1 == v,
        pop_addr(push_addr(m, v)).0.s == m.s,
        pop_addr(push_addr(m, v)).0.mem == push_addr(m, v).mem,
{
    let s = m.s;
    let s1 = s.wrapping_sub(1);
    assert((s as u16 | 0x100) == s + 0x100 && (s1 as u16 | 0x100) == s1 + 0x100) by (bit_vector);
    assert(s != s1);
    assert(v as u8 + ((v >> 8) as u8) * 0x100 == v) by (bit_vector);
}

/// Pushing with the stack pointer at 0x00 writes to 0x0100 and wraps the
/// stack pointer to 0xFF.
pub proof fn lemma_stack_wrap(m: Mach, v: u8)
    requires
        m.s == 0,
    ensures
        push_byte(m, v).s == 0xFF,
        push_byte(m, v).mem == m.mem.update(0x100, v),
{
    assert((0u8 as u16) | 0x100 == 0x100) by (bit_vector);
}

/// The page-cross penalty of absolute indexed addressing fires exactly
/// when the high byte of the effective address differs from the high byte
/// of the base address: the timing adjustment grows by one on a crossing
/// and is untouched otherwise, so a page-cross-insensitive opcode (whose
/// decoded `extra` is zero) never pays the extra cycle.  The Y-indexed
/// and indirect-indexed modes resolve by the identical rule.
pub proof fn lemma_page_cross_penalty(m: Mach, extra: u8)
    requires
        extra <= 1,
    ensures
        ({
            let r = spec_resolve(AddrMode::AbsoluteX, m, extra);
            let base = word_le(m.mem, m.pc);
            &&& r.addr == base.wrapping_add(m.x as u16)
            &&& r.timing == extra + (
            if (r.addr & 0xff00) != (base & 0xff00) {
                1int
            } else {
                0int
            })
        }),
{
}

/// The indirect-jump page-wrap defect: when the pointer's low byte is
/// 0xFF, the high byte of the jump target is read from the start of the
/// pointer's own page, not from the following page.
pub proof fn lemma_jmp_indirect_bug(m: Mach, extra: u8)
    requires
        word_le(m.mem, m.pc) & 0xFF == 0xFF,
    ensures
        ({
            let ptr = word_le(m.mem, m.pc);
            spec_resolve(AddrMode::Indirect, m, extra).addr == (mget(m.mem, ptr) as u16) | ((mget(
                m.mem,
                ptr & 0xff00,
            ) as u16) << 8)
        }),
{
}

/// Zero-page indexed addressing wraps inside page zero: the effective
/// address is (base + index) mod 0x100 and never leaves the zero page.
pub proof fn lemma_zero_page_wrap(m: Mach, extra: u8)
    ensures
        spec_resolve(AddrMode::ZeroPageX, m, extra).addr == (mget(m.mem, m.pc) + m.x) % 0x100,
        spec_resolve(AddrMode::ZeroPageX, m, extra).addr < 0x100,
{
    let b = mget(m.mem, m.pc);
    if b + m.x > 0xFF {
        assert(b.wrapping_add(m.x) == b + m.x - 0x100);
        assert((b + m.x) % 0x100 == b + m.x - 0x100);
    } else {
        assert((b + m.x) % 0x100 == b + m.x);
    }
}

/// The halted fast-path machine never moves: running it under any budget
/// returns it unchanged.
pub proof fn lemma_halted_run(m: Mach, t: int, limit: int)
    requires
        m.h != 0,
        t <= limit,
    ensures
        spec_run(m, t, limit) == m,
{
}

/// A fetched JAM opcode halts the fast-path machine and touches nothing
/// else: the registers, the stack pointer, the status and the whole
/// memory image keep the values they had when JAM was decoded.
pub proof fn lemma_jam_halts(m: Mach)
    requires
        spec_decode(mget(m.mem, m.pc)).op is Jam,
    ensures
        spec_step(m).h == 1,
        spec_step(m).a == m.a && spec_step(m).x == m.x && spec_step(m).y == m.y,
        spec_step(m).s == m.s && spec_step(m).p == m.p,
        spec_step(m).mem == m.mem,
{
}

/// The read-modify-write bus sequence of the cycle-accurate machine: an
/// increment or decrement on a memory operand, entered at its process
/// cycle, emits a read of the effective address, then a write of the
/// *unmodified* value, then a write of the result, and only then fetches
/// the next opcode.  The shift and rotate instructions follow the same
/// write-back sequence.
pub proof fn lemma_rmw_dummy_write(m: CaMach)
    requires
        m.state is Process,
        spec_decode(m.execute).op is Inc || spec_decode(m.execute).op is Dec,
        !(m.addr_mode is Implied),
        !(m.addr_mode is Relative),
    ensures
        ({
            let v = mget(m.mem, m.address);
            let res = if spec_decode(m.execute).op is Inc {
                v.wrapping_add(1)
            } else {
                v.wrapping_sub(1)
            };
            let m1 = ca_step(m);
            let m2 = ca_step(m1);
            let m3 = ca_step(m2);
            &&& m1.bus_op == BusOp::Read(m.address)
            &&& m1.mem == m.mem
            &&& m2.bus_op == BusOp::Write(m.address, v)
            &&& m2.mem == m.mem.update(m.address as int, v)
            &&& m3.bus_op == BusOp::Write(m.address, res)
            &&& m3.mem == m2.mem.update(m.address as int, res)
            &&& m3.state is FetchOpCode
        }),
{
}

/// Iterated cycling of the cycle-accurate machine.
pub open spec fn ca_run(m: CaMach, n: nat) -> CaMach
    decreases n,
{
    if n == 0 {
        m
    } else {
        ca_step(ca_run(m, (n - 1) as nat))
    }
}

/// JAM is absorbing: a cycle that decodes JAM halts the machine, and once
/// halted, any number of further cycles leaves every register and the
/// whole memory image exactly as they were.
pub proof fn lemma_halt_absorbing(m: CaMach, n: nat)
    requires
        m.state is Halt,
    ensures
        ca_run(m, n) == m,
    decreases n,
{
    if n > 0 {
        lemma_halt_absorbing(m, (n - 1) as nat);
    }
}

} // verus!
