//! Both engines share one contract: over a program of arithmetic, loads
//! and stores, the fast path and the cycle-accurate machine produce the
//! same register trajectory at every instruction boundary.

use effnes::bus::{BasicMemory, InspectBus, MemoryBus};
use effnes::cycle_model::State;

const PROGRAM: [u8; 14] = [
    0xA9, 0x01, // LDA #$01
    0x69, 0x7F, // ADC #$7F
    0xAA, // TAX
    0xC8, // INY
    0xC9, 0x80, // CMP #$80
    0xE9, 0x01, // SBC #$01
    0xA2, 0x05, // LDX #$05
    0x85, 0x10, // STA $10
];

#[test]
fn fast_and_cycle_accurate_agree_at_instruction_boundaries() {
    let mut fast = effnes::vm::VM::new(BasicMemory::default_with(0));
    let mut ca = effnes::cycle::VM::new(BasicMemory::default_with(0));
    for (i, b) in PROGRAM.iter().enumerate() {
        fast.io.write_u8(0x8000 + i as u16, *b);
        ca.io.write_u8(0x8000 + i as u16, *b);
    }
    fast.pc = 0x8000;
    fast.p = 0x36;
    ca.r_pc = 0x8000;
    ca.r_ps = 0x36;

    for _ in 0..8 {
        fast.step_instruction();
        loop {
            ca.cycle();
            if ca.next_state == State::FetchOpCode {
                break;
            }
        }
        assert_eq!(fast.a, ca.r_ac);
        assert_eq!(fast.x, ca.r_ix);
        assert_eq!(fast.y, ca.r_iy);
        assert_eq!(fast.p, ca.r_ps);
        assert_eq!(fast.pc, ca.r_pc, "both engines expose the architectural pc");
    }
    assert_eq!(fast.io.peek_u8(0x0010), ca.io.peek_u8(0x0010));
    assert_eq!(fast.io.peek_u8(0x0010), fast.a);
}
