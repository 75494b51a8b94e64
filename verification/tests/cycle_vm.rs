//! Bus-level scenarios on the cycle-accurate engine: the dummy write of
//! read-modify-write instructions, the absorbing halt, and the reset
//! entry points.

use effnes::bus::{BasicMemory, InspectBus, MemoryBus};
use effnes::cycle::VM;
use effnes::cycle_model::{BusOp, State};
use effnes::inspect::InspectCpu;

fn get_vm() -> VM<BasicMemory> {
    let mut vm = VM::new(BasicMemory::default_with(0x02));
    vm.r_pc = 0xF001;
    vm
}

#[test]
fn rmw_emits_read_then_dummy_write_then_final_write() {
    let mut vm = get_vm();
    // INC $00 with 0x41 at $00.
    vm.io.write_u8(0xF001, 0xE6);
    vm.io.write_u8(0xF002, 0x00);
    vm.io.write_u8(0x0000, 0x41);

    vm.cycle();
    assert_eq!(vm.bus_op, BusOp::Read(0xF001), "opcode fetch");
    vm.cycle();
    assert_eq!(vm.bus_op, BusOp::Read(0xF002), "zero-page operand fetch");
    vm.cycle();
    assert_eq!(vm.bus_op, BusOp::Read(0x0000), "operand read");
    assert_eq!(vm.next_state, State::Write { dummy: true, data: 0x41 });
    vm.cycle();
    assert_eq!(vm.bus_op, BusOp::Write(0x0000, 0x41), "dummy write of the unmodified value");
    assert_eq!(vm.io.peek_u8(0x0000), 0x41);
    vm.cycle();
    assert_eq!(vm.bus_op, BusOp::Write(0x0000, 0x42), "final write of the incremented value");
    assert_eq!(vm.io.peek_u8(0x0000), 0x42);
    assert_eq!(vm.next_state, State::FetchOpCode);
}

#[test]
fn store_performs_no_operand_read() {
    let mut vm = get_vm();
    // STA $10 with the accumulator loaded first.
    vm.io.write_u8(0xF001, 0xA9);
    vm.io.write_u8(0xF002, 0x77);
    vm.io.write_u8(0xF003, 0x85);
    vm.io.write_u8(0xF004, 0x10);
    vm.cycle();
    vm.cycle();
    assert_eq!(vm.r_ac, 0x77);
    vm.cycle();
    vm.cycle();
    assert_eq!(vm.next_state, State::Process);
    vm.cycle();
    assert_eq!(vm.bus_op, BusOp::Write(0x0010, 0x77), "the store cycle only writes");
    assert_eq!(vm.io.peek_u8(0x0010), 0x77);
}

#[test]
fn jam_is_absorbing() {
    let mut vm = get_vm();
    vm.r_ac = 0x11;
    vm.r_ix = 0x22;
    vm.r_iy = 0x33;
    // The whole image is 0x02 (JAM): fetch, then halt at the process cycle.
    vm.cycle();
    vm.cycle();
    assert_eq!(vm.next_state, State::Halt);
    let snapshot = (vm.r_pc, vm.r_sp, vm.r_ac, vm.r_ix, vm.r_iy, vm.r_ps, vm.cycles);
    for _ in 0..100 {
        vm.cycle();
        assert_eq!(
            (vm.r_pc, vm.r_sp, vm.r_ac, vm.r_ix, vm.r_iy, vm.r_ps, vm.cycles),
            snapshot
        );
        assert_eq!(vm.next_state, State::Halt);
    }
}

#[test]
fn cold_reset_reads_the_reset_vector() {
    let mut vm = get_vm();
    vm.io.write_u8(0xFFFC, 0x00);
    vm.io.write_u8(0xFFFD, 0x80);
    vm.io.write_u8(0x8000, 0xA9);
    vm.io.write_u8(0x8001, 0x42);
    vm.cold_reset();
    assert_eq!(vm.r_pc, 0x8000, "the entry point read from the reset vector");
    assert_eq!(vm.r_sp, 0xFD);
    assert_eq!(vm.r_ps, 0x36);
    assert_eq!(vm.cycles, 0);
    // The next fetch consumes the opcode at the vector target.
    vm.cycle();
    assert_eq!(vm.execute, 0xA9);
    vm.cycle();
    assert_eq!(vm.r_ac, 0x42);
}

#[test]
fn warm_reset_keeps_registers() {
    let mut vm = get_vm();
    vm.r_ac = 0x42;
    vm.r_ix = 0x11;
    vm.r_iy = 0x22;
    vm.r_sp = 0x02;
    vm.r_pc = 0x1234;
    vm.warm_reset();
    assert_eq!(vm.r_ac, 0x42);
    assert_eq!(vm.r_ix, 0x11);
    assert_eq!(vm.r_iy, 0x22);
    assert_eq!(vm.r_pc, 0x1234);
    assert_eq!(vm.r_sp, 0xFF, "0x02 - 3 with page wrap");
    assert!(vm.r_ps & 0x04 != 0, "IntDis set");
    assert_eq!(vm.next_state, State::FetchOpCode);
}

#[test]
fn taken_branch_reaches_the_relative_target() {
    let mut vm = get_vm();
    // SEC; BCS +4; the skipped bytes; LDA #$55 at the target.
    vm.io.write_u8(0xF001, 0x38);
    vm.io.write_u8(0xF002, 0xB0);
    vm.io.write_u8(0xF003, 0x04);
    vm.io.write_u8(0xF008, 0xA9);
    vm.io.write_u8(0xF009, 0x55);
    vm.cycle();
    vm.cycle();
    assert!(vm.r_ps & 0x01 != 0);
    vm.cycle();
    vm.cycle();
    assert_eq!(vm.next_state, State::Process);
    vm.cycle();
    // Branch target = 0xF002 + 2 + 4 = 0xF008, and the taken branch owes
    // one penalty cycle (no page was crossed).
    assert_eq!(vm.r_pc, 0xF008);
    assert_eq!(vm.next_state, State::BranchPenalty { page_cross: false });
    vm.cycle();
    assert_eq!(vm.next_state, State::FetchOpCode);
    vm.cycle();
    assert_eq!(vm.execute, 0xA9);
    vm.cycle();
    assert_eq!(vm.r_ac, 0x55);
}

#[test]
fn branch_cycle_counts() {
    // Not taken: 3 cycles to the next fetch.
    let mut vm = get_vm();
    vm.io.write_u8(0xF001, 0x90);
    vm.io.write_u8(0xF002, 0x04);
    let mut run_one = |vm: &mut VM<BasicMemory>| {
        let before = vm.cycles;
        loop {
            vm.cycle();
            if vm.next_state == State::FetchOpCode {
                break;
            }
        }
        vm.cycles - before
    };
    vm.r_ps = 0x01;
    assert_eq!(run_one(&mut vm), 3, "BCC not taken while carry is set");

    // Taken inside the page: one extra cycle.
    let mut vm = get_vm();
    vm.io.write_u8(0xF001, 0xB0);
    vm.io.write_u8(0xF002, 0x04);
    vm.r_ps = 0x01;
    assert_eq!(run_one(&mut vm), 4, "taken BCS pays one penalty cycle");
    assert_eq!(vm.r_pc, 0xF007);

    // Taken across a page: two extra cycles.
    let mut vm = get_vm();
    vm.r_pc = 0xF0FA;
    vm.io.write_u8(0xF0FA, 0xB0);
    vm.io.write_u8(0xF0FB, 0x10);
    vm.r_ps = 0x01;
    assert_eq!(run_one(&mut vm), 5, "page crossing pays a second penalty cycle");
    assert_eq!(vm.r_pc, 0xF10C);
}

#[test]
fn shift_on_accumulator_stays_in_process() {
    let mut vm = get_vm();
    vm.io.write_u8(0xF001, 0x0A);
    vm.r_ac = 0xC1;
    vm.cycle();
    vm.cycle();
    assert_eq!(vm.r_ac, 0x82);
    assert!(vm.r_ps & 0x01 != 0);
    assert_eq!(vm.next_state, State::FetchOpCode, "no write-back cycles");
}

#[test]
fn unmodelled_instruction_reports_a_halting_fault() {
    let mut vm = get_vm();
    // PHA: the stack micro-states are not modelled by this engine.
    vm.io.write_u8(0xF001, 0x48);
    vm.cycle();
    vm.cycle();
    assert_eq!(vm.next_state, State::Halt);
}

#[test]
fn inspect_snapshot_reflects_the_register_file() {
    let mut vm = get_vm();
    vm.r_ac = 0x12;
    vm.r_ix = 0x34;
    vm.r_iy = 0x56;
    vm.r_sp = 0x78;
    assert!(vm.is_cycle_accurate());
    let s = vm.state();
    assert_eq!(s.pc, 0xF001);
    assert_eq!(s.ac, 0x12);
    assert_eq!(s.ix, 0x34);
    assert_eq!(s.iy, 0x56);
    assert_eq!(s.sp, 0x78);
    assert_eq!(s.cc, 0);
}

#[test]
fn indirect_indexed_resolution_reads_the_pointer() {
    let mut vm = get_vm();
    // LDA ($20),Y with Y = 3, pointer $20 -> $1234, data at $1237.
    vm.io.write_u8(0xF001, 0xB1);
    vm.io.write_u8(0xF002, 0x20);
    vm.io.write_u8(0x0020, 0x34);
    vm.io.write_u8(0x0021, 0x12);
    vm.io.write_u8(0x1237, 0x99);
    vm.r_iy = 3;
    vm.cycle();
    vm.cycle();
    assert_eq!(vm.bus_op, BusOp::Read(0xF002));
    vm.cycle();
    assert_eq!(vm.bus_op, BusOp::Read(0x0020));
    vm.cycle();
    assert_eq!(vm.bus_op, BusOp::Read(0x0021));
    vm.cycle();
    assert_eq!(vm.address, 0x1237);
    assert_eq!(vm.next_state, State::Process);
    vm.cycle();
    assert_eq!(vm.r_ac, 0x99);
}
