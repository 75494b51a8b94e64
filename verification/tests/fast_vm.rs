//! End-to-end scenarios on the fast-path engine: documented boundary
//! behaviours, cycle accounting and the concrete flows of the core
//! instruction set.

use effnes::bus::{BasicMemory, InspectBus, MemoryBus};
use effnes::vm::VM;

/// A machine whose reset vector points at `entry`, already cold-reset.
fn vm_at(entry: u16) -> VM<BasicMemory> {
    let mut vm = VM::new(BasicMemory::default_with(0));
    vm.io.write_u8(0xFFFC, (entry & 0xFF) as u8);
    vm.io.write_u8(0xFFFD, (entry >> 8) as u8);
    let cold = vm.reset();
    assert!(cold);
    vm
}

fn load(vm: &mut VM<BasicMemory>, at: u16, bytes: &[u8]) {
    for (i, b) in bytes.iter().enumerate() {
        vm.io.write_u8(at.wrapping_add(i as u16), *b);
    }
}

#[test]
fn cold_reset_state() {
    let vm = vm_at(0x8000);
    assert_eq!(vm.pc, 0x8000);
    assert_eq!(vm.pc, vm.io.peek_u16(0xFFFC));
    assert_eq!(vm.p, 0x36);
    assert!(vm.p & 0x20 != 0, "Reserved set");
    assert!(vm.p & 0x04 != 0, "IntDis set");
    assert_eq!(vm.s, 0xFD);
    assert_eq!(vm.a, 0);
    assert_eq!(vm.x, 0);
    assert_eq!(vm.y, 0);
    assert_eq!(vm.cycles, 0);
    assert_eq!(vm.h, 0);
}

#[test]
fn load_and_transfer() {
    let mut vm = vm_at(0x8000);
    load(&mut vm, 0x8000, &[0xA9, 0x42, 0xAA, 0x00]);
    vm.step_instruction();
    vm.step_instruction();
    vm.step_instruction();
    assert_eq!(vm.a, 0x42);
    assert_eq!(vm.x, 0x42);
    assert_eq!(vm.p & 0x02, 0, "Z clear");
    assert_eq!(vm.p & 0x80, 0, "N clear");
}

#[test]
fn jsr_rts_stack_frame() {
    let mut vm = vm_at(0x8000);
    load(&mut vm, 0x8000, &[0x20, 0x00, 0xC0]);
    vm.io.write_u8(0xC000, 0x60);
    let sp_before = vm.s;
    vm.step_instruction();
    assert_eq!(vm.pc, 0xC000);
    assert_eq!(vm.s, sp_before.wrapping_sub(2));
    vm.step_instruction();
    assert_eq!(vm.pc, 0x8003);
    assert_eq!(vm.s, sp_before);
}

#[test]
fn page_cross_penalty_charges_five_cycles() {
    let mut vm = vm_at(0x8000);
    load(&mut vm, 0x8000, &[0xBD, 0xFF, 0x12]);
    vm.io.write_u8(0x1300, 0x5A);
    vm.x = 1;
    let before = vm.cycles;
    vm.step_instruction();
    assert_eq!(vm.a, 0x5A);
    assert_eq!(vm.cycles - before, 5, "4 base + 1 page-cross");
}

#[test]
fn no_page_cross_charges_four_cycles() {
    let mut vm = vm_at(0x8000);
    load(&mut vm, 0x8000, &[0xBD, 0x00, 0x12]);
    vm.io.write_u8(0x1201, 0x5A);
    vm.x = 1;
    let before = vm.cycles;
    vm.step_instruction();
    assert_eq!(vm.a, 0x5A);
    assert_eq!(vm.cycles - before, 4);
}

#[test]
fn store_indexed_never_pays_the_penalty_cycle() {
    // STA abs,X is not page-cross sensitive: five cycles either way.
    let mut vm = vm_at(0x8000);
    load(&mut vm, 0x8000, &[0x9D, 0xFF, 0x12, 0x9D, 0x00, 0x12]);
    vm.x = 1;
    vm.a = 0x77;
    let before = vm.cycles;
    vm.step_instruction();
    assert_eq!(vm.cycles - before, 5);
    assert_eq!(vm.io.peek_u8(0x1300), 0x77);
    let before = vm.cycles;
    vm.step_instruction();
    assert_eq!(vm.cycles - before, 5);
    assert_eq!(vm.io.peek_u8(0x1201), 0x77);
}

#[test]
fn bit_flag_semantics() {
    let mut vm = vm_at(0x8000);
    load(&mut vm, 0x8000, &[0x24, 0x20]);
    vm.io.write_u8(0x0020, 0xC0);
    vm.a = 0x0F;
    vm.step_instruction();
    assert!(vm.p & 0x80 != 0, "N from operand bit 7");
    assert!(vm.p & 0x40 != 0, "V from operand bit 6");
    assert!(vm.p & 0x02 != 0, "Z because 0x0F AND 0xC0 == 0");
    assert_eq!(vm.a, 0x0F, "accumulator untouched");
}

#[test]
fn zero_page_indexed_wraps() {
    let mut vm = vm_at(0x8000);
    load(&mut vm, 0x8000, &[0xB5, 0xFF]);
    vm.io.write_u8(0x0001, 0x42);
    vm.io.write_u8(0x0101, 0x99);
    vm.x = 2;
    vm.step_instruction();
    assert_eq!(vm.a, 0x42, "reads $01, not $0101");
}

#[test]
fn jmp_indirect_page_wrap_bug() {
    let mut vm = vm_at(0x8000);
    load(&mut vm, 0x8000, &[0x6C, 0xFF, 0x10]);
    vm.io.write_u8(0x10FF, 0x34);
    vm.io.write_u8(0x1100, 0x77);
    vm.io.write_u8(0x1000, 0x12);
    vm.step_instruction();
    assert_eq!(vm.pc, 0x1234, "high byte from $1000, not $1100");
}

#[test]
fn stack_push_wraps_at_page_bottom() {
    let mut vm = vm_at(0x8000);
    vm.s = 0x00;
    vm.stack_push_byte(0xAB);
    assert_eq!(vm.io.peek_u8(0x0100), 0xAB);
    assert_eq!(vm.s, 0xFF);
}

#[test]
fn push_pop_addr_round_trip() {
    let mut vm = vm_at(0x8000);
    for &s in &[0xFDu8, 0x00, 0x01, 0x80] {
        vm.s = s;
        vm.stack_push_addr(0xBEEF);
        let back = vm.stack_pop_addr();
        assert_eq!(back, 0xBEEF);
        assert_eq!(vm.s, s);
    }
}

#[test]
fn sbc_is_adc_of_complement() {
    for &(a, b, c) in &[(0x50u8, 0x10u8, 1u8), (0x00, 0xFF, 0), (0x80, 0x7F, 1), (0x3F, 0x40, 0)] {
        let mut adc = vm_at(0x8000);
        load(&mut adc, 0x8000, &[0x69, b]);
        adc.a = a;
        adc.p = c;
        adc.step_instruction();

        let mut sbc = vm_at(0x8000);
        load(&mut sbc, 0x8000, &[0xE9, !b]);
        sbc.a = a;
        sbc.p = c;
        sbc.step_instruction();

        assert_eq!(adc.a, sbc.a);
        assert_eq!(adc.p, sbc.p);
    }
}

#[test]
fn adc_sets_carry_and_overflow() {
    let mut vm = vm_at(0x8000);
    load(&mut vm, 0x8000, &[0x69, 0x50]);
    vm.a = 0x50;
    vm.step_instruction();
    assert_eq!(vm.a, 0xA0);
    assert_eq!(vm.p & 0x01, 0, "no carry");
    assert!(vm.p & 0x40 != 0, "signed overflow");
    assert!(vm.p & 0x80 != 0, "negative");
}

#[test]
fn taken_branch_lands_at_pc_plus_two_plus_offset() {
    // Forward.
    let mut vm = vm_at(0x8000);
    load(&mut vm, 0x8000, &[0xD0, 0x05]);
    vm.p = vm.p & !0x02;
    vm.step_instruction();
    assert_eq!(vm.pc, 0x8007);

    // Backward.
    let mut vm = vm_at(0x8010);
    load(&mut vm, 0x8010, &[0xD0, 0xFB]);
    vm.p = vm.p & !0x02;
    vm.step_instruction();
    assert_eq!(vm.pc, 0x800D, "0x8012 - 5");
}

#[test]
fn branch_timing() {
    // Not taken: 2 cycles.
    let mut vm = vm_at(0x8000);
    load(&mut vm, 0x8000, &[0xD0, 0x05]);
    vm.p = vm.p | 0x02;
    let before = vm.cycles;
    vm.step_instruction();
    assert_eq!(vm.cycles - before, 2);
    assert_eq!(vm.pc, 0x8002);

    // Taken inside the page: 3 cycles.
    let mut vm = vm_at(0x8000);
    load(&mut vm, 0x8000, &[0xD0, 0x05]);
    vm.p = vm.p & !0x02;
    let before = vm.cycles;
    vm.step_instruction();
    assert_eq!(vm.cycles - before, 3);

    // Taken across a page: 4 cycles.
    let mut vm = vm_at(0x80FD);
    load(&mut vm, 0x80FD, &[0xD0, 0x05]);
    vm.p = vm.p & !0x02;
    let before = vm.cycles;
    vm.step_instruction();
    assert_eq!(vm.cycles - before, 4);
    assert_eq!(vm.pc, 0x8104);
}

#[test]
fn jam_halts_and_run_becomes_a_no_op() {
    let mut vm = vm_at(0x8000);
    load(&mut vm, 0x8000, &[0x02]);
    vm.a = 0x11;
    vm.x = 0x22;
    vm.step_instruction();
    assert_eq!(vm.h, 1);
    let (pc, a, x, s, p, cyc) = (vm.pc, vm.a, vm.x, vm.s, vm.p, vm.cycles);
    vm.run(1000);
    assert_eq!((vm.pc, vm.a, vm.x, vm.s, vm.p, vm.cycles), (pc, a, x, s, p, cyc));
}

#[test]
fn run_executes_until_the_cycle_budget() {
    // Four 2-cycle INX in a row under a budget of 5 cycles: the loop only
    // stops once at least 5 cycles have elapsed, so three execute.
    let mut vm = vm_at(0x8000);
    load(&mut vm, 0x8000, &[0xE8, 0xE8, 0xE8, 0xE8, 0xE8]);
    vm.run(5);
    assert_eq!(vm.x, 3);
    assert_eq!(vm.cycles, 6);
}

#[test]
fn rmw_collapses_to_single_write_with_read_modify_semantics() {
    let mut vm = vm_at(0x8000);
    load(&mut vm, 0x8000, &[0xE6, 0x10]);
    vm.io.write_u8(0x0010, 0x41);
    vm.step_instruction();
    assert_eq!(vm.io.peek_u8(0x0010), 0x42);
    assert_eq!(vm.p & 0x02, 0);
}

#[test]
fn php_plp_round_trip_sets_break_and_reserved_rules() {
    let mut vm = vm_at(0x8000);
    load(&mut vm, 0x8000, &[0x08, 0x28]);
    vm.p = 0xC3;
    vm.step_instruction();
    // PHP pushed p | Break.
    assert_eq!(vm.io.peek_u8(0x0100 | vm.s.wrapping_add(1) as u16), 0xC3 | 0x10);
    vm.step_instruction();
    // PLP cleared Break and set Reserved.
    assert_eq!(vm.p, (0xC3 | 0x20) & !0x10);
}

#[test]
fn brk_pushes_and_enters_the_vector() {
    let mut vm = vm_at(0x8000);
    load(&mut vm, 0x8000, &[0x00]);
    vm.io.write_u8(0xFFFE, 0x00);
    vm.io.write_u8(0xFFFF, 0x90);
    vm.p = 0x20;
    vm.step_instruction();
    assert_eq!(vm.pc, 0x9000);
    assert!(vm.p & 0x04 != 0);
    // Return address 0x8002 (pc + 1 past the padding byte), then p | Break.
    assert_eq!(vm.io.peek_u8(0x01FD), 0x80);
    assert_eq!(vm.io.peek_u8(0x01FC), 0x02);
    assert_eq!(vm.io.peek_u8(0x01FB), 0x20 | 0x10);
}

#[test]
fn irq_honours_the_interrupt_disable_flag() {
    let mut vm = vm_at(0x8000);
    vm.io.write_u8(0xFFFE, 0x34);
    vm.io.write_u8(0xFFFF, 0x12);
    assert!(vm.p & 0x04 != 0);
    vm.irq();
    assert_eq!(vm.pc, 0x8000, "masked while IntDis is set");

    vm.p = 0x20;
    vm.irq();
    assert_eq!(vm.pc, 0x1234);
    assert!(vm.p & 0x04 != 0);
    // Status pushed with Break clear.
    assert_eq!(vm.io.peek_u8(0x0100 | vm.s.wrapping_add(1) as u16), 0x20);
}

#[test]
fn nmi_is_unconditional() {
    let mut vm = vm_at(0x8000);
    vm.io.write_u8(0xFFFA, 0x78);
    vm.io.write_u8(0xFFFB, 0x56);
    assert!(vm.p & 0x04 != 0);
    vm.nmi();
    assert_eq!(vm.pc, 0x5678);
}

#[test]
fn unstable_lxa_uses_the_documented_magic_constant() {
    let mut vm = vm_at(0x8000);
    load(&mut vm, 0x8000, &[0xAB, 0xFF]);
    vm.a = 0x12;
    assert_eq!(vm.magic, 0xFE);
    vm.step_instruction();
    assert_eq!(vm.a, (0x12 | 0xFE) & 0xFF);
    assert_eq!(vm.x, vm.a);
}

#[test]
fn unstable_ane_uses_the_documented_magic_constant() {
    let mut vm = vm_at(0x8000);
    load(&mut vm, 0x8000, &[0x8B, 0xF7]);
    vm.a = 0xFF;
    vm.x = 0x3C;
    vm.step_instruction();
    assert_eq!(vm.a, 0xFF & (0xFE & 0x3C & 0xF7));
}

#[test]
fn illegal_lax_loads_both_registers() {
    let mut vm = vm_at(0x8000);
    load(&mut vm, 0x8000, &[0xA7, 0x10]);
    vm.io.write_u8(0x0010, 0x80);
    vm.step_instruction();
    assert_eq!(vm.a, 0x80);
    assert_eq!(vm.x, 0x80);
    assert!(vm.p & 0x80 != 0);
}

#[test]
fn illegal_dcp_decrements_then_compares() {
    let mut vm = vm_at(0x8000);
    load(&mut vm, 0x8000, &[0xC7, 0x10]);
    vm.io.write_u8(0x0010, 0x43);
    vm.a = 0x42;
    vm.step_instruction();
    assert_eq!(vm.io.peek_u8(0x0010), 0x42);
    assert!(vm.p & 0x01 != 0, "carry: a >= operand");
    assert!(vm.p & 0x02 != 0, "zero: a == operand");
}

#[test]
fn compare_sets_carry_iff_register_not_below_operand() {
    for &(a, v) in &[(0x10u8, 0x0Fu8), (0x10, 0x10), (0x10, 0x11)] {
        let mut vm = vm_at(0x8000);
        load(&mut vm, 0x8000, &[0xC9, v]);
        vm.a = a;
        vm.step_instruction();
        assert_eq!(vm.p & 0x01 != 0, a >= v);
        assert_eq!(vm.p & 0x02 != 0, a == v);
    }
}

#[test]
fn asl_accumulator_and_memory() {
    let mut vm = vm_at(0x8000);
    load(&mut vm, 0x8000, &[0x0A, 0x06, 0x10]);
    vm.a = 0xC1;
    vm.io.write_u8(0x0010, 0x40);
    vm.step_instruction();
    assert_eq!(vm.a, 0x82);
    assert!(vm.p & 0x01 != 0, "carry out of bit 7");
    vm.step_instruction();
    assert_eq!(vm.io.peek_u8(0x0010), 0x80);
}

#[test]
fn brk_rti_round_trip_restores_status_rules() {
    let mut vm = vm_at(0x8000);
    load(&mut vm, 0x8000, &[0x00]);
    vm.io.write_u8(0xFFFE, 0x00);
    vm.io.write_u8(0xFFFF, 0x90);
    vm.io.write_u8(0x9000, 0x40);
    vm.p = 0xC1;
    vm.step_instruction();
    assert_eq!(vm.pc, 0x9000);
    vm.step_instruction();
    assert_eq!(vm.pc, 0x8002, "BRK pushed pc + 1");
    // The popped status has Break cleared and Reserved set; the IntDis
    // that BRK raised was not part of the pushed byte.
    assert_eq!(vm.p, (0xC1 | 0x20) & !0x10);
    assert_eq!(vm.s, 0xFD);
}

#[test]
fn unstable_sha_absolute_y_stores_the_masked_byte() {
    let mut vm = vm_at(0x8000);
    load(&mut vm, 0x8000, &[0x9F, 0x00, 0x20]);
    vm.a = 0xFF;
    vm.x = 0x3C;
    vm.y = 0x05;
    vm.step_instruction();
    // a AND x AND (high byte of the fetched address + 1).
    assert_eq!(vm.io.peek_u8(0x2005), 0xFF & 0x3C & 0x21);
    assert_eq!(vm.h, 0);
}

#[test]
fn unstable_sha_indirect_indexed_is_a_halting_fault() {
    let mut vm = vm_at(0x8000);
    load(&mut vm, 0x8000, &[0x93, 0x20]);
    let before = vm.cycles;
    vm.step_instruction();
    assert_eq!(vm.h, 1, "the operand byte cannot be reconstructed");
    assert_eq!(vm.cycles, before, "the aborted instruction charges nothing");
}

#[test]
fn las_mirrors_the_masked_stack_pointer() {
    let mut vm = vm_at(0x8000);
    load(&mut vm, 0x8000, &[0xBB, 0x00, 0x20]);
    vm.io.write_u8(0x2000, 0x0F);
    vm.s = 0x35;
    vm.step_instruction();
    assert_eq!(vm.s, 0x05);
    assert_eq!(vm.a, 0x05);
    assert_eq!(vm.x, 0x05);
}

#[test]
fn indexed_indirect_reads_through_the_zero_page_pointer() {
    let mut vm = vm_at(0x8000);
    load(&mut vm, 0x8000, &[0xA1, 0x20]);
    vm.x = 0x04;
    vm.io.write_u8(0x0024, 0x34);
    vm.io.write_u8(0x0025, 0x12);
    vm.io.write_u8(0x1234, 0x99);
    vm.step_instruction();
    assert_eq!(vm.a, 0x99);

    // The pointer itself wraps inside page zero.
    let mut vm = vm_at(0x8000);
    load(&mut vm, 0x8000, &[0xA1, 0xFB]);
    vm.x = 0x04;
    vm.io.write_u8(0x00FF, 0x34);
    vm.io.write_u8(0x0000, 0x12);
    vm.io.write_u8(0x1234, 0x77);
    vm.step_instruction();
    assert_eq!(vm.a, 0x77, "high pointer byte from $00, not $0100");
}

#[test]
fn indirect_indexed_pays_the_penalty_on_crossing() {
    let mut vm = vm_at(0x8000);
    load(&mut vm, 0x8000, &[0xB1, 0x20]);
    vm.io.write_u8(0x0020, 0xFF);
    vm.io.write_u8(0x0021, 0x12);
    vm.io.write_u8(0x1300, 0x5A);
    vm.y = 1;
    let before = vm.cycles;
    vm.step_instruction();
    assert_eq!(vm.a, 0x5A);
    assert_eq!(vm.cycles - before, 6, "5 base + 1 page-cross");

    let mut vm = vm_at(0x8000);
    load(&mut vm, 0x8000, &[0xB1, 0x20]);
    vm.io.write_u8(0x0020, 0x00);
    vm.io.write_u8(0x0021, 0x12);
    vm.io.write_u8(0x1201, 0x5A);
    vm.y = 1;
    let before = vm.cycles;
    vm.step_instruction();
    assert_eq!(vm.a, 0x5A);
    assert_eq!(vm.cycles - before, 5);
}
