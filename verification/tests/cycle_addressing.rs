//! Cycle-by-cycle addressing-mode tests of the cycle-accurate engine:
//! every cycle's program counter, internal state and effective address is
//! checked against the hardware sequence.

use effnes::addr::{AddressingMode, IndexRegister};
use effnes::bus::{BasicMemory, MemoryBus};
use effnes::cycle::VM;
use effnes::cycle_model::{AddressResolverState, State};

const NOP_IMP: u8 = 0xEA;
const LDA_IMM: u8 = 0xA9;
const LDA_ZPG: u8 = 0xA5;
const LDA_ZPX: u8 = 0xB5;
const LDA_ABS: u8 = 0xAD;
const LDA_ABX: u8 = 0xBD;
const LDA_ABY: u8 = 0xB9;
const LDX_ZPY: u8 = 0xB6;
const JAM: u8 = 0x02;

fn get_vm() -> VM<BasicMemory> {
    let mut vm = VM::new(BasicMemory::default_with(JAM));
    vm.r_pc = 0xF001;
    vm
}

fn assert_next_instr_is_nop(vm: &mut VM<BasicMemory>) {
    let pc = vm.r_pc;
    vm.cycle();
    assert_eq!(vm.i_tm, 0);
    assert_eq!(vm.r_pc, pc + 1);
    assert_eq!(vm.execute, NOP_IMP);
    assert_eq!(vm.addr_mode, AddressingMode::Implied);
    assert_eq!(vm.next_state, State::Process);
    vm.cycle();
    assert_eq!(vm.i_tm, 1);
    assert_eq!(vm.next_state, State::FetchOpCode);
}

fn run_imm_addressing() {
    for data in 0..=255u8 {
        let mut vm = get_vm();
        vm.io.write_u8(vm.r_pc, LDA_IMM);
        vm.io.write_u8(vm.r_pc.wrapping_add(1), data);
        vm.io.write_u8(vm.r_pc.wrapping_add(2), NOP_IMP);

        let pc = vm.r_pc;
        vm.cycle();
        assert_eq!(vm.i_tm, 0);
        assert_eq!(vm.r_pc, pc + 1);
        assert_eq!(vm.address, pc + 1);
        assert_eq!(vm.execute, LDA_IMM);
        assert_eq!(vm.addr_mode, AddressingMode::Immediate);
        assert_eq!(vm.next_state, State::Process);

        vm.cycle();
        assert_eq!(vm.i_tm, 1);
        assert_eq!(vm.r_ac, data);
        assert_eq!(vm.next_state, State::FetchOpCode);

        assert_next_instr_is_nop(&mut vm);
    }
}

fn run_zp_addressing() {
    for data in 0..=255u8 {
        let mut vm = get_vm();
        vm.io.write_u8(vm.r_pc, LDA_ZPG);
        vm.io.write_u8(vm.r_pc.wrapping_add(1), data);
        vm.io.write_u8(vm.r_pc.wrapping_add(2), NOP_IMP);
        vm.io.write_u8(data as u16, data ^ 0xFF);

        let pc = vm.r_pc;
        vm.cycle();
        assert_eq!(vm.i_tm, 0);
        assert_eq!(vm.r_pc, pc + 1);
        assert_eq!(vm.execute, LDA_ZPG);
        assert_eq!(vm.addr_mode, AddressingMode::ZeroPage);
        assert_eq!(
            vm.next_state,
            State::ResolveAddress(AddressResolverState::FetchOperand)
        );

        vm.cycle();
        assert_eq!(vm.i_tm, 1);
        assert_eq!(vm.next_state, State::Process);
        assert_eq!(vm.address, data as u16);

        vm.cycle();
        assert_eq!(vm.i_tm, 2);
        assert_eq!(vm.next_state, State::FetchOpCode);
        assert_eq!(vm.r_ac, data ^ 0xFF);

        assert_next_instr_is_nop(&mut vm);
    }
}

fn run_zpi_addressing(opcode: u8, index_is_x: bool) {
    let mut vm = get_vm();
    for zpaddr in 0..255u8 {
        for index in 0..255u8 {
            let pc = vm.r_pc;
            let data = zpaddr;

            vm.io.write_u8(pc, opcode);
            vm.io.write_u8(pc.wrapping_add(1), zpaddr);
            vm.io.write_u8(pc.wrapping_add(2), NOP_IMP);
            vm.io.write_u8(zpaddr.wrapping_add(index) as u16, data);
            if index_is_x {
                vm.r_ix = index;
            } else {
                vm.r_iy = index;
            }

            vm.cycle();
            assert_eq!(vm.i_tm, 0);
            assert_eq!(vm.r_pc, pc.wrapping_add(1));
            assert_eq!(vm.execute, opcode);
            assert_eq!(
                vm.addr_mode,
                AddressingMode::ZeroPageI(if index_is_x {
                    IndexRegister::X
                } else {
                    IndexRegister::Y
                })
            );
            assert_eq!(
                vm.next_state,
                State::ResolveAddress(AddressResolverState::FetchOperand)
            );

            vm.cycle();
            assert_eq!(vm.i_tm, 1);
            assert_eq!(
                vm.next_state,
                State::ResolveAddress(AddressResolverState::IndZPDummyRead)
            );
            assert_eq!(vm.address, zpaddr as u16);

            vm.cycle();
            assert_eq!(vm.i_tm, 2);
            assert_eq!(
                vm.next_state,
                State::ResolveAddress(AddressResolverState::ZeroPageAddIndexRegister)
            );

            vm.cycle();
            assert_eq!(vm.i_tm, 3);
            assert_eq!(vm.next_state, State::Process);
            assert_eq!(vm.address, zpaddr.wrapping_add(index) as u16);

            vm.cycle();
            assert_eq!(vm.i_tm, 4);
            assert_eq!(vm.next_state, State::FetchOpCode);
            if index_is_x {
                assert_eq!(vm.r_ac, data);
            } else {
                assert_eq!(vm.r_ix, zpaddr);
            }

            assert_next_instr_is_nop(&mut vm);
            vm.io.write_u8(pc, JAM);
            vm.io.write_u8(pc.wrapping_add(1), JAM);
            vm.io.write_u8(pc.wrapping_add(2), JAM);
            vm.io.write_u8(zpaddr.wrapping_add(index) as u16, JAM);
            vm.r_ix = 0;
            vm.r_iy = 0;
            vm.r_pc = 0xF001;
        }
    }
}

fn run_abs_addressing(last: u16) {
    let mut vm = get_vm();
    for lpaddr in 0..=last {
        let pc = vm.r_pc;
        let opcode = LDA_ABS;
        let addr = 0xFF00u16.wrapping_add(lpaddr);

        vm.io.write_u8(pc, opcode);
        vm.io.write_u8(pc.wrapping_add(1), (addr & 0x00FF) as u8);
        vm.io.write_u8(pc.wrapping_add(2), ((addr & 0xFF00) >> 8) as u8);
        vm.io.write_u8(pc.wrapping_add(3), NOP_IMP);
        vm.io.write_u8(addr, lpaddr as u8);

        vm.cycle();
        assert_eq!(vm.i_tm, 0);
        assert_eq!(vm.r_pc, pc + 1);
        assert_eq!(vm.execute, opcode);
        assert_eq!(vm.addr_mode, AddressingMode::Absolute);
        assert_eq!(
            vm.next_state,
            State::ResolveAddress(AddressResolverState::FetchAddress { high_byte: false })
        );

        vm.cycle();
        assert_eq!(vm.i_tm, 1);
        assert_eq!(vm.r_pc, pc + 2);
        assert_eq!(
            vm.next_state,
            State::ResolveAddress(AddressResolverState::FetchAddress { high_byte: true })
        );
        assert_eq!(vm.address, addr & 0x00FF);

        vm.cycle();
        assert_eq!(vm.i_tm, 2);
        assert_eq!(vm.next_state, State::Process);
        assert_eq!(vm.address, addr);

        vm.cycle();
        assert_eq!(vm.i_tm, 3);
        assert_eq!(vm.next_state, State::FetchOpCode);
        assert_eq!(vm.r_ac, lpaddr as u8);

        assert_next_instr_is_nop(&mut vm);
        vm.io.write_u8(pc, JAM);
        vm.io.write_u8(pc.wrapping_add(1), JAM);
        vm.io.write_u8(pc.wrapping_add(2), JAM);
        vm.io.write_u8(pc.wrapping_add(3), JAM);
        vm.io.write_u8(addr, JAM);
        vm.r_pc = 0xF001;
    }
}

fn run_abi_addressing(opcode: u8, index_is_x: bool) {
    let mut vm = get_vm();
    for lpaddr in 0..512u16 {
        for index in 0..=255u8 {
            let pc = vm.r_pc;
            let addr = 0xFF00u16.wrapping_add(lpaddr);

            vm.io.write_u8(pc, opcode);
            vm.io.write_u8(pc.wrapping_add(1), (addr & 0x00FF) as u8);
            vm.io.write_u8(pc.wrapping_add(2), ((addr & 0xFF00) >> 8) as u8);
            vm.io.write_u8(pc.wrapping_add(3), NOP_IMP);
            vm.io.write_u8(addr.wrapping_add(index.into()), lpaddr as u8);

            let index_register = if index_is_x {
                vm.r_ix = index;
                IndexRegister::X
            } else {
                vm.r_iy = index;
                IndexRegister::Y
            };

            vm.cycle();
            assert_eq!(vm.i_tm, 0);
            assert_eq!(vm.r_pc, pc.wrapping_add(1));
            assert_eq!(vm.execute, opcode);
            assert_eq!(vm.addr_mode, AddressingMode::AbsoluteI(index_register));
            assert_eq!(
                vm.next_state,
                State::ResolveAddress(AddressResolverState::FetchAddress { high_byte: false })
            );

            vm.cycle();
            assert_eq!(vm.i_tm, 1);
            assert_eq!(vm.r_pc, pc.wrapping_add(2));
            assert_eq!(
                vm.next_state,
                State::ResolveAddress(AddressResolverState::FetchAddress { high_byte: true })
            );
            assert_eq!(vm.address, addr & 0x00FF);

            vm.cycle();
            assert_eq!(vm.i_tm, 2);
            assert_eq!(
                vm.next_state,
                State::ResolveAddress(AddressResolverState::AddIndexRegister {
                    index_register,
                    bump_page: false
                })
            );
            assert_eq!(vm.address, addr);

            let mut t: u8 = 3;
            if ((addr & 0x00FF) as u8).wrapping_add(index) < index {
                vm.cycle();
                assert_eq!(vm.i_tm, t);
                assert_eq!(
                    vm.next_state,
                    State::ResolveAddress(AddressResolverState::AddIndexRegister {
                        index_register,
                        bump_page: true
                    })
                );
                assert_eq!(
                    vm.address,
                    (addr & 0xFF00) + (addr as u8).wrapping_add(index) as u16
                );
                t += 1;
            }

            vm.cycle();
            assert_eq!(vm.i_tm, t);
            assert_eq!(vm.next_state, State::Process);
            assert_eq!(vm.address, addr.wrapping_add(index.into()));

            vm.cycle();
            assert_eq!(vm.i_tm, t + 1);
            assert_eq!(vm.next_state, State::FetchOpCode);
            assert_eq!(vm.r_ac, lpaddr as u8);

            assert_next_instr_is_nop(&mut vm);
            vm.io.write_u8(pc, JAM);
            vm.io.write_u8(pc.wrapping_add(1), JAM);
            vm.io.write_u8(pc.wrapping_add(2), JAM);
            vm.io.write_u8(pc.wrapping_add(3), JAM);
            vm.io.write_u8(addr, JAM);
            vm.io.write_u8(addr.wrapping_add(index.into()), JAM);
            vm.r_ix = 0;
            vm.r_iy = 0;
            vm.r_pc = 0xF001;
        }
    }
}

#[test]
fn vm_test_imm_addressing() {
    run_imm_addressing();
}

#[test]
fn vm_test_zp_addressing() {
    run_zp_addressing();
}

#[test]
fn vm_test_zpx_addressing() {
    run_zpi_addressing(LDA_ZPX, true);
}

#[test]
fn vm_test_zpy_addressing() {
    run_zpi_addressing(LDX_ZPY, false);
}

#[test]
fn vm_test_abs_addressing() {
    run_abs_addressing(512);
}

#[test]
fn tests_test_imm_addressing() {
    run_imm_addressing();
}

#[test]
fn tests_test_zp_addressing() {
    run_zp_addressing();
}

#[test]
fn tests_test_zpx_addressing() {
    run_zpi_addressing(LDA_ZPX, true);
}

#[test]
fn tests_test_zpy_addressing() {
    run_zpi_addressing(LDX_ZPY, false);
}

#[test]
fn tests_test_abs_addressing() {
    run_abs_addressing(511);
}

#[test]
fn test_abx_addressing() {
    run_abi_addressing(LDA_ABX, true);
}

#[test]
fn test_aby_addressing() {
    run_abi_addressing(LDA_ABY, false);
}
