#![allow(non_snake_case)]
use nes_rs::bus::{Bus65k, Mem};
use nes_rs::cpu::CPU;
use nes_rs::cpu::addressing_mode::{AddressingMode, Load, Store};
use nes_rs::cpu::opcodes::OpCode;

fn new_cpu() -> CPU {
    CPU::new_with_bus(Bus65k::new())
}

#[test]
fn CPU_test_5_ops_working_together() {
    let mut cpu = new_cpu();
    cpu.load_and_run(&vec![0xa9, 0xc0, 0xaa, 0xe8, 0x00], 0x8000);
    assert_eq!(cpu.register_x, 0xc1);
}

#[test]
fn CPU_test_inx_overflow() {
    let mut cpu = new_cpu();
    cpu.load(&vec![0xe8, 0xe8, 0x00], 0x8000);
    cpu.reset();
    cpu.register_x = 0xff;
    cpu.run();
    assert_eq!(cpu.register_x, 1);
}

#[test]
fn CPU_test_tax() {
    let mut cpu = new_cpu();
    cpu.load(&vec![0xaa, 0x00], 0x8000);
    cpu.reset();
    cpu.register_a = 10;
    cpu.run();
    assert_eq!(cpu.register_x, 10);
}

#[test]
fn cpu_test_5_ops_working_together() {
    let mut cpu = new_cpu();
    cpu.load_and_run(&vec![0xa9, 0xc0, 0xaa, 0xe8, 0x00], 0x8000);
    assert_eq!(cpu.register_x, 0xc1);
}

#[test]
fn cpu_test_inx_overflow() {
    let mut cpu = new_cpu();
    cpu.load(&vec![0xe8, 0xe8, 0x00], 0x8000);
    cpu.reset();
    cpu.register_x = 0xff;
    cpu.run();
    assert_eq!(cpu.register_x, 1);
}

#[test]
fn cpu_test_tax() {
    let mut cpu = new_cpu();
    cpu.load(&vec![0xaa, 0x00], 0x8000);
    cpu.reset();
    cpu.register_a = 10;
    cpu.run();
    assert_eq!(cpu.register_x, 10);
}

#[test]
fn cpu_test_lda_from_memory() {
    let mut cpu = new_cpu();
    cpu.mem_write(0x10, 0x55);
    cpu.load_and_run(&vec![0xa5, 0x10, 0x00], 0x8000);
    assert_eq!(cpu.register_a, 0x55);
}

#[test]
fn cpu_test_sta_to_memory() {
    let mut cpu = new_cpu();
    cpu.mem_write(0x10, 0x55);
    cpu.load_and_run(&vec![0xA9, 0xFE, 0x85, 0x56, 0x00], 0x8000);
    assert_eq!(cpu.mem_read(0x56), 0xFE);
}

#[test]
fn stack_push_then_pull_returns_value() {
    let mut cpu = new_cpu();
    cpu.reset();
    cpu.push(0x42);
    cpu.push_u16(0xBEEF);
    assert_eq!(cpu.pull_u16(), 0xBEEF);
    assert_eq!(cpu.pull(), 0x42);
}

#[test]
fn run_with_callback_sees_every_instruction() {
    let mut cpu = new_cpu();
    cpu.load(&vec![0xa9, 0x05, 0xaa, 0xe8, 0x00], 0x8000);
    cpu.reset();
    let mut seen = Vec::new();
    cpu.run_with_callback(|c: &mut CPU| seen.push(c.program_counter));
    assert_eq!(seen, vec![0x8000, 0x8002, 0x8003, 0x8004]);
    assert_eq!(cpu.register_x, 6);
}

#[test]
fn run_with_callback_can_change_the_cpu() {
    let mut cpu = new_cpu();
    cpu.load(&vec![0xe8, 0x00], 0x8000);
    cpu.reset();
    cpu.run_with_callback(|c: &mut CPU| c.register_x = 0x41);
    assert_eq!(cpu.register_x, 0x41);
}

fn cpu_with_operand(bytes: &[u8]) -> CPU {
    let mut cpu = new_cpu();
    cpu.load(bytes, 0x8000);
    cpu.reset();
    cpu
}

#[test]
fn operand_address_reports_dummy_reads_and_page_crossings() {
    // zero page indexed: always a dummy read, never a page crossing
    let mut cpu = cpu_with_operand(&[0xB5, 0x10, 0x00]);
    cpu.register_x = 2;
    assert_eq!(AddressingMode::ZeroPage_X.get_operand_address::<Load>(&mut cpu), Some((0x12, true, false)));

    // absolute indexed without a crossing: a dummy read only for stores
    let mut cpu = cpu_with_operand(&[0xBD, 0x10, 0x80, 0x00]);
    cpu.register_x = 1;
    assert_eq!(AddressingMode::Absolute_X.get_operand_address::<Load>(&mut cpu), Some((0x8011, false, false)));
    assert_eq!(AddressingMode::Absolute_X.get_operand_address::<Store>(&mut cpu), Some((0x8011, true, false)));
    assert_eq!(cpu.additional_cycles, 0);

    // a crossing costs a cycle when the instruction's table entry says so (LDA abs,X does)
    let mut cpu = cpu_with_operand(&[0xBD, 0xFF, 0x80, 0x00]);
    cpu.register_x = 1;
    cpu.current_instruction = OpCode::from_code(0xBD);
    assert_eq!(AddressingMode::Absolute_X.get_operand_address::<Load>(&mut cpu), Some((0x8100, true, true)));
    assert_eq!(cpu.additional_cycles, 1);

    // STA abs,X does not take the extra cycle
    cpu.additional_cycles = 0;
    cpu.current_instruction = OpCode::from_code(0x9D);
    assert_eq!(AddressingMode::Absolute_X.get_operand_address::<Store>(&mut cpu), Some((0x8100, true, true)));
    assert_eq!(cpu.additional_cycles, 0);

    assert_eq!(AddressingMode::NonAddressing.get_operand_address::<Load>(&mut cpu), None);
}
