use vstd::prelude::*;
use crate::cpu::{CPU, CpuState, wrap16};
use crate::cpu::addressing_mode::AddressingMode;
use crate::cpu::instructions::{Instruction, fits, spec_instruction};

verus! {

/// Opcodes of the branch instructions.
pub const BRANCH_OP_CODES: [u8; 8] = [0x90u8, 0xB0u8, 0xF0u8, 0x30u8, 0xD0u8, 0x10u8, 0x50u8, 0x70u8];

/// One entry of the instruction table.
#[derive(Clone, Copy, Debug)]
pub struct OpCode {
    pub code: u8,
    pub mnemonics: &'static str,
    /// bytes the program counter moves on after the instruction
    pub size: u16,
    pub cycles: u8,
    pub bonus_cycle_on_page_cross: bool,
    pub mode: AddressingMode,
    pub instruction: Instruction,
}

/// The instruction table: what each of the 256 opcodes means.
/// The size of BRK is 0; it takes 4 cycles.
pub open spec fn opcode_spec(code: u8) -> OpCode {
    match code {
        0x00u8 => OpCode { code: 0x00, mnemonics: "BRK", size: 0, cycles: 4, bonus_cycle_on_page_cross: false, mode: AddressingMode::NonAddressing, instruction: Instruction::BRK },
        0x01u8 => OpCode { code: 0x01, mnemonics: "ORA", size: 2, cycles: 6, bonus_cycle_on_page_cross: false, mode: AddressingMode::Indirect_X, instruction: Instruction::ORA },
        0x02u8 => OpCode { code: 0x02, mnemonics: "*KIL", size: 1, cycles: 0, bonus_cycle_on_page_cross: false, mode: AddressingMode::NonAddressing, instruction: Instruction::KIL },
        0x03u8 => OpCode { code: 0x03, mnemonics: "*SLO", size: 2, cycles: 8, bonus_cycle_on_page_cross: false, mode: AddressingMode::Indirect_X, instruction: Instruction::SLO },
        0x04u8 => OpCode { code: 0x04, mnemonics: "*NOP", size: 2, cycles: 3, bonus_cycle_on_page_cross: false, mode: AddressingMode::ZeroPage, instruction: Instruction::NOP },
        0x05u8 => OpCode { code: 0x05, mnemonics: "ORA", size: 2, cycles: 3, bonus_cycle_on_page_cross: false, mode: AddressingMode::ZeroPage, instruction: Instruction::ORA },
        0x06u8 => OpCode { code: 0x06, mnemonics: "ASL", size: 2, cycles: 5, bonus_cycle_on_page_cross: false, mode: AddressingMode::ZeroPage, instruction: Instruction::ASL },
        0x07u8 => OpCode { code: 0x07, mnemonics: "*SLO", size: 2, cycles: 5, bonus_cycle_on_page_cross: false, mode: AddressingMode::ZeroPage, instruction: Instruction::SLO },
        0x08u8 => OpCode { code: 0x08, mnemonics: "PHP", size: 1, cycles: 3, bonus_cycle_on_page_cross: false, mode: AddressingMode::NonAddressing, instruction: Instruction::PHP },
        0x09u8 => OpCode { code: 0x09, mnemonics: "ORA", size: 2, cycles: 2, bonus_cycle_on_page_cross: false, mode: AddressingMode::Immediate, instruction: Instruction::ORA },
        0x0Au8 => OpCode { code: 0x0A, mnemonics: "ASL", size: 1, cycles: 2, bonus_cycle_on_page_cross: false, mode: AddressingMode::Accumulator, instruction: Instruction::ASL },
        0x0Bu8 => OpCode { code: 0x0B, mnemonics: "*AAC", size: 2, cycles: 2, bonus_cycle_on_page_cross: false, mode: AddressingMode::Immediate, instruction: Instruction::AAC },
        0x0Cu8 => OpCode { code: 0x0C, mnemonics: "*NOP", size: 3, cycles: 4, bonus_cycle_on_page_cross: false, mode: AddressingMode::Absolute, instruction: Instruction::NOP },
        0x0Du8 => OpCode { code: 0x0D, mnemonics: "ORA", size: 3, cycles: 4, bonus_cycle_on_page_cross: false, mode: AddressingMode::Absolute, instruction: Instruction::ORA },
        0x0Eu8 => OpCode { code: 0x0E, mnemonics: "ASL", size: 3, cycles: 6, bonus_cycle_on_page_cross: false, mode: AddressingMode::Absolute, instruction: Instruction::ASL },
        0x0Fu8 => OpCode { code: 0x0F, mnemonics: "*SLO", size: 3, cycles: 6, bonus_cycle_on_page_cross: false, mode: AddressingMode::Absolute, instruction: Instruction::SLO },
        0x10u8 => OpCode { code: 0x10, mnemonics: "BPL", size: 2, cycles: 2, bonus_cycle_on_page_cross: false, mode: AddressingMode::Relative, instruction: Instruction::BPL },
        0x11u8 => OpCode { code: 0x11, mnemonics: "ORA", size: 2, cycles: 5, bonus_cycle_on_page_cross: true, mode: AddressingMode::Indirect_Y, instruction: Instruction::ORA },
        0x12u8 => OpCode { code: 0x12, mnemonics: "*KIL", size: 1, cycles: 0, bonus_cycle_on_page_cross: false, mode: AddressingMode::NonAddressing, instruction: Instruction::KIL },
        0x13u8 => OpCode { code: 0x13, mnemonics: "*SLO", size: 2, cycles: 8, bonus_cycle_on_page_cross: false, mode: AddressingMode::Indirect_Y, instruction: Instruction::SLO },
        0x14u8 => OpCode { code: 0x14, mnemonics: "*NOP", size: 2, cycles: 4, bonus_cycle_on_page_cross: false, mode: AddressingMode::ZeroPage_X, instruction: Instruction::NOP },
        0x15u8 => OpCode { code: 0x15, mnemonics: "ORA", size: 2, cycles: 4, bonus_cycle_on_page_cross: false, mode: AddressingMode::ZeroPage_X, instruction: Instruction::ORA },
        0x16u8 => OpCode { code: 0x16, mnemonics: "ASL", size: 2, cycles: 6, bonus_cycle_on_page_cross: false, mode: AddressingMode::ZeroPage_X, instruction: Instruction::ASL },
        0x17u8 => OpCode { code: 0x17, mnemonics: "*SLO", size: 2, cycles: 6, bonus_cycle_on_page_cross: false, mode: AddressingMode::ZeroPage_X, instruction: Instruction::SLO },
        0x18u8 => OpCode { code: 0x18, mnemonics: "CLC", size: 1, cycles: 2, bonus_cycle_on_page_cross: false, mode: AddressingMode::NonAddressing, instruction: Instruction::CLC },
        0x19u8 => OpCode { code: 0x19, mnemonics: "ORA", size: 3, cycles: 4, bonus_cycle_on_page_cross: true, mode: AddressingMode::Absolute_Y, instruction: Instruction::ORA },
        0x1Au8 => OpCode { code: 0x1A, mnemonics: "*NOP", size: 1, cycles: 2, bonus_cycle_on_page_cross: false, mode: AddressingMode::NonAddressing, instruction: Instruction::NOP },
        0x1Bu8 => OpCode { code: 0x1B, mnemonics: "*SLO", size: 3, cycles: 7, bonus_cycle_on_page_cross: false, mode: AddressingMode::Absolute_Y, instruction: Instruction::SLO },
        0x1Cu8 => OpCode { code: 0x1C, mnemonics: "*NOP", size: 3, cycles: 4, bonus_cycle_on_page_cross: true, mode: AddressingMode::Absolute_X, instruction: Instruction::NOP },
        0x1Du8 => OpCode { code: 0x1D, mnemonics: "ORA", size: 3, cycles: 4, bonus_cycle_on_page_cross: true, mode: AddressingMode::Absolute_X, instruction: Instruction::ORA },
        0x1Eu8 => OpCode { code: 0x1E, mnemonics: "ASL", size: 3, cycles: 7, bonus_cycle_on_page_cross: false, mode: AddressingMode::Absolute_X, instruction: Instruction::ASL },
        0x1Fu8 => OpCode { code: 0x1F, mnemonics: "*SLO", size: 3, cycles: 7, bonus_cycle_on_page_cross: false, mode: AddressingMode::Absolute_X, instruction: Instruction::SLO },
        0x20u8 => OpCode { code: 0x20, mnemonics: "JSR", size: 3, cycles: 6, bonus_cycle_on_page_cross: false, mode: AddressingMode::Absolute, instruction: Instruction::JSR },
        0x21u8 => OpCode { code: 0x21, mnemonics: "AND", size: 2, cycles: 6, bonus_cycle_on_page_cross: false, mode: AddressingMode::Indirect_X, instruction: Instruction::AND },
        0x22u8 => OpCode { code: 0x22, mnemonics: "*KIL", size: 1, cycles: 0, bonus_cycle_on_page_cross: false, mode: AddressingMode::NonAddressing, instruction: Instruction::KIL },
        0x23u8 => OpCode { code: 0x23, mnemonics: "*RLA", size: 2, cycles: 8, bonus_cycle_on_page_cross: false, mode: AddressingMode::Indirect_X, instruction: Instruction::RLA },
        0x24u8 => OpCode { code: 0x24, mnemonics: "BIT", size: 2, cycles: 3, bonus_cycle_on_page_cross: false, mode: AddressingMode::ZeroPage, instruction: Instruction::BIT },
        0x25u8 => OpCode { code: 0x25, mnemonics: "AND", size: 2, cycles: 3, bonus_cycle_on_page_cross: false, mode: AddressingMode::ZeroPage, instruction: Instruction::AND },
        0x26u8 => OpCode { code: 0x26, mnemonics: "ROL", size: 2, cycles: 5, bonus_cycle_on_page_cross: false, mode: AddressingMode::ZeroPage, instruction: Instruction::ROL },
        0x27u8 => OpCode { code: 0x27, mnemonics: "*RLA", size: 2, cycles: 5, bonus_cycle_on_page_cross: false, mode: AddressingMode::ZeroPage, instruction: Instruction::RLA },
        0x28u8 => OpCode { code: 0x28, mnemonics: "PLP", size: 1, cycles: 4, bonus_cycle_on_page_cross: false, mode: AddressingMode::NonAddressing, instruction: Instruction::PLP },
        0x29u8 => OpCode { code: 0x29, mnemonics: "AND", size: 2, cycles: 2, bonus_cycle_on_page_cross: false, mode: AddressingMode::Immediate, instruction: Instruction::AND },
        0x2Au8 => OpCode { code: 0x2A, mnemonics: "ROL", size: 1, cycles: 2, bonus_cycle_on_page_cross: false, mode: AddressingMode::Accumulator, instruction: Instruction::ROL },
        0x2Bu8 => OpCode { code: 0x2B, mnemonics: "*AAC", size: 2, cycles: 2, bonus_cycle_on_page_cross: false, mode: AddressingMode::Immediate, instruction: Instruction::AAC },
        0x2Cu8 => OpCode { code: 0x2C, mnemonics: "BIT", size: 3, cycles: 4, bonus_cycle_on_page_cross: false, mode: AddressingMode::Absolute, instruction: Instruction::BIT },
        0x2Du8 => OpCode { code: 0x2D, mnemonics: "AND", size: 3, cycles: 4, bonus_cycle_on_page_cross: false, mode: AddressingMode::Absolute, instruction: Instruction::AND },
        0x2Eu8 => OpCode { code: 0x2E, mnemonics: "ROL", size: 3, cycles: 6, bonus_cycle_on_page_cross: false, mode: AddressingMode::Absolute, instruction: Instruction::ROL },
        0x2Fu8 => OpCode { code: 0x2F, mnemonics: "*RLA", size: 3, cycles: 6, bonus_cycle_on_page_cross: false, mode: AddressingMode::Absolute, instruction: Instruction::RLA },
        0x30u8 => OpCode { code: 0x30, mnemonics: "BMI", size: 2, cycles: 2, bonus_cycle_on_page_cross: false, mode: AddressingMode::Relative, instruction: Instruction::BMI },
        0x31u8 => OpCode { code: 0x31, mnemonics: "AND", size: 2, cycles: 5, bonus_cycle_on_page_cross: true, mode: AddressingMode::Indirect_Y, instruction: Instruction::AND },
        0x32u8 => OpCode { code: 0x32, mnemonics: "*KIL", size: 1, cycles: 0, bonus_cycle_on_page_cross: false, mode: AddressingMode::NonAddressing, instruction: Instruction::KIL },
        0x33u8 => OpCode { code: 0x33, mnemonics: "*RLA", size: 2, cycles: 8, bonus_cycle_on_page_cross: false, mode: AddressingMode::Indirect_Y, instruction: Instruction::RLA },
        0x34u8 => OpCode { code: 0x34, mnemonics: "*NOP", size: 2, cycles: 4, bonus_cycle_on_page_cross: false, mode: AddressingMode::ZeroPage_X, instruction: Instruction::NOP },
        0x35u8 => OpCode { code: 0x35, mnemonics: "AND", size: 2, cycles: 4, bonus_cycle_on_page_cross: false, mode: AddressingMode::ZeroPage_X, instruction: Instruction::AND },
        0x36u8 => OpCode { code: 0x36, mnemonics: "ROL", size: 2, cycles: 6, bonus_cycle_on_page_cross: false, mode: AddressingMode::ZeroPage_X, instruction: Instruction::ROL },
        0x37u8 => OpCode { code: 0x37, mnemonics: "*RLA", size: 2, cycles: 6, bonus_cycle_on_page_cross: false, mode: AddressingMode::ZeroPage_X, instruction: Instruction::RLA },
        0x38u8 => OpCode { code: 0x38, mnemonics: "SEC", size: 1, cycles: 2, bonus_cycle_on_page_cross: false, mode: AddressingMode::NonAddressing, instruction: Instruction::SEC },
        0x39u8 => OpCode { code: 0x39, mnemonics: "AND", size: 3, cycles: 4, bonus_cycle_on_page_cross: true, mode: AddressingMode::Absolute_Y, instruction: Instruction::AND },
        0x3Au8 => OpCode { code: 0x3A, mnemonics: "*NOP", size: 1, cycles: 2, bonus_cycle_on_page_cross: false, mode: AddressingMode::NonAddressing, instruction: Instruction::NOP },
        0x3Bu8 => OpCode { code: 0x3B, mnemonics: "*RLA", size: 3, cycles: 7, bonus_cycle_on_page_cross: false, mode: AddressingMode::Absolute_Y, instruction: Instruction::RLA },
        0x3Cu8 => OpCode { code: 0x3C, mnemonics: "*NOP", size: 3, cycles: 4, bonus_cycle_on_page_cross: true, mode: AddressingMode::Absolute_X, instruction: Instruction::NOP },
        0x3Du8 => OpCode { code: 0x3D, mnemonics: "AND", size: 3, cycles: 4, bonus_cycle_on_page_cross: true, mode: AddressingMode::Absolute_X, instruction: Instruction::AND },
        0x3Eu8 => OpCode { code: 0x3E, mnemonics: "ROL", size: 3, cycles: 7, bonus_cycle_on_page_cross: false, mode: AddressingMode::Absolute_X, instruction: Instruction::ROL },
        0x3Fu8 => OpCode { code: 0x3F, mnemonics: "*RLA", size: 3, cycles: 7, bonus_cycle_on_page_cross: false, mode: AddressingMode::Absolute_X, instruction: Instruction::RLA },
        0x40u8 => OpCode { code: 0x40, mnemonics: "RTI", size: 1, cycles: 6, bonus_cycle_on_page_cross: false, mode: AddressingMode::NonAddressing, instruction: Instruction::RTI },
        0x41u8 => OpCode { code: 0x41, mnemonics: "EOR", size: 2, cycles: 6, bonus_cycle_on_page_cross: false, mode: AddressingMode::Indirect_X, instruction: Instruction::EOR },
        0x42u8 => OpCode { code: 0x42, mnemonics: "*KIL", size: 1, cycles: 0, bonus_cycle_on_page_cross: false, mode: AddressingMode::NonAddressing, instruction: Instruction::KIL },
        0x43u8 => OpCode { code: 0x43, mnemonics: "*SRE", size: 2, cycles: 8, bonus_cycle_on_page_cross: false, mode: AddressingMode::Indirect_X, instruction: Instruction::SRE },
        0x44u8 => OpCode { code: 0x44, mnemonics: "*NOP", size: 2, cycles: 3, bonus_cycle_on_page_cross: false, mode: AddressingMode::ZeroPage, instruction: Instruction::NOP },
        0x45u8 => OpCode { code: 0x45, mnemonics: "EOR", size: 2, cycles: 3, bonus_cycle_on_page_cross: false, mode: AddressingMode::ZeroPage, instruction: Instruction::EOR },
        0x46u8 => OpCode { code: 0x46, mnemonics: "LSR", size: 2, cycles: 5, bonus_cycle_on_page_cross: false, mode: AddressingMode::ZeroPage, instruction: Instruction::LSR },
        0x47u8 => OpCode { code: 0x47, mnemonics: "*SRE", size: 2, cycles: 5, bonus_cycle_on_page_cross: false, mode: AddressingMode::ZeroPage, instruction: Instruction::SRE },
        0x48u8 => OpCode { code: 0x48, mnemonics: "PHA", size: 1, cycles: 3, bonus_cycle_on_page_cross: false, mode: AddressingMode::NonAddressing, instruction: Instruction::PHA },
        0x49u8 => OpCode { code: 0x49, mnemonics: "EOR", size: 2, cycles: 2, bonus_cycle_on_page_cross: false, mode: AddressingMode::Immediate, instruction: Instruction::EOR },
        0x4Au8 => OpCode { code: 0x4A, mnemonics: "LSR", size: 1, cycles: 2, bonus_cycle_on_page_cross: false, mode: AddressingMode::Accumulator, instruction: Instruction::LSR },
        0x4Bu8 => OpCode { code: 0x4B, mnemonics: "*ASR", size: 2, cycles: 2, bonus_cycle_on_page_cross: false, mode: AddressingMode::Immediate, instruction: Instruction::ASR },
        0x4Cu8 => OpCode { code: 0x4C, mnemonics: "JMP", size: 3, cycles: 3, bonus_cycle_on_page_cross: false, mode: AddressingMode::Absolute, instruction: Instruction::JMP },
        0x4Du8 => OpCode { code: 0x4D, mnemonics: "EOR", size: 3, cycles: 4, bonus_cycle_on_page_cross: false, mode: AddressingMode::Absolute, instruction: Instruction::EOR },
        0x4Eu8 => OpCode { code: 0x4E, mnemonics: "LSR", size: 3, cycles: 6, bonus_cycle_on_page_cross: false, mode: AddressingMode::Absolute, instruction: Instruction::LSR },
        0x4Fu8 => OpCode { code: 0x4F, mnemonics: "*SRE", size: 3, cycles: 6, bonus_cycle_on_page_cross: false, mode: AddressingMode::Absolute, instruction: Instruction::SRE },
        0x50u8 => OpCode { code: 0x50, mnemonics: "BVC", size: 2, cycles: 2, bonus_cycle_on_page_cross: false, mode: AddressingMode::Relative, instruction: Instruction::BVC },
        0x51u8 => OpCode { code: 0x51, mnemonics: "EOR", size: 2, cycles: 5, bonus_cycle_on_page_cross: true, mode: AddressingMode::Indirect_Y, instruction: Instruction::EOR },
        0x52u8 => OpCode { code: 0x52, mnemonics: "*KIL", size: 1, cycles: 0, bonus_cycle_on_page_cross: false, mode: AddressingMode::NonAddressing, instruction: Instruction::KIL },
        0x53u8 => OpCode { code: 0x53, mnemonics: "*SRE", size: 2, cycles: 8, bonus_cycle_on_page_cross: false, mode: AddressingMode::Indirect_Y, instruction: Instruction::SRE },
        0x54u8 => OpCode { code: 0x54, mnemonics: "*NOP", size: 2, cycles: 4, bonus_cycle_on_page_cross: false, mode: AddressingMode::ZeroPage_X, instruction: Instruction::NOP },
        0x55u8 => OpCode { code: 0x55, mnemonics: "EOR", size: 2, cycles: 4, bonus_cycle_on_page_cross: false, mode: AddressingMode::ZeroPage_X, instruction: Instruction::EOR },
        0x56u8 => OpCode { code: 0x56, mnemonics: "LSR", size: 2, cycles: 6, bonus_cycle_on_page_cross: false, mode: AddressingMode::ZeroPage_X, instruction: Instruction::LSR },
        0x57u8 => OpCode { code: 0x57, mnemonics: "*SRE", size: 2, cycles: 6, bonus_cycle_on_page_cross: false, mode: AddressingMode::ZeroPage_X, instruction: Instruction::SRE },
        0x58u8 => OpCode { code: 0x58, mnemonics: "CLI", size: 1, cycles: 2, bonus_cycle_on_page_cross: false, mode: AddressingMode::NonAddressing, instruction: Instruction::CLI },
        0x59u8 => OpCode { code: 0x59, mnemonics: "EOR", size: 3, cycles: 4, bonus_cycle_on_page_cross: true, mode: AddressingMode::Absolute_Y, instruction: Instruction::EOR },
        0x5Au8 => OpCode { code: 0x5A, mnemonics: "*NOP", size: 1, cycles: 2, bonus_cycle_on_page_cross: false, mode: AddressingMode::NonAddressing, instruction: Instruction::NOP },
        0x5Bu8 => OpCode { code: 0x5B, mnemonics: "*SRE", size: 3, cycles: 7, bonus_cycle_on_page_cross: false, mode: AddressingMode::Absolute_Y, instruction: Instruction::SRE },
        0x5Cu8 => OpCode { code: 0x5C, mnemonics: "*NOP", size: 3, cycles: 4, bonus_cycle_on_page_cross: true, mode: AddressingMode::Absolute_X, instruction: Instruction::NOP },
        0x5Du8 => OpCode { code: 0x5D, mnemonics: "EOR", size: 3, cycles: 4, bonus_cycle_on_page_cross: true, mode: AddressingMode::Absolute_X, instruction: Instruction::EOR },
        0x5Eu8 => OpCode { code: 0x5E, mnemonics: "LSR", size: 3, cycles: 7, bonus_cycle_on_page_cross: false, mode: AddressingMode::Absolute_X, instruction: Instruction::LSR },
        0x5Fu8 => OpCode { code: 0x5F, mnemonics: "*SRE", size: 3, cycles: 7, bonus_cycle_on_page_cross: false, mode: AddressingMode::Absolute_X, instruction: Instruction::SRE },
        0x60u8 => OpCode { code: 0x60, mnemonics: "RTS", size: 1, cycles: 6, bonus_cycle_on_page_cross: false, mode: AddressingMode::NonAddressing, instruction: Instruction::RTS },
        0x61u8 => OpCode { code: 0x61, mnemonics: "ADC", size: 2, cycles: 6, bonus_cycle_on_page_cross: false, mode: AddressingMode::Indirect_X, instruction: Instruction::ADC },
        0x62u8 => OpCode { code: 0x62, mnemonics: "*KIL", size: 1, cycles: 0, bonus_cycle_on_page_cross: false, mode: AddressingMode::NonAddressing, instruction: Instruction::KIL },
        0x63u8 => OpCode { code: 0x63, mnemonics: "*RRA", size: 2, cycles: 8, bonus_cycle_on_page_cross: false, mode: AddressingMode::Indirect_X, instruction: Instruction::RRA },
        0x64u8 => OpCode { code: 0x64, mnemonics: "*NOP", size: 2, cycles: 3, bonus_cycle_on_page_cross: false, mode: AddressingMode::ZeroPage, instruction: Instruction::NOP },
        0x65u8 => OpCode { code: 0x65, mnemonics: "ADC", size: 2, cycles: 3, bonus_cycle_on_page_cross: false, mode: AddressingMode::ZeroPage, instruction: Instruction::ADC },
        0x66u8 => OpCode { code: 0x66, mnemonics: "ROR", size: 2, cycles: 5, bonus_cycle_on_page_cross: false, mode: AddressingMode::ZeroPage, instruction: Instruction::ROR },
        0x67u8 => OpCode { code: 0x67, mnemonics: "*RRA", size: 2, cycles: 5, bonus_cycle_on_page_cross: false, mode: AddressingMode::ZeroPage, instruction: Instruction::RRA },
        0x68u8 => OpCode { code: 0x68, mnemonics: "PLA", size: 1, cycles: 4, bonus_cycle_on_page_cross: false, mode: AddressingMode::NonAddressing, instruction: Instruction::PLA },
        0x69u8 => OpCode { code: 0x69, mnemonics: "ADC", size: 2, cycles: 2, bonus_cycle_on_page_cross: false, mode: AddressingMode::Immediate, instruction: Instruction::ADC },
        0x6Au8 => OpCode { code: 0x6A, mnemonics: "ROR", size: 1, cycles: 2, bonus_cycle_on_page_cross: false, mode: AddressingMode::Accumulator, instruction: Instruction::ROR },
        0x6Bu8 => OpCode { code: 0x6B, mnemonics: "*ARR", size: 2, cycles: 2, bonus_cycle_on_page_cross: false, mode: AddressingMode::Immediate, instruction: Instruction::ARR },
        0x6Cu8 => OpCode { code: 0x6C, mnemonics: "JMP", size: 3, cycles: 5, bonus_cycle_on_page_cross: false, mode: AddressingMode::Indirect, instruction: Instruction::JMP },
        0x6Du8 => OpCode { code: 0x6D, mnemonics: "ADC", size: 3, cycles: 4, bonus_cycle_on_page_cross: false, mode: AddressingMode::Absolute, instruction: Instruction::ADC },
        0x6Eu8 => OpCode { code: 0x6E, mnemonics: "ROR", size: 3, cycles: 6, bonus_cycle_on_page_cross: false, mode: AddressingMode::Absolute, instruction: Instruction::ROR },
        0x6Fu8 => OpCode { code: 0x6F, mnemonics: "*RRA", size: 3, cycles: 6, bonus_cycle_on_page_cross: false, mode: AddressingMode::Absolute, instruction: Instruction::RRA },
        0x70u8 => OpCode { code: 0x70, mnemonics: "BVS", size: 2, cycles: 2, bonus_cycle_on_page_cross: false, mode: AddressingMode::Relative, instruction: Instruction::BVS },
        0x71u8 => OpCode { code: 0x71, mnemonics: "ADC", size: 2, cycles: 5, bonus_cycle_on_page_cross: true, mode: AddressingMode::Indirect_Y, instruction: Instruction::ADC },
        0x72u8 => OpCode { code: 0x72, mnemonics: "*KIL", size: 1, cycles: 0, bonus_cycle_on_page_cross: false, mode: AddressingMode::NonAddressing, instruction: Instruction::KIL },
        0x73u8 => OpCode { code: 0x73, mnemonics: "*RRA", size: 2, cycles: 8, bonus_cycle_on_page_cross: false, mode: AddressingMode::Indirect_Y, instruction: Instruction::RRA },
        0x74u8 => OpCode { code: 0x74, mnemonics: "*NOP", size: 2, cycles: 4, bonus_cycle_on_page_cross: false, mode: AddressingMode::ZeroPage_X, instruction: Instruction::NOP },
        0x75u8 => OpCode { code: 0x75, mnemonics: "ADC", size: 2, cycles: 4, bonus_cycle_on_page_cross: false, mode: AddressingMode::ZeroPage_X, instruction: Instruction::ADC },
        0x76u8 => OpCode { code: 0x76, mnemonics: "ROR", size: 2, cycles: 6, bonus_cycle_on_page_cross: false, mode: AddressingMode::ZeroPage_X, instruction: Instruction::ROR },
        0x77u8 => OpCode { code: 0x77, mnemonics: "*RRA", size: 2, cycles: 6, bonus_cycle_on_page_cross: false, mode: AddressingMode::ZeroPage_X, instruction: Instruction::RRA },
        0x78u8 => OpCode { code: 0x78, mnemonics: "SEI", size: 1, cycles: 2, bonus_cycle_on_page_cross: false, mode: AddressingMode::NonAddressing, instruction: Instruction::SEI },
        0x79u8 => OpCode { code: 0x79, mnemonics: "ADC", size: 3, cycles: 4, bonus_cycle_on_page_cross: true, mode: AddressingMode::Absolute_Y, instruction: Instruction::ADC },
        0x7Au8 => OpCode { code: 0x7A, mnemonics: "*NOP", size: 1, cycles: 2, bonus_cycle_on_page_cross: false, mode: AddressingMode::NonAddressing, instruction: Instruction::NOP },
        0x7Bu8 => OpCode { code: 0x7B, mnemonics: "*RRA", size: 3, cycles: 7, bonus_cycle_on_page_cross: false, mode: AddressingMode::Absolute_Y, instruction: Instruction::RRA },
        0x7Cu8 => OpCode { code: 0x7C, mnemonics: "*NOP", size: 3, cycles: 4, bonus_cycle_on_page_cross: true, mode: AddressingMode::Absolute_X, instruction: Instruction::NOP },
        0x7Du8 => OpCode { code: 0x7D, mnemonics: "ADC", size: 3, cycles: 4, bonus_cycle_on_page_cross: true, mode: AddressingMode::Absolute_X, instruction: Instruction::ADC },
        0x7Eu8 => OpCode { code: 0x7E, mnemonics: "ROR", size: 3, cycles: 7, bonus_cycle_on_page_cross: false, mode: AddressingMode::Absolute_X, instruction: Instruction::ROR },
        0x7Fu8 => OpCode { code: 0x7F, mnemonics: "*RRA", size: 3, cycles: 7, bonus_cycle_on_page_cross: false, mode: AddressingMode::Absolute_X, instruction: Instruction::RRA },
        0x80u8 => OpCode { code: 0x80, mnemonics: "*NOP", size: 2, cycles: 2, bonus_cycle_on_page_cross: false, mode: AddressingMode::Immediate, instruction: Instruction::NOP },
        0x81u8 => OpCode { code: 0x81, mnemonics: "STA", size: 2, cycles: 6, bonus_cycle_on_page_cross: false, mode: AddressingMode::Indirect_X, instruction: Instruction::STA },
        0x82u8 => OpCode { code: 0x82, mnemonics: "*NOP", size: 2, cycles: 2, bonus_cycle_on_page_cross: false, mode: AddressingMode::Immediate, instruction: Instruction::NOP },
        0x83u8 => OpCode { code: 0x83, mnemonics: "*SAX", size: 2, cycles: 6, bonus_cycle_on_page_cross: false, mode: AddressingMode::Indirect_X, instruction: Instruction::SAX },
        0x84u8 => OpCode { code: 0x84, mnemonics: "STY", size: 2, cycles: 3, bonus_cycle_on_page_cross: false, mode: AddressingMode::ZeroPage, instruction: Instruction::STY },
        0x85u8 => OpCode { code: 0x85, mnemonics: "STA", size: 2, cycles: 3, bonus_cycle_on_page_cross: false, mode: AddressingMode::ZeroPage, instruction: Instruction::STA },
        0x86u8 => OpCode { code: 0x86, mnemonics: "STX", size: 2, cycles: 3, bonus_cycle_on_page_cross: false, mode: AddressingMode::ZeroPage, instruction: Instruction::STX },
        0x87u8 => OpCode { code: 0x87, mnemonics: "*SAX", size: 2, cycles: 3, bonus_cycle_on_page_cross: false, mode: AddressingMode::ZeroPage, instruction: Instruction::SAX },
        0x88u8 => OpCode { code: 0x88, mnemonics: "DEY", size: 1, cycles: 2, bonus_cycle_on_page_cross: false, mode: AddressingMode::NonAddressing, instruction: Instruction::DEY },
        0x89u8 => OpCode { code: 0x89, mnemonics: "*NOP", size: 2, cycles: 2, bonus_cycle_on_page_cross: false, mode: AddressingMode::Immediate, instruction: Instruction::NOP },
        0x8Au8 => OpCode { code: 0x8A, mnemonics: "TXA", size: 1, cycles: 2, bonus_cycle_on_page_cross: false, mode: AddressingMode::NonAddressing, instruction: Instruction::TXA },
        0x8Bu8 => OpCode { code: 0x8B, mnemonics: "*XAA", size: 2, cycles: 2, bonus_cycle_on_page_cross: false, mode: AddressingMode::Immediate, instruction: Instruction::XAA },
        0x8Cu8 => OpCode { code: 0x8C, mnemonics: "STY", size: 3, cycles: 4, bonus_cycle_on_page_cross: false, mode: AddressingMode::Absolute, instruction: Instruction::STY },
        0x8Du8 => OpCode { code: 0x8D, mnemonics: "STA", size: 3, cycles: 4, bonus_cycle_on_page_cross: false, mode: AddressingMode::Absolute, instruction: Instruction::STA },
        0x8Eu8 => OpCode { code: 0x8E, mnemonics: "STX", size: 3, cycles: 4, bonus_cycle_on_page_cross: false, mode: AddressingMode::Absolute, instruction: Instruction::STX },
        0x8Fu8 => OpCode { code: 0x8F, mnemonics: "*SAX", size: 3, cycles: 4, bonus_cycle_on_page_cross: false, mode: AddressingMode::Absolute, instruction: Instruction::SAX },
        0x90u8 => OpCode { code: 0x90, mnemonics: "BCC", size: 2, cycles: 2, bonus_cycle_on_page_cross: false, mode: AddressingMode::Relative, instruction: Instruction::BCC },
        0x91u8 => OpCode { code: 0x91, mnemonics: "STA", size: 2, cycles: 6, bonus_cycle_on_page_cross: false, mode: AddressingMode::Indirect_Y, instruction: Instruction::STA },
        0x92u8 => OpCode { code: 0x92, mnemonics: "*KIL", size: 1, cycles: 0, bonus_cycle_on_page_cross: false, mode: AddressingMode::NonAddressing, instruction: Instruction::KIL },
        0x93u8 => OpCode { code: 0x93, mnemonics: "*AXA", size: 2, cycles: 6, bonus_cycle_on_page_cross: false, mode: AddressingMode::Indirect_Y, instruction: Instruction::AXA },
        0x94u8 => OpCode { code: 0x94, mnemonics: "STY", size: 2, cycles: 4, bonus_cycle_on_page_cross: false, mode: AddressingMode::ZeroPage_X, instruction: Instruction::STY },
        0x95u8 => OpCode { code: 0x95, mnemonics: "STA", size: 2, cycles: 4, bonus_cycle_on_page_cross: false, mode: AddressingMode::ZeroPage_X, instruction: Instruction::STA },
        0x96u8 => OpCode { code: 0x96, mnemonics: "STX", size: 2, cycles: 4, bonus_cycle_on_page_cross: false, mode: AddressingMode::ZeroPage_Y, instruction: Instruction::STX },
        0x97u8 => OpCode { code: 0x97, mnemonics: "*SAX", size: 2, cycles: 4, bonus_cycle_on_page_cross: false, mode: AddressingMode::ZeroPage_Y, instruction: Instruction::SAX },
        0x98u8 => OpCode { code: 0x98, mnemonics: "TYA", size: 1, cycles: 2, bonus_cycle_on_page_cross: false, mode: AddressingMode::NonAddressing, instruction: Instruction::TYA },
        0x99u8 => OpCode { code: 0x99, mnemonics: "STA", size: 3, cycles: 5, bonus_cycle_on_page_cross: false, mode: AddressingMode::Absolute_Y, instruction: Instruction::STA },
        0x9Au8 => OpCode { code: 0x9A, mnemonics: "TXS", size: 1, cycles: 2, bonus_cycle_on_page_cross: false, mode: AddressingMode::NonAddressing, instruction: Instruction::TXS },
        0x9Bu8 => OpCode { code: 0x9B, mnemonics: "*XAS", size: 3, cycles: 5, bonus_cycle_on_page_cross: false, mode: AddressingMode::Absolute_Y, instruction: Instruction::XAS },
        0x9Cu8 => OpCode { code: 0x9C, mnemonics: "*SYA", size: 3, cycles: 5, bonus_cycle_on_page_cross: false, mode: AddressingMode::Absolute_X, instruction: Instruction::SYA },
        0x9Du8 => OpCode { code: 0x9D, mnemonics: "STA", size: 3, cycles: 5, bonus_cycle_on_page_cross: false, mode: AddressingMode::Absolute_X, instruction: Instruction::STA },
        0x9Eu8 => OpCode { code: 0x9E, mnemonics: "*SXA", size: 3, cycles: 5, bonus_cycle_on_page_cross: false, mode: AddressingMode::Absolute_Y, instruction: Instruction::SXA },
        0x9Fu8 => OpCode { code: 0x9F, mnemonics: "*AXA", size: 3, cycles: 5, bonus_cycle_on_page_cross: false, mode: AddressingMode::Absolute_Y, instruction: Instruction::AXA },
        0xA0u8 => OpCode { code: 0xA0, mnemonics: "LDY", size: 2, cycles: 2, bonus_cycle_on_page_cross: false, mode: AddressingMode::Immediate, instruction: Instruction::LDY },
        0xA1u8 => OpCode { code: 0xA1, mnemonics: "LDA", size: 2, cycles: 6, bonus_cycle_on_page_cross: false, mode: AddressingMode::Indirect_X, instruction: Instruction::LDA },
        0xA2u8 => OpCode { code: 0xA2, mnemonics: "LDX", size: 2, cycles: 2, bonus_cycle_on_page_cross: false, mode: AddressingMode::Immediate, instruction: Instruction::LDX },
        0xA3u8 => OpCode { code: 0xA3, mnemonics: "*LAX", size: 2, cycles: 6, bonus_cycle_on_page_cross: false, mode: AddressingMode::Indirect_X, instruction: Instruction::LAX },
        0xA4u8 => OpCode { code: 0xA4, mnemonics: "LDY", size: 2, cycles: 3, bonus_cycle_on_page_cross: false, mode: AddressingMode::ZeroPage, instruction: Instruction::LDY },
        0xA5u8 => OpCode { code: 0xA5, mnemonics: "LDA", size: 2, cycles: 3, bonus_cycle_on_page_cross: false, mode: AddressingMode::ZeroPage, instruction: Instruction::LDA },
        0xA6u8 => OpCode { code: 0xA6, mnemonics: "LDX", size: 2, cycles: 3, bonus_cycle_on_page_cross: false, mode: AddressingMode::ZeroPage, instruction: Instruction::LDX },
        0xA7u8 => OpCode { code: 0xA7, mnemonics: "*LAX", size: 2, cycles: 3, bonus_cycle_on_page_cross: false, mode: AddressingMode::ZeroPage, instruction: Instruction::LAX },
        0xA8u8 => OpCode { code: 0xA8, mnemonics: "TAY", size: 1, cycles: 2, bonus_cycle_on_page_cross: false, mode: AddressingMode::NonAddressing, instruction: Instruction::TAY },
        0xA9u8 => OpCode { code: 0xA9, mnemonics: "LDA", size: 2, cycles: 2, bonus_cycle_on_page_cross: false, mode: AddressingMode::Immediate, instruction: Instruction::LDA },
        0xAAu8 => OpCode { code: 0xAA, mnemonics: "TAX", size: 1, cycles: 2, bonus_cycle_on_page_cross: false, mode: AddressingMode::NonAddressing, instruction: Instruction::TAX },
        0xABu8 => OpCode { code: 0xAB, mnemonics: "*ATX", size: 2, cycles: 2, bonus_cycle_on_page_cross: false, mode: AddressingMode::Immediate, instruction: Instruction::ATX },
        0xACu8 => OpCode { code: 0xAC, mnemonics: "LDY", size: 3, cycles: 4, bonus_cycle_on_page_cross: false, mode: AddressingMode::Absolute, instruction: Instruction::LDY },
        0xADu8 => OpCode { code: 0xAD, mnemonics: "LDA", size: 3, cycles: 4, bonus_cycle_on_page_cross: false, mode: AddressingMode::Absolute, instruction: Instruction::LDA },
        0xAEu8 => OpCode { code: 0xAE, mnemonics: "LDX", size: 3, cycles: 4, bonus_cycle_on_page_cross: false, mode: AddressingMode::Absolute, instruction: Instruction::LDX },
        0xAFu8 => OpCode { code: 0xAF, mnemonics: "*LAX", size: 3, cycles: 4, bonus_cycle_on_page_cross: false, mode: AddressingMode::Absolute, instruction: Instruction::LAX },
        0xB0u8 => OpCode { code: 0xB0, mnemonics: "BCS", size: 2, cycles: 2, bonus_cycle_on_page_cross: false, mode: AddressingMode::Relative, instruction: Instruction::BCS },
        0xB1u8 => OpCode { code: 0xB1, mnemonics: "LDA", size: 2, cycles: 5, bonus_cycle_on_page_cross: true, mode: AddressingMode::Indirect_Y, instruction: Instruction::LDA },
        0xB2u8 => OpCode { code: 0xB2, mnemonics: "*KIL", size: 1, cycles: 0, bonus_cycle_on_page_cross: false, mode: AddressingMode::NonAddressing, instruction: Instruction::KIL },
        0xB3u8 => OpCode { code: 0xB3, mnemonics: "*LAX", size: 2, cycles: 5, bonus_cycle_on_page_cross: true, mode: AddressingMode::Indirect_Y, instruction: Instruction::LAX },
        0xB4u8 => OpCode { code: 0xB4, mnemonics: "LDY", size: 2, cycles: 4, bonus_cycle_on_page_cross: false, mode: AddressingMode::ZeroPage_X, instruction: Instruction::LDY },
        0xB5u8 => OpCode { code: 0xB5, mnemonics: "LDA", size: 2, cycles: 4, bonus_cycle_on_page_cross: false, mode: AddressingMode::ZeroPage_X, instruction: Instruction::LDA },
        0xB6u8 => OpCode { code: 0xB6, mnemonics: "LDX", size: 2, cycles: 4, bonus_cycle_on_page_cross: false, mode: AddressingMode::ZeroPage_Y, instruction: Instruction::LDX },
        0xB7u8 => OpCode { code: 0xB7, mnemonics: "*LAX", size: 2, cycles: 4, bonus_cycle_on_page_cross: false, mode: AddressingMode::ZeroPage_Y, instruction: Instruction::LAX },
        0xB8u8 => OpCode { code: 0xB8, mnemonics: "CLV", size: 1, cycles: 2, bonus_cycle_on_page_cross: false, mode: AddressingMode::NonAddressing, instruction: Instruction::CLV },
        0xB9u8 => OpCode { code: 0xB9, mnemonics: "LDA", size: 3, cycles: 4, bonus_cycle_on_page_cross: true, mode: AddressingMode::Absolute_Y, instruction: Instruction::LDA },
        0xBAu8 => OpCode { code: 0xBA, mnemonics: "TSX", size: 1, cycles: 2, bonus_cycle_on_page_cross: false, mode: AddressingMode::NonAddressing, instruction: Instruction::TSX },
        0xBBu8 => OpCode { code: 0xBB, mnemonics: "*LAR", size: 3, cycles: 4, bonus_cycle_on_page_cross: true, mode: AddressingMode::Absolute_Y, instruction: Instruction::LAR },
        0xBCu8 => OpCode { code: 0xBC, mnemonics: "LDY", size: 3, cycles: 4, bonus_cycle_on_page_cross: true, mode: AddressingMode::Absolute_X, instruction: Instruction::LDY },
        0xBDu8 => OpCode { code: 0xBD, mnemonics: "LDA", size: 3, cycles: 4, bonus_cycle_on_page_cross: true, mode: AddressingMode::Absolute_X, instruction: Instruction::LDA },
        0xBEu8 => OpCode { code: 0xBE, mnemonics: "LDX", size: 3, cycles: 4, bonus_cycle_on_page_cross: true, mode: AddressingMode::Absolute_Y, instruction: Instruction::LDX },
        0xBFu8 => OpCode { code: 0xBF, mnemonics: "*LAX", size: 3, cycles: 4, bonus_cycle_on_page_cross: true, mode: AddressingMode::Absolute_Y, instruction: Instruction::LAX },
        0xC0u8 => OpCode { code: 0xC0, mnemonics: "CPY", size: 2, cycles: 2, bonus_cycle_on_page_cross: false, mode: AddressingMode::Immediate, instruction: Instruction::CPY },
        0xC1u8 => OpCode { code: 0xC1, mnemonics: "CMP", size: 2, cycles: 6, bonus_cycle_on_page_cross: false, mode: AddressingMode::Indirect_X, instruction: Instruction::CMP },
        0xC2u8 => OpCode { code: 0xC2, mnemonics: "*NOP", size: 2, cycles: 2, bonus_cycle_on_page_cross: false, mode: AddressingMode::Immediate, instruction: Instruction::NOP },
        0xC3u8 => OpCode { code: 0xC3, mnemonics: "*DCP", size: 2, cycles: 8, bonus_cycle_on_page_cross: false, mode: AddressingMode::Indirect_X, instruction: Instruction::DCP },
        0xC4u8 => OpCode { code: 0xC4, mnemonics: "CPY", size: 2, cycles: 3, bonus_cycle_on_page_cross: false, mode: AddressingMode::ZeroPage, instruction: Instruction::CPY },
        0xC5u8 => OpCode { code: 0xC5, mnemonics: "CMP", size: 2, cycles: 3, bonus_cycle_on_page_cross: false, mode: AddressingMode::ZeroPage, instruction: Instruction::CMP },
        0xC6u8 => OpCode { code: 0xC6, mnemonics: "DEC", size: 2, cycles: 5, bonus_cycle_on_page_cross: false, mode: AddressingMode::ZeroPage, instruction: Instruction::DEC },
        0xC7u8 => OpCode { code: 0xC7, mnemonics: "*DCP", size: 2, cycles: 5, bonus_cycle_on_page_cross: false, mode: AddressingMode::ZeroPage, instruction: Instruction::DCP },
        0xC8u8 => OpCode { code: 0xC8, mnemonics: "INY", size: 1, cycles: 2, bonus_cycle_on_page_cross: false, mode: AddressingMode::NonAddressing, instruction: Instruction::INY },
        0xC9u8 => OpCode { code: 0xC9, mnemonics: "CMP", size: 2, cycles: 2, bonus_cycle_on_page_cross: false, mode: AddressingMode::Immediate, instruction: Instruction::CMP },
        0xCAu8 => OpCode { code: 0xCA, mnemonics: "DEX", size: 1, cycles: 2, bonus_cycle_on_page_cross: false, mode: AddressingMode::NonAddressing, instruction: Instruction::DEX },
        0xCBu8 => OpCode { code: 0xCB, mnemonics: "*AXS", size: 2, cycles: 2, bonus_cycle_on_page_cross: false, mode: AddressingMode::Immediate, instruction: Instruction::AXS },
        0xCCu8 => OpCode { code: 0xCC, mnemonics: "CPY", size: 3, cycles: 4, bonus_cycle_on_page_cross: false, mode: AddressingMode::Absolute, instruction: Instruction::CPY },
        0xCDu8 => OpCode { code: 0xCD, mnemonics: "CMP", size: 3, cycles: 4, bonus_cycle_on_page_cross: false, mode: AddressingMode::Absolute, instruction: Instruction::CMP },
        0xCEu8 => OpCode { code: 0xCE, mnemonics: "DEC", size: 3, cycles: 6, bonus_cycle_on_page_cross: false, mode: AddressingMode::Absolute, instruction: Instruction::DEC },
        0xCFu8 => OpCode { code: 0xCF, mnemonics: "*DCP", size: 3, cycles: 6, bonus_cycle_on_page_cross: false, mode: AddressingMode::Absolute, instruction: Instruction::DCP },
        0xD0u8 => OpCode { code: 0xD0, mnemonics: "BNE", size: 2, cycles: 2, bonus_cycle_on_page_cross: false, mode: AddressingMode::Relative, instruction: Instruction::BNE },
        0xD1u8 => OpCode { code: 0xD1, mnemonics: "CMP", size: 2, cycles: 5, bonus_cycle_on_page_cross: true, mode: AddressingMode::Indirect_Y, instruction: Instruction::CMP },
        0xD2u8 => OpCode { code: 0xD2, mnemonics: "*KIL", size: 1, cycles: 0, bonus_cycle_on_page_cross: false, mode: AddressingMode::NonAddressing, instruction: Instruction::KIL },
        0xD3u8 => OpCode { code: 0xD3, mnemonics: "*DCP", size: 2, cycles: 8, bonus_cycle_on_page_cross: false, mode: AddressingMode::Indirect_Y, instruction: Instruction::DCP },
        0xD4u8 => OpCode { code: 0xD4, mnemonics: "*NOP", size: 2, cycles: 4, bonus_cycle_on_page_cross: false, mode: AddressingMode::ZeroPage_X, instruction: Instruction::NOP },
        0xD5u8 => OpCode { code: 0xD5, mnemonics: "CMP", size: 2, cycles: 4, bonus_cycle_on_page_cross: false, mode: AddressingMode::ZeroPage_X, instruction: Instruction::CMP },
        0xD6u8 => OpCode { code: 0xD6, mnemonics: "DEC", size: 2, cycles: 6, bonus_cycle_on_page_cross: false, mode: AddressingMode::ZeroPage_X, instruction: Instruction::DEC },
        0xD7u8 => OpCode { code: 0xD7, mnemonics: "*DCP", size: 2, cycles: 6, bonus_cycle_on_page_cross: false, mode: AddressingMode::ZeroPage_X, instruction: Instruction::DCP },
        0xD8u8 => OpCode { code: 0xD8, mnemonics: "CLD", size: 1, cycles: 2, bonus_cycle_on_page_cross: false, mode: AddressingMode::NonAddressing, instruction: Instruction::CLD },
        0xD9u8 => OpCode { code: 0xD9, mnemonics: "CMP", size: 3, cycles: 4, bonus_cycle_on_page_cross: true, mode: AddressingMode::Absolute_Y, instruction: Instruction::CMP },
        0xDAu8 => OpCode { code: 0xDA, mnemonics: "*NOP", size: 1, cycles: 2, bonus_cycle_on_page_cross: false, mode: AddressingMode::NonAddressing, instruction: Instruction::NOP },
        0xDBu8 => OpCode { code: 0xDB, mnemonics: "*DCP", size: 3, cycles: 7, bonus_cycle_on_page_cross: false, mode: AddressingMode::Absolute_Y, instruction: Instruction::DCP },
        0xDCu8 => OpCode { code: 0xDC, mnemonics: "*NOP", size: 3, cycles: 4, bonus_cycle_on_page_cross: true, mode: AddressingMode::Absolute_X, instruction: Instruction::NOP },
        0xDDu8 => OpCode { code: 0xDD, mnemonics: "CMP", size: 3, cycles: 4, bonus_cycle_on_page_cross: true, mode: AddressingMode::Absolute_X, instruction: Instruction::CMP },
        0xDEu8 => OpCode { code: 0xDE, mnemonics: "DEC", size: 3, cycles: 7, bonus_cycle_on_page_cross: false, mode: AddressingMode::Absolute_X, instruction: Instruction::DEC },
        0xDFu8 => OpCode { code: 0xDF, mnemonics: "*DCP", size: 3, cycles: 7, bonus_cycle_on_page_cross: false, mode: AddressingMode::Absolute_X, instruction: Instruction::DCP },
        0xE0u8 => OpCode { code: 0xE0, mnemonics: "CPX", size: 2, cycles: 2, bonus_cycle_on_page_cross: false, mode: AddressingMode::Immediate, instruction: Instruction::CPX },
        0xE1u8 => OpCode { code: 0xE1, mnemonics: "SBC", size: 2, cycles: 6, bonus_cycle_on_page_cross: false, mode: AddressingMode::Indirect_X, instruction: Instruction::SBC },
        0xE2u8 => OpCode { code: 0xE2, mnemonics: "*NOP", size: 2, cycles: 2, bonus_cycle_on_page_cross: false, mode: AddressingMode::Immediate, instruction: Instruction::NOP },
        0xE3u8 => OpCode { code: 0xE3, mnemonics: "*ISB", size: 2, cycles: 8, bonus_cycle_on_page_cross: false, mode: AddressingMode::Indirect_X, instruction: Instruction::ISB },
        0xE4u8 => OpCode { code: 0xE4, mnemonics: "CPX", size: 2, cycles: 3, bonus_cycle_on_page_cross: false, mode: AddressingMode::ZeroPage, instruction: Instruction::CPX },
        0xE5u8 => OpCode { code: 0xE5, mnemonics: "SBC", size: 2, cycles: 3, bonus_cycle_on_page_cross: false, mode: AddressingMode::ZeroPage, instruction: Instruction::SBC },
        0xE6u8 => OpCode { code: 0xE6, mnemonics: "INC", size: 2, cycles: 5, bonus_cycle_on_page_cross: false, mode: AddressingMode::ZeroPage, instruction: Instruction::INC },
        0xE7u8 => OpCode { code: 0xE7, mnemonics: "*ISB", size: 2, cycles: 5, bonus_cycle_on_page_cross: false, mode: AddressingMode::ZeroPage, instruction: Instruction::ISB },
        0xE8u8 => OpCode { code: 0xE8, mnemonics: "INX", size: 1, cycles: 2, bonus_cycle_on_page_cross: false, mode: AddressingMode::NonAddressing, instruction: Instruction::INX },
        0xE9u8 => OpCode { code: 0xE9, mnemonics: "SBC", size: 2, cycles: 2, bonus_cycle_on_page_cross: false, mode: AddressingMode::Immediate, instruction: Instruction::SBC },
        0xEAu8 => OpCode { code: 0xEA, mnemonics: "NOP", size: 1, cycles: 2, bonus_cycle_on_page_cross: false, mode: AddressingMode::NonAddressing, instruction: Instruction::NOP },
        0xEBu8 => OpCode { code: 0xEB, mnemonics: "*SBC", size: 2, cycles: 2, bonus_cycle_on_page_cross: false, mode: AddressingMode::Immediate, instruction: Instruction::SBC },
        0xECu8 => OpCode { code: 0xEC, mnemonics: "CPX", size: 3, cycles: 4, bonus_cycle_on_page_cross: false, mode: AddressingMode::Absolute, instruction: Instruction::CPX },
        0xEDu8 => OpCode { code: 0xED, mnemonics: "SBC", size: 3, cycles: 4, bonus_cycle_on_page_cross: false, mode: AddressingMode::Absolute, instruction: Instruction::SBC },
        0xEEu8 => OpCode { code: 0xEE, mnemonics: "INC", size: 3, cycles: 6, bonus_cycle_on_page_cross: false, mode: AddressingMode::Absolute, instruction: Instruction::INC },
        0xEFu8 => OpCode { code: 0xEF, mnemonics: "*ISB", size: 3, cycles: 6, bonus_cycle_on_page_cross: false, mode: AddressingMode::Absolute, instruction: Instruction::ISB },
        0xF0u8 => OpCode { code: 0xF0, mnemonics: "BEQ", size: 2, cycles: 2, bonus_cycle_on_page_cross: false, mode: AddressingMode::Relative, instruction: Instruction::BEQ },
        0xF1u8 => OpCode { code: 0xF1, mnemonics: "SBC", size: 2, cycles: 5, bonus_cycle_on_page_cross: true, mode: AddressingMode::Indirect_Y, instruction: Instruction::SBC },
        0xF2u8 => OpCode { code: 0xF2, mnemonics: "*KIL", size: 1, cycles: 0, bonus_cycle_on_page_cross: false, mode: AddressingMode::NonAddressing, instruction: Instruction::KIL },
        0xF3u8 => OpCode { code: 0xF3, mnemonics: "*ISB", size: 2, cycles: 8, bonus_cycle_on_page_cross: false, mode: AddressingMode::Indirect_Y, instruction: Instruction::ISB },
        0xF4u8 => OpCode { code: 0xF4, mnemonics: "*NOP", size: 2, cycles: 4, bonus_cycle_on_page_cross: false, mode: AddressingMode::ZeroPage_X, instruction: Instruction::NOP },
        0xF5u8 => OpCode { code: 0xF5, mnemonics: "SBC", size: 2, cycles: 4, bonus_cycle_on_page_cross: false, mode: AddressingMode::ZeroPage_X, instruction: Instruction::SBC },
        0xF6u8 => OpCode { code: 0xF6, mnemonics: "INC", size: 2, cycles: 6, bonus_cycle_on_page_cross: false, mode: AddressingMode::ZeroPage_X, instruction: Instruction::INC },
        0xF7u8 => OpCode { code: 0xF7, mnemonics: "*ISB", size: 2, cycles: 6, bonus_cycle_on_page_cross: false, mode: AddressingMode::ZeroPage_X, instruction: Instruction::ISB },
        0xF8u8 => OpCode { code: 0xF8, mnemonics: "SED", size: 1, cycles: 2, bonus_cycle_on_page_cross: false, mode: AddressingMode::NonAddressing, instruction: Instruction::SED },
        0xF9u8 => OpCode { code: 0xF9, mnemonics: "SBC", size: 3, cycles: 4, bonus_cycle_on_page_cross: true, mode: AddressingMode::Absolute_Y, instruction: Instruction::SBC },
        0xFAu8 => OpCode { code: 0xFA, mnemonics: "*NOP", size: 1, cycles: 2, bonus_cycle_on_page_cross: false, mode: AddressingMode::NonAddressing, instruction: Instruction::NOP },
        0xFBu8 => OpCode { code: 0xFB, mnemonics: "*ISB", size: 3, cycles: 7, bonus_cycle_on_page_cross: false, mode: AddressingMode::Absolute_Y, instruction: Instruction::ISB },
        0xFCu8 => OpCode { code: 0xFC, mnemonics: "*NOP", size: 3, cycles: 4, bonus_cycle_on_page_cross: true, mode: AddressingMode::Absolute_X, instruction: Instruction::NOP },
        0xFDu8 => OpCode { code: 0xFD, mnemonics: "SBC", size: 3, cycles: 4, bonus_cycle_on_page_cross: true, mode: AddressingMode::Absolute_X, instruction: Instruction::SBC },
        0xFEu8 => OpCode { code: 0xFE, mnemonics: "INC", size: 3, cycles: 7, bonus_cycle_on_page_cross: false, mode: AddressingMode::Absolute_X, instruction: Instruction::INC },
        _ => OpCode { code: 0xFF, mnemonics: "*ISB", size: 3, cycles: 7, bonus_cycle_on_page_cross: false, mode: AddressingMode::Absolute_X, instruction: Instruction::ISB },
    }
}

/// Every entry of the table pairs its instruction with a mode that suits it.
pub proof fn lemma_table_fits(code: u8)
    ensures
        fits(opcode_spec(code).instruction, opcode_spec(code).mode),
        opcode_spec(code).code == code,
        opcode_spec(code).cycles <= 8,
{
}

/// The bytes an instruction in addressing mode `mode` takes: the opcode and its operand.
pub open spec fn mode_size(mode: AddressingMode) -> u16 {
    match mode {
        AddressingMode::Accumulator | AddressingMode::NonAddressing => 1,
        AddressingMode::Immediate | AddressingMode::ZeroPage | AddressingMode::ZeroPage_X
        | AddressingMode::ZeroPage_Y | AddressingMode::Indirect_X | AddressingMode::Indirect_Y
        | AddressingMode::Relative => 2,
        AddressingMode::Absolute | AddressingMode::Absolute_X | AddressingMode::Absolute_Y
        | AddressingMode::Indirect => 3,
    }
}

/// Every opcode sits at its own index of the table, and every instruction but BRK (size 0)
/// is as long as its addressing mode says.
pub proof fn law_opcode_table(code: u8)
    ensures
        opcode_spec(code).code == code,
        code == 0 ==> opcode_spec(code).size == 0,
        code != 0 ==> opcode_spec(code).size == mode_size(opcode_spec(code).mode),
{
}

/// Every entry of the table has a mnemonic.
pub proof fn law_opcode_mnemonics(code: u8)
    ensures
        opcode_spec(code).mnemonics@.len() > 0,
{
    reveal_strlit("*AAC");
    reveal_strlit("*ARR");
    reveal_strlit("*ASR");
    reveal_strlit("*ATX");
    reveal_strlit("*AXA");
    reveal_strlit("*AXS");
    reveal_strlit("*DCP");
    reveal_strlit("*ISB");
    reveal_strlit("*KIL");
    reveal_strlit("*LAR");
    reveal_strlit("*LAX");
    reveal_strlit("*NOP");
    reveal_strlit("*RLA");
    reveal_strlit("*RRA");
    reveal_strlit("*SAX");
    reveal_strlit("*SBC");
    reveal_strlit("*SLO");
    reveal_strlit("*SRE");
    reveal_strlit("*SXA");
    reveal_strlit("*SYA");
    reveal_strlit("*XAA");
    reveal_strlit("*XAS");
    reveal_strlit("ADC");
    reveal_strlit("AND");
    reveal_strlit("ASL");
    reveal_strlit("BCC");
    reveal_strlit("BCS");
    reveal_strlit("BEQ");
    reveal_strlit("BIT");
    reveal_strlit("BMI");
    reveal_strlit("BNE");
    reveal_strlit("BPL");
    reveal_strlit("BRK");
    reveal_strlit("BVC");
    reveal_strlit("BVS");
    reveal_strlit("CLC");
    reveal_strlit("CLD");
    reveal_strlit("CLI");
    reveal_strlit("CLV");
    reveal_strlit("CMP");
    reveal_strlit("CPX");
    reveal_strlit("CPY");
    reveal_strlit("DEC");
    reveal_strlit("DEX");
    reveal_strlit("DEY");
    reveal_strlit("EOR");
    reveal_strlit("INC");
    reveal_strlit("INX");
    reveal_strlit("INY");
    reveal_strlit("JMP");
    reveal_strlit("JSR");
    reveal_strlit("LDA");
    reveal_strlit("LDX");
    reveal_strlit("LDY");
    reveal_strlit("LSR");
    reveal_strlit("NOP");
    reveal_strlit("ORA");
    reveal_strlit("PHA");
    reveal_strlit("PHP");
    reveal_strlit("PLA");
    reveal_strlit("PLP");
    reveal_strlit("ROL");
    reveal_strlit("ROR");
    reveal_strlit("RTI");
    reveal_strlit("RTS");
    reveal_strlit("SBC");
    reveal_strlit("SEC");
    reveal_strlit("SED");
    reveal_strlit("SEI");
    reveal_strlit("STA");
    reveal_strlit("STX");
    reveal_strlit("STY");
    reveal_strlit("TAX");
    reveal_strlit("TAY");
    reveal_strlit("TSX");
    reveal_strlit("TXA");
    reveal_strlit("TXS");
    reveal_strlit("TYA");
}

/// What executing the table entry `op` does to `s`: its instruction, then the program counter
/// moves past it.
pub open spec fn spec_execute(s: CpuState, op: OpCode) -> CpuState {
    let s1 = spec_instruction(s, op.instruction, op.mode);
    CpuState { pc: wrap16(s1.pc as int + op.size as int), ..s1 }
}

impl OpCode {
    pub fn new(
        code: u8,
        name: &'static str,
        size: u16,
        cycles: u8,
        bonus_cycle_on_page_cross: bool,
        mode: AddressingMode,
        instruction: Instruction,
    ) -> (r: Self)
        ensures
            r.code == code,
            r.mnemonics == name,
            r.size == size,
            r.cycles == cycles,
            r.bonus_cycle_on_page_cross == bonus_cycle_on_page_cross,
            r.mode == mode,
            r.instruction == instruction,
    {
        OpCode { code, mnemonics: name, size, cycles, bonus_cycle_on_page_cross, mode, instruction }
    }

    /// The table entry of `code`.
    pub fn from_code(code: u8) -> (r: OpCode)
        ensures
            r == opcode_spec(code),
    {
        match code {
            0x00u8 => OpCode { code: 0x00, mnemonics: "BRK", size: 0, cycles: 4, bonus_cycle_on_page_cross: false, mode: AddressingMode::NonAddressing, instruction: Instruction::BRK },
            0x01u8 => OpCode { code: 0x01, mnemonics: "ORA", size: 2, cycles: 6, bonus_cycle_on_page_cross: false, mode: AddressingMode::Indirect_X, instruction: Instruction::ORA },
            0x02u8 => OpCode { code: 0x02, mnemonics: "*KIL", size: 1, cycles: 0, bonus_cycle_on_page_cross: false, mode: AddressingMode::NonAddressing, instruction: Instruction::KIL },
            0x03u8 => OpCode { code: 0x03, mnemonics: "*SLO", size: 2, cycles: 8, bonus_cycle_on_page_cross: false, mode: AddressingMode::Indirect_X, instruction: Instruction::SLO },
            0x04u8 => OpCode { code: 0x04, mnemonics: "*NOP", size: 2, cycles: 3, bonus_cycle_on_page_cross: false, mode: AddressingMode::ZeroPage, instruction: Instruction::NOP },
            0x05u8 => OpCode { code: 0x05, mnemonics: "ORA", size: 2, cycles: 3, bonus_cycle_on_page_cross: false, mode: AddressingMode::ZeroPage, instruction: Instruction::ORA },
            0x06u8 => OpCode { code: 0x06, mnemonics: "ASL", size: 2, cycles: 5, bonus_cycle_on_page_cross: false, mode: AddressingMode::ZeroPage, instruction: Instruction::ASL },
            0x07u8 => OpCode { code: 0x07, mnemonics: "*SLO", size: 2, cycles: 5, bonus_cycle_on_page_cross: false, mode: AddressingMode::ZeroPage, instruction: Instruction::SLO },
            0x08u8 => OpCode { code: 0x08, mnemonics: "PHP", size: 1, cycles: 3, bonus_cycle_on_page_cross: false, mode: AddressingMode::NonAddressing, instruction: Instruction::PHP },
            0x09u8 => OpCode { code: 0x09, mnemonics: "ORA", size: 2, cycles: 2, bonus_cycle_on_page_cross: false, mode: AddressingMode::Immediate, instruction: Instruction::ORA },
            0x0Au8 => OpCode { code: 0x0A, mnemonics: "ASL", size: 1, cycles: 2, bonus_cycle_on_page_cross: false, mode: AddressingMode::Accumulator, instruction: Instruction::ASL },
            0x0Bu8 => OpCode { code: 0x0B, mnemonics: "*AAC", size: 2, cycles: 2, bonus_cycle_on_page_cross: false, mode: AddressingMode::Immediate, instruction: Instruction::AAC },
            0x0Cu8 => OpCode { code: 0x0C, mnemonics: "*NOP", size: 3, cycles: 4, bonus_cycle_on_page_cross: false, mode: AddressingMode::Absolute, instruction: Instruction::NOP },
            0x0Du8 => OpCode { code: 0x0D, mnemonics: "ORA", size: 3, cycles: 4, bonus_cycle_on_page_cross: false, mode: AddressingMode::Absolute, instruction: Instruction::ORA },
            0x0Eu8 => OpCode { code: 0x0E, mnemonics: "ASL", size: 3, cycles: 6, bonus_cycle_on_page_cross: false, mode: AddressingMode::Absolute, instruction: Instruction::ASL },
            0x0Fu8 => OpCode { code: 0x0F, mnemonics: "*SLO", size: 3, cycles: 6, bonus_cycle_on_page_cross: false, mode: AddressingMode::Absolute, instruction: Instruction::SLO },
            0x10u8 => OpCode { code: 0x10, mnemonics: "BPL", size: 2, cycles: 2, bonus_cycle_on_page_cross: false, mode: AddressingMode::Relative, instruction: Instruction::BPL },
            0x11u8 => OpCode { code: 0x11, mnemonics: "ORA", size: 2, cycles: 5, bonus_cycle_on_page_cross: true, mode: AddressingMode::Indirect_Y, instruction: Instruction::ORA },
            0x12u8 => OpCode { code: 0x12, mnemonics: "*KIL", size: 1, cycles: 0, bonus_cycle_on_page_cross: false, mode: AddressingMode::NonAddressing, instruction: Instruction::KIL },
            0x13u8 => OpCode { code: 0x13, mnemonics: "*SLO", size: 2, cycles: 8, bonus_cycle_on_page_cross: false, mode: AddressingMode::Indirect_Y, instruction: Instruction::SLO },
            0x14u8 => OpCode { code: 0x14, mnemonics: "*NOP", size: 2, cycles: 4, bonus_cycle_on_page_cross: false, mode: AddressingMode::ZeroPage_X, instruction: Instruction::NOP },
            0x15u8 => OpCode { code: 0x15, mnemonics: "ORA", size: 2, cycles: 4, bonus_cycle_on_page_cross: false, mode: AddressingMode::ZeroPage_X, instruction: Instruction::ORA },
            0x16u8 => OpCode { code: 0x16, mnemonics: "ASL", size: 2, cycles: 6, bonus_cycle_on_page_cross: false, mode: AddressingMode::ZeroPage_X, instruction: Instruction::ASL },
            0x17u8 => OpCode { code: 0x17, mnemonics: "*SLO", size: 2, cycles: 6, bonus_cycle_on_page_cross: false, mode: AddressingMode::ZeroPage_X, instruction: Instruction::SLO },
            0x18u8 => OpCode { code: 0x18, mnemonics: "CLC", size: 1, cycles: 2, bonus_cycle_on_page_cross: false, mode: AddressingMode::NonAddressing, instruction: Instruction::CLC },
            0x19u8 => OpCode { code: 0x19, mnemonics: "ORA", size: 3, cycles: 4, bonus_cycle_on_page_cross: true, mode: AddressingMode::Absolute_Y, instruction: Instruction::ORA },
            0x1Au8 => OpCode { code: 0x1A, mnemonics: "*NOP", size: 1, cycles: 2, bonus_cycle_on_page_cross: false, mode: AddressingMode::NonAddressing, instruction: Instruction::NOP },
            0x1Bu8 => OpCode { code: 0x1B, mnemonics: "*SLO", size: 3, cycles: 7, bonus_cycle_on_page_cross: false, mode: AddressingMode::Absolute_Y, instruction: Instruction::SLO },
            0x1Cu8 => OpCode { code: 0x1C, mnemonics: "*NOP", size: 3, cycles: 4, bonus_cycle_on_page_cross: true, mode: AddressingMode::Absolute_X, instruction: Instruction::NOP },
            0x1Du8 => OpCode { code: 0x1D, mnemonics: "ORA", size: 3, cycles: 4, bonus_cycle_on_page_cross: true, mode: AddressingMode::Absolute_X, instruction: Instruction::ORA },
            0x1Eu8 => OpCode { code: 0x1E, mnemonics: "ASL", size: 3, cycles: 7, bonus_cycle_on_page_cross: false, mode: AddressingMode::Absolute_X, instruction: Instruction::ASL },
            0x1Fu8 => OpCode { code: 0x1F, mnemonics: "*SLO", size: 3, cycles: 7, bonus_cycle_on_page_cross: false, mode: AddressingMode::Absolute_X, instruction: Instruction::SLO },
            0x20u8 => OpCode { code: 0x20, mnemonics: "JSR", size: 3, cycles: 6, bonus_cycle_on_page_cross: false, mode: AddressingMode::Absolute, instruction: Instruction::JSR },
            0x21u8 => OpCode { code: 0x21, mnemonics: "AND", size: 2, cycles: 6, bonus_cycle_on_page_cross: false, mode: AddressingMode::Indirect_X, instruction: Instruction::AND },
            0x22u8 => OpCode { code: 0x22, mnemonics: "*KIL", size: 1, cycles: 0, bonus_cycle_on_page_cross: false, mode: AddressingMode::NonAddressing, instruction: Instruction::KIL },
            0x23u8 => OpCode { code: 0x23, mnemonics: "*RLA", size: 2, cycles: 8, bonus_cycle_on_page_cross: false, mode: AddressingMode::Indirect_X, instruction: Instruction::RLA },
            0x24u8 => OpCode { code: 0x24, mnemonics: "BIT", size: 2, cycles: 3, bonus_cycle_on_page_cross: false, mode: AddressingMode::ZeroPage, instruction: Instruction::BIT },
            0x25u8 => OpCode { code: 0x25, mnemonics: "AND", size: 2, cycles: 3, bonus_cycle_on_page_cross: false, mode: AddressingMode::ZeroPage, instruction: Instruction::AND },
            0x26u8 => OpCode { code: 0x26, mnemonics: "ROL", size: 2, cycles: 5, bonus_cycle_on_page_cross: false, mode: AddressingMode::ZeroPage, instruction: Instruction::ROL },
            0x27u8 => OpCode { code: 0x27, mnemonics: "*RLA", size: 2, cycles: 5, bonus_cycle_on_page_cross: false, mode: AddressingMode::ZeroPage, instruction: Instruction::RLA },
            0x28u8 => OpCode { code: 0x28, mnemonics: "PLP", size: 1, cycles: 4, bonus_cycle_on_page_cross: false, mode: AddressingMode::NonAddressing, instruction: Instruction::PLP },
            0x29u8 => OpCode { code: 0x29, mnemonics: "AND", size: 2, cycles: 2, bonus_cycle_on_page_cross: false, mode: AddressingMode::Immediate, instruction: Instruction::AND },
            0x2Au8 => OpCode { code: 0x2A, mnemonics: "ROL", size: 1, cycles: 2, bonus_cycle_on_page_cross: false, mode: AddressingMode::Accumulator, instruction: Instruction::ROL },
            0x2Bu8 => OpCode { code: 0x2B, mnemonics: "*AAC", size: 2, cycles: 2, bonus_cycle_on_page_cross: false, mode: AddressingMode::Immediate, instruction: Instruction::AAC },
            0x2Cu8 => OpCode { code: 0x2C, mnemonics: "BIT", size: 3, cycles: 4, bonus_cycle_on_page_cross: false, mode: AddressingMode::Absolute, instruction: Instruction::BIT },
            0x2Du8 => OpCode { code: 0x2D, mnemonics: "AND", size: 3, cycles: 4, bonus_cycle_on_page_cross: false, mode: AddressingMode::Absolute, instruction: Instruction::AND },
            0x2Eu8 => OpCode { code: 0x2E, mnemonics: "ROL", size: 3, cycles: 6, bonus_cycle_on_page_cross: false, mode: AddressingMode::Absolute, instruction: Instruction::ROL },
            0x2Fu8 => OpCode { code: 0x2F, mnemonics: "*RLA", size: 3, cycles: 6, bonus_cycle_on_page_cross: false, mode: AddressingMode::Absolute, instruction: Instruction::RLA },
            0x30u8 => OpCode { code: 0x30, mnemonics: "BMI", size: 2, cycles: 2, bonus_cycle_on_page_cross: false, mode: AddressingMode::Relative, instruction: Instruction::BMI },
            0x31u8 => OpCode { code: 0x31, mnemonics: "AND", size: 2, cycles: 5, bonus_cycle_on_page_cross: true, mode: AddressingMode::Indirect_Y, instruction: Instruction::AND },
            0x32u8 => OpCode { code: 0x32, mnemonics: "*KIL", size: 1, cycles: 0, bonus_cycle_on_page_cross: false, mode: AddressingMode::NonAddressing, instruction: Instruction::KIL },
            0x33u8 => OpCode { code: 0x33, mnemonics: "*RLA", size: 2, cycles: 8, bonus_cycle_on_page_cross: false, mode: AddressingMode::Indirect_Y, instruction: Instruction::RLA },
            0x34u8 => OpCode { code: 0x34, mnemonics: "*NOP", size: 2, cycles: 4, bonus_cycle_on_page_cross: false, mode: AddressingMode::ZeroPage_X, instruction: Instruction::NOP },
            0x35u8 => OpCode { code: 0x35, mnemonics: "AND", size: 2, cycles: 4, bonus_cycle_on_page_cross: false, mode: AddressingMode::ZeroPage_X, instruction: Instruction::AND },
            0x36u8 => OpCode { code: 0x36, mnemonics: "ROL", size: 2, cycles: 6, bonus_cycle_on_page_cross: false, mode: AddressingMode::ZeroPage_X, instruction: Instruction::ROL },
            0x37u8 => OpCode { code: 0x37, mnemonics: "*RLA", size: 2, cycles: 6, bonus_cycle_on_page_cross: false, mode: AddressingMode::ZeroPage_X, instruction: Instruction::RLA },
            0x38u8 => OpCode { code: 0x38, mnemonics: "SEC", size: 1, cycles: 2, bonus_cycle_on_page_cross: false, mode: AddressingMode::NonAddressing, instruction: Instruction::SEC },
            0x39u8 => OpCode { code: 0x39, mnemonics: "AND", size: 3, cycles: 4, bonus_cycle_on_page_cross: true, mode: AddressingMode::Absolute_Y, instruction: Instruction::AND },
            0x3Au8 => OpCode { code: 0x3A, mnemonics: "*NOP", size: 1, cycles: 2, bonus_cycle_on_page_cross: false, mode: AddressingMode::NonAddressing, instruction: Instruction::NOP },
            0x3Bu8 => OpCode { code: 0x3B, mnemonics: "*RLA", size: 3, cycles: 7, bonus_cycle_on_page_cross: false, mode: AddressingMode::Absolute_Y, instruction: Instruction::RLA },
            0x3Cu8 => OpCode { code: 0x3C, mnemonics: "*NOP", size: 3, cycles: 4, bonus_cycle_on_page_cross: true, mode: AddressingMode::Absolute_X, instruction: Instruction::NOP },
            0x3Du8 => OpCode { code: 0x3D, mnemonics: "AND", size: 3, cycles: 4, bonus_cycle_on_page_cross: true, mode: AddressingMode::Absolute_X, instruction: Instruction::AND },
            0x3Eu8 => OpCode { code: 0x3E, mnemonics: "ROL", size: 3, cycles: 7, bonus_cycle_on_page_cross: false, mode: AddressingMode::Absolute_X, instruction: Instruction::ROL },
            0x3Fu8 => OpCode { code: 0x3F, mnemonics: "*RLA", size: 3, cycles: 7, bonus_cycle_on_page_cross: false, mode: AddressingMode::Absolute_X, instruction: Instruction::RLA },
            0x40u8 => OpCode { code: 0x40, mnemonics: "RTI", size: 1, cycles: 6, bonus_cycle_on_page_cross: false, mode: AddressingMode::NonAddressing, instruction: Instruction::RTI },
            0x41u8 => OpCode { code: 0x41, mnemonics: "EOR", size: 2, cycles: 6, bonus_cycle_on_page_cross: false, mode: AddressingMode::Indirect_X, instruction: Instruction::EOR },
            0x42u8 => OpCode { code: 0x42, mnemonics: "*KIL", size: 1, cycles: 0, bonus_cycle_on_page_cross: false, mode: AddressingMode::NonAddressing, instruction: Instruction::KIL },
            0x43u8 => OpCode { code: 0x43, mnemonics: "*SRE", size: 2, cycles: 8, bonus_cycle_on_page_cross: false, mode: AddressingMode::Indirect_X, instruction: Instruction::SRE },
            0x44u8 => OpCode { code: 0x44, mnemonics: "*NOP", size: 2, cycles: 3, bonus_cycle_on_page_cross: false, mode: AddressingMode::ZeroPage, instruction: Instruction::NOP },
            0x45u8 => OpCode { code: 0x45, mnemonics: "EOR", size: 2, cycles: 3, bonus_cycle_on_page_cross: false, mode: AddressingMode::ZeroPage, instruction: Instruction::EOR },
            0x46u8 => OpCode { code: 0x46, mnemonics: "LSR", size: 2, cycles: 5, bonus_cycle_on_page_cross: false, mode: AddressingMode::ZeroPage, instruction: Instruction::LSR },
            0x47u8 => OpCode { code: 0x47, mnemonics: "*SRE", size: 2, cycles: 5, bonus_cycle_on_page_cross: false, mode: AddressingMode::ZeroPage, instruction: Instruction::SRE },
            0x48u8 => OpCode { code: 0x48, mnemonics: "PHA", size: 1, cycles: 3, bonus_cycle_on_page_cross: false, mode: AddressingMode::NonAddressing, instruction: Instruction::PHA },
            0x49u8 => OpCode { code: 0x49, mnemonics: "EOR", size: 2, cycles: 2, bonus_cycle_on_page_cross: false, mode: AddressingMode::Immediate, instruction: Instruction::EOR },
            0x4Au8 => OpCode { code: 0x4A, mnemonics: "LSR", size: 1, cycles: 2, bonus_cycle_on_page_cross: false, mode: AddressingMode::Accumulator, instruction: Instruction::LSR },
            0x4Bu8 => OpCode { code: 0x4B, mnemonics: "*ASR", size: 2, cycles: 2, bonus_cycle_on_page_cross: false, mode: AddressingMode::Immediate, instruction: Instruction::ASR },
            0x4Cu8 => OpCode { code: 0x4C, mnemonics: "JMP", size: 3, cycles: 3, bonus_cycle_on_page_cross: false, mode: AddressingMode::Absolute, instruction: Instruction::JMP },
            0x4Du8 => OpCode { code: 0x4D, mnemonics: "EOR", size: 3, cycles: 4, bonus_cycle_on_page_cross: false, mode: AddressingMode::Absolute, instruction: Instruction::EOR },
            0x4Eu8 => OpCode { code: 0x4E, mnemonics: "LSR", size: 3, cycles: 6, bonus_cycle_on_page_cross: false, mode: AddressingMode::Absolute, instruction: Instruction::LSR },
            0x4Fu8 => OpCode { code: 0x4F, mnemonics: "*SRE", size: 3, cycles: 6, bonus_cycle_on_page_cross: false, mode: AddressingMode::Absolute, instruction: Instruction::SRE },
            0x50u8 => OpCode { code: 0x50, mnemonics: "BVC", size: 2, cycles: 2, bonus_cycle_on_page_cross: false, mode: AddressingMode::Relative, instruction: Instruction::BVC },
            0x51u8 => OpCode { code: 0x51, mnemonics: "EOR", size: 2, cycles: 5, bonus_cycle_on_page_cross: true, mode: AddressingMode::Indirect_Y, instruction: Instruction::EOR },
            0x52u8 => OpCode { code: 0x52, mnemonics: "*KIL", size: 1, cycles: 0, bonus_cycle_on_page_cross: false, mode: AddressingMode::NonAddressing, instruction: Instruction::KIL },
            0x53u8 => OpCode { code: 0x53, mnemonics: "*SRE", size: 2, cycles: 8, bonus_cycle_on_page_cross: false, mode: AddressingMode::Indirect_Y, instruction: Instruction::SRE },
            0x54u8 => OpCode { code: 0x54, mnemonics: "*NOP", size: 2, cycles: 4, bonus_cycle_on_page_cross: false, mode: AddressingMode::ZeroPage_X, instruction: Instruction::NOP },
            0x55u8 => OpCode { code: 0x55, mnemonics: "EOR", size: 2, cycles: 4, bonus_cycle_on_page_cross: false, mode: AddressingMode::ZeroPage_X, instruction: Instruction::EOR },
            0x56u8 => OpCode { code: 0x56, mnemonics: "LSR", size: 2, cycles: 6, bonus_cycle_on_page_cross: false, mode: AddressingMode::ZeroPage_X, instruction: Instruction::LSR },
            0x57u8 => OpCode { code: 0x57, mnemonics: "*SRE", size: 2, cycles: 6, bonus_cycle_on_page_cross: false, mode: AddressingMode::ZeroPage_X, instruction: Instruction::SRE },
            0x58u8 => OpCode { code: 0x58, mnemonics: "CLI", size: 1, cycles: 2, bonus_cycle_on_page_cross: false, mode: AddressingMode::NonAddressing, instruction: Instruction::CLI },
            0x59u8 => OpCode { code: 0x59, mnemonics: "EOR", size: 3, cycles: 4, bonus_cycle_on_page_cross: true, mode: AddressingMode::Absolute_Y, instruction: Instruction::EOR },
            0x5Au8 => OpCode { code: 0x5A, mnemonics: "*NOP", size: 1, cycles: 2, bonus_cycle_on_page_cross: false, mode: AddressingMode::NonAddressing, instruction: Instruction::NOP },
            0x5Bu8 => OpCode { code: 0x5B, mnemonics: "*SRE", size: 3, cycles: 7, bonus_cycle_on_page_cross: false, mode: AddressingMode::Absolute_Y, instruction: Instruction::SRE },
            0x5Cu8 => OpCode { code: 0x5C, mnemonics: "*NOP", size: 3, cycles: 4, bonus_cycle_on_page_cross: true, mode: AddressingMode::Absolute_X, instruction: Instruction::NOP },
            0x5Du8 => OpCode { code: 0x5D, mnemonics: "EOR", size: 3, cycles: 4, bonus_cycle_on_page_cross: true, mode: AddressingMode::Absolute_X, instruction: Instruction::EOR },
            0x5Eu8 => OpCode { code: 0x5E, mnemonics: "LSR", size: 3, cycles: 7, bonus_cycle_on_page_cross: false, mode: AddressingMode::Absolute_X, instruction: Instruction::LSR },
            0x5Fu8 => OpCode { code: 0x5F, mnemonics: "*SRE", size: 3, cycles: 7, bonus_cycle_on_page_cross: false, mode: AddressingMode::Absolute_X, instruction: Instruction::SRE },
            0x60u8 => OpCode { code: 0x60, mnemonics: "RTS", size: 1, cycles: 6, bonus_cycle_on_page_cross: false, mode: AddressingMode::NonAddressing, instruction: Instruction::RTS },
            0x61u8 => OpCode { code: 0x61, mnemonics: "ADC", size: 2, cycles: 6, bonus_cycle_on_page_cross: false, mode: AddressingMode::Indirect_X, instruction: Instruction::ADC },
            0x62u8 => OpCode { code: 0x62, mnemonics: "*KIL", size: 1, cycles: 0, bonus_cycle_on_page_cross: false, mode: AddressingMode::NonAddressing, instruction: Instruction::KIL },
            0x63u8 => OpCode { code: 0x63, mnemonics: "*RRA", size: 2, cycles: 8, bonus_cycle_on_page_cross: false, mode: AddressingMode::Indirect_X, instruction: Instruction::RRA },
            0x64u8 => OpCode { code: 0x64, mnemonics: "*NOP", size: 2, cycles: 3, bonus_cycle_on_page_cross: false, mode: AddressingMode::ZeroPage, instruction: Instruction::NOP },
            0x65u8 => OpCode { code: 0x65, mnemonics: "ADC", size: 2, cycles: 3, bonus_cycle_on_page_cross: false, mode: AddressingMode::ZeroPage, instruction: Instruction::ADC },
            0x66u8 => OpCode { code: 0x66, mnemonics: "ROR", size: 2, cycles: 5, bonus_cycle_on_page_cross: false, mode: AddressingMode::ZeroPage, instruction: Instruction::ROR },
            0x67u8 => OpCode { code: 0x67, mnemonics: "*RRA", size: 2, cycles: 5, bonus_cycle_on_page_cross: false, mode: AddressingMode::ZeroPage, instruction: Instruction::RRA },
            0x68u8 => OpCode { code: 0x68, mnemonics: "PLA", size: 1, cycles: 4, bonus_cycle_on_page_cross: false, mode: AddressingMode::NonAddressing, instruction: Instruction::PLA },
            0x69u8 => OpCode { code: 0x69, mnemonics: "ADC", size: 2, cycles: 2, bonus_cycle_on_page_cross: false, mode: AddressingMode::Immediate, instruction: Instruction::ADC },
            0x6Au8 => OpCode { code: 0x6A, mnemonics: "ROR", size: 1, cycles: 2, bonus_cycle_on_page_cross: false, mode: AddressingMode::Accumulator, instruction: Instruction::ROR },
            0x6Bu8 => OpCode { code: 0x6B, mnemonics: "*ARR", size: 2, cycles: 2, bonus_cycle_on_page_cross: false, mode: AddressingMode::Immediate, instruction: Instruction::ARR },
            0x6Cu8 => OpCode { code: 0x6C, mnemonics: "JMP", size: 3, cycles: 5, bonus_cycle_on_page_cross: false, mode: AddressingMode::Indirect, instruction: Instruction::JMP },
            0x6Du8 => OpCode { code: 0x6D, mnemonics: "ADC", size: 3, cycles: 4, bonus_cycle_on_page_cross: false, mode: AddressingMode::Absolute, instruction: Instruction::ADC },
            0x6Eu8 => OpCode { code: 0x6E, mnemonics: "ROR", size: 3, cycles: 6, bonus_cycle_on_page_cross: false, mode: AddressingMode::Absolute, instruction: Instruction::ROR },
            0x6Fu8 => OpCode { code: 0x6F, mnemonics: "*RRA", size: 3, cycles: 6, bonus_cycle_on_page_cross: false, mode: AddressingMode::Absolute, instruction: Instruction::RRA },
            0x70u8 => OpCode { code: 0x70, mnemonics: "BVS", size: 2, cycles: 2, bonus_cycle_on_page_cross: false, mode: AddressingMode::Relative, instruction: Instruction::BVS },
            0x71u8 => OpCode { code: 0x71, mnemonics: "ADC", size: 2, cycles: 5, bonus_cycle_on_page_cross: true, mode: AddressingMode::Indirect_Y, instruction: Instruction::ADC },
            0x72u8 => OpCode { code: 0x72, mnemonics: "*KIL", size: 1, cycles: 0, bonus_cycle_on_page_cross: false, mode: AddressingMode::NonAddressing, instruction: Instruction::KIL },
            0x73u8 => OpCode { code: 0x73, mnemonics: "*RRA", size: 2, cycles: 8, bonus_cycle_on_page_cross: false, mode: AddressingMode::Indirect_Y, instruction: Instruction::RRA },
            0x74u8 => OpCode { code: 0x74, mnemonics: "*NOP", size: 2, cycles: 4, bonus_cycle_on_page_cross: false, mode: AddressingMode::ZeroPage_X, instruction: Instruction::NOP },
            0x75u8 => OpCode { code: 0x75, mnemonics: "ADC", size: 2, cycles: 4, bonus_cycle_on_page_cross: false, mode: AddressingMode::ZeroPage_X, instruction: Instruction::ADC },
            0x76u8 => OpCode { code: 0x76, mnemonics: "ROR", size: 2, cycles: 6, bonus_cycle_on_page_cross: false, mode: AddressingMode::ZeroPage_X, instruction: Instruction::ROR },
            0x77u8 => OpCode { code: 0x77, mnemonics: "*RRA", size: 2, cycles: 6, bonus_cycle_on_page_cross: false, mode: AddressingMode::ZeroPage_X, instruction: Instruction::RRA },
            0x78u8 => OpCode { code: 0x78, mnemonics: "SEI", size: 1, cycles: 2, bonus_cycle_on_page_cross: false, mode: AddressingMode::NonAddressing, instruction: Instruction::SEI },
            0x79u8 => OpCode { code: 0x79, mnemonics: "ADC", size: 3, cycles: 4, bonus_cycle_on_page_cross: true, mode: AddressingMode::Absolute_Y, instruction: Instruction::ADC },
            0x7Au8 => OpCode { code: 0x7A, mnemonics: "*NOP", size: 1, cycles: 2, bonus_cycle_on_page_cross: false, mode: AddressingMode::NonAddressing, instruction: Instruction::NOP },
            0x7Bu8 => OpCode { code: 0x7B, mnemonics: "*RRA", size: 3, cycles: 7, bonus_cycle_on_page_cross: false, mode: AddressingMode::Absolute_Y, instruction: Instruction::RRA },
            0x7Cu8 => OpCode { code: 0x7C, mnemonics: "*NOP", size: 3, cycles: 4, bonus_cycle_on_page_cross: true, mode: AddressingMode::Absolute_X, instruction: Instruction::NOP },
            0x7Du8 => OpCode { code: 0x7D, mnemonics: "ADC", size: 3, cycles: 4, bonus_cycle_on_page_cross: true, mode: AddressingMode::Absolute_X, instruction: Instruction::ADC },
            0x7Eu8 => OpCode { code: 0x7E, mnemonics: "ROR", size: 3, cycles: 7, bonus_cycle_on_page_cross: false, mode: AddressingMode::Absolute_X, instruction: Instruction::ROR },
            0x7Fu8 => OpCode { code: 0x7F, mnemonics: "*RRA", size: 3, cycles: 7, bonus_cycle_on_page_cross: false, mode: AddressingMode::Absolute_X, instruction: Instruction::RRA },
            0x80u8 => OpCode { code: 0x80, mnemonics: "*NOP", size: 2, cycles: 2, bonus_cycle_on_page_cross: false, mode: AddressingMode::Immediate, instruction: Instruction::NOP },
            0x81u8 => OpCode { code: 0x81, mnemonics: "STA", size: 2, cycles: 6, bonus_cycle_on_page_cross: false, mode: AddressingMode::Indirect_X, instruction: Instruction::STA },
            0x82u8 => OpCode { code: 0x82, mnemonics: "*NOP", size: 2, cycles: 2, bonus_cycle_on_page_cross: false, mode: AddressingMode::Immediate, instruction: Instruction::NOP },
            0x83u8 => OpCode { code: 0x83, mnemonics: "*SAX", size: 2, cycles: 6, bonus_cycle_on_page_cross: false, mode: AddressingMode::Indirect_X, instruction: Instruction::SAX },
            0x84u8 => OpCode { code: 0x84, mnemonics: "STY", size: 2, cycles: 3, bonus_cycle_on_page_cross: false, mode: AddressingMode::ZeroPage, instruction: Instruction::STY },
            0x85u8 => OpCode { code: 0x85, mnemonics: "STA", size: 2, cycles: 3, bonus_cycle_on_page_cross: false, mode: AddressingMode::ZeroPage, instruction: Instruction::STA },
            0x86u8 => OpCode { code: 0x86, mnemonics: "STX", size: 2, cycles: 3, bonus_cycle_on_page_cross: false, mode: AddressingMode::ZeroPage, instruction: Instruction::STX },
            0x87u8 => OpCode { code: 0x87, mnemonics: "*SAX", size: 2, cycles: 3, bonus_cycle_on_page_cross: false, mode: AddressingMode::ZeroPage, instruction: Instruction::SAX },
            0x88u8 => OpCode { code: 0x88, mnemonics: "DEY", size: 1, cycles: 2, bonus_cycle_on_page_cross: false, mode: AddressingMode::NonAddressing, instruction: Instruction::DEY },
            0x89u8 => OpCode { code: 0x89, mnemonics: "*NOP", size: 2, cycles: 2, bonus_cycle_on_page_cross: false, mode: AddressingMode::Immediate, instruction: Instruction::NOP },
            0x8Au8 => OpCode { code: 0x8A, mnemonics: "TXA", size: 1, cycles: 2, bonus_cycle_on_page_cross: false, mode: AddressingMode::NonAddressing, instruction: Instruction::TXA },
            0x8Bu8 => OpCode { code: 0x8B, mnemonics: "*XAA", size: 2, cycles: 2, bonus_cycle_on_page_cross: false, mode: AddressingMode::Immediate, instruction: Instruction::XAA },
            0x8Cu8 => OpCode { code: 0x8C, mnemonics: "STY", size: 3, cycles: 4, bonus_cycle_on_page_cross: false, mode: AddressingMode::Absolute, instruction: Instruction::STY },
            0x8Du8 => OpCode { code: 0x8D, mnemonics: "STA", size: 3, cycles: 4, bonus_cycle_on_page_cross: false, mode: AddressingMode::Absolute, instruction: Instruction::STA },
            0x8Eu8 => OpCode { code: 0x8E, mnemonics: "STX", size: 3, cycles: 4, bonus_cycle_on_page_cross: false, mode: AddressingMode::Absolute, instruction: Instruction::STX },
            0x8Fu8 => OpCode { code: 0x8F, mnemonics: "*SAX", size: 3, cycles: 4, bonus_cycle_on_page_cross: false, mode: AddressingMode::Absolute, instruction: Instruction::SAX },
            0x90u8 => OpCode { code: 0x90, mnemonics: "BCC", size: 2, cycles: 2, bonus_cycle_on_page_cross: false, mode: AddressingMode::Relative, instruction: Instruction::BCC },
            0x91u8 => OpCode { code: 0x91, mnemonics: "STA", size: 2, cycles: 6, bonus_cycle_on_page_cross: false, mode: AddressingMode::Indirect_Y, instruction: Instruction::STA },
            0x92u8 => OpCode { code: 0x92, mnemonics: "*KIL", size: 1, cycles: 0, bonus_cycle_on_page_cross: false, mode: AddressingMode::NonAddressing, instruction: Instruction::KIL },
            0x93u8 => OpCode { code: 0x93, mnemonics: "*AXA", size: 2, cycles: 6, bonus_cycle_on_page_cross: false, mode: AddressingMode::Indirect_Y, instruction: Instruction::AXA },
            0x94u8 => OpCode { code: 0x94, mnemonics: "STY", size: 2, cycles: 4, bonus_cycle_on_page_cross: false, mode: AddressingMode::ZeroPage_X, instruction: Instruction::STY },
            0x95u8 => OpCode { code: 0x95, mnemonics: "STA", size: 2, cycles: 4, bonus_cycle_on_page_cross: false, mode: AddressingMode::ZeroPage_X, instruction: Instruction::STA },
            0x96u8 => OpCode { code: 0x96, mnemonics: "STX", size: 2, cycles: 4, bonus_cycle_on_page_cross: false, mode: AddressingMode::ZeroPage_Y, instruction: Instruction::STX },
            0x97u8 => OpCode { code: 0x97, mnemonics: "*SAX", size: 2, cycles: 4, bonus_cycle_on_page_cross: false, mode: AddressingMode::ZeroPage_Y, instruction: Instruction::SAX },
            0x98u8 => OpCode { code: 0x98, mnemonics: "TYA", size: 1, cycles: 2, bonus_cycle_on_page_cross: false, mode: AddressingMode::NonAddressing, instruction: Instruction::TYA },
            0x99u8 => OpCode { code: 0x99, mnemonics: "STA", size: 3, cycles: 5, bonus_cycle_on_page_cross: false, mode: AddressingMode::Absolute_Y, instruction: Instruction::STA },
            0x9Au8 => OpCode { code: 0x9A, mnemonics: "TXS", size: 1, cycles: 2, bonus_cycle_on_page_cross: false, mode: AddressingMode::NonAddressing, instruction: Instruction::TXS },
            0x9Bu8 => OpCode { code: 0x9B, mnemonics: "*XAS", size: 3, cycles: 5, bonus_cycle_on_page_cross: false, mode: AddressingMode::Absolute_Y, instruction: Instruction::XAS },
            0x9Cu8 => OpCode { code: 0x9C, mnemonics: "*SYA", size: 3, cycles: 5, bonus_cycle_on_page_cross: false, mode: AddressingMode::Absolute_X, instruction: Instruction::SYA },
            0x9Du8 => OpCode { code: 0x9D, mnemonics: "STA", size: 3, cycles: 5, bonus_cycle_on_page_cross: false, mode: AddressingMode::Absolute_X, instruction: Instruction::STA },
            0x9Eu8 => OpCode { code: 0x9E, mnemonics: "*SXA", size: 3, cycles: 5, bonus_cycle_on_page_cross: false, mode: AddressingMode::Absolute_Y, instruction: Instruction::SXA },
            0x9Fu8 => OpCode { code: 0x9F, mnemonics: "*AXA", size: 3, cycles: 5, bonus_cycle_on_page_cross: false, mode: AddressingMode::Absolute_Y, instruction: Instruction::AXA },
            0xA0u8 => OpCode { code: 0xA0, mnemonics: "LDY", size: 2, cycles: 2, bonus_cycle_on_page_cross: false, mode: AddressingMode::Immediate, instruction: Instruction::LDY },
            0xA1u8 => OpCode { code: 0xA1, mnemonics: "LDA", size: 2, cycles: 6, bonus_cycle_on_page_cross: false, mode: AddressingMode::Indirect_X, instruction: Instruction::LDA },
            0xA2u8 => OpCode { code: 0xA2, mnemonics: "LDX", size: 2, cycles: 2, bonus_cycle_on_page_cross: false, mode: AddressingMode::Immediate, instruction: Instruction::LDX },
            0xA3u8 => OpCode { code: 0xA3, mnemonics: "*LAX", size: 2, cycles: 6, bonus_cycle_on_page_cross: false, mode: AddressingMode::Indirect_X, instruction: Instruction::LAX },
            0xA4u8 => OpCode { code: 0xA4, mnemonics: "LDY", size: 2, cycles: 3, bonus_cycle_on_page_cross: false, mode: AddressingMode::ZeroPage, instruction: Instruction::LDY },
            0xA5u8 => OpCode { code: 0xA5, mnemonics: "LDA", size: 2, cycles: 3, bonus_cycle_on_page_cross: false, mode: AddressingMode::ZeroPage, instruction: Instruction::LDA },
            0xA6u8 => OpCode { code: 0xA6, mnemonics: "LDX", size: 2, cycles: 3, bonus_cycle_on_page_cross: false, mode: AddressingMode::ZeroPage, instruction: Instruction::LDX },
            0xA7u8 => OpCode { code: 0xA7, mnemonics: "*LAX", size: 2, cycles: 3, bonus_cycle_on_page_cross: false, mode: AddressingMode::ZeroPage, instruction: Instruction::LAX },
            0xA8u8 => OpCode { code: 0xA8, mnemonics: "TAY", size: 1, cycles: 2, bonus_cycle_on_page_cross: false, mode: AddressingMode::NonAddressing, instruction: Instruction::TAY },
            0xA9u8 => OpCode { code: 0xA9, mnemonics: "LDA", size: 2, cycles: 2, bonus_cycle_on_page_cross: false, mode: AddressingMode::Immediate, instruction: Instruction::LDA },
            0xAAu8 => OpCode { code: 0xAA, mnemonics: "TAX", size: 1, cycles: 2, bonus_cycle_on_page_cross: false, mode: AddressingMode::NonAddressing, instruction: Instruction::TAX },
            0xABu8 => OpCode { code: 0xAB, mnemonics: "*ATX", size: 2, cycles: 2, bonus_cycle_on_page_cross: false, mode: AddressingMode::Immediate, instruction: Instruction::ATX },
            0xACu8 => OpCode { code: 0xAC, mnemonics: "LDY", size: 3, cycles: 4, bonus_cycle_on_page_cross: false, mode: AddressingMode::Absolute, instruction: Instruction::LDY },
            0xADu8 => OpCode { code: 0xAD, mnemonics: "LDA", size: 3, cycles: 4, bonus_cycle_on_page_cross: false, mode: AddressingMode::Absolute, instruction: Instruction::LDA },
            0xAEu8 => OpCode { code: 0xAE, mnemonics: "LDX", size: 3, cycles: 4, bonus_cycle_on_page_cross: false, mode: AddressingMode::Absolute, instruction: Instruction::LDX },
            0xAFu8 => OpCode { code: 0xAF, mnemonics: "*LAX", size: 3, cycles: 4, bonus_cycle_on_page_cross: false, mode: AddressingMode::Absolute, instruction: Instruction::LAX },
            0xB0u8 => OpCode { code: 0xB0, mnemonics: "BCS", size: 2, cycles: 2, bonus_cycle_on_page_cross: false, mode: AddressingMode::Relative, instruction: Instruction::BCS },
            0xB1u8 => OpCode { code: 0xB1, mnemonics: "LDA", size: 2, cycles: 5, bonus_cycle_on_page_cross: true, mode: AddressingMode::Indirect_Y, instruction: Instruction::LDA },
            0xB2u8 => OpCode { code: 0xB2, mnemonics: "*KIL", size: 1, cycles: 0, bonus_cycle_on_page_cross: false, mode: AddressingMode::NonAddressing, instruction: Instruction::KIL },
            0xB3u8 => OpCode { code: 0xB3, mnemonics: "*LAX", size: 2, cycles: 5, bonus_cycle_on_page_cross: true, mode: AddressingMode::Indirect_Y, instruction: Instruction::LAX },
            0xB4u8 => OpCode { code: 0xB4, mnemonics: "LDY", size: 2, cycles: 4, bonus_cycle_on_page_cross: false, mode: AddressingMode::ZeroPage_X, instruction: Instruction::LDY },
            0xB5u8 => OpCode { code: 0xB5, mnemonics: "LDA", size: 2, cycles: 4, bonus_cycle_on_page_cross: false, mode: AddressingMode::ZeroPage_X, instruction: Instruction::LDA },
            0xB6u8 => OpCode { code: 0xB6, mnemonics: "LDX", size: 2, cycles: 4, bonus_cycle_on_page_cross: false, mode: AddressingMode::ZeroPage_Y, instruction: Instruction::LDX },
            0xB7u8 => OpCode { code: 0xB7, mnemonics: "*LAX", size: 2, cycles: 4, bonus_cycle_on_page_cross: false, mode: AddressingMode::ZeroPage_Y, instruction: Instruction::LAX },
            0xB8u8 => OpCode { code: 0xB8, mnemonics: "CLV", size: 1, cycles: 2, bonus_cycle_on_page_cross: false, mode: AddressingMode::NonAddressing, instruction: Instruction::CLV },
            0xB9u8 => OpCode { code: 0xB9, mnemonics: "LDA", size: 3, cycles: 4, bonus_cycle_on_page_cross: true, mode: AddressingMode::Absolute_Y, instruction: Instruction::LDA },
            0xBAu8 => OpCode { code: 0xBA, mnemonics: "TSX", size: 1, cycles: 2, bonus_cycle_on_page_cross: false, mode: AddressingMode::NonAddressing, instruction: Instruction::TSX },
            0xBBu8 => OpCode { code: 0xBB, mnemonics: "*LAR", size: 3, cycles: 4, bonus_cycle_on_page_cross: true, mode: AddressingMode::Absolute_Y, instruction: Instruction::LAR },
            0xBCu8 => OpCode { code: 0xBC, mnemonics: "LDY", size: 3, cycles: 4, bonus_cycle_on_page_cross: true, mode: AddressingMode::Absolute_X, instruction: Instruction::LDY },
            0xBDu8 => OpCode { code: 0xBD, mnemonics: "LDA", size: 3, cycles: 4, bonus_cycle_on_page_cross: true, mode: AddressingMode::Absolute_X, instruction: Instruction::LDA },
            0xBEu8 => OpCode { code: 0xBE, mnemonics: "LDX", size: 3, cycles: 4, bonus_cycle_on_page_cross: true, mode: AddressingMode::Absolute_Y, instruction: Instruction::LDX },
            0xBFu8 => OpCode { code: 0xBF, mnemonics: "*LAX", size: 3, cycles: 4, bonus_cycle_on_page_cross: true, mode: AddressingMode::Absolute_Y, instruction: Instruction::LAX },
            0xC0u8 => OpCode { code: 0xC0, mnemonics: "CPY", size: 2, cycles: 2, bonus_cycle_on_page_cross: false, mode: AddressingMode::Immediate, instruction: Instruction::CPY },
            0xC1u8 => OpCode { code: 0xC1, mnemonics: "CMP", size: 2, cycles: 6, bonus_cycle_on_page_cross: false, mode: AddressingMode::Indirect_X, instruction: Instruction::CMP },
            0xC2u8 => OpCode { code: 0xC2, mnemonics: "*NOP", size: 2, cycles: 2, bonus_cycle_on_page_cross: false, mode: AddressingMode::Immediate, instruction: Instruction::NOP },
            0xC3u8 => OpCode { code: 0xC3, mnemonics: "*DCP", size: 2, cycles: 8, bonus_cycle_on_page_cross: false, mode: AddressingMode::Indirect_X, instruction: Instruction::DCP },
            0xC4u8 => OpCode { code: 0xC4, mnemonics: "CPY", size: 2, cycles: 3, bonus_cycle_on_page_cross: false, mode: AddressingMode::ZeroPage, instruction: Instruction::CPY },
            0xC5u8 => OpCode { code: 0xC5, mnemonics: "CMP", size: 2, cycles: 3, bonus_cycle_on_page_cross: false, mode: AddressingMode::ZeroPage, instruction: Instruction::CMP },
            0xC6u8 => OpCode { code: 0xC6, mnemonics: "DEC", size: 2, cycles: 5, bonus_cycle_on_page_cross: false, mode: AddressingMode::ZeroPage, instruction: Instruction::DEC },
            0xC7u8 => OpCode { code: 0xC7, mnemonics: "*DCP", size: 2, cycles: 5, bonus_cycle_on_page_cross: false, mode: AddressingMode::ZeroPage, instruction: Instruction::DCP },
            0xC8u8 => OpCode { code: 0xC8, mnemonics: "INY", size: 1, cycles: 2, bonus_cycle_on_page_cross: false, mode: AddressingMode::NonAddressing, instruction: Instruction::INY },
            0xC9u8 => OpCode { code: 0xC9, mnemonics: "CMP", size: 2, cycles: 2, bonus_cycle_on_page_cross: false, mode: AddressingMode::Immediate, instruction: Instruction::CMP },
            0xCAu8 => OpCode { code: 0xCA, mnemonics: "DEX", size: 1, cycles: 2, bonus_cycle_on_page_cross: false, mode: AddressingMode::NonAddressing, instruction: Instruction::DEX },
            0xCBu8 => OpCode { code: 0xCB, mnemonics: "*AXS", size: 2, cycles: 2, bonus_cycle_on_page_cross: false, mode: AddressingMode::Immediate, instruction: Instruction::AXS },
            0xCCu8 => OpCode { code: 0xCC, mnemonics: "CPY", size: 3, cycles: 4, bonus_cycle_on_page_cross: false, mode: AddressingMode::Absolute, instruction: Instruction::CPY },
            0xCDu8 => OpCode { code: 0xCD, mnemonics: "CMP", size: 3, cycles: 4, bonus_cycle_on_page_cross: false, mode: AddressingMode::Absolute, instruction: Instruction::CMP },
            0xCEu8 => OpCode { code: 0xCE, mnemonics: "DEC", size: 3, cycles: 6, bonus_cycle_on_page_cross: false, mode: AddressingMode::Absolute, instruction: Instruction::DEC },
            0xCFu8 => OpCode { code: 0xCF, mnemonics: "*DCP", size: 3, cycles: 6, bonus_cycle_on_page_cross: false, mode: AddressingMode::Absolute, instruction: Instruction::DCP },
            0xD0u8 => OpCode { code: 0xD0, mnemonics: "BNE", size: 2, cycles: 2, bonus_cycle_on_page_cross: false, mode: AddressingMode::Relative, instruction: Instruction::BNE },
            0xD1u8 => OpCode { code: 0xD1, mnemonics: "CMP", size: 2, cycles: 5, bonus_cycle_on_page_cross: true, mode: AddressingMode::Indirect_Y, instruction: Instruction::CMP },
            0xD2u8 => OpCode { code: 0xD2, mnemonics: "*KIL", size: 1, cycles: 0, bonus_cycle_on_page_cross: false, mode: AddressingMode::NonAddressing, instruction: Instruction::KIL },
            0xD3u8 => OpCode { code: 0xD3, mnemonics: "*DCP", size: 2, cycles: 8, bonus_cycle_on_page_cross: false, mode: AddressingMode::Indirect_Y, instruction: Instruction::DCP },
            0xD4u8 => OpCode { code: 0xD4, mnemonics: "*NOP", size: 2, cycles: 4, bonus_cycle_on_page_cross: false, mode: AddressingMode::ZeroPage_X, instruction: Instruction::NOP },
            0xD5u8 => OpCode { code: 0xD5, mnemonics: "CMP", size: 2, cycles: 4, bonus_cycle_on_page_cross: false, mode: AddressingMode::ZeroPage_X, instruction: Instruction::CMP },
            0xD6u8 => OpCode { code: 0xD6, mnemonics: "DEC", size: 2, cycles: 6, bonus_cycle_on_page_cross: false, mode: AddressingMode::ZeroPage_X, instruction: Instruction::DEC },
            0xD7u8 => OpCode { code: 0xD7, mnemonics: "*DCP", size: 2, cycles: 6, bonus_cycle_on_page_cross: false, mode: AddressingMode::ZeroPage_X, instruction: Instruction::DCP },
            0xD8u8 => OpCode { code: 0xD8, mnemonics: "CLD", size: 1, cycles: 2, bonus_cycle_on_page_cross: false, mode: AddressingMode::NonAddressing, instruction: Instruction::CLD },
            0xD9u8 => OpCode { code: 0xD9, mnemonics: "CMP", size: 3, cycles: 4, bonus_cycle_on_page_cross: true, mode: AddressingMode::Absolute_Y, instruction: Instruction::CMP },
            0xDAu8 => OpCode { code: 0xDA, mnemonics: "*NOP", size: 1, cycles: 2, bonus_cycle_on_page_cross: false, mode: AddressingMode::NonAddressing, instruction: Instruction::NOP },
            0xDBu8 => OpCode { code: 0xDB, mnemonics: "*DCP", size: 3, cycles: 7, bonus_cycle_on_page_cross: false, mode: AddressingMode::Absolute_Y, instruction: Instruction::DCP },
            0xDCu8 => OpCode { code: 0xDC, mnemonics: "*NOP", size: 3, cycles: 4, bonus_cycle_on_page_cross: true, mode: AddressingMode::Absolute_X, instruction: Instruction::NOP },
            0xDDu8 => OpCode { code: 0xDD, mnemonics: "CMP", size: 3, cycles: 4, bonus_cycle_on_page_cross: true, mode: AddressingMode::Absolute_X, instruction: Instruction::CMP },
            0xDEu8 => OpCode { code: 0xDE, mnemonics: "DEC", size: 3, cycles: 7, bonus_cycle_on_page_cross: false, mode: AddressingMode::Absolute_X, instruction: Instruction::DEC },
            0xDFu8 => OpCode { code: 0xDF, mnemonics: "*DCP", size: 3, cycles: 7, bonus_cycle_on_page_cross: false, mode: AddressingMode::Absolute_X, instruction: Instruction::DCP },
            0xE0u8 => OpCode { code: 0xE0, mnemonics: "CPX", size: 2, cycles: 2, bonus_cycle_on_page_cross: false, mode: AddressingMode::Immediate, instruction: Instruction::CPX },
            0xE1u8 => OpCode { code: 0xE1, mnemonics: "SBC", size: 2, cycles: 6, bonus_cycle_on_page_cross: false, mode: AddressingMode::Indirect_X, instruction: Instruction::SBC },
            0xE2u8 => OpCode { code: 0xE2, mnemonics: "*NOP", size: 2, cycles: 2, bonus_cycle_on_page_cross: false, mode: AddressingMode::Immediate, instruction: Instruction::NOP },
            0xE3u8 => OpCode { code: 0xE3, mnemonics: "*ISB", size: 2, cycles: 8, bonus_cycle_on_page_cross: false, mode: AddressingMode::Indirect_X, instruction: Instruction::ISB },
            0xE4u8 => OpCode { code: 0xE4, mnemonics: "CPX", size: 2, cycles: 3, bonus_cycle_on_page_cross: false, mode: AddressingMode::ZeroPage, instruction: Instruction::CPX },
            0xE5u8 => OpCode { code: 0xE5, mnemonics: "SBC", size: 2, cycles: 3, bonus_cycle_on_page_cross: false, mode: AddressingMode::ZeroPage, instruction: Instruction::SBC },
            0xE6u8 => OpCode { code: 0xE6, mnemonics: "INC", size: 2, cycles: 5, bonus_cycle_on_page_cross: false, mode: AddressingMode::ZeroPage, instruction: Instruction::INC },
            0xE7u8 => OpCode { code: 0xE7, mnemonics: "*ISB", size: 2, cycles: 5, bonus_cycle_on_page_cross: false, mode: AddressingMode::ZeroPage, instruction: Instruction::ISB },
            0xE8u8 => OpCode { code: 0xE8, mnemonics: "INX", size: 1, cycles: 2, bonus_cycle_on_page_cross: false, mode: AddressingMode::NonAddressing, instruction: Instruction::INX },
            0xE9u8 => OpCode { code: 0xE9, mnemonics: "SBC", size: 2, cycles: 2, bonus_cycle_on_page_cross: false, mode: AddressingMode::Immediate, instruction: Instruction::SBC },
            0xEAu8 => OpCode { code: 0xEA, mnemonics: "NOP", size: 1, cycles: 2, bonus_cycle_on_page_cross: false, mode: AddressingMode::NonAddressing, instruction: Instruction::NOP },
            0xEBu8 => OpCode { code: 0xEB, mnemonics: "*SBC", size: 2, cycles: 2, bonus_cycle_on_page_cross: false, mode: AddressingMode::Immediate, instruction: Instruction::SBC },
            0xECu8 => OpCode { code: 0xEC, mnemonics: "CPX", size: 3, cycles: 4, bonus_cycle_on_page_cross: false, mode: AddressingMode::Absolute, instruction: Instruction::CPX },
            0xEDu8 => OpCode { code: 0xED, mnemonics: "SBC", size: 3, cycles: 4, bonus_cycle_on_page_cross: false, mode: AddressingMode::Absolute, instruction: Instruction::SBC },
            0xEEu8 => OpCode { code: 0xEE, mnemonics: "INC", size: 3, cycles: 6, bonus_cycle_on_page_cross: false, mode: AddressingMode::Absolute, instruction: Instruction::INC },
            0xEFu8 => OpCode { code: 0xEF, mnemonics: "*ISB", size: 3, cycles: 6, bonus_cycle_on_page_cross: false, mode: AddressingMode::Absolute, instruction: Instruction::ISB },
            0xF0u8 => OpCode { code: 0xF0, mnemonics: "BEQ", size: 2, cycles: 2, bonus_cycle_on_page_cross: false, mode: AddressingMode::Relative, instruction: Instruction::BEQ },
            0xF1u8 => OpCode { code: 0xF1, mnemonics: "SBC", size: 2, cycles: 5, bonus_cycle_on_page_cross: true, mode: AddressingMode::Indirect_Y, instruction: Instruction::SBC },
            0xF2u8 => OpCode { code: 0xF2, mnemonics: "*KIL", size: 1, cycles: 0, bonus_cycle_on_page_cross: false, mode: AddressingMode::NonAddressing, instruction: Instruction::KIL },
            0xF3u8 => OpCode { code: 0xF3, mnemonics: "*ISB", size: 2, cycles: 8, bonus_cycle_on_page_cross: false, mode: AddressingMode::Indirect_Y, instruction: Instruction::ISB },
            0xF4u8 => OpCode { code: 0xF4, mnemonics: "*NOP", size: 2, cycles: 4, bonus_cycle_on_page_cross: false, mode: AddressingMode::ZeroPage_X, instruction: Instruction::NOP },
            0xF5u8 => OpCode { code: 0xF5, mnemonics: "SBC", size: 2, cycles: 4, bonus_cycle_on_page_cross: false, mode: AddressingMode::ZeroPage_X, instruction: Instruction::SBC },
            0xF6u8 => OpCode { code: 0xF6, mnemonics: "INC", size: 2, cycles: 6, bonus_cycle_on_page_cross: false, mode: AddressingMode::ZeroPage_X, instruction: Instruction::INC },
            0xF7u8 => OpCode { code: 0xF7, mnemonics: "*ISB", size: 2, cycles: 6, bonus_cycle_on_page_cross: false, mode: AddressingMode::ZeroPage_X, instruction: Instruction::ISB },
            0xF8u8 => OpCode { code: 0xF8, mnemonics: "SED", size: 1, cycles: 2, bonus_cycle_on_page_cross: false, mode: AddressingMode::NonAddressing, instruction: Instruction::SED },
            0xF9u8 => OpCode { code: 0xF9, mnemonics: "SBC", size: 3, cycles: 4, bonus_cycle_on_page_cross: true, mode: AddressingMode::Absolute_Y, instruction: Instruction::SBC },
            0xFAu8 => OpCode { code: 0xFA, mnemonics: "*NOP", size: 1, cycles: 2, bonus_cycle_on_page_cross: false, mode: AddressingMode::NonAddressing, instruction: Instruction::NOP },
            0xFBu8 => OpCode { code: 0xFB, mnemonics: "*ISB", size: 3, cycles: 7, bonus_cycle_on_page_cross: false, mode: AddressingMode::Absolute_Y, instruction: Instruction::ISB },
            0xFCu8 => OpCode { code: 0xFC, mnemonics: "*NOP", size: 3, cycles: 4, bonus_cycle_on_page_cross: true, mode: AddressingMode::Absolute_X, instruction: Instruction::NOP },
            0xFDu8 => OpCode { code: 0xFD, mnemonics: "SBC", size: 3, cycles: 4, bonus_cycle_on_page_cross: true, mode: AddressingMode::Absolute_X, instruction: Instruction::SBC },
            0xFEu8 => OpCode { code: 0xFE, mnemonics: "INC", size: 3, cycles: 7, bonus_cycle_on_page_cross: false, mode: AddressingMode::Absolute_X, instruction: Instruction::INC },
            _ => OpCode { code: 0xFF, mnemonics: "*ISB", size: 3, cycles: 7, bonus_cycle_on_page_cross: false, mode: AddressingMode::Absolute_X, instruction: Instruction::ISB },
        }
    }

    /// Executes the instruction on `cpu` and moves the program counter past it.
    #[verifier::rlimit(60)]
    #[verifier::spinoff_prover]
    pub fn execute(&self, cpu: &mut CPU)
        requires
            fits(self.instruction, self.mode),
            old(cpu).additional_cycles <= 252,
        ensures
            final(cpu)@ == spec_execute(old(cpu)@, *self),
    {
        cpu.execute_instruction(self.instruction, &self.mode);
        let ghost s1 = cpu@;
        cpu.program_counter = cpu.program_counter.wrapping_add(self.size);
        assert(cpu@ == (CpuState { pc: wrap16(s1.pc as int + self.size as int), ..s1 }));
    }
}

/// The whole instruction table, indexed by opcode.
pub fn cpu_instructions() -> (r: Vec<OpCode>)
    ensures
        r@.len() == 256,
        forall|i: int| 0 <= i < 256 ==> r@[i] == opcode_spec(i as u8),
{
    let mut table: Vec<OpCode> = Vec::new();
    let mut i: u16 = 0;
    while i < 256
        invariant
            i <= 256,
            table@.len() == i,
            forall|j: int| 0 <= j < i ==> table@[j] == opcode_spec(j as u8),
        decreases 256 - i,
    {
        table.push(OpCode::from_code(i as u8));
        i = i + 1;
    }
    table
}

} // verus!
