use nes_rs::cpu::addressing_mode::AddressingMode;
use nes_rs::cpu::opcodes::cpu_instructions;
use std::collections::HashSet;

#[test]
fn test_size() {
    for opcode in cpu_instructions().iter() {
        // brk is special
        if opcode.code == 0x00 {
            assert_eq!(opcode.size, 0);
            continue;
        }
        match opcode.mode {
            AddressingMode::Accumulator => assert_eq!(opcode.size, 1),
            AddressingMode::Immediate => assert_eq!(opcode.size, 2),
            AddressingMode::ZeroPage => assert_eq!(opcode.size, 2),
            AddressingMode::ZeroPage_X => assert_eq!(opcode.size, 2),
            AddressingMode::ZeroPage_Y => assert_eq!(opcode.size, 2),
            AddressingMode::Absolute => assert_eq!(opcode.size, 3),
            AddressingMode::Absolute_X => assert_eq!(opcode.size, 3),
            AddressingMode::Absolute_Y => assert_eq!(opcode.size, 3),
            AddressingMode::Indirect => assert_eq!(opcode.size, 3),
            AddressingMode::Indirect_X => assert_eq!(opcode.size, 2),
            AddressingMode::Indirect_Y => assert_eq!(opcode.size, 2),
            AddressingMode::Relative => assert_eq!(opcode.size, 2),
            AddressingMode::NonAddressing => assert_eq!(opcode.size, 1),
        }
    }
}

#[test]
fn opcodes_test_for_duplicate_opcodes() {
    let mut set = HashSet::new();
    for opcode in cpu_instructions().iter().map(|opcode| opcode.code) {
        if set.contains(&opcode) {
            panic!("Duplicate opcode 0x{opcode:x}")
        } else {
            set.insert(opcode);
        }
    }
}

#[test]
fn test_for_missing_opcodes() {
    let table = cpu_instructions();
    for i in 0..0xFF {
        if table[i].mnemonics.is_empty() {
            println!("Instruction {i:02X} not found");
            panic!()
        }
    }
}

#[test]
fn opcodes_test_opcode_matches_key() {
    let table = cpu_instructions();
    for i in 0..0xFF {
        if table[i].code != i as u8 {
            panic!("Opcode 0x{:x} does not match key 0x{:x}", table[i].code, i)
        }
    }
}

#[test]
fn opcode_table_has_256_entries() {
    let table = cpu_instructions();
    assert_eq!(table.len(), 256);
    assert_eq!(table[0xA9].mnemonics, "LDA");
    assert_eq!(table[0xA9].mode, AddressingMode::Immediate);
    assert_eq!(table[0xEA].mnemonics, "NOP");
}

#[test]
fn test_for_duplicate_opcodes() {
    let mut set = HashSet::new();
    for opcode in cpu_instructions().iter().map(|oc| oc.code) {
        if set.contains(&opcode) {
            panic!("Duplicate opcode 0x{opcode:x}")
        } else {
            set.insert(opcode);
        }
    }
}

#[test]
fn test_opcode_matches_key() {
    for (key, opcode) in cpu_instructions().iter().enumerate().map(|(i, oc)| (i, oc.code)) {
        if key != opcode as usize {
            panic!("Opcode 0x{opcode:x} does not match key 0x{key:x}")
        }
    }
}
