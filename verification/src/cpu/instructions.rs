use vstd::prelude::*;
use crate::bus::{Mem, next_addr};
use crate::cpu::{
    CPU, CpuState, Flags, flag_set, with_flag, with_nz, set_bit, write_byte, push, top, popped,
    push_u16, top_u16, popped_u16, wrap16,
};
use crate::cpu::addressing_mode::{
    AddressingMode, Load, Store, page_cross, spec_page_cross, operand_address, read, signed, with_page_bonus,
};

verus! {

/// The operand byte of the instruction at the program counter.
pub open spec fn operand(s: CpuState, mode: AddressingMode) -> u8 {
    read(s, operand_address(s, mode).unwrap())
}

/// The operand address of the instruction at the program counter.
pub open spec fn address(s: CpuState, mode: AddressingMode) -> u16 {
    operand_address(s, mode).unwrap()
}

/// `s` with `v` in A and Zero/Negative describing it.
pub open spec fn load_a(s: CpuState, v: u8) -> CpuState {
    with_nz(CpuState { a: v, ..s }, v)
}

/// `s` with `v` in X and Zero/Negative describing it.
pub open spec fn load_x(s: CpuState, v: u8) -> CpuState {
    with_nz(CpuState { x: v, ..s }, v)
}

/// `s` with `v` in Y and Zero/Negative describing it.
pub open spec fn load_y(s: CpuState, v: u8) -> CpuState {
    with_nz(CpuState { y: v, ..s }, v)
}

/// The carry as a number.
pub open spec fn carry_in(s: CpuState) -> int {
    if flag_set(s, Flags::Carry) { 1 } else { 0 }
}

/// `s` after adding `v` and the carry to A: the carry reports an unsigned overflow, the
/// overflow flag a signed one.
pub open spec fn add_to_a(s: CpuState, v: u8) -> CpuState {
    let sum = s.a as int + v as int + carry_in(s);
    let signed_sum = signed(s.a) + signed(v) + carry_in(s);
    let r = (sum % 256) as u8;
    with_nz(
        CpuState {
            a: r,
            status: set_bit(
                set_bit(s.status, Flags::Carry.mask(), sum > 255),
                Flags::Overflow.mask(),
                signed_sum < -128 || signed_sum > 127,
            ),
            ..s
        },
        r,
    )
}

/// The value a read-modify-write instruction starts from.
pub open spec fn source(s: CpuState, mode: AddressingMode) -> u8 {
    if mode == AddressingMode::Accumulator {
        s.a
    } else {
        operand(s, mode)
    }
}

/// `s` with the result `r` of a read-modify-write instruction stored.
pub open spec fn store_result(s: CpuState, mode: AddressingMode, target: u16, r: u8) -> CpuState {
    if mode == AddressingMode::Accumulator {
        CpuState { a: r, ..s }
    } else {
        write_byte(s, target, r)
    }
}

/// The result of an arithmetic shift left.
pub open spec fn asl_value(s: CpuState, mode: AddressingMode) -> u8 {
    source(s, mode) << 1u8
}

pub open spec fn spec_asl(s: CpuState, mode: AddressingMode) -> CpuState {
    let v = source(s, mode);
    let r = asl_value(s, mode);
    store_result(
        with_nz(with_flag(s, Flags::Carry, v & 0b1000_0000 != 0), r),
        mode,
        address(s, mode),
        r,
    )
}

/// The result of a logical shift right.
pub open spec fn lsr_value(s: CpuState, mode: AddressingMode) -> u8 {
    source(s, mode) >> 1u8
}

pub open spec fn spec_lsr(s: CpuState, mode: AddressingMode) -> CpuState {
    let v = source(s, mode);
    let r = lsr_value(s, mode);
    store_result(
        with_nz(with_flag(s, Flags::Carry, v & 1 != 0), r),
        mode,
        address(s, mode),
        r,
    )
}

/// The result of a rotation left through the carry.
pub open spec fn rol_value(s: CpuState, mode: AddressingMode) -> u8 {
    (source(s, mode) << 1u8) | (if flag_set(s, Flags::Carry) { 1u8 } else { 0u8 })
}

/// Rotation left: on A it updates Carry, Zero and Negative; in memory only Carry and Negative.
pub open spec fn spec_rol(s: CpuState, mode: AddressingMode) -> CpuState {
    let v = source(s, mode);
    let r = rol_value(s, mode);
    if mode == AddressingMode::Accumulator {
        with_nz(with_flag(CpuState { a: r, ..s }, Flags::Carry, v & 0b1000_0000 != 0), r)
    } else {
        write_byte(
            with_flag(
                with_flag(s, Flags::Carry, v & 0b1000_0000 != 0),
                Flags::Negative,
                r & 0b1000_0000 != 0,
            ),
            address(s, mode),
            r,
        )
    }
}

/// The result of a rotation right through the carry.
pub open spec fn ror_value(s: CpuState, mode: AddressingMode) -> u8 {
    (source(s, mode) >> 1u8) | (if flag_set(s, Flags::Carry) { 0b1000_0000u8 } else { 0u8 })
}

/// Rotation right: on A it updates Carry, Zero and Negative; in memory only Carry and Negative.
pub open spec fn spec_ror(s: CpuState, mode: AddressingMode) -> CpuState {
    let v = source(s, mode);
    let r = ror_value(s, mode);
    if mode == AddressingMode::Accumulator {
        with_nz(with_flag(CpuState { a: r, ..s }, Flags::Carry, v & 1 != 0), r)
    } else {
        write_byte(
            with_flag(with_flag(s, Flags::Carry, v & 1 != 0), Flags::Negative, r & 0b1000_0000 != 0),
            address(s, mode),
            r,
        )
    }
}

/// A taken branch jumps to `target` and costs one more cycle, two when it crosses a page.
pub open spec fn spec_branch(s: CpuState, condition: bool, target: u16) -> CpuState {
    if condition {
        CpuState {
            additional_cycles: (s.additional_cycles as int + 1 + (if spec_page_cross(s.pc, target) {
                1int
            } else {
                0int
            })) as u8,
            pc: target,
            ..s
        }
    } else {
        s
    }
}

/// Compares `a` with `b` as CMP does: Carry when `a >= b`, Zero/Negative from `a - b`.
pub open spec fn spec_compare(s: CpuState, a: u8, b: u8) -> CpuState {
    with_nz(with_flag(s, Flags::Carry, a >= b), ((a as int - b as int + 256) % 256) as u8)
}

/// The value stored by AXA, XAS, SYA and SXA: `v` and the high byte of the target plus one.
pub open spec fn and_high_plus_one(v: u8, target: u16) -> u8 {
    v & (((target as int / 256 + 1) % 256) as u8)
}

/// PLP: the status comes from the stack with B2 set and B1 cleared.
pub open spec fn spec_plp(s: CpuState) -> CpuState {
    with_flag(
        with_flag(CpuState { status: top(s), ..popped(s) }, Flags::B2, true),
        Flags::B1,
        false,
    )
}

/// `s` with `v` decremented modulo 256.
pub open spec fn dec8(v: u8) -> u8 {
    ((v as int + 255) % 256) as u8
}

/// `s` with `v` incremented modulo 256.
pub open spec fn inc8(v: u8) -> u8 {
    ((v as int + 1) % 256) as u8
}

/// The instructions of the 6502, the undocumented ones included.
#[derive(Debug, PartialEq, Eq, Structural, Copy, Clone)]
pub enum Instruction {
    ADC, AND, ASL, BCC, BCS, BEQ, BIT, BMI, BNE, BPL, BRK, BVC, BVS, CLC, CLD, CLI, CLV,
    CMP, CPX, CPY, DEC, DEX, DEY, EOR, INC, INX, INY, JMP, JSR, LDA, LDX, LDY, LSR, NOP,
    ORA, PHA, PHP, PLA, PLP, ROL, ROR, RTI, RTS, SBC, SEC, SED, SEI, STA, STX, STY, TAX,
    TAY, TSX, TXA, TXS, TYA, LAX, SAX, DCP, ISB, SLO, RLA, SRE, RRA, AAC, KIL, ASR, ARR,
    XAA, AXA, XAS, SYA, SXA, ATX, LAR, AXS,
}

/// Whether `mode` suits `instruction`: instructions that read or write an operand need an
/// address, the shifts and rotations also accept the accumulator.
pub open spec fn fits(instruction: Instruction, mode: AddressingMode) -> bool {
    match instruction {
        Instruction::ASL | Instruction::LSR | Instruction::ROL | Instruction::ROR => mode
            == AddressingMode::Accumulator || mode.has_address(),
        Instruction::BRK | Instruction::CLC | Instruction::CLD | Instruction::CLI
        | Instruction::CLV | Instruction::DEX | Instruction::DEY | Instruction::INX
        | Instruction::INY | Instruction::NOP | Instruction::PHA | Instruction::PHP
        | Instruction::PLA | Instruction::PLP | Instruction::RTI | Instruction::RTS
        | Instruction::SEC | Instruction::SED | Instruction::SEI | Instruction::TAX
        | Instruction::TAY | Instruction::TSX | Instruction::TXA | Instruction::TXS
        | Instruction::TYA | Instruction::KIL => true,
        Instruction::XAA => mode == AddressingMode::Immediate,
        _ => mode.has_address(),
    }
}

/// What executing `instruction` in addressing mode `mode` does to `s`, before the program
/// counter moves past the instruction: its effect on the state its operand address
/// computation left.
pub open spec fn spec_instruction(s: CpuState, instruction: Instruction, mode: AddressingMode) -> CpuState {
    instruction_effect(if computes_address(instruction) { with_page_bonus(s, mode) } else { s }, instruction, mode)
}

/// Whether `instruction` computes an operand address: all but those that act on registers,
/// flags and the stack alone.
pub open spec fn computes_address(instruction: Instruction) -> bool {
    match instruction {
        Instruction::BRK | Instruction::CLC | Instruction::CLD | Instruction::CLI
        | Instruction::CLV | Instruction::DEX | Instruction::DEY | Instruction::INX
        | Instruction::INY | Instruction::PHA | Instruction::PHP
        | Instruction::PLA | Instruction::PLP | Instruction::RTI | Instruction::RTS
        | Instruction::SEC | Instruction::SED | Instruction::SEI | Instruction::TAX
        | Instruction::TAY | Instruction::TSX | Instruction::TXA | Instruction::TXS
        | Instruction::TYA | Instruction::KIL => false,
        _ => true,
    }
}

/// The effect of `instruction` in addressing mode `mode` on `s`.
pub open spec fn instruction_effect(s: CpuState, instruction: Instruction, mode: AddressingMode) -> CpuState {
    match instruction {
        Instruction::ADC => add_to_a(s, operand(s, mode)),
        Instruction::AND => load_a(s, s.a & operand(s, mode)),
        Instruction::ASL => spec_asl(s, mode),
        Instruction::BCC => spec_branch(s, !flag_set(s, Flags::Carry), address(s, mode)),
        Instruction::BCS => spec_branch(s, flag_set(s, Flags::Carry), address(s, mode)),
        Instruction::BEQ => spec_branch(s, flag_set(s, Flags::Zero), address(s, mode)),
        Instruction::BIT => {
            let v = operand(s, mode);
            with_flag(
                with_flag(
                    with_flag(s, Flags::Zero, v & s.a == 0),
                    Flags::Overflow,
                    v & 0b0100_0000 != 0,
                ),
                Flags::Negative,
                v & 0b1000_0000 != 0,
            )
        },
        Instruction::BMI => spec_branch(s, flag_set(s, Flags::Negative), address(s, mode)),
        Instruction::BNE => spec_branch(s, !flag_set(s, Flags::Zero), address(s, mode)),
        Instruction::BPL => spec_branch(s, !flag_set(s, Flags::Negative), address(s, mode)),
        Instruction::BRK => s,
        Instruction::BVC => spec_branch(s, !flag_set(s, Flags::Overflow), address(s, mode)),
        Instruction::BVS => spec_branch(s, flag_set(s, Flags::Overflow), address(s, mode)),
        Instruction::CLC => with_flag(s, Flags::Carry, false),
        Instruction::CLD => with_flag(s, Flags::DecimalMode, false),
        Instruction::CLI => with_flag(s, Flags::InterruptDisabled, false),
        Instruction::CLV => with_flag(s, Flags::Overflow, false),
        Instruction::CMP => spec_compare(s, s.a, operand(s, mode)),
        Instruction::CPX => spec_compare(s, s.x, operand(s, mode)),
        Instruction::CPY => spec_compare(s, s.y, operand(s, mode)),
        Instruction::DEC => {
            let v = dec8(operand(s, mode));
            write_byte(with_nz(s, v), address(s, mode), v)
        },
        Instruction::DEX => load_x(s, dec8(s.x)),
        Instruction::DEY => load_y(s, dec8(s.y)),
        Instruction::EOR => load_a(s, s.a ^ operand(s, mode)),
        Instruction::INC => {
            let v = inc8(operand(s, mode));
            write_byte(with_nz(s, v), address(s, mode), v)
        },
        Instruction::INX => load_x(s, inc8(s.x)),
        Instruction::INY => load_y(s, inc8(s.y)),
        Instruction::JMP => CpuState { pc: wrap16(address(s, mode) as int + 0x10000 - 3), ..s },
        Instruction::JSR => CpuState {
            pc: wrap16(address(s, mode) as int + 0x10000 - 3),
            ..push_u16(s, wrap16(s.pc as int + 2))
        },
        Instruction::LDA => load_a(s, operand(s, mode)),
        Instruction::LDX => load_x(s, operand(s, mode)),
        Instruction::LDY => load_y(s, operand(s, mode)),
        Instruction::LSR => spec_lsr(s, mode),
        Instruction::NOP => s,
        Instruction::ORA => load_a(s, s.a | operand(s, mode)),
        Instruction::PHA => push(s, s.a),
        Instruction::PHP => push(s, s.status | Flags::B1.mask() | Flags::B2.mask()),
        Instruction::PLA => load_a(popped(s), top(s)),
        Instruction::PLP => spec_plp(s),
        Instruction::ROL => spec_rol(s, mode),
        Instruction::ROR => spec_ror(s, mode),
        Instruction::RTI => {
            let s1 = spec_plp(s);
            CpuState { pc: wrap16(top_u16(s1) as int + 0x10000 - 1), ..popped_u16(s1) }
        },
        Instruction::RTS => CpuState { pc: top_u16(s), ..popped_u16(s) },
        Instruction::SBC => add_to_a(s, !operand(s, mode)),
        Instruction::SEC => with_flag(s, Flags::Carry, true),
        Instruction::SED => with_flag(s, Flags::DecimalMode, true),
        Instruction::SEI => with_flag(s, Flags::InterruptDisabled, true),
        Instruction::STA => write_byte(s, address(s, mode), s.a),
        Instruction::STX => write_byte(s, address(s, mode), s.x),
        Instruction::STY => write_byte(s, address(s, mode), s.y),
        Instruction::TAX => load_x(s, s.a),
        Instruction::TAY => load_y(s, s.a),
        Instruction::TSX => load_x(s, s.s),
        Instruction::TXA => load_a(s, s.x),
        Instruction::TXS => CpuState { s: s.x, ..s },
        Instruction::TYA => load_a(s, s.y),
        Instruction::LAX => {
            let v = operand(s, mode);
            with_nz(CpuState { a: v, x: v, ..s }, v)
        },
        Instruction::SAX => write_byte(s, address(s, mode), s.a & s.x),
        Instruction::DCP => {
            let v = dec8(operand(s, mode));
            let s1 = write_byte(s, address(s, mode), v);
            spec_compare(s1, s1.a, v)
        },
        Instruction::ISB => {
            let v = inc8(operand(s, mode));
            add_to_a(write_byte(s, address(s, mode), v), !v)
        },
        Instruction::SLO => {
            let s1 = spec_asl(s, mode);
            load_a(s1, s1.a | asl_value(s, mode))
        },
        Instruction::RLA => {
            let s1 = spec_rol(s, mode);
            load_a(s1, s1.a & rol_value(s, mode))
        },
        Instruction::SRE => {
            let s1 = spec_lsr(s, mode);
            load_a(s1, s1.a ^ lsr_value(s, mode))
        },
        Instruction::RRA => add_to_a(spec_ror(s, mode), ror_value(s, mode)),
        Instruction::AAC => {
            let r = s.a & operand(s, mode);
            with_nz(with_flag(CpuState { a: r, ..s }, Flags::Carry, r & 0b1000_0000 != 0), r)
        },
        Instruction::KIL => CpuState { pc: wrap16(s.pc as int + 0x10000 - 1), ..s },
        Instruction::ASR => {
            let s1 = spec_lsr(CpuState { a: s.a & operand(s, mode), ..s }, AddressingMode::Accumulator);
            with_nz(s1, s1.a)
        },
        Instruction::ARR => {
            let s1 = spec_ror(CpuState { a: s.a & operand(s, mode), ..s }, AddressingMode::Accumulator);
            with_nz(s1, s1.a)
        },
        Instruction::XAA => {
            let s1 = CpuState { x: s.a, ..s };
            load_a(s1, s1.a & operand(s1, mode))
        },
        Instruction::AXA => write_byte(s, address(s, mode), and_high_plus_one(s.a & s.x, address(s, mode))),
        Instruction::XAS => {
            let s1 = CpuState { s: s.a & s.x, ..s };
            write_byte(s1, address(s1, mode), and_high_plus_one(s1.s, address(s1, mode)))
        },
        Instruction::SYA => write_byte(s, address(s, mode), and_high_plus_one(s.y, address(s, mode))),
        Instruction::SXA => write_byte(s, address(s, mode), and_high_plus_one(s.x, address(s, mode))),
        Instruction::ATX => {
            let v = operand(s, mode);
            with_nz(CpuState { a: v, x: v, ..s }, v)
        },
        Instruction::LAR => {
            let v = operand(s, mode) & s.s;
            with_nz(CpuState { a: v, x: v, s: v, ..s }, v)
        },
        Instruction::AXS => load_x(s, (((s.a & s.x) as int - operand(s, mode) as int + 256) % 256) as u8),
    }
}


/// Updating Zero and Negative leaves the other flags.
proof fn lemma_nz_keeps(s: CpuState, v: u8, g: Flags)
    requires
        g != Flags::Zero,
        g != Flags::Negative,
    ensures
        flag_set(with_nz(s, v), g) == flag_set(s, g),
{
    let s1 = with_flag(s, Flags::Zero, v == 0);
    crate::cpu::law_flag_update(s, Flags::Zero, g, v == 0);
    crate::cpu::law_flag_update(s1, Flags::Negative, g, v & 0b1000_0000 != 0);
    assert(with_nz(s, v) == with_flag(s1, Flags::Negative, v & 0b1000_0000 != 0));
}

/// ADC adds the operand and the carry to A modulo 256. Carry then tells whether the unsigned
/// sum passed 255, Overflow whether two operands of one sign gave a result of the other sign,
/// and Zero and Negative describe the result.
pub proof fn law_add_with_carry(s: CpuState, mode: AddressingMode)
    ensures
        ({
            let m = operand(s, mode) as int;
            let a = s.a as int;
            let c = if flag_set(s, Flags::Carry) { 1int } else { 0int };
            let r = instruction_effect(s, Instruction::ADC, mode);
            &&& r.a == (a + m + c) % 256
            &&& flag_set(r, Flags::Carry) == (a + m + c > 255)
            &&& flag_set(r, Flags::Overflow) == ((a < 128) == (m < 128) && (r.a < 128) != (a < 128))
            &&& flag_set(r, Flags::Zero) == (r.a == 0)
            &&& flag_set(r, Flags::Negative) == (r.a >= 128)
        }),
{
    let v = operand(s, mode);
    assert(instruction_effect(s, Instruction::ADC, mode) == add_to_a(s, v));
    lemma_add_to_a(s, v);
}

/// SBC subtracts the operand and the borrow (a clear carry) from A modulo 256. Carry stays set
/// exactly when no borrow was needed, Overflow tells whether operands of different signs gave a
/// result whose sign differs from A's, and Zero and Negative describe the result.
pub proof fn law_subtract_with_borrow(s: CpuState, mode: AddressingMode)
    ensures
        ({
            let m = operand(s, mode) as int;
            let a = s.a as int;
            let c = if flag_set(s, Flags::Carry) { 1int } else { 0int };
            let d = instruction_effect(s, Instruction::SBC, mode);
            &&& d.a == (a - m - (1 - c) + 256) % 256
            &&& flag_set(d, Flags::Carry) == (a >= m + 1 - c)
            &&& flag_set(d, Flags::Overflow) == ((a < 128) != (m < 128) && (d.a < 128) != (a < 128))
            &&& flag_set(d, Flags::Zero) == (d.a == 0)
            &&& flag_set(d, Flags::Negative) == (d.a >= 128)
        }),
{
    let v = operand(s, mode);
    assert(instruction_effect(s, Instruction::SBC, mode) == add_to_a(s, !v));
    crate::bits::lemma_u8_arith_bits(v);
    lemma_add_to_a(s, !v);
}

/// Each conditional branch tests one status bit: BCC and BCS the carry (bit 0), BNE and BEQ the
/// zero flag (bit 1), BVC and BVS the overflow flag (bit 6), BPL and BMI the negative flag
/// (bit 7), the first of each pair branching when the bit is clear. A taken branch moves the
/// program counter by the signed offset byte after the opcode; one not taken changes nothing.
pub proof fn law_branches(s: CpuState)
    ensures
        ({
            let st = s.status as int;
            let offset = read(s, next_addr(s.pc)) as int;
            let target = (s.pc as int + (if offset >= 128 { offset - 256 } else { offset }) + 0x10000)
                % 0x10000;
            let branch = |i: Instruction, taken: bool|
                if taken {
                    instruction_effect(s, i, AddressingMode::Relative).pc == target
                } else {
                    instruction_effect(s, i, AddressingMode::Relative) == s
                };
            &&& branch(Instruction::BCC, st % 2 == 0)
            &&& branch(Instruction::BCS, st % 2 == 1)
            &&& branch(Instruction::BNE, (st / 2) % 2 == 0)
            &&& branch(Instruction::BEQ, (st / 2) % 2 == 1)
            &&& branch(Instruction::BVC, (st / 64) % 2 == 0)
            &&& branch(Instruction::BVS, (st / 64) % 2 == 1)
            &&& branch(Instruction::BPL, st < 128)
            &&& branch(Instruction::BMI, st >= 128)
        }),
{
    crate::bits::lemma_u8_arith_bits(s.status);
    let t = address(s, AddressingMode::Relative);
    assert(instruction_effect(s, Instruction::BCC, AddressingMode::Relative) == spec_branch(s, !flag_set(s, Flags::Carry), t));
    assert(instruction_effect(s, Instruction::BCS, AddressingMode::Relative) == spec_branch(s, flag_set(s, Flags::Carry), t));
    assert(instruction_effect(s, Instruction::BNE, AddressingMode::Relative) == spec_branch(s, !flag_set(s, Flags::Zero), t));
    assert(instruction_effect(s, Instruction::BEQ, AddressingMode::Relative) == spec_branch(s, flag_set(s, Flags::Zero), t));
    assert(instruction_effect(s, Instruction::BVC, AddressingMode::Relative) == spec_branch(s, !flag_set(s, Flags::Overflow), t));
    assert(instruction_effect(s, Instruction::BVS, AddressingMode::Relative) == spec_branch(s, flag_set(s, Flags::Overflow), t));
    assert(instruction_effect(s, Instruction::BPL, AddressingMode::Relative) == spec_branch(s, !flag_set(s, Flags::Negative), t));
    assert(instruction_effect(s, Instruction::BMI, AddressingMode::Relative) == spec_branch(s, flag_set(s, Flags::Negative), t));
}

/// CMP, CPX and CPY compare A, X and Y with the operand without changing them: Carry is set
/// when the register is at least the operand, Zero when they are equal, and Negative is bit 7
/// of their difference modulo 256.
pub proof fn law_compare(s: CpuState, mode: AddressingMode)
    ensures
        ({
            let m = operand(s, mode) as int;
            let compares = |i: Instruction, reg: int| {
                let r = instruction_effect(s, i, mode);
                &&& r.a == s.a && r.x == s.x && r.y == s.y && r.mem == s.mem
                &&& flag_set(r, Flags::Carry) == (reg >= m)
                &&& flag_set(r, Flags::Zero) == (reg == m)
                &&& flag_set(r, Flags::Negative) == ((reg - m + 256) % 256 >= 128)
            };
            &&& compares(Instruction::CMP, s.a as int)
            &&& compares(Instruction::CPX, s.x as int)
            &&& compares(Instruction::CPY, s.y as int)
        }),
{
    let v = operand(s, mode);
    lemma_compare(s, s.a, v);
    lemma_compare(s, s.x, v);
    lemma_compare(s, s.y, v);
    assert(instruction_effect(s, Instruction::CMP, mode) == spec_compare(s, s.a, v));
    assert(instruction_effect(s, Instruction::CPX, mode) == spec_compare(s, s.x, v));
    assert(instruction_effect(s, Instruction::CPY, mode) == spec_compare(s, s.y, v));
}

/// What `spec_compare` does, flag by flag.
proof fn lemma_compare(s: CpuState, a: u8, b: u8)
    ensures
        ({
            let r = spec_compare(s, a, b);
            &&& r.a == s.a && r.x == s.x && r.y == s.y && r.mem == s.mem
            &&& flag_set(r, Flags::Carry) == (a >= b)
            &&& flag_set(r, Flags::Zero) == (a == b)
            &&& flag_set(r, Flags::Negative) == ((a as int - b as int + 256) % 256 >= 128)
        }),
{
    let d = ((a as int - b as int + 256) % 256) as u8;
    let s1 = with_flag(s, Flags::Carry, a >= b);
    crate::cpu::law_flag_update(s, Flags::Carry, Flags::Carry, a >= b);
    lemma_nz_keeps(s1, d, Flags::Carry);
    crate::cpu::law_zero_negative(s1, d);
}

/// What `add_to_a` does, flag by flag.
proof fn lemma_add_to_a(s: CpuState, v: u8)
    ensures
        ({
            let c = if flag_set(s, Flags::Carry) { 1int } else { 0int };
            let sum = s.a as int + v as int + c;
            let signed_sum = signed(s.a) + signed(v) + c;
            let r = add_to_a(s, v);
            &&& r.a == sum % 256
            &&& flag_set(r, Flags::Carry) == (sum > 255)
            &&& flag_set(r, Flags::Overflow) == (signed_sum < -128 || signed_sum > 127)
            &&& flag_set(r, Flags::Zero) == (r.a == 0)
            &&& flag_set(r, Flags::Negative) == (r.a >= 128)
        }),
{
    let sum = s.a as int + v as int + carry_in(s);
    let signed_sum = signed(s.a) + signed(v) + carry_in(s);
    let r = (sum % 256) as u8;
    let s0 = CpuState { a: r, ..s };
    let s1 = with_flag(s0, Flags::Carry, sum > 255);
    let s2 = with_flag(s1, Flags::Overflow, signed_sum < -128 || signed_sum > 127);
    assert(add_to_a(s, v) == with_nz(s2, r));
    crate::cpu::law_flag_update(s0, Flags::Carry, Flags::Carry, sum > 255);
    crate::cpu::law_flag_update(s1, Flags::Overflow, Flags::Carry, signed_sum < -128 || signed_sum > 127);
    crate::cpu::law_flag_update(s1, Flags::Overflow, Flags::Overflow, signed_sum < -128 || signed_sum > 127);
    lemma_nz_keeps(s2, r, Flags::Carry);
    lemma_nz_keeps(s2, r, Flags::Overflow);
    crate::cpu::law_zero_negative(s2, r);
}

/// On the accumulator, ASL doubles A modulo 256 and LSR halves it, and ROL and ROR do the same
/// while moving the old carry into the vacated bit (bit 0 or bit 7); each moves the bit that
/// falls out (bit 7 for the left moves, bit 0 for the right ones) into Carry. Zero and Negative
/// describe the result.
pub proof fn law_shifts(s: CpuState)
    ensures
        ({
            let a = s.a as int;
            let c = if flag_set(s, Flags::Carry) { 1int } else { 0int };
            let acc = AddressingMode::Accumulator;
            let asl = instruction_effect(s, Instruction::ASL, acc);
            let lsr = instruction_effect(s, Instruction::LSR, acc);
            let rol = instruction_effect(s, Instruction::ROL, acc);
            let ror = instruction_effect(s, Instruction::ROR, acc);
            &&& asl.a == (a * 2) % 256 && flag_set(asl, Flags::Carry) == (a >= 128)
            &&& lsr.a == a / 2 && flag_set(lsr, Flags::Carry) == (a % 2 == 1)
            &&& rol.a == (a * 2) % 256 + c && flag_set(rol, Flags::Carry) == (a >= 128)
            &&& ror.a == a / 2 + 128 * c && flag_set(ror, Flags::Carry) == (a % 2 == 1)
            &&& flag_set(asl, Flags::Zero) == (asl.a == 0) && flag_set(asl, Flags::Negative) == (
            asl.a >= 128)
            &&& flag_set(lsr, Flags::Zero) == (lsr.a == 0) && flag_set(lsr, Flags::Negative) == (
            lsr.a >= 128)
            &&& flag_set(rol, Flags::Zero) == (rol.a == 0) && flag_set(rol, Flags::Negative) == (
            rol.a >= 128)
            &&& flag_set(ror, Flags::Zero) == (ror.a == 0) && flag_set(ror, Flags::Negative) == (
            ror.a >= 128)
        }),
{
    let a = s.a;
    crate::bits::lemma_u8_arith_bits(a);
    let acc = AddressingMode::Accumulator;
    let hi = a & 0b1000_0000 != 0;
    let lo = a & 1 != 0;
    let sh = with_flag(s, Flags::Carry, hi);
    crate::cpu::law_flag_update(s, Flags::Carry, Flags::Carry, hi);
    lemma_nz_keeps(sh, asl_value(s, acc), Flags::Carry);
    crate::cpu::law_zero_negative(sh, asl_value(s, acc));
    let sr = with_flag(s, Flags::Carry, lo);
    crate::cpu::law_flag_update(s, Flags::Carry, Flags::Carry, lo);
    lemma_nz_keeps(sr, lsr_value(s, acc), Flags::Carry);
    crate::cpu::law_zero_negative(sr, lsr_value(s, acc));
    let rl = with_flag(CpuState { a: rol_value(s, acc), ..s }, Flags::Carry, hi);
    crate::cpu::law_flag_update(CpuState { a: rol_value(s, acc), ..s }, Flags::Carry, Flags::Carry, hi);
    lemma_nz_keeps(rl, rol_value(s, acc), Flags::Carry);
    crate::cpu::law_zero_negative(rl, rol_value(s, acc));
    let rr = with_flag(CpuState { a: ror_value(s, acc), ..s }, Flags::Carry, lo);
    crate::cpu::law_flag_update(CpuState { a: ror_value(s, acc), ..s }, Flags::Carry, Flags::Carry, lo);
    lemma_nz_keeps(rr, ror_value(s, acc), Flags::Carry);
    crate::cpu::law_zero_negative(rr, ror_value(s, acc));
}

proof fn lemma_bit7(v: u8)
    ensures
        (v & 0b1000_0000u8 != 0) == (v >= 128),
{
    assert((v & 0b1000_0000u8 != 0) == (v >= 128)) by {
        crate::bits::lemma_u8_bits(v);
    }
}

proof fn lemma_high_byte(addr: u16)
    ensures
        ((addr >> 8u16) as u8) as int == addr as int / 256,
{
    assert(((addr >> 8u16) as u8) as int == addr as int / 256) by {
        crate::bits::lemma_page_end_bits(addr);
    }
}

impl CPU {
    /// The operand byte of the instruction at the program counter.
    fn get_operand(&mut self, mode: &AddressingMode) -> (r: u8)
        requires
            mode.has_address(),
            old(self).additional_cycles < 255,
        ensures
            r == operand(old(self)@, *mode),
            final(self)@ == with_page_bonus(old(self)@, *mode),
    {
        let (addr, _, _) = mode.get_operand_address::<Load>(self).unwrap();
        self.mem_read(addr)
    }

    /// The operand address of the instruction at the program counter.
    fn get_address(&mut self, mode: &AddressingMode) -> (r: u16)
        requires
            mode.has_address(),
            old(self).additional_cycles < 255,
        ensures
            r == address(old(self)@, *mode),
            final(self)@ == with_page_bonus(old(self)@, *mode),
    {
        let (addr, _, _) = mode.get_operand_address::<Store>(self).unwrap();
        addr
    }

    fn branch(&mut self, condition: bool, target: u16)
        requires
            old(self).additional_cycles <= 253,
        ensures
            final(self)@ == spec_branch(old(self)@, condition, target),
    {
        if condition {
            let extra: u8 = if page_cross(self.program_counter, target) { 1 } else { 0 };
            self.additional_cycles = self.additional_cycles + 1 + extra;
            self.program_counter = target;
        }
    }

    fn load_register_a(&mut self, value: u8)
        ensures
            final(self)@ == load_a(old(self)@, value),
    {
        self.register_a = value;
        self.update_zero_and_negative_flags(value);
    }

    fn load_register_x(&mut self, value: u8)
        ensures
            final(self)@ == load_x(old(self)@, value),
    {
        self.register_x = value;
        self.update_zero_and_negative_flags(value);
    }

    fn load_register_y(&mut self, value: u8)
        ensures
            final(self)@ == load_y(old(self)@, value),
    {
        self.register_y = value;
        self.update_zero_and_negative_flags(value);
    }

    fn lda(&mut self, mode: &AddressingMode)
        requires
            mode.has_address(),
            old(self).additional_cycles <= 252,
        ensures
            final(self)@ == spec_instruction(old(self)@, Instruction::LDA, *mode),
    {
        let value = self.get_operand(mode);
        self.load_register_a(value);
    }

    fn ldx(&mut self, mode: &AddressingMode)
        requires
            mode.has_address(),
            old(self).additional_cycles <= 252,
        ensures
            final(self)@ == spec_instruction(old(self)@, Instruction::LDX, *mode),
    {
        let value = self.get_operand(mode);
        self.load_register_x(value);
    }

    fn ldy(&mut self, mode: &AddressingMode)
        requires
            mode.has_address(),
            old(self).additional_cycles <= 252,
        ensures
            final(self)@ == spec_instruction(old(self)@, Instruction::LDY, *mode),
    {
        let value = self.get_operand(mode);
        self.load_register_y(value);
    }

    fn sta(&mut self, mode: &AddressingMode)
        requires
            mode.has_address(),
            old(self).additional_cycles <= 252,
        ensures
            final(self)@ == spec_instruction(old(self)@, Instruction::STA, *mode),
    {
        let addr = self.get_address(mode);
        self.mem_write(addr, self.register_a);
    }

    fn stx(&mut self, mode: &AddressingMode)
        requires
            mode.has_address(),
            old(self).additional_cycles <= 252,
        ensures
            final(self)@ == spec_instruction(old(self)@, Instruction::STX, *mode),
    {
        let addr = self.get_address(mode);
        self.mem_write(addr, self.register_x);
    }

    fn sty(&mut self, mode: &AddressingMode)
        requires
            mode.has_address(),
            old(self).additional_cycles <= 252,
        ensures
            final(self)@ == spec_instruction(old(self)@, Instruction::STY, *mode),
    {
        let addr = self.get_address(mode);
        self.mem_write(addr, self.register_y);
    }

    fn tax(&mut self)
        ensures
            final(self)@ == spec_instruction(old(self)@, Instruction::TAX, AddressingMode::NonAddressing),
    {
        self.load_register_x(self.register_a);
    }

    fn tay(&mut self)
        ensures
            final(self)@ == spec_instruction(old(self)@, Instruction::TAY, AddressingMode::NonAddressing),
    {
        self.load_register_y(self.register_a);
    }

    fn tsx(&mut self)
        ensures
            final(self)@ == spec_instruction(old(self)@, Instruction::TSX, AddressingMode::NonAddressing),
    {
        self.load_register_x(self.register_s);
    }

    fn txa(&mut self)
        ensures
            final(self)@ == spec_instruction(old(self)@, Instruction::TXA, AddressingMode::NonAddressing),
    {
        self.load_register_a(self.register_x);
    }

    fn txs(&mut self)
        ensures
            final(self)@ == spec_instruction(old(self)@, Instruction::TXS, AddressingMode::NonAddressing),
    {
        self.register_s = self.register_x;
    }

    fn tya(&mut self)
        ensures
            final(self)@ == spec_instruction(old(self)@, Instruction::TYA, AddressingMode::NonAddressing),
    {
        self.load_register_a(self.register_y);
    }

    /// Adds `value` and the carry to A, setting Carry, Overflow, Zero and Negative.
    fn add_to_a(&mut self, value: u8)
        ensures
            final(self)@ == add_to_a(old(self)@, value),
    {
        let a = self.register_a;
        let carry: u16 = if self.get_flag(Flags::Carry) { 1 } else { 0 };
        let sum: u16 = a as u16 + value as u16 + carry;
        let result: u8 = (sum % 256) as u8;
        let neg1 = a & 0b1000_0000 != 0;
        let neg2 = value & 0b1000_0000 != 0;
        let neg_result = result & 0b1000_0000 != 0;
        proof {
            lemma_bit7(a);
            lemma_bit7(value);
            lemma_bit7(result);
        }
        self.register_a = result;
        self.update_flag(Flags::Carry, sum > 255);
        self.update_flag(Flags::Overflow, (neg1 && neg2 && !neg_result) || (!neg1 && !neg2 && neg_result));
        self.update_zero_and_negative_flags(result);
    }

    fn adc(&mut self, mode: &AddressingMode)
        requires
            mode.has_address(),
            old(self).additional_cycles <= 252,
        ensures
            final(self)@ == spec_instruction(old(self)@, Instruction::ADC, *mode),
    {
        let value = self.get_operand(mode);
        self.add_to_a(value);
    }

    fn sbc(&mut self, mode: &AddressingMode)
        requires
            mode.has_address(),
            old(self).additional_cycles <= 252,
        ensures
            final(self)@ == spec_instruction(old(self)@, Instruction::SBC, *mode),
    {
        let value = self.get_operand(mode);
        // The value is negated bitwise rather than arithmetically because of the carry.
        self.add_to_a(!value);
    }

    fn and(&mut self, mode: &AddressingMode)
        requires
            mode.has_address(),
            old(self).additional_cycles <= 252,
        ensures
            final(self)@ == spec_instruction(old(self)@, Instruction::AND, *mode),
    {
        let value = self.get_operand(mode);
        self.load_register_a(self.register_a & value);
    }

    fn eor(&mut self, mode: &AddressingMode)
        requires
            mode.has_address(),
            old(self).additional_cycles <= 252,
        ensures
            final(self)@ == spec_instruction(old(self)@, Instruction::EOR, *mode),
    {
        let value = self.get_operand(mode);
        self.load_register_a(self.register_a ^ value);
    }

    fn ora(&mut self, mode: &AddressingMode)
        requires
            mode.has_address(),
            old(self).additional_cycles <= 252,
        ensures
            final(self)@ == spec_instruction(old(self)@, Instruction::ORA, *mode),
    {
        let value = self.get_operand(mode);
        self.load_register_a(self.register_a | value);
    }

    /// The value a read-modify-write instruction starts from, and where it lives.
    fn read_source(&mut self, mode: &AddressingMode) -> (r: (u8, u16))
        requires
            *mode == AddressingMode::Accumulator || mode.has_address(),
            old(self).additional_cycles <= 253,
        ensures
            r.0 == source(old(self)@, *mode),
            *mode != AddressingMode::Accumulator ==> r.1 == address(old(self)@, *mode),
            final(self)@ == with_page_bonus(old(self)@, *mode),
    {
        if *mode == AddressingMode::Accumulator {
            (self.register_a, 0)
        } else {
            let addr = self.get_address(mode);
            (self.mem_read(addr), addr)
        }
    }

    fn store_result(&mut self, mode: &AddressingMode, addr: u16, value: u8)
        ensures
            final(self)@ == store_result(old(self)@, *mode, addr, value),
    {
        if *mode == AddressingMode::Accumulator {
            self.register_a = value;
        } else {
            self.mem_write(addr, value);
        }
    }

    fn asl_logic(&mut self, mode: &AddressingMode) -> (r: u8)
        requires
            *mode == AddressingMode::Accumulator || mode.has_address(),
            old(self).additional_cycles <= 253,
        ensures
            r == asl_value(old(self)@, *mode),
            final(self)@ == spec_asl(with_page_bonus(old(self)@, *mode), *mode),
    {
        let (value, addr) = self.read_source(mode);
        let carry = value & 0b1000_0000 != 0;
        let result = value << 1u8;
        self.update_flag(Flags::Carry, carry);
        self.update_zero_and_negative_flags(result);
        self.store_result(mode, addr, result);
        result
    }

    fn asl(&mut self, mode: &AddressingMode)
        requires
            *mode == AddressingMode::Accumulator || mode.has_address(),
            old(self).additional_cycles <= 252,
        ensures
            final(self)@ == spec_instruction(old(self)@, Instruction::ASL, *mode),
    {
        let _ = self.asl_logic(mode);
    }

    fn lsr_logic(&mut self, mode: &AddressingMode) -> (r: u8)
        requires
            *mode == AddressingMode::Accumulator || mode.has_address(),
            old(self).additional_cycles <= 253,
        ensures
            r == lsr_value(old(self)@, *mode),
            final(self)@ == spec_lsr(with_page_bonus(old(self)@, *mode), *mode),
    {
        let (value, addr) = self.read_source(mode);
        let carry = value & 0b0000_0001 != 0;
        let result = value >> 1u8;
        self.update_flag(Flags::Carry, carry);
        self.update_zero_and_negative_flags(result);
        self.store_result(mode, addr, result);
        result
    }

    fn lsr(&mut self, mode: &AddressingMode)
        requires
            *mode == AddressingMode::Accumulator || mode.has_address(),
            old(self).additional_cycles <= 252,
        ensures
            final(self)@ == spec_instruction(old(self)@, Instruction::LSR, *mode),
    {
        let _ = self.lsr_logic(mode);
    }

    fn rol_logic(&mut self, mode: &AddressingMode) -> (r: u8)
        requires
            *mode == AddressingMode::Accumulator || mode.has_address(),
            old(self).additional_cycles <= 253,
        ensures
            r == rol_value(old(self)@, *mode),
            final(self)@ == spec_rol(with_page_bonus(old(self)@, *mode), *mode),
    {
        let (value, addr) = self.read_source(mode);
        let carry = value & 0b1000_0000 != 0;
        let carry_in: u8 = if self.get_flag(Flags::Carry) { 1 } else { 0 };
        let result = (value << 1u8) | carry_in;
        if *mode == AddressingMode::Accumulator {
            self.register_a = result;
            self.update_flag(Flags::Carry, carry);
            self.update_zero_and_negative_flags(result);
        } else {
            self.update_flag(Flags::Carry, carry);
            self.update_flag(Flags::Negative, result & 0b1000_0000 != 0);
            self.mem_write(addr, result);
        }
        result
    }

    fn rol(&mut self, mode: &AddressingMode)
        requires
            *mode == AddressingMode::Accumulator || mode.has_address(),
            old(self).additional_cycles <= 252,
        ensures
            final(self)@ == spec_instruction(old(self)@, Instruction::ROL, *mode),
    {
        let _ = self.rol_logic(mode);
    }

    fn ror_logic(&mut self, mode: &AddressingMode) -> (r: u8)
        requires
            *mode == AddressingMode::Accumulator || mode.has_address(),
            old(self).additional_cycles <= 253,
        ensures
            r == ror_value(old(self)@, *mode),
            final(self)@ == spec_ror(with_page_bonus(old(self)@, *mode), *mode),
    {
        let (value, addr) = self.read_source(mode);
        let carry = value & 0b0000_0001 != 0;
        let carry_in: u8 = if self.get_flag(Flags::Carry) { 0b1000_0000 } else { 0 };
        let result = (value >> 1u8) | carry_in;
        if *mode == AddressingMode::Accumulator {
            self.register_a = result;
            self.update_flag(Flags::Carry, carry);
            self.update_zero_and_negative_flags(result);
        } else {
            self.update_flag(Flags::Carry, carry);
            self.update_flag(Flags::Negative, result & 0b1000_0000 != 0);
            self.mem_write(addr, result);
        }
        result
    }

    fn ror(&mut self, mode: &AddressingMode)
        requires
            *mode == AddressingMode::Accumulator || mode.has_address(),
            old(self).additional_cycles <= 252,
        ensures
            final(self)@ == spec_instruction(old(self)@, Instruction::ROR, *mode),
    {
        let _ = self.ror_logic(mode);
    }
}


impl CPU {
    fn bcc(&mut self, mode: &AddressingMode)
        requires
            mode.has_address(),
            old(self).additional_cycles <= 252,
        ensures
            final(self)@ == spec_instruction(old(self)@, Instruction::BCC, *mode),
    {
        let target = self.get_address(mode);
        self.branch(!self.get_flag(Flags::Carry), target);
    }

    fn bcs(&mut self, mode: &AddressingMode)
        requires
            mode.has_address(),
            old(self).additional_cycles <= 252,
        ensures
            final(self)@ == spec_instruction(old(self)@, Instruction::BCS, *mode),
    {
        let target = self.get_address(mode);
        self.branch(self.get_flag(Flags::Carry), target);
    }

    fn beq(&mut self, mode: &AddressingMode)
        requires
            mode.has_address(),
            old(self).additional_cycles <= 252,
        ensures
            final(self)@ == spec_instruction(old(self)@, Instruction::BEQ, *mode),
    {
        let target = self.get_address(mode);
        self.branch(self.get_flag(Flags::Zero), target);
    }

    fn bne(&mut self, mode: &AddressingMode)
        requires
            mode.has_address(),
            old(self).additional_cycles <= 252,
        ensures
            final(self)@ == spec_instruction(old(self)@, Instruction::BNE, *mode),
    {
        let target = self.get_address(mode);
        self.branch(!self.get_flag(Flags::Zero), target);
    }

    fn bpl(&mut self, mode: &AddressingMode)
        requires
            mode.has_address(),
            old(self).additional_cycles <= 252,
        ensures
            final(self)@ == spec_instruction(old(self)@, Instruction::BPL, *mode),
    {
        let target = self.get_address(mode);
        self.branch(!self.get_flag(Flags::Negative), target);
    }

    fn bmi(&mut self, mode: &AddressingMode)
        requires
            mode.has_address(),
            old(self).additional_cycles <= 252,
        ensures
            final(self)@ == spec_instruction(old(self)@, Instruction::BMI, *mode),
    {
        let target = self.get_address(mode);
        self.branch(self.get_flag(Flags::Negative), target);
    }

    fn bvc(&mut self, mode: &AddressingMode)
        requires
            mode.has_address(),
            old(self).additional_cycles <= 252,
        ensures
            final(self)@ == spec_instruction(old(self)@, Instruction::BVC, *mode),
    {
        let target = self.get_address(mode);
        self.branch(!self.get_flag(Flags::Overflow), target);
    }

    fn bvs(&mut self, mode: &AddressingMode)
        requires
            mode.has_address(),
            old(self).additional_cycles <= 252,
        ensures
            final(self)@ == spec_instruction(old(self)@, Instruction::BVS, *mode),
    {
        let target = self.get_address(mode);
        self.branch(self.get_flag(Flags::Overflow), target);
    }

    fn bit(&mut self, mode: &AddressingMode)
        requires
            mode.has_address(),
            old(self).additional_cycles <= 252,
        ensures
            final(self)@ == spec_instruction(old(self)@, Instruction::BIT, *mode),
    {
        let value = self.get_operand(mode);
        self.update_flag(Flags::Zero, value & self.register_a == 0);
        self.update_flag(Flags::Overflow, value & Flags::Overflow.bits() != 0);
        self.update_flag(Flags::Negative, value & Flags::Negative.bits() != 0);
    }

    fn clc(&mut self)
        ensures
            final(self)@ == spec_instruction(old(self)@, Instruction::CLC, AddressingMode::NonAddressing),
    {
        self.clear_flag(Flags::Carry);
    }

    fn cld(&mut self)
        ensures
            final(self)@ == spec_instruction(old(self)@, Instruction::CLD, AddressingMode::NonAddressing),
    {
        self.clear_flag(Flags::DecimalMode);
    }

    fn cli(&mut self)
        ensures
            final(self)@ == spec_instruction(old(self)@, Instruction::CLI, AddressingMode::NonAddressing),
    {
        self.clear_flag(Flags::InterruptDisabled);
    }

    fn clv(&mut self)
        ensures
            final(self)@ == spec_instruction(old(self)@, Instruction::CLV, AddressingMode::NonAddressing),
    {
        self.clear_flag(Flags::Overflow);
    }

    fn sec(&mut self)
        ensures
            final(self)@ == spec_instruction(old(self)@, Instruction::SEC, AddressingMode::NonAddressing),
    {
        self.set_flag(Flags::Carry);
    }

    fn sed(&mut self)
        ensures
            final(self)@ == spec_instruction(old(self)@, Instruction::SED, AddressingMode::NonAddressing),
    {
        self.set_flag(Flags::DecimalMode);
    }

    fn sei(&mut self)
        ensures
            final(self)@ == spec_instruction(old(self)@, Instruction::SEI, AddressingMode::NonAddressing),
    {
        self.set_flag(Flags::InterruptDisabled);
    }

    fn compare(&mut self, a: u8, b: u8)
        ensures
            final(self)@ == spec_compare(old(self)@, a, b),
    {
        self.update_flag(Flags::Carry, a >= b);
        self.update_zero_and_negative_flags(a.wrapping_sub(b));
    }

    fn cmp(&mut self, mode: &AddressingMode)
        requires
            mode.has_address(),
            old(self).additional_cycles <= 252,
        ensures
            final(self)@ == spec_instruction(old(self)@, Instruction::CMP, *mode),
    {
        let value = self.get_operand(mode);
        self.compare(self.register_a, value);
    }

    fn cpx(&mut self, mode: &AddressingMode)
        requires
            mode.has_address(),
            old(self).additional_cycles <= 252,
        ensures
            final(self)@ == spec_instruction(old(self)@, Instruction::CPX, *mode),
    {
        let value = self.get_operand(mode);
        self.compare(self.register_x, value);
    }

    fn cpy(&mut self, mode: &AddressingMode)
        requires
            mode.has_address(),
            old(self).additional_cycles <= 252,
        ensures
            final(self)@ == spec_instruction(old(self)@, Instruction::CPY, *mode),
    {
        let value = self.get_operand(mode);
        self.compare(self.register_y, value);
    }

    fn dec(&mut self, mode: &AddressingMode)
        requires
            mode.has_address(),
            old(self).additional_cycles <= 252,
        ensures
            final(self)@ == spec_instruction(old(self)@, Instruction::DEC, *mode),
    {
        let addr = self.get_address(mode);
        let value = self.mem_read(addr).wrapping_sub(1);
        self.update_zero_and_negative_flags(value);
        self.mem_write(addr, value);
    }

    fn dex(&mut self)
        ensures
            final(self)@ == spec_instruction(old(self)@, Instruction::DEX, AddressingMode::NonAddressing),
    {
        self.load_register_x(self.register_x.wrapping_sub(1));
    }

    fn dey(&mut self)
        ensures
            final(self)@ == spec_instruction(old(self)@, Instruction::DEY, AddressingMode::NonAddressing),
    {
        self.load_register_y(self.register_y.wrapping_sub(1));
    }

    fn inc(&mut self, mode: &AddressingMode)
        requires
            mode.has_address(),
            old(self).additional_cycles <= 252,
        ensures
            final(self)@ == spec_instruction(old(self)@, Instruction::INC, *mode),
    {
        let addr = self.get_address(mode);
        let value = self.mem_read(addr).wrapping_add(1);
        self.update_zero_and_negative_flags(value);
        self.mem_write(addr, value);
    }

    fn inx(&mut self)
        ensures
            final(self)@ == spec_instruction(old(self)@, Instruction::INX, AddressingMode::NonAddressing),
    {
        self.load_register_x(self.register_x.wrapping_add(1));
    }

    fn iny(&mut self)
        ensures
            final(self)@ == spec_instruction(old(self)@, Instruction::INY, AddressingMode::NonAddressing),
    {
        self.load_register_y(self.register_y.wrapping_add(1));
    }

    fn jmp(&mut self, mode: &AddressingMode)
        requires
            mode.has_address(),
            old(self).additional_cycles <= 252,
        ensures
            final(self)@ == spec_instruction(old(self)@, Instruction::JMP, *mode),
    {
        // the program counter moves past the three bytes of the instruction afterwards
        self.program_counter = self.get_address(mode).wrapping_sub(3);
    }

    #[verifier::rlimit(40)]
    fn jsr(&mut self, mode: &AddressingMode)
        requires
            mode.has_address(),
            old(self).additional_cycles <= 252,
        ensures
            final(self)@ == spec_instruction(old(self)@, Instruction::JSR, *mode),
    {
        let addr = self.get_address(mode);
        // the address of the last byte of this instruction
        self.push_u16(self.program_counter.wrapping_add(2));
        // the program counter moves past the three bytes of the instruction afterwards
        self.program_counter = addr.wrapping_sub(3);
    }

    fn pha(&mut self)
        ensures
            final(self)@ == spec_instruction(old(self)@, Instruction::PHA, AddressingMode::NonAddressing),
    {
        self.push(self.register_a);
    }

    fn php(&mut self)
        ensures
            final(self)@ == spec_instruction(old(self)@, Instruction::PHP, AddressingMode::NonAddressing),
    {
        self.push(self.status | Flags::B1.bits() | Flags::B2.bits());
    }

    fn pla(&mut self)
        ensures
            final(self)@ == spec_instruction(old(self)@, Instruction::PLA, AddressingMode::NonAddressing),
    {
        let value = self.pull();
        self.load_register_a(value);
    }

    fn plp(&mut self)
        ensures
            final(self)@ == spec_instruction(old(self)@, Instruction::PLP, AddressingMode::NonAddressing),
    {
        self.status = self.pull();
        self.set_flag(Flags::B2);
        self.clear_flag(Flags::B1);
    }

    fn rti(&mut self)
        ensures
            final(self)@ == spec_instruction(old(self)@, Instruction::RTI, AddressingMode::NonAddressing),
    {
        self.plp();
        // the program counter moves past the one byte of the instruction afterwards
        self.program_counter = self.pull_u16().wrapping_sub(1);
    }

    fn rts(&mut self)
        ensures
            final(self)@ == spec_instruction(old(self)@, Instruction::RTS, AddressingMode::NonAddressing),
    {
        self.program_counter = self.pull_u16();
    }
}


impl CPU {
    /// Does nothing but compute the operand address, which may cost a page-crossing cycle.
    fn nop(&mut self, mode: &AddressingMode)
        requires
            old(self).additional_cycles <= 252,
        ensures
            final(self)@ == spec_instruction(old(self)@, Instruction::NOP, *mode),
    {
        let _ = mode.get_operand_address::<Load>(self);
    }

    /// BRK ends a program run; nothing else happens when the instruction itself executes.
    fn brk(&mut self)
        ensures
            final(self)@ == spec_instruction(old(self)@, Instruction::BRK, AddressingMode::NonAddressing),
    {
    }

    fn lax(&mut self, mode: &AddressingMode)
        requires
            mode.has_address(),
            old(self).additional_cycles <= 252,
        ensures
            final(self)@ == spec_instruction(old(self)@, Instruction::LAX, *mode),
    {
        let value = self.get_operand(mode);
        self.register_a = value;
        self.register_x = value;
        self.update_zero_and_negative_flags(value);
    }

    fn sax(&mut self, mode: &AddressingMode)
        requires
            mode.has_address(),
            old(self).additional_cycles <= 252,
        ensures
            final(self)@ == spec_instruction(old(self)@, Instruction::SAX, *mode),
    {
        let addr = self.get_address(mode);
        let value = self.register_a & self.register_x;
        self.mem_write(addr, value);
    }

    #[verifier::rlimit(40)]
    fn dcp(&mut self, mode: &AddressingMode)
        requires
            mode.has_address(),
            old(self).additional_cycles <= 252,
        ensures
            final(self)@ == spec_instruction(old(self)@, Instruction::DCP, *mode),
    {
        let addr = self.get_address(mode);
        let value = self.mem_read(addr).wrapping_sub(1);
        self.mem_write(addr, value);
        self.compare(self.register_a, value);
    }

    fn isb(&mut self, mode: &AddressingMode)
        requires
            mode.has_address(),
            old(self).additional_cycles <= 252,
        ensures
            final(self)@ == spec_instruction(old(self)@, Instruction::ISB, *mode),
    {
        let addr = self.get_address(mode);
        let value = self.mem_read(addr).wrapping_add(1);
        self.mem_write(addr, value);
        // The value is negated bitwise rather than arithmetically because of the carry.
        self.add_to_a(!value);
    }

    fn slo(&mut self, mode: &AddressingMode)
        requires
            mode.has_address(),
            old(self).additional_cycles <= 252,
        ensures
            final(self)@ == spec_instruction(old(self)@, Instruction::SLO, *mode),
    {
        let value = self.asl_logic(mode);
        self.load_register_a(self.register_a | value);
    }

    fn rla(&mut self, mode: &AddressingMode)
        requires
            mode.has_address(),
            old(self).additional_cycles <= 252,
        ensures
            final(self)@ == spec_instruction(old(self)@, Instruction::RLA, *mode),
    {
        let value = self.rol_logic(mode);
        self.load_register_a(self.register_a & value);
    }

    fn sre(&mut self, mode: &AddressingMode)
        requires
            mode.has_address(),
            old(self).additional_cycles <= 252,
        ensures
            final(self)@ == spec_instruction(old(self)@, Instruction::SRE, *mode),
    {
        let value = self.lsr_logic(mode);
        self.load_register_a(self.register_a ^ value);
    }

    fn rra(&mut self, mode: &AddressingMode)
        requires
            mode.has_address(),
            old(self).additional_cycles <= 252,
        ensures
            final(self)@ == spec_instruction(old(self)@, Instruction::RRA, *mode),
    {
        let value = self.ror_logic(mode);
        self.add_to_a(value);
    }

    fn aac(&mut self, mode: &AddressingMode)
        requires
            mode.has_address(),
            old(self).additional_cycles <= 252,
        ensures
            final(self)@ == spec_instruction(old(self)@, Instruction::AAC, *mode),
    {
        let value = self.get_operand(mode);
        self.register_a = self.register_a & value;
        self.update_flag(Flags::Carry, 0b1000_0000 & self.register_a != 0);
        proof {
            let r = self.register_a;
            assert((0b1000_0000u8 & r != 0) == (r & 0b1000_0000u8 != 0)) by {
                crate::bits::lemma_u8_bits(r);
            }
        }
        self.update_zero_and_negative_flags(self.register_a);
    }

    /// KIL jams the CPU: the program counter stays on the instruction.
    fn kil(&mut self)
        ensures
            final(self)@ == spec_instruction(old(self)@, Instruction::KIL, AddressingMode::NonAddressing),
    {
        self.program_counter = self.program_counter.wrapping_sub(1);
    }

    fn asr(&mut self, mode: &AddressingMode)
        requires
            mode.has_address(),
            old(self).additional_cycles <= 252,
        ensures
            final(self)@ == spec_instruction(old(self)@, Instruction::ASR, *mode),
    {
        let value = self.get_operand(mode);
        self.register_a = self.register_a & value;
        let _ = self.lsr_logic(&AddressingMode::Accumulator);
        self.update_zero_and_negative_flags(self.register_a);
    }

    fn arr(&mut self, mode: &AddressingMode)
        requires
            mode.has_address(),
            old(self).additional_cycles <= 252,
        ensures
            final(self)@ == spec_instruction(old(self)@, Instruction::ARR, *mode),
    {
        let value = self.get_operand(mode);
        self.register_a = self.register_a & value;
        let _ = self.ror_logic(&AddressingMode::Accumulator);
        self.update_zero_and_negative_flags(self.register_a);
    }

    // Exact operation unknown
    fn xaa(&mut self, mode: &AddressingMode)
        requires
            *mode == AddressingMode::Immediate,
            old(self).additional_cycles <= 252,
        ensures
            final(self)@ == spec_instruction(old(self)@, Instruction::XAA, *mode),
    {
        self.register_x = self.register_a;
        let value = self.get_operand(mode);
        self.load_register_a(self.register_a & value);
    }

    /// `value` and the high byte of `addr` plus one; the sum wraps around.
    fn and_high_plus_one(value: u8, addr: u16) -> (r: u8)
        ensures
            r == and_high_plus_one(value, addr),
    {
        proof { lemma_high_byte(addr); }
        value & ((addr >> 8u16) as u8).wrapping_add(1)
    }

    fn axa(&mut self, mode: &AddressingMode)
        requires
            mode.has_address(),
            old(self).additional_cycles <= 252,
        ensures
            final(self)@ == spec_instruction(old(self)@, Instruction::AXA, *mode),
    {
        let addr = self.get_address(mode);
        let value = Self::and_high_plus_one(self.register_a & self.register_x, addr);
        self.mem_write(addr, value);
    }

    fn xas(&mut self, mode: &AddressingMode)
        requires
            mode.has_address(),
            old(self).additional_cycles <= 252,
        ensures
            final(self)@ == spec_instruction(old(self)@, Instruction::XAS, *mode),
    {
        self.register_s = self.register_a & self.register_x;
        let addr = self.get_address(mode);
        let value = Self::and_high_plus_one(self.register_s, addr);
        self.mem_write(addr, value);
    }

    fn sya(&mut self, mode: &AddressingMode)
        requires
            mode.has_address(),
            old(self).additional_cycles <= 252,
        ensures
            final(self)@ == spec_instruction(old(self)@, Instruction::SYA, *mode),
    {
        let addr = self.get_address(mode);
        let value = Self::and_high_plus_one(self.register_y, addr);
        self.mem_write(addr, value);
    }

    fn sxa(&mut self, mode: &AddressingMode)
        requires
            mode.has_address(),
            old(self).additional_cycles <= 252,
        ensures
            final(self)@ == spec_instruction(old(self)@, Instruction::SXA, *mode),
    {
        let addr = self.get_address(mode);
        let value = Self::and_high_plus_one(self.register_x, addr);
        self.mem_write(addr, value);
    }

    fn atx(&mut self, mode: &AddressingMode)
        requires
            mode.has_address(),
            old(self).additional_cycles <= 252,
        ensures
            final(self)@ == spec_instruction(old(self)@, Instruction::ATX, *mode),
    {
        let value = self.get_operand(mode);
        // some sources say that it should be register_a &= value
        self.register_a = value;
        self.register_x = value;
        self.update_zero_and_negative_flags(self.register_x);
    }

    fn lar(&mut self, mode: &AddressingMode)
        requires
            mode.has_address(),
            old(self).additional_cycles <= 252,
        ensures
            final(self)@ == spec_instruction(old(self)@, Instruction::LAR, *mode),
    {
        let value = self.get_operand(mode) & self.register_s;
        self.register_a = value;
        self.register_x = value;
        self.register_s = value;
        self.update_zero_and_negative_flags(self.register_a);
    }

    fn axs(&mut self, mode: &AddressingMode)
        requires
            mode.has_address(),
            old(self).additional_cycles <= 252,
        ensures
            final(self)@ == spec_instruction(old(self)@, Instruction::AXS, *mode),
    {
        let value = self.get_operand(mode);
        self.load_register_x((self.register_a & self.register_x).wrapping_sub(value));
    }

    /// Executes `instruction` under `mode`; the program counter is not moved past it.
    pub fn execute_instruction(&mut self, instruction: Instruction, mode: &AddressingMode)
        requires
            fits(instruction, *mode),
            old(self).additional_cycles <= 252,
        ensures
            final(self)@ == spec_instruction(old(self)@, instruction, *mode),
    {
        match instruction {
            Instruction::ADC => self.adc(mode),
            Instruction::AND => self.and(mode),
            Instruction::ASL => self.asl(mode),
            Instruction::BCC => self.bcc(mode),
            Instruction::BCS => self.bcs(mode),
            Instruction::BEQ => self.beq(mode),
            Instruction::BIT => self.bit(mode),
            Instruction::BMI => self.bmi(mode),
            Instruction::BNE => self.bne(mode),
            Instruction::BPL => self.bpl(mode),
            Instruction::BRK => self.brk(),
            Instruction::BVC => self.bvc(mode),
            Instruction::BVS => self.bvs(mode),
            Instruction::CLC => self.clc(),
            Instruction::CLD => self.cld(),
            Instruction::CLI => self.cli(),
            Instruction::CLV => self.clv(),
            Instruction::CMP => self.cmp(mode),
            Instruction::CPX => self.cpx(mode),
            Instruction::CPY => self.cpy(mode),
            Instruction::DEC => self.dec(mode),
            Instruction::DEX => self.dex(),
            Instruction::DEY => self.dey(),
            Instruction::EOR => self.eor(mode),
            Instruction::INC => self.inc(mode),
            Instruction::INX => self.inx(),
            Instruction::INY => self.iny(),
            Instruction::JMP => self.jmp(mode),
            Instruction::JSR => self.jsr(mode),
            Instruction::LDA => self.lda(mode),
            Instruction::LDX => self.ldx(mode),
            Instruction::LDY => self.ldy(mode),
            Instruction::LSR => self.lsr(mode),
            Instruction::NOP => self.nop(mode),
            Instruction::ORA => self.ora(mode),
            Instruction::PHA => self.pha(),
            Instruction::PHP => self.php(),
            Instruction::PLA => self.pla(),
            Instruction::PLP => self.plp(),
            Instruction::ROL => self.rol(mode),
            Instruction::ROR => self.ror(mode),
            Instruction::RTI => self.rti(),
            Instruction::RTS => self.rts(),
            Instruction::SBC => self.sbc(mode),
            Instruction::SEC => self.sec(),
            Instruction::SED => self.sed(),
            Instruction::SEI => self.sei(),
            Instruction::STA => self.sta(mode),
            Instruction::STX => self.stx(mode),
            Instruction::STY => self.sty(mode),
            Instruction::TAX => self.tax(),
            Instruction::TAY => self.tay(),
            Instruction::TSX => self.tsx(),
            Instruction::TXA => self.txa(),
            Instruction::TXS => self.txs(),
            Instruction::TYA => self.tya(),
            Instruction::LAX => self.lax(mode),
            Instruction::SAX => self.sax(mode),
            Instruction::DCP => self.dcp(mode),
            Instruction::ISB => self.isb(mode),
            Instruction::SLO => self.slo(mode),
            Instruction::RLA => self.rla(mode),
            Instruction::SRE => self.sre(mode),
            Instruction::RRA => self.rra(mode),
            Instruction::AAC => self.aac(mode),
            Instruction::KIL => self.kil(),
            Instruction::ASR => self.asr(mode),
            Instruction::ARR => self.arr(mode),
            Instruction::XAA => self.xaa(mode),
            Instruction::AXA => self.axa(mode),
            Instruction::XAS => self.xas(mode),
            Instruction::SYA => self.sya(mode),
            Instruction::SXA => self.sxa(mode),
            Instruction::ATX => self.atx(mode),
            Instruction::LAR => self.lar(mode),
            Instruction::AXS => self.axs(mode),
        }
    }
}

} // verus!
