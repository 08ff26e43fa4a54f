use vstd::prelude::*;
use crate::bus::{Mem, lemma_word_bits, next_addr, word};
use crate::cpu::{CPU, CpuState};

verus! {

/// How an instruction finds its operand.
#[derive(Debug, PartialEq, Eq, Structural, Copy, Clone)]
pub enum AddressingMode {
    Accumulator,
    Immediate,
    ZeroPage,
    ZeroPage_X,
    ZeroPage_Y,
    Absolute,
    Absolute_X,
    Absolute_Y,
    Indirect,
    Indirect_X,
    Indirect_Y,
    Relative,
    NonAddressing,
}

/// The address an indexed absolute or indirect-indexed access adds its index to.
pub open spec fn index_base(s: CpuState, mode: AddressingMode) -> u16 {
    if mode == AddressingMode::Indirect_Y {
        read_zero_page_ptr(s, read(s, next_addr(s.pc)))
    } else {
        read_u16(s, next_addr(s.pc))
    }
}

/// Whether the access of `mode` from `s` is an indexed one (absolute or indirect) whose index
/// carries it onto another page.
pub open spec fn crosses_page(s: CpuState, mode: AddressingMode) -> bool {
    &&& (mode == AddressingMode::Absolute_X || mode == AddressingMode::Absolute_Y || mode == AddressingMode::Indirect_Y)
    &&& spec_page_cross(index_base(s, mode), operand_address(s, mode).unwrap())
}

/// `s` after its operand address was computed: a page crossing costs the instruction a cycle
/// when its table entry says so.
pub open spec fn with_page_bonus(s: CpuState, mode: AddressingMode) -> CpuState {
    if s.bonus_cycle_on_page_cross && crosses_page(s, mode) {
        CpuState { additional_cycles: (s.additional_cycles + 1) as u8, ..s }
    } else {
        s
    }
}

/// Whether computing the operand address makes a dummy read: indexed zero-page accesses always
/// do; indexed absolute and indirect-indexed ones do for stores and when a page is crossed.
pub open spec fn dummy_read(s: CpuState, mode: AddressingMode, store: bool) -> bool {
    match mode {
        AddressingMode::ZeroPage_X | AddressingMode::ZeroPage_Y => true,
        AddressingMode::Absolute_X | AddressingMode::Absolute_Y | AddressingMode::Indirect_Y => store || crosses_page(s, mode),
        _ => false,
    }
}

/// Whether an instruction stores to its operand address (stores always make the dummy read of
/// an indexed access) or loads from it.
pub trait InstructionType {
    const STORE: bool;
}

pub struct Load;

pub struct Store;

impl InstructionType for Load {
    const STORE: bool = false;
}

impl InstructionType for Store {
    const STORE: bool = true;
}

impl AddressingMode {
    /// Whether the mode names a memory location (all but `Accumulator` and `NonAddressing`).
    pub open spec fn has_address(self) -> bool {
        self != AddressingMode::Accumulator && self != AddressingMode::NonAddressing
    }
}

/// Whether two addresses lie on different 256-byte pages.
pub open spec fn spec_page_cross(addr1: u16, addr2: u16) -> bool {
    addr1 as int / 256 != addr2 as int / 256
}

pub fn page_cross(addr1: u16, addr2: u16) -> (r: bool)
    ensures
        r == spec_page_cross(addr1, addr2),
{
    proof { crate::bits::lemma_u16_pair_bits(addr1, addr2); }
    (addr1 & 0xFF00u16) != (addr2 & 0xFF00u16)
}

/// The byte at `addr`.
pub open spec fn read(s: CpuState, addr: u16) -> u8 {
    s.mem[addr as int]
}

/// The little-endian word at `addr`; the high byte comes from the next address.
pub open spec fn read_u16(s: CpuState, addr: u16) -> u16 {
    word(read(s, addr), read(s, next_addr(addr)))
}

/// The zero-page pointer stored at zero-page address `zp`; the high byte wraps within page zero.
pub open spec fn read_zero_page_ptr(s: CpuState, zp: u8) -> u16 {
    word(read(s, zp as u16), read(s, ((zp as int + 1) % 256) as u16))
}

/// The address that follows `addr` within its own page, as the 6502 computes it for
/// indirect jumps: the low byte wraps from 0xFF to 0x00 and the page stays.
pub open spec fn same_page_next(addr: u16) -> u16 {
    (addr as int / 256 * 256 + (addr as int + 1) % 256) as u16
}

/// A byte read as a two's complement value.
pub open spec fn signed(b: u8) -> int {
    if b >= 128 { b as int - 256 } else { b as int }
}

/// Adds `offset` to `v` modulo 2^16.
pub open spec fn add16(v: u16, offset: int) -> u16 {
    ((v as int + offset) % 0x10000) as u16
}

/// The address of the operand of the instruction at `s.pc` under `mode`, or `None` for the
/// modes without one.
pub open spec fn operand_address(s: CpuState, mode: AddressingMode) -> Option<u16> {
    let loc = next_addr(s.pc);
    match mode {
        AddressingMode::Immediate => Some(loc),
        AddressingMode::ZeroPage => Some(read(s, loc) as u16),
        AddressingMode::ZeroPage_X => Some(((read(s, loc) as int + s.x as int) % 256) as u16),
        AddressingMode::ZeroPage_Y => Some(((read(s, loc) as int + s.y as int) % 256) as u16),
        AddressingMode::Absolute => Some(read_u16(s, loc)),
        AddressingMode::Absolute_X => Some(add16(read_u16(s, loc), s.x as int)),
        AddressingMode::Absolute_Y => Some(add16(read_u16(s, loc), s.y as int)),
        AddressingMode::Indirect => {
            let ptr = read_u16(s, loc);
            Some(word(read(s, ptr), read(s, same_page_next(ptr))))
        },
        AddressingMode::Indirect_X => Some(
            read_zero_page_ptr(s, ((read(s, loc) as int + s.x as int) % 256) as u8),
        ),
        AddressingMode::Indirect_Y => Some(add16(read_zero_page_ptr(s, read(s, loc)), s.y as int)),
        AddressingMode::Relative => Some(add16(s.pc, 0x10000 + signed(read(s, loc)))),
        AddressingMode::Accumulator | AddressingMode::NonAddressing => None,
    }
}

proof fn lemma_indirect_page(address: u16)
    ensures
        address & 0xFFu16 == 0xFFu16 ==> address & 0xFF00u16 == same_page_next(address),
        address & 0xFFu16 != 0xFFu16 ==> next_addr(address) == same_page_next(address),
{
    assert(address & 0xFFu16 == 0xFFu16 ==> address & 0xFF00u16 == (address as int / 256 * 256 + (
    address as int + 1) % 256) as u16) by {
        crate::bits::lemma_page_end_bits(address);
    }
    assert(address & 0xFFu16 != 0xFFu16 ==> ((address as int + 1) % 0x10000) as u16 == (
    address as int / 256 * 256 + (address as int + 1) % 256) as u16) by {
        crate::bits::lemma_page_inner_bits(address);
    }
}

impl AddressingMode {
    /// Whether the indexed access of an instruction using this mode crosses a page boundary.
    #[verifier::rlimit(90)]
    #[verifier::spinoff_prover]
    pub fn access_crosses_page_border(&self, cpu: &mut CPU) -> (r: bool)
        requires
            *self == AddressingMode::Absolute_X || *self == AddressingMode::Absolute_Y || *self
                == AddressingMode::Indirect_Y,
        ensures
            final(cpu)@ == old(cpu)@,
            r == crosses_page(old(cpu)@, *self),
    {
        let ghost s = cpu@;
        let operand_location = cpu.program_counter.wrapping_add(1);
        assert(operand_location == next_addr(s.pc));
        if *self == AddressingMode::Indirect_Y {
            let base = cpu.mem_read(operand_location);
            let lo = cpu.mem_read(base as u16);
            let hi = cpu.mem_read(base.wrapping_add(1) as u16);
            proof { lemma_word_bits(lo, hi); }
            let deref_base = (hi as u16) << 8u16 | (lo as u16);
            assert(deref_base == index_base(s, *self));
            let deref = deref_base.wrapping_add(cpu.register_y as u16);
            assert(deref == operand_address(s, *self).unwrap());
            page_cross(deref_base, deref)
        } else {
            let base = cpu.mem_read_u16(operand_location);
            assert(base == index_base(s, *self));
            let index = if *self == AddressingMode::Absolute_X { cpu.register_x } else { cpu.register_y };
            let target = base.wrapping_add(index as u16);
            assert(target == operand_address(s, *self).unwrap());
            page_cross(base, target)
        }
    }

    /// The address of the operand of the instruction at the program counter, whether computing
    /// it made a dummy read, and whether the access crossed a page; `None` for the modes without
    /// an operand address. A page crossing costs a cycle when the current instruction's table
    /// entry says so. `IT` tells loads from stores, which always make the dummy read of an
    /// indexed access.
    #[verifier::rlimit(90)]
    #[verifier::spinoff_prover]
    pub fn get_operand_address<IT: InstructionType>(&self, cpu: &mut CPU) -> (r: Option<(u16, bool, bool)>)
        requires
            old(cpu).additional_cycles < 255,
        ensures
            final(cpu)@ == with_page_bonus(old(cpu)@, *self),
            r == (match operand_address(old(cpu)@, *self) {
                Some(a) => Some((a, dummy_read(old(cpu)@, *self, IT::STORE), crosses_page(old(cpu)@, *self))),
                None => None,
            }),
    {
        let operand_location = cpu.program_counter.wrapping_add(1);
        match self {
            AddressingMode::Immediate => Some((operand_location, false, false)),
            AddressingMode::ZeroPage => Some((cpu.mem_read(operand_location) as u16, false, false)),
            AddressingMode::ZeroPage_X => {
                let pos = cpu.mem_read(operand_location);
                let _ = cpu.mem_read(pos as u16);
                Some((pos.wrapping_add(cpu.register_x) as u16, true, false))
            },
            AddressingMode::ZeroPage_Y => {
                let pos = cpu.mem_read(operand_location);
                let _ = cpu.mem_read(pos as u16);
                Some((pos.wrapping_add(cpu.register_y) as u16, true, false))
            },
            AddressingMode::Absolute => Some((cpu.mem_read_u16(operand_location), false, false)),
            AddressingMode::Absolute_X | AddressingMode::Absolute_Y => {
                let base = cpu.mem_read_u16(operand_location);
                let index = if *self == AddressingMode::Absolute_X { cpu.register_x } else { cpu.register_y };
                let target = base.wrapping_add(index as u16);
                let mut dummy_read_happened = false;
                let page_crossed = page_cross(base, target);
                if page_crossed && cpu.current_instruction.bonus_cycle_on_page_cross {
                    cpu.additional_cycles = cpu.additional_cycles + 1;
                }
                if IT::STORE || page_crossed {
                    let dummy = (base & 0xFF00u16) | (target & 0x00FFu16);
                    let _ = cpu.mem_read(dummy);
                    dummy_read_happened = true;
                }
                Some((target, dummy_read_happened, page_crossed))
            },
            // An original 6502 does not fetch the target address correctly when the indirect
            // vector falls on a page boundary ($xxFF): it takes the LSB from $xxFF and the MSB
            // from $xx00.
            AddressingMode::Indirect => {
                let address = cpu.mem_read_u16(operand_location);
                proof { lemma_indirect_page(address); }
                if address & 0xFFu16 == 0xFFu16 {
                    let lo = cpu.mem_read(address);
                    let hi = cpu.mem_read(address & 0xFF00u16);
                    proof { lemma_word_bits(lo, hi); }
                    Some(((hi as u16) << 8u16 | (lo as u16), false, false))
                } else {
                    Some((cpu.mem_read_u16(address), false, false))
                }
            },
            AddressingMode::Indirect_X => {
                let base = cpu.mem_read(operand_location);
                let ptr = base.wrapping_add(cpu.register_x);
                let lo = cpu.mem_read(ptr as u16);
                let hi = cpu.mem_read(ptr.wrapping_add(1) as u16);
                proof { lemma_word_bits(lo, hi); }
                Some(((hi as u16) << 8u16 | (lo as u16), false, false))
            },
            AddressingMode::Indirect_Y => {
                let base = cpu.mem_read(operand_location);
                let lo = cpu.mem_read(base as u16);
                let hi = cpu.mem_read(base.wrapping_add(1) as u16);
                proof { lemma_word_bits(lo, hi); }
                let deref_base = (hi as u16) << 8u16 | (lo as u16);
                let target = deref_base.wrapping_add(cpu.register_y as u16);
                let mut dummy_read_happened = false;
                let page_crossed = page_cross(deref_base, target);
                if page_crossed && cpu.current_instruction.bonus_cycle_on_page_cross {
                    cpu.additional_cycles = cpu.additional_cycles + 1;
                }
                if IT::STORE || page_crossed {
                    let dummy = (deref_base & 0xFF00u16) | (target & 0x00FFu16);
                    let _ = cpu.mem_read(dummy);
                    dummy_read_happened = true;
                }
                Some((target, dummy_read_happened, page_crossed))
            },
            AddressingMode::Relative => {
                let offset = cpu.mem_read(operand_location);
                if offset & 0b1000_0000u8 != 0 {
                    assert(offset & 0b1000_0000u8 != 0 ==> offset >= 128) by {
                        crate::bits::lemma_u8_bits(offset);
                    }
                    let neg = 0u8.wrapping_sub(offset);
                    Some((cpu.program_counter.wrapping_sub(neg as u16), false, false))
                } else {
                    assert(offset & 0b1000_0000u8 == 0 ==> offset < 128) by {
                        crate::bits::lemma_u8_bits(offset);
                    }
                    Some((cpu.program_counter.wrapping_add(offset as u16), false, false))
                }
            },
            AddressingMode::Accumulator | AddressingMode::NonAddressing => None,
        }
    }

    #[verifier::rlimit(90)]
    #[verifier::spinoff_prover]
    /// The operand address computed from memory as it is, without any side effect on the bus.
    pub fn trace_get_operand_address(&self, cpu: &CPU) -> (r: Option<u16>)
        ensures
            r == operand_address(cpu@, *self),
    {
        let operand_location = cpu.program_counter.wrapping_add(1);
        match self {
            AddressingMode::Immediate => Some(operand_location),
            AddressingMode::ZeroPage => Some(cpu.trace_mem_read(operand_location) as u16),
            AddressingMode::ZeroPage_X => {
                let pos = cpu.trace_mem_read(operand_location);
                Some(pos.wrapping_add(cpu.register_x) as u16)
            },
            AddressingMode::ZeroPage_Y => {
                let pos = cpu.trace_mem_read(operand_location);
                Some(pos.wrapping_add(cpu.register_y) as u16)
            },
            AddressingMode::Absolute => Some(cpu.trace_mem_read_u16(operand_location)),
            AddressingMode::Absolute_X => {
                let base = cpu.trace_mem_read_u16(operand_location);
                Some(base.wrapping_add(cpu.register_x as u16))
            },
            AddressingMode::Absolute_Y => {
                let base = cpu.trace_mem_read_u16(operand_location);
                Some(base.wrapping_add(cpu.register_y as u16))
            },
            AddressingMode::Indirect => {
                let address = cpu.trace_mem_read_u16(operand_location);
                proof { lemma_indirect_page(address); }
                if address & 0xFFu16 == 0xFFu16 {
                    let lo = cpu.trace_mem_read(address);
                    let hi = cpu.trace_mem_read(address & 0xFF00u16);
                    proof { lemma_word_bits(lo, hi); }
                    Some((hi as u16) << 8u16 | (lo as u16))
                } else {
                    Some(cpu.trace_mem_read_u16(address))
                }
            },
            AddressingMode::Indirect_X => {
                let base = cpu.trace_mem_read(operand_location);
                let ptr = base.wrapping_add(cpu.register_x);
                let lo = cpu.trace_mem_read(ptr as u16);
                let hi = cpu.trace_mem_read(ptr.wrapping_add(1) as u16);
                proof { lemma_word_bits(lo, hi); }
                Some((hi as u16) << 8u16 | (lo as u16))
            },
            AddressingMode::Indirect_Y => {
                let base = cpu.trace_mem_read(operand_location);
                let lo = cpu.trace_mem_read(base as u16);
                let hi = cpu.trace_mem_read(base.wrapping_add(1) as u16);
                proof { lemma_word_bits(lo, hi); }
                let deref_base = (hi as u16) << 8u16 | (lo as u16);
                Some(deref_base.wrapping_add(cpu.register_y as u16))
            },
            AddressingMode::Relative => {
                let offset = cpu.trace_mem_read(operand_location);
                if offset & 0b1000_0000u8 != 0 {
                    assert(offset & 0b1000_0000u8 != 0 ==> offset >= 128) by {
                        crate::bits::lemma_u8_bits(offset);
                    }
                    let neg = 0u8.wrapping_sub(offset);
                    Some(cpu.program_counter.wrapping_sub(neg as u16))
                } else {
                    assert(offset & 0b1000_0000u8 == 0 ==> offset < 128) by {
                        crate::bits::lemma_u8_bits(offset);
                    }
                    Some(cpu.program_counter.wrapping_add(offset as u16))
                }
            },
            AddressingMode::Accumulator | AddressingMode::NonAddressing => None,
        }
    }
}

} // verus!
