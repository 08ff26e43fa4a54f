use vstd::prelude::*;
use crate::bus::{Bus65k, Mem, PollIRQ, PollNMI, next_addr, word, lo_byte, hi_byte, MEMORY_SIZE};
use crate::cpu::addressing_mode::{AddressingMode, read, read_u16};
use crate::cpu::instructions::{Instruction, spec_instruction, fits};
use crate::cpu::interrupts::{Interrupt, irq_interrupt, nmi_interrupt, reset_interrupt, RESET_VECTOR};
use crate::cpu::opcodes::{OpCode, opcode_spec, spec_execute, lemma_table_fits};

pub mod addressing_mode;
pub mod instructions;
pub mod interrupts;
pub mod opcodes;

verus! {

// 7  bit  0
// ---- ----
// NV1B DIZC
// |||| ||||
// |||| |||+- Carry
// |||| ||+-- Zero
// |||| |+--- Interrupt Disable
// |||| +---- Decimal
// |||+------ (No CPU effect; see: the B flag)
// ||+------- (No CPU effect; always pushed as 1)
// |+-------- Overflow
// +--------- Negative
/// The bits of the status register.
#[derive(Debug, PartialEq, Eq, Structural, Copy, Clone)]
pub enum Flags {
    Carry,
    Zero,
    InterruptDisabled,
    DecimalMode,
    B1,
    B2,
    Overflow,
    Negative,
}

impl Flags {
    /// The bit of the status register that holds this flag.
    pub open spec fn mask(self) -> u8 {
        match self {
            Flags::Carry => 0b0000_0001,
            Flags::Zero => 0b0000_0010,
            Flags::InterruptDisabled => 0b0000_0100,
            Flags::DecimalMode => 0b0000_1000,
            Flags::B1 => 0b0001_0000,
            Flags::B2 => 0b0010_0000,
            Flags::Overflow => 0b0100_0000,
            Flags::Negative => 0b1000_0000,
        }
    }

    pub fn bits(self) -> (r: u8)
        ensures
            r == self.mask(),
    {
        match self {
            Flags::Carry => 0b0000_0001,
            Flags::Zero => 0b0000_0010,
            Flags::InterruptDisabled => 0b0000_0100,
            Flags::DecimalMode => 0b0000_1000,
            Flags::B1 => 0b0001_0000,
            Flags::B2 => 0b0010_0000,
            Flags::Overflow => 0b0100_0000,
            Flags::Negative => 0b1000_0000,
        }
    }
}

/// A 6502 CPU wired to a flat 64 KiB bus.
pub struct CPU {
    pub register_a: u8,
    pub register_x: u8,
    pub register_y: u8,
    pub register_s: u8,
    pub status: u8,
    pub program_counter: u16,
    pub bus: Bus65k,
    /// how many additional cycles the instruction being executed takes
    pub additional_cycles: u8,
    /// the table entry of the instruction being executed
    pub current_instruction: OpCode,
}

/// The state of a CPU: its registers, the memory of its bus and the cycles counted.
pub struct CpuState {
    pub a: u8,
    pub x: u8,
    pub y: u8,
    pub s: u8,
    pub status: u8,
    pub pc: u16,
    pub mem: Seq<u8>,
    pub cycles: u64,
    pub additional_cycles: u8,
    /// whether the instruction being executed takes a cycle more when its access crosses a page
    pub bonus_cycle_on_page_cross: bool,
}

impl View for CPU {
    type V = CpuState;

    open spec fn view(&self) -> CpuState {
        CpuState {
            a: self.register_a,
            x: self.register_x,
            y: self.register_y,
            s: self.register_s,
            status: self.status,
            pc: self.program_counter,
            mem: self.bus@.mem,
            cycles: self.bus@.cycles,
            additional_cycles: self.additional_cycles,
            bonus_cycle_on_page_cross: self.current_instruction.bonus_cycle_on_page_cross,
        }
    }
}

pub const STACK_BASE_ADDRESS: u16 = 0x0100;

pub const STACK_END: u8 = 0xFD;

pub const INITIAL_STATUS: u8 = 0x24;

/// `status` with the bits of `mask` set (`on`) or cleared.
pub open spec fn set_bit(status: u8, mask: u8, on: bool) -> u8 {
    if on {
        status | mask
    } else {
        status & !mask
    }
}

/// Whether `flag` is set in `s`.
pub open spec fn flag_set(s: CpuState, f: Flags) -> bool {
    s.status & f.mask() != 0
}

/// `s` with `f` set or cleared.
pub open spec fn with_flag(s: CpuState, f: Flags, on: bool) -> CpuState {
    CpuState { status: set_bit(s.status, f.mask(), on), ..s }
}

/// `status` with Zero and Negative describing `v`.
pub open spec fn nz_status(status: u8, v: u8) -> u8 {
    set_bit(
        set_bit(status, Flags::Zero.mask(), v == 0),
        Flags::Negative.mask(),
        v & 0b1000_0000 != 0,
    )
}

/// `s` with Zero and Negative describing `v`.
pub open spec fn with_nz(s: CpuState, v: u8) -> CpuState {
    CpuState { status: nz_status(s.status, v), ..s }
}

/// `s` with `v` written at `addr`.
pub open spec fn write_byte(s: CpuState, addr: u16, v: u8) -> CpuState {
    CpuState { mem: s.mem.update(addr as int, v), ..s }
}

/// `s` with `v` written little-endian at `addr` (high byte at the next address).
pub open spec fn write_u16(s: CpuState, addr: u16, v: u16) -> CpuState {
    write_byte(write_byte(s, addr, lo_byte(v)), next_addr(addr), hi_byte(v))
}

/// The stack slot the stack pointer designates.
pub open spec fn stack_addr(sp: u8) -> u16 {
    (0x0100 + sp as int) as u16
}

/// `s` after pushing `v` on the stack.
pub open spec fn push(s: CpuState, v: u8) -> CpuState {
    CpuState {
        mem: s.mem.update(stack_addr(s.s) as int, v),
        s: ((s.s as int + 255) % 256) as u8,
        ..s
    }
}

/// The byte a pull from `s` returns.
pub open spec fn top(s: CpuState) -> u8 {
    s.mem[stack_addr(((s.s as int + 1) % 256) as u8) as int]
}

/// `s` after a pull.
pub open spec fn popped(s: CpuState) -> CpuState {
    CpuState { s: ((s.s as int + 1) % 256) as u8, ..s }
}

/// `s` after pushing the word `v` (high byte first).
pub open spec fn push_u16(s: CpuState, v: u16) -> CpuState {
    push(push(s, hi_byte(v)), lo_byte(v))
}

/// The word a 16-bit pull from `s` returns.
pub open spec fn top_u16(s: CpuState) -> u16 {
    word(top(s), top(popped(s)))
}

/// `s` after a 16-bit pull.
pub open spec fn popped_u16(s: CpuState) -> CpuState {
    popped(popped(s))
}

/// Adds `v` to a 16-bit value modulo 2^16.
pub open spec fn wrap16(v: int) -> u16 {
    (v % 0x10000) as u16
}

impl Mem for CPU {
    open spec fn read_value(&self, addr: u16) -> u8 {
        self@.mem[addr as int]
    }

    fn mem_read(&mut self, addr: u16) -> (r: u8)
        ensures
            r == old(self)@.mem[addr as int],
            final(self)@ == old(self)@,
            old(self)@.mem.len() == MEMORY_SIZE,
    {
        self.bus.mem_read(addr)
    }

    fn mem_write(&mut self, addr: u16, data: u8)
        ensures
            final(self)@ == write_byte(old(self)@, addr, data),
            old(self)@.mem.len() == MEMORY_SIZE,
    {
        self.bus.mem_write(addr, data);
    }

    fn mem_read_u16(&mut self, pos: u16) -> (r: u16)
        ensures
            r == read_u16(old(self)@, pos),
            final(self)@ == old(self)@,
    {
        self.bus.mem_read_u16(pos)
    }

    fn mem_write_u16(&mut self, pos: u16, data: u16)
        ensures
            final(self)@ == write_u16(old(self)@, pos, data),
    {
        self.bus.mem_write_u16(pos, data);
    }
}

impl CPU {
    /// A CPU in its power-on state on `bus`.
    pub fn new_with_bus(bus: Bus65k) -> (r: CPU)
        ensures
            r.register_a == 0,
            r.register_x == 0,
            r.register_y == 0,
            r.register_s == STACK_END,
            r.status == INITIAL_STATUS,
            r.program_counter == 0,
            r.bus@ == bus@,
            r.additional_cycles == 0,
            r.current_instruction == opcode_spec(0),
    {
        CPU {
            register_a: 0,
            register_x: 0,
            register_y: 0,
            register_s: STACK_END,
            status: INITIAL_STATUS,
            program_counter: 0,
            bus,
            additional_cycles: 0,
            current_instruction: OpCode::from_code(0),
        }
    }

    /// Reads a byte without any side effect.
    pub fn trace_mem_read(&self, addr: u16) -> (r: u8)
        ensures
            r == read(self@, addr),
    {
        self.bus.trace_mem_read(addr)
    }

    /// Reads a little-endian word without any side effect.
    pub fn trace_mem_read_u16(&self, pos: u16) -> (r: u16)
        ensures
            r == read_u16(self@, pos),
    {
        let lo = self.trace_mem_read(pos);
        let hi = self.trace_mem_read(pos.wrapping_add(1));
        proof { crate::bus::lemma_word_bits(lo, hi); }
        ((hi as u16) << 8u16) | (lo as u16)
    }

    /// Pushes `data` on the stack.
    pub fn push(&mut self, data: u8)
        ensures
            final(self)@ == push(old(self)@, data),
    {
        self.mem_write(STACK_BASE_ADDRESS + self.register_s as u16, data);
        self.register_s = self.register_s.wrapping_sub(1);
    }

    /// Pulls a byte from the stack.
    pub fn pull(&mut self) -> (r: u8)
        ensures
            r == top(old(self)@),
            final(self)@ == popped(old(self)@),
    {
        let value = self.mem_read(STACK_BASE_ADDRESS + self.register_s.wrapping_add(1) as u16);
        self.register_s = self.register_s.wrapping_add(1);
        value
    }

    /// Pushes a word on the stack, high byte first.
    pub fn push_u16(&mut self, data: u16)
        ensures
            final(self)@ == push_u16(old(self)@, data),
    {
        proof { crate::bus::lemma_split_bits(data); }
        self.push((data >> 8u16) as u8);
        self.push((data & 0xFFu16) as u8);
    }

    /// Pulls a word from the stack, low byte first.
    pub fn pull_u16(&mut self) -> (r: u16)
        ensures
            r == top_u16(old(self)@),
            final(self)@ == popped_u16(old(self)@),
    {
        let lo = self.pull();
        let hi = self.pull();
        proof { crate::bus::lemma_word_bits(lo, hi); }
        ((hi as u16) << 8u16) | (lo as u16)
    }

    /// Whether `flag` is set.
    pub fn get_flag(&self, flag: Flags) -> (r: bool)
        ensures
            r == flag_set(self@, flag),
    {
        self.status & flag.bits() != 0
    }

    /// Clears `flag`.
    pub fn clear_flag(&mut self, flag: Flags)
        ensures
            final(self)@ == with_flag(old(self)@, flag, false),
    {
        self.status = self.status & !flag.bits();
    }

    /// Sets `flag`.
    pub fn set_flag(&mut self, flag: Flags)
        ensures
            final(self)@ == with_flag(old(self)@, flag, true),
    {
        self.status = self.status | flag.bits();
    }

    /// Sets or clears `flag`.
    pub fn update_flag(&mut self, flag: Flags, set: bool)
        ensures
            final(self)@ == with_flag(old(self)@, flag, set),
    {
        if set {
            self.set_flag(flag);
        } else {
            self.clear_flag(flag);
        }
    }

    /// Sets Zero and Negative to describe `value`.
    pub fn update_zero_and_negative_flags(&mut self, value: u8)
        ensures
            final(self)@ == with_nz(old(self)@, value),
    {
        self.update_flag(Flags::Zero, value == 0);
        self.update_flag(Flags::Negative, value & 0b1000_0000 != 0);
    }
}


/// `s` with its cycle counter advanced by `n`; the counter wraps around after `u64::MAX`.
pub open spec fn ticked(s: CpuState, n: int) -> CpuState {
    CpuState { cycles: ((s.cycles as int + n) % 0x1_0000_0000_0000_0000) as u64, ..s }
}

/// One step from `s`: the state after it, and whether the step met a BRK, which ends a run
/// with the program counter just past it. Any other opcode becomes the current instruction,
/// executes its table entry and ticks the cycles of the entry plus the additional cycles the
/// instruction took (taken branches, and page crossings where the entry says so).
pub open spec fn spec_step(s: CpuState) -> (CpuState, bool) {
    let s0 = CpuState { additional_cycles: 0, ..s };
    let code = read(s0, s0.pc);
    if code == 0 {
        (CpuState { pc: wrap16(s0.pc as int + 1), ..s0 }, true)
    } else {
        let op = opcode_spec(code);
        let s1 = spec_execute(CpuState { bonus_cycle_on_page_cross: op.bonus_cycle_on_page_cross, ..s0 }, op);
        (CpuState { additional_cycles: 0, ..ticked(s1, op.cycles as int + s1.additional_cycles as int) }, false)
    }
}

/// The steps of a run that ended in `last`, by the state each started from: all but the last
/// went on, and the last either met a BRK or was the `u64::MAX`th.
pub open spec fn callback_run_ends(pres: Seq<CpuState>, last: CpuState) -> bool {
    &&& 1 <= pres.len() <= u64::MAX
    &&& spec_step(pres.last()).0 == last
    &&& (spec_step(pres.last()).1 || pres.len() == u64::MAX)
    &&& forall|k: int| 0 <= k < pres.len() - 1 ==> !(#[trigger] spec_step(pres[k])).1
}

/// Runs steps from `s` until one meets a BRK, at most `fuel` of them.
pub open spec fn spec_run(s: CpuState, fuel: nat) -> CpuState
    decreases fuel,
{
    if fuel == 0 {
        s
    } else {
        let (s1, halted) = spec_step(s);
        if halted {
            s1
        } else {
            spec_run(s1, (fuel - 1) as nat)
        }
    }
}

/// The state after a reset: registers cleared, stack pointer and status at their start values,
/// the program counter read from the reset vector, and the reset's cycles ticked.
pub open spec fn spec_reset(s: CpuState) -> CpuState {
    ticked(
        CpuState {
            a: 0,
            x: 0,
            y: 0,
            s: STACK_END,
            status: INITIAL_STATUS,
            pc: read_u16(s, RESET_VECTOR),
            ..s
        },
        8,
    )
}

/// Memory `mem` with `program` copied to the addresses from `at` on.
pub open spec fn loaded(mem: Seq<u8>, program: Seq<u8>, at: u16) -> Seq<u8> {
    Seq::new(
        mem.len(),
        |j: int|
            if at as int <= j < at as int + program.len() {
                program[j - at as int]
            } else {
                mem[j]
            },
    )
}

/// `s` after loading `program` at `at` and pointing the reset vector at it.
pub open spec fn spec_load(s: CpuState, program: Seq<u8>, at: u16) -> CpuState {
    write_u16(CpuState { mem: loaded(s.mem, program, at), ..s }, RESET_VECTOR, at)
}

/// What an interrupt does: pushes the program counter and the status (B2 set, B1 set only for
/// BRK), disables interrupts, jumps to the handler and ticks the interrupt's cycles.
pub open spec fn spec_interrupt(s: CpuState, interrupt: Interrupt) -> CpuState {
    let status = if interrupt.b_flag {
        s.status | Flags::B2.mask() | Flags::B1.mask()
    } else {
        s.status | Flags::B2.mask()
    };
    let s1 = with_flag(push(push_u16(s, s.pc), status), Flags::InterruptDisabled, true);
    ticked(CpuState { pc: read_u16(s1, interrupt.interrupt_vector), ..s1 }, interrupt.cycles as int)
}

/// Entering an interrupt handler pushes the program counter (high byte first) and then the
/// status with bit 5 set (and bit 4 too for a BRK), three bytes down from the stack pointer;
/// then it sets InterruptDisabled, so that no IRQ re-enters the handler, leaves the other
/// flags and registers, and jumps to the little-endian address stored at the vector.
pub proof fn law_interrupt_entry(s: CpuState, interrupt: Interrupt)
    requires
        s.mem.len() == MEMORY_SIZE,
    ensures
        ({
            let r = spec_interrupt(s, interrupt);
            let sp = s.s as int;
            &&& r.status == s.status | 0x04
            &&& r.status & 0x04 != 0
            &&& r.s as int == (sp + 253) % 256
            &&& r.mem[0x100 + sp] == (s.pc as int / 256) as u8
            &&& r.mem[0x100 + (sp + 255) % 256] == (s.pc as int % 256) as u8
            &&& r.mem[0x100 + (sp + 254) % 256] == (if interrupt.b_flag {
                s.status | 0x30
            } else {
                s.status | 0x20
            })
            &&& forall|a: int|
                0 <= a < 0x10000 && a != 0x100 + sp && a != 0x100 + (sp + 255) % 256 && a != 0x100
                    + (sp + 254) % 256 ==> #[trigger] r.mem[a] == s.mem[a]
            &&& 0x200 <= interrupt.interrupt_vector < 0xFFFF ==> r.pc as int == s.mem[
            interrupt.interrupt_vector as int] + 256 * s.mem[interrupt.interrupt_vector + 1]
            &&& r.a == s.a && r.x == s.x && r.y == s.y
            &&& r.cycles as int == (s.cycles as int + interrupt.cycles) % 0x1_0000_0000_0000_0000
        }),
{
    let st = s.status;
    assert((st | 0x20u8) | 0x10u8 == st | 0x30u8 && (st | 0x04u8) & 0x04u8 != 0) by (bit_vector);
    let v = interrupt.interrupt_vector;
    let s1 = with_flag(
        push(
            push_u16(s, s.pc),
            if interrupt.b_flag {
                s.status | Flags::B2.mask() | Flags::B1.mask()
            } else {
                s.status | Flags::B2.mask()
            },
        ),
        Flags::InterruptDisabled,
        true,
    );
    if 0x200 <= v < 0xFFFF {
        assert(s1.mem[v as int] == s.mem[v as int]);
        assert(s1.mem[v + 1] == s.mem[v + 1]);
        assert(next_addr(v) == v + 1);
    }
}

/// A pull returns the byte the last push pushed and puts the stack pointer back; the pushed
/// byte stays in the stack page.
pub proof fn law_push_then_pull(s: CpuState, v: u8)
    requires
        s.mem.len() == MEMORY_SIZE,
    ensures
        top(push(s, v)) == v,
        popped(push(s, v)) == write_byte(s, stack_addr(s.s), v),
{
    assert(((((s.s as int + 255) % 256) as u8) as int + 1) % 256 == s.s as int);
}

/// A 16-bit pull returns the word the last 16-bit push pushed and puts the stack pointer back.
pub proof fn law_push_u16_then_pull_u16(s: CpuState, v: u16)
    requires
        s.mem.len() == MEMORY_SIZE,
    ensures
        top_u16(push_u16(s, v)) == v,
        popped_u16(push_u16(s, v)).s == s.s,
{
    crate::bus::lemma_split_bits(v);
    let s1 = push(s, hi_byte(v));
    law_push_then_pull(s1, lo_byte(v));
    law_push_then_pull(s, hi_byte(v));
    let s2 = push(s1, lo_byte(v));
    assert(stack_addr(s1.s) != stack_addr(s.s));
    assert(popped(s2) == write_byte(s1, stack_addr(s1.s), lo_byte(v)));
    assert(top(popped(s2)) == hi_byte(v));
}

/// Setting or clearing a flag makes reading it give what was set, and leaves the other flags.
pub proof fn law_flag_update(s: CpuState, f: Flags, g: Flags, on: bool)
    ensures
        flag_set(with_flag(s, f, on), f) == on,
        f != g ==> flag_set(with_flag(s, f, on), g) == flag_set(s, g),
{
    crate::bits::lemma_single_bit_masks(s.status, f.mask(), g.mask());
}

/// After an update from `v`, Zero tells whether `v` is zero and Negative whether bit 7 is set.
pub proof fn law_zero_negative(s: CpuState, v: u8)
    ensures
        flag_set(with_nz(s, v), Flags::Zero) == (v == 0),
        flag_set(with_nz(s, v), Flags::Negative) == (v >= 128),
{
    let s1 = with_flag(s, Flags::Zero, v == 0);
    law_flag_update(s, Flags::Zero, Flags::Negative, v == 0);
    law_flag_update(s1, Flags::Negative, Flags::Zero, v & 0b1000_0000 != 0);
    crate::bits::lemma_u8_bits(v);
    assert(with_nz(s, v) == with_flag(s1, Flags::Negative, v & 0b1000_0000 != 0));
}

/// A read gives back what a write to the same address wrote; other addresses keep their value.
pub proof fn law_write_then_read(s: CpuState, addr: u16, other: u16, v: u8)
    requires
        s.mem.len() == MEMORY_SIZE,
    ensures
        read(write_byte(s, addr, v), addr) == v,
        other != addr ==> read(write_byte(s, addr, v), other) == read(s, other),
{
}

/// A 16-bit read gives back the word a 16-bit write to the same address wrote.
pub proof fn law_write_u16_then_read_u16(s: CpuState, addr: u16, v: u16)
    requires
        s.mem.len() == MEMORY_SIZE,
    ensures
        read_u16(write_u16(s, addr, v), addr) == v,
{
    crate::bus::lemma_split_bits(v);
    assert(next_addr(addr) != addr);
}

/// Only branches take additional cycles, at most two, and a page crossing one more.
pub proof fn lemma_additional_cycles(s: CpuState, instruction: Instruction, mode: AddressingMode)
    ensures
        spec_instruction(s, instruction, mode).additional_cycles <= s.additional_cycles as int + 3,
{
}

impl CPU {
    /// Executes the instruction at the program counter. Returns `true`, and only moves the
    /// program counter past it, when that instruction is BRK.
    pub fn step(&mut self) -> (halted: bool)
        ensures
            (final(self)@, halted) == spec_step(old(self)@),
    {
        self.additional_cycles = 0;
        let op_code = self.mem_read(self.program_counter);
        if op_code == 0x00 {
            self.program_counter = self.program_counter.wrapping_add(1);
            return true;
        }
        let instruction = OpCode::from_code(op_code);
        self.current_instruction = instruction;
        proof {
            lemma_table_fits(op_code);
            lemma_additional_cycles(self@, instruction.instruction, instruction.mode);
        }
        instruction.execute(self);
        self.bus.tick(instruction.cycles + self.additional_cycles);
        self.additional_cycles = 0;
        false
    }

    /// Runs instructions until one is BRK, entering the handler of any interrupt the bus raises
    /// first (plain memory raises none). The steps are counted in a `u64`: a program that never
    /// reaches a BRK stops after `u64::MAX` steps.
    pub fn run(&mut self)
        ensures
            final(self)@ == spec_run(old(self)@, u64::MAX as nat),
    {
        let ghost start = self@;
        let mut steps: u64 = 0;
        while steps < u64::MAX
            invariant
                start == old(self)@,
                spec_run(self@, (u64::MAX - steps) as nat) == spec_run(start, u64::MAX as nat),
            decreases u64::MAX - steps,
        {
            let ghost before = self@;
            if self.bus.poll_nmi_status() {
                self.handle_interrupt(&nmi_interrupt());
            }
            if self.bus.poll_irq() {
                self.handle_interrupt(&irq_interrupt());
            }
            assert(self@ == before);
            let halted = self.step();
            assert(spec_run(before, (u64::MAX - steps) as nat) == (if halted {
                self@
            } else {
                spec_run(self@, (u64::MAX - steps - 1) as nat)
            }));
            if halted {
                return;
            }
            steps = steps + 1;
        }
    }

    /// Runs instructions like `run`, handing the CPU to `callback` before each one, after any
    /// interrupt the bus raised was entered. Stops after a BRK, or after `u64::MAX` steps: the
    /// steps taken are a run of steps that went on, ended by one that met a BRK or by the bound.
    #[verifier::rlimit(60)]
    #[verifier::spinoff_prover]
    pub fn run_with_callback<F: FnMut(&mut CPU)>(&mut self, mut callback: F)
        requires
            forall|c: &mut CPU| callback.requires((c,)),
        ensures
            exists|pres: Seq<CpuState>| #[trigger] callback_run_ends(pres, final(self)@),
    {
        let ghost mut pres: Seq<CpuState> = Seq::empty();
        let mut steps: u64 = 0;
        while steps < u64::MAX
            invariant
                forall|c: &mut CPU| callback.requires((c,)),
                pres.len() == steps,
                forall|k: int| 0 <= k < pres.len() ==> !(#[trigger] spec_step(pres[k])).1,
                steps > 0 ==> spec_step(pres.last()).0 == self@,
            decreases u64::MAX - steps,
        {
            let ghost entry = self@;
            if self.bus.poll_nmi_status() {
                self.handle_interrupt(&nmi_interrupt());
            }
            if self.bus.poll_irq() {
                self.handle_interrupt(&irq_interrupt());
            }
            assert(self@ == entry);
            callback(self);
            let ghost before = self@;
            let halted = self.step();
            proof {
                pres = pres.push(before);
            }
            if halted {
                assert(callback_run_ends(pres, self@));
                return;
            }
            steps = steps + 1;
        }
        assert(callback_run_ends(pres, self@));
    }

    /// Registers back to their start values, the program counter from the reset vector.
    pub fn reset(&mut self)
        ensures
            final(self)@ == spec_reset(old(self)@),
    {
        self.register_x = 0;
        self.register_a = 0;
        self.register_y = 0;
        self.register_s = STACK_END;
        self.status = INITIAL_STATUS;
        self.program_counter = self.mem_read_u16(RESET_VECTOR);
        self.bus.tick(reset_interrupt().cycles);
    }

    /// Copies `program` to memory from `at` on and points the reset vector at it.
    pub fn load(&mut self, program: &[u8], at: u16)
        requires
            at as int + program@.len() <= MEMORY_SIZE,
        ensures
            final(self)@ == spec_load(old(self)@, program@, at),
    {
        let ghost start = self@;
        proof { Bus65k::lemma_len(self.bus); }
        let mut i: usize = 0;
        while i < program.len()
            invariant
                at as int + program@.len() <= MEMORY_SIZE,
                i <= program@.len(),
                self@.mem.len() == MEMORY_SIZE,
                self@ == (CpuState { mem: self@.mem, ..start }),
                forall|j: int|
                    0 <= j < MEMORY_SIZE ==> self@.mem[j] == (if at as int <= j < at as int + i {
                        program@[j - at as int]
                    } else {
                        start.mem[j]
                    }),
            decreases program@.len() - i,
        {
            self.mem_write(at + i as u16, program[i]);
            i = i + 1;
        }
        assert(self@.mem =~= loaded(start.mem, program@, at));
        self.mem_write_u16(RESET_VECTOR, at);
    }

    /// Loads `program` at `at`, resets and runs it.
    pub fn load_and_run(&mut self, program: &[u8], at: u16)
        requires
            at as int + program@.len() <= MEMORY_SIZE,
        ensures
            final(self)@ == spec_run(spec_reset(spec_load(old(self)@, program@, at)), u64::MAX as nat),
    {
        self.load(program, at);
        self.reset();
        self.run();
    }

    /// Enters the handler of `interrupt`.
    pub fn handle_interrupt(&mut self, interrupt: &Interrupt)
        ensures
            final(self)@ == spec_interrupt(old(self)@, *interrupt),
    {
        let mut status = self.status | Flags::B2.bits();
        if interrupt.b_flag {
            status = status | Flags::B1.bits();
        }
        self.push_u16(self.program_counter);
        self.push(status);
        self.set_flag(Flags::InterruptDisabled);
        self.program_counter = self.mem_read_u16(interrupt.interrupt_vector);
        self.bus.tick(interrupt.cycles);
    }
}

} // verus!
