use vstd::prelude::*;

verus! {

/// Number of bytes addressable by the CPU.
pub const MEMORY_SIZE: usize = 0x10000;

/// A device that can raise a non-maskable interrupt.
pub trait PollNMI {
    /// Returns whether an NMI is pending, clearing it.
    fn poll_nmi_status(&mut self) -> bool;
}

/// A device that can raise an interrupt request.
pub trait PollIRQ {
    /// Returns whether an IRQ is pending, clearing it.
    fn poll_irq(&mut self) -> bool;
}

/// Memory-mapped access as seen by the CPU.
pub trait Mem {
    /// The byte a read of `addr` returns from the device in this state.
    spec fn read_value(&self, addr: u16) -> u8;

    /// Reads `addr`; what else the read does to the device is the device's own affair.
    fn mem_read(&mut self, addr: u16) -> (r: u8)
        ensures
            r == old(self).read_value(addr),
    ;

    fn mem_write(&mut self, addr: u16, data: u8);

    fn mem_read_u16(&mut self, pos: u16) -> u16;

    fn mem_write_u16(&mut self, pos: u16, data: u16);
}

/// The address that follows `addr` on the 16-bit address bus.
pub open spec fn next_addr(addr: u16) -> u16 {
    ((addr as int + 1) % 0x10000) as u16
}

/// Little-endian 16-bit value made of the bytes `lo` and `hi`.
pub open spec fn word(lo: u8, hi: u8) -> u16 {
    (hi as int * 256 + lo as int) as u16
}

/// Low byte of a 16-bit value.
pub open spec fn lo_byte(v: u16) -> u8 {
    (v as int % 256) as u8
}

/// High byte of a 16-bit value.
pub open spec fn hi_byte(v: u16) -> u8 {
    (v as int / 256) as u8
}

pub proof fn lemma_word_bits(lo: u8, hi: u8)
    ensures
        ((hi as u16) << 8u16) | (lo as u16) == word(lo, hi),
{
    assert(((hi as u16) << 8u16) | (lo as u16) == (hi as int * 256 + lo as int) as u16) by (bit_vector);
}

pub proof fn lemma_split_bits(v: u16)
    ensures
        (v >> 8u16) as u8 == hi_byte(v),
        (v & 0xffu16) as u8 == lo_byte(v),
        word(lo_byte(v), hi_byte(v)) == v,
{
    assert((v >> 8u16) as u8 == (v as int / 256) as u8) by {
        crate::bits::lemma_addr_bytes_bits(v);
    }
    assert((v & 0xffu16) as u8 == (v as int % 256) as u8) by {
        crate::bits::lemma_addr_bytes_bits(v);
    }
}

/// A flat 64 KiB address space with a cycle counter: the simplest bus a CPU can run on.
pub struct Bus65k {
    memory: [u8; 65536],
    cycles: u64,
}

/// What a `Bus65k` holds: the bytes at every address and the cycles ticked so far.
pub struct Bus65kState {
    pub mem: Seq<u8>,
    pub cycles: u64,
}

impl View for Bus65k {
    type V = Bus65kState;

    closed spec fn view(&self) -> Bus65kState {
        Bus65kState { mem: self.memory@, cycles: self.cycles }
    }
}

impl Bus65k {
    /// Every bus holds exactly `MEMORY_SIZE` bytes.
    pub proof fn lemma_len(b: Bus65k)
        ensures
            b@.mem.len() == MEMORY_SIZE,
    {
    }

    /// Number of addressable bytes; every bus holds exactly `MEMORY_SIZE` of them.
    pub fn len(&self) -> (r: usize)
        ensures
            r == MEMORY_SIZE,
            self@.mem.len() == MEMORY_SIZE,
    {
        self.memory.len()
    }

    /// A bus whose memory holds only zeros.
    pub fn new() -> (r: Self)
        ensures
            r@.mem == Seq::new(MEMORY_SIZE as nat, |i: int| 0u8),
            r@.cycles == 0,
    {
        let memory: [u8; 65536] = [0u8; 65536];
        assert(memory@ =~= Seq::new(MEMORY_SIZE as nat, |i: int| 0u8));
        Bus65k { memory, cycles: 0 }
    }

    /// Advances the cycle counter; the counter wraps around after `u64::MAX`.
    pub fn tick(&mut self, cycles: u8)
        ensures
            final(self)@.mem == old(self)@.mem,
            final(self)@.cycles == (old(self)@.cycles as int + cycles as int) % 0x1_0000_0000_0000_0000,
    {
        self.cycles = self.cycles.wrapping_add(cycles as u64);
    }

    /// Number of cycles ticked so far.
    pub fn get_cycle_count(&self) -> (r: u64)
        ensures
            r == self@.cycles,
    {
        self.cycles
    }

    /// Reads a byte without any side effect.
    pub fn trace_mem_read(&self, addr: u16) -> (r: u8)
        ensures
            r == self@.mem[addr as int],
    {
        self.memory[addr as usize]
    }
}

impl Mem for Bus65k {
    open spec fn read_value(&self, addr: u16) -> u8 {
        self@.mem[addr as int]
    }

    fn mem_read(&mut self, addr: u16) -> (r: u8)
        ensures
            r == old(self)@.mem[addr as int],
            final(self)@ == old(self)@,
            old(self)@.mem.len() == MEMORY_SIZE,
    {
        self.memory[addr as usize]
    }

    fn mem_write(&mut self, addr: u16, data: u8)
        ensures
            final(self)@.mem == old(self)@.mem.update(addr as int, data),
            final(self)@.cycles == old(self)@.cycles,
            old(self)@.mem.len() == MEMORY_SIZE,
    {
        self.memory[addr as usize] = data;
    }

    /// Reads the little-endian word at `pos`; the high byte comes from the next address,
    /// which wraps around to 0x0000 after 0xFFFF.
    fn mem_read_u16(&mut self, pos: u16) -> (r: u16)
        ensures
            r == word(old(self)@.mem[pos as int], old(self)@.mem[next_addr(pos) as int]),
            final(self)@ == old(self)@,
    {
        let lo = self.mem_read(pos);
        let hi = self.mem_read(pos.wrapping_add(1));
        proof { lemma_word_bits(lo, hi); }
        ((hi as u16) << 8u16) | (lo as u16)
    }

    /// Writes `data` little-endian at `pos`; the high byte goes to the next address,
    /// which wraps around to 0x0000 after 0xFFFF.
    fn mem_write_u16(&mut self, pos: u16, data: u16)
        ensures
            final(self)@.mem == old(self)@.mem.update(pos as int, lo_byte(data)).update(
                next_addr(pos) as int,
                hi_byte(data),
            ),
            final(self)@.cycles == old(self)@.cycles,
    {
        proof { lemma_split_bits(data); }
        let hi = (data >> 8u16) as u8;
        let lo = (data & 0xffu16) as u8;
        self.mem_write(pos, lo);
        self.mem_write(pos.wrapping_add(1), hi);
    }
}

impl PollNMI for Bus65k {
    /// Plain memory raises no interrupts.
    fn poll_nmi_status(&mut self) -> (r: bool)
        ensures
            !r,
            *final(self) == *old(self),
    {
        false
    }
}

impl PollIRQ for Bus65k {
    /// Plain memory raises no interrupts.
    fn poll_irq(&mut self) -> (r: bool)
        ensures
            !r,
            *final(self) == *old(self),
    {
        false
    }
}

} // verus!
