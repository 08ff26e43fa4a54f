use vstd::prelude::*;
use crate::apu::timer::{Timer, timer_after};
use crate::bus::Mem;

verus! {

/// NTSC output rates in CPU cycles, indexed by the four rate bits.
pub open spec fn output_rate_table() -> Seq<u16> {
    seq![428u16, 380, 340, 320, 286, 254, 226, 214, 190, 160, 142, 128, 106, 84, 72, 54]
}

/// Fetches the bytes of a delta-modulation sample from CPU memory.
pub struct MemoryReader {
    pub sample_start_address: u16,
    pub sample_address: u16,
    pub sample_length: u16,
    pub bytes_remaining: u16,
    pub sample_buffer: Option<u8>,
}

/// Turns sample bits into a 7-bit output level.
struct OutputUnit {
    shift_register: u8,
    bit_remaining: u8,
    output_buffer: u8,
    silence: bool,
}

/// The delta modulation channel.
pub struct DataModulationChannel {
    timer: Timer,
    memory_reader: MemoryReader,
    output_unit: OutputUnit,
    irq_enabled: bool,
    loop_flag: bool,
    outstanding_interrupt: bool,
}

/// The registers of the delta modulation channel: timer, sample reader, output unit and flags.
pub struct DmcState {
    pub timer: Timer,
    pub sample_start_address: u16,
    pub sample_address: u16,
    pub sample_length: u16,
    pub bytes_remaining: u16,
    pub sample_buffer: Option<u8>,
    pub shift_register: u8,
    pub bit_remaining: u8,
    pub output_buffer: u8,
    pub silence: bool,
    pub irq_enabled: bool,
    pub loop_flag: bool,
    pub outstanding_interrupt: bool,
}

impl View for DataModulationChannel {
    type V = DmcState;

    closed spec fn view(&self) -> DmcState {
        DmcState {
            timer: self.timer,
            sample_start_address: self.memory_reader.sample_start_address,
            sample_address: self.memory_reader.sample_address,
            sample_length: self.memory_reader.sample_length,
            bytes_remaining: self.memory_reader.bytes_remaining,
            sample_buffer: self.memory_reader.sample_buffer,
            shift_register: self.output_unit.shift_register,
            bit_remaining: self.output_unit.bit_remaining,
            output_buffer: self.output_unit.output_buffer,
            silence: self.output_unit.silence,
            irq_enabled: self.irq_enabled,
            loop_flag: self.loop_flag,
            outstanding_interrupt: self.outstanding_interrupt,
        }
    }
}

impl DmcState {
    pub open spec fn initial() -> Self {
        DmcState {
            timer: Timer { timer_limit: 0, data: 0 },
            sample_start_address: 0,
            sample_address: 0,
            sample_length: 0,
            bytes_remaining: 0,
            sample_buffer: None,
            shift_register: 0,
            bit_remaining: 8,
            output_buffer: 0,
            silence: false,
            irq_enabled: false,
            loop_flag: false,
            outstanding_interrupt: false,
        }
    }

    /// The output unit counts down from 8 bits per sample byte.
    pub open spec fn wf(self) -> bool {
        1 <= self.bit_remaining <= 8
    }

    /// The reader after fetching `byte`: the address advances, wrapping from 0xFFFF to 0x8000,
    /// and when the last byte was fetched the sample restarts if looping.
    pub open spec fn load_sample(self, byte: u8) -> Self {
        let next_address = if self.sample_address == 0xFFFF { 0x8000u16 } else { (self.sample_address + 1) as u16 };
        let remaining = (self.bytes_remaining - 1) as u16;
        let restart = remaining == 0 && self.loop_flag;
        DmcState {
            sample_buffer: Some(byte),
            sample_address: if restart { self.sample_start_address } else { next_address },
            bytes_remaining: if restart { self.sample_length } else { remaining },
            ..self
        }
    }

    /// Whether fetching a byte ends a sample that does not loop.
    pub open spec fn load_ends_sample(self) -> bool {
        self.bytes_remaining == 1 && !self.loop_flag
    }

    /// One output clock: an audible bit moves the level up or down by 2 within 0..=127, and
    /// after every 8 bits the next sample byte (or silence) is taken from the buffer.
    pub open spec fn output_tick(self) -> Self {
        let level = if self.silence {
            self.output_buffer
        } else if self.shift_register & 1 == 1 {
            if self.output_buffer <= 125 { (self.output_buffer + 2) as u8 } else { self.output_buffer }
        } else if self.output_buffer >= 2 {
            (self.output_buffer - 2) as u8
        } else {
            self.output_buffer
        };
        let shifted = if self.silence { self.shift_register } else { self.shift_register >> 1u8 };
        let bits = (self.bit_remaining - 1) as u8;
        if bits == 0 {
            DmcState {
                output_buffer: level,
                bit_remaining: 8,
                shift_register: match self.sample_buffer {
                    Some(b) => b,
                    None => shifted,
                },
                silence: self.sample_buffer is None,
                sample_buffer: None,
                ..self
            }
        } else {
            DmcState { output_buffer: level, shift_register: shifted, bit_remaining: bits, ..self }
        }
    }

    /// One channel clock, `byte` being what a fetch from `sample_address` would read: when the
    /// timer runs out, an empty buffer is refilled while bytes remain (raising the interrupt if
    /// enabled and the sample ended) and the output unit is clocked.
    pub open spec fn tick_with(self, byte: u8) -> Self {
        let t = DmcState { timer: Timer { data: timer_after(self.timer.timer_limit, self.timer.data, 1), ..self.timer }, ..self };
        if self.timer.data < 1 {
            let fetched = if t.bytes_remaining != 0 && t.sample_buffer is None {
                DmcState {
                    outstanding_interrupt: t.outstanding_interrupt || (t.irq_enabled && t.load_ends_sample()),
                    ..t.load_sample(byte)
                }
            } else {
                t
            };
            fetched.output_tick()
        } else {
            t
        }
    }
}

/// The output level only moves within 0..=127 once it is there.
pub proof fn law_dmc_level_in_range(s: DmcState, byte: u8)
    requires
        s.output_buffer <= 127,
        s.wf(),
    ensures
        s.tick_with(byte).output_buffer <= 127,
        s.tick_with(byte).wf(),
{
}

/// The output unit plays the sample bits least significant first: each audible bit raises the
/// level by 2 when it is 1 and lowers it by 2 when it is 0 (the level stays where that would
/// leave 0..=127), silence keeps the level, and after the eighth bit the buffered byte (if any)
/// becomes the next one to play.
pub proof fn law_dmc_bits(s: DmcState)
    requires
        s.wf(),
    ensures
        ({
            let t = s.output_tick();
            let bit = s.shift_register % 2;
            &&& s.silence ==> t.output_buffer == s.output_buffer
            &&& !s.silence && bit == 1 && s.output_buffer <= 125 ==> t.output_buffer == s.output_buffer
                + 2
            &&& !s.silence && bit == 0 && s.output_buffer >= 2 ==> t.output_buffer == s.output_buffer
                - 2
            &&& !s.silence && s.bit_remaining > 1 ==> t.shift_register == s.shift_register / 2
            &&& s.bit_remaining > 1 ==> t.bit_remaining == s.bit_remaining - 1
            &&& s.bit_remaining == 1 ==> t.bit_remaining == 8 && t.sample_buffer is None && t.silence
                == (s.sample_buffer is None)
            &&& s.bit_remaining == 1 && s.sample_buffer is Some ==> t.shift_register
                == s.sample_buffer->0
        }),
{
    crate::bits::lemma_u8_bits(s.shift_register);
    crate::bits::lemma_u8_arith_bits(s.shift_register);
}

impl MemoryReader {
    fn new() -> (r: Self)
        ensures
            r.sample_start_address == 0,
            r.sample_address == 0,
            r.sample_length == 0,
            r.bytes_remaining == 0,
            r.sample_buffer is None,
    {
        MemoryReader {
            sample_start_address: 0,
            sample_address: 0,
            sample_length: 0,
            bytes_remaining: 0,
            sample_buffer: None,
        }
    }

    /// Stores `byte` as the next sample byte and advances; returns whether the sample ended
    /// without looping.
    fn store_sample(&mut self, byte: u8, loop_flag: bool) -> (r: bool)
        requires
            old(self).bytes_remaining > 0,
        ensures
            ({
                let next_address = if old(self).sample_address == 0xFFFF { 0x8000u16 } else { (old(self).sample_address + 1) as u16 };
                let remaining = (old(self).bytes_remaining - 1) as u16;
                let restart = remaining == 0 && loop_flag;
                &&& final(self).sample_buffer == Some(byte)
                &&& final(self).sample_address == (if restart { old(self).sample_start_address } else { next_address })
                &&& final(self).bytes_remaining == (if restart { old(self).sample_length } else { remaining })
                &&& final(self).sample_start_address == old(self).sample_start_address
                &&& final(self).sample_length == old(self).sample_length
                &&& r == (remaining == 0 && !loop_flag)
            }),
    {
        self.sample_buffer = Some(byte);
        if self.sample_address == 0xFFFF {
            self.sample_address = 0x8000;
        } else {
            self.sample_address = self.sample_address + 1;
        }
        self.bytes_remaining = self.bytes_remaining - 1;
        if self.bytes_remaining == 0 {
            if loop_flag {
                self.restart();
            } else {
                return true;
            }
        }
        false
    }

    /// Fetches the byte at the current sample address from `bus` and stores it.
    fn load_new_sample<M: Mem>(&mut self, bus: &mut M, loop_flag: bool) -> (r: (bool, u8))
        requires
            old(self).bytes_remaining > 0,
        ensures
            ({
                let byte = r.1;
                let next_address = if old(self).sample_address == 0xFFFF { 0x8000u16 } else { (old(self).sample_address + 1) as u16 };
                let remaining = (old(self).bytes_remaining - 1) as u16;
                let restart = remaining == 0 && loop_flag;
                &&& final(self).sample_buffer == Some(byte)
                &&& final(self).sample_address == (if restart { old(self).sample_start_address } else { next_address })
                &&& final(self).bytes_remaining == (if restart { old(self).sample_length } else { remaining })
                &&& final(self).sample_start_address == old(self).sample_start_address
                &&& final(self).sample_length == old(self).sample_length
                &&& r.0 == (remaining == 0 && !loop_flag)
                &&& byte == old(bus).read_value(old(self).sample_address)
            }),
    {
        // The CPU stall of 1-4 cycles while the sample byte is read is not modelled.
        let byte = bus.mem_read(self.sample_address);
        let ended = self.store_sample(byte, loop_flag);
        (ended, byte)
    }

    /// Starts the sample over from its first byte.
    pub fn restart(&mut self)
        ensures
            final(self).bytes_remaining == old(self).sample_length,
            final(self).sample_address == old(self).sample_start_address,
            final(self).sample_start_address == old(self).sample_start_address,
            final(self).sample_length == old(self).sample_length,
            final(self).sample_buffer == old(self).sample_buffer,
    {
        self.bytes_remaining = self.sample_length;
        self.sample_address = self.sample_start_address;
    }
}

impl OutputUnit {
    fn new() -> (r: Self)
        ensures
            r.shift_register == 0,
            r.bit_remaining == 8,
            r.output_buffer == 0,
            !r.silence,
    {
        OutputUnit { shift_register: 0, bit_remaining: 8, output_buffer: 0, silence: false }
    }

    fn tick(&mut self, memory_reader: &mut MemoryReader)
        requires
            1 <= old(self).bit_remaining <= 8,
        ensures
            ({
                let s = DmcState {
                    timer: Timer { timer_limit: 0, data: 0 },
                    sample_start_address: old(memory_reader).sample_start_address,
                    sample_address: old(memory_reader).sample_address,
                    sample_length: old(memory_reader).sample_length,
                    bytes_remaining: old(memory_reader).bytes_remaining,
                    sample_buffer: old(memory_reader).sample_buffer,
                    shift_register: old(self).shift_register,
                    bit_remaining: old(self).bit_remaining,
                    output_buffer: old(self).output_buffer,
                    silence: old(self).silence,
                    irq_enabled: false,
                    loop_flag: false,
                    outstanding_interrupt: false,
                }.output_tick();
                &&& final(self).shift_register == s.shift_register
                &&& final(self).bit_remaining == s.bit_remaining
                &&& final(self).output_buffer == s.output_buffer
                &&& final(self).silence == s.silence
                &&& final(memory_reader).sample_buffer == s.sample_buffer
                &&& final(memory_reader).sample_start_address == old(memory_reader).sample_start_address
                &&& final(memory_reader).sample_address == old(memory_reader).sample_address
                &&& final(memory_reader).sample_length == old(memory_reader).sample_length
                &&& final(memory_reader).bytes_remaining == old(memory_reader).bytes_remaining
            }),
            1 <= final(self).bit_remaining <= 8,
    {
        if !self.silence {
            if self.shift_register & 1 == 1 {
                if self.output_buffer <= 125 {
                    self.output_buffer = self.output_buffer + 2;
                }
            } else if self.output_buffer >= 2 {
                self.output_buffer = self.output_buffer - 2;
            }
            self.shift_register = self.shift_register >> 1u8;
        }
        self.bit_remaining = self.bit_remaining - 1;
        if self.bit_remaining == 0 {
            self.bit_remaining = 8;
            match memory_reader.sample_buffer.take() {
                Some(buffer) => {
                    self.shift_register = buffer;
                    self.silence = false;
                },
                None => self.silence = true,
            }
        }
    }
}

impl DataModulationChannel {
    pub fn new() -> (r: Self)
        ensures
            r@ == DmcState::initial(),
    {
        DataModulationChannel {
            timer: Timer::new(),
            memory_reader: MemoryReader::new(),
            output_unit: OutputUnit::new(),
            irq_enabled: false,
            loop_flag: false,
            outstanding_interrupt: false,
        }
    }

    /// Returns whether an interrupt is pending and clears it.
    pub fn poll_irq(&mut self) -> (r: bool)
        ensures
            r == old(self)@.outstanding_interrupt,
            final(self)@ == (DmcState { outstanding_interrupt: false, ..old(self)@ }),
    {
        if self.outstanding_interrupt {
            self.outstanding_interrupt = false;
            true
        } else {
            false
        }
    }

    pub fn set_irq_enable(&mut self, enabled: bool)
        ensures
            final(self)@ == (DmcState { irq_enabled: enabled, ..old(self)@ }),
    {
        self.irq_enabled = enabled;
    }

    pub fn set_loop_flag(&mut self, enabled: bool)
        ensures
            final(self)@ == (DmcState { loop_flag: enabled, ..old(self)@ }),
    {
        self.loop_flag = enabled;
    }

    /// The timer counts half the table rate, as the channel runs every other CPU cycle.
    pub fn set_output_rate(&mut self, value: u8)
        requires
            value < 16,
        ensures
            final(self)@ == (DmcState {
                timer: Timer {
                    timer_limit: (output_rate_table()[value as int] / 2) as u16,
                    data: (output_rate_table()[value as int] / 2) as u16,
                },
                ..old(self)@
            }),
    {
        let table: [u16; 16] = [428, 380, 340, 320, 286, 254, 226, 214, 190, 160, 142, 128, 106, 84, 72, 54];
        assert(table@ == output_rate_table());
        self.timer.timer_limit = table[value as usize] / 2; // only clocked every second CPU cycle;
        self.timer.data = table[value as usize] / 2; // only clocked every second CPU cycle
    }

    pub fn direct_load(&mut self, value: u8)
        ensures
            final(self)@ == (DmcState { output_buffer: value, ..old(self)@ }),
    {
        self.output_unit.output_buffer = value;
    }

    /// Samples start at 0xC000 plus 64 times `value`.
    pub fn set_sample_address(&mut self, value: u8)
        ensures
            final(self)@ == (DmcState {
                sample_start_address: (0xC000 + value * 64) as u16,
                sample_address: (0xC000 + value * 64) as u16,
                ..old(self)@
            }),
    {
        self.memory_reader.sample_start_address = 0xC000 + value as u16 * 64;
        self.memory_reader.sample_address = self.memory_reader.sample_start_address;
    }

    /// Samples are 16 times `value` plus one bytes long.
    pub fn set_sample_length(&mut self, value: u8)
        ensures
            final(self)@ == (DmcState { sample_length: (1 + value * 16) as u16, ..old(self)@ }),
    {
        self.memory_reader.sample_length = 1 + value as u16 * 16;
    }

    pub fn set_bytes_remaining(&mut self, value: u16)
        ensures
            final(self)@ == (DmcState { bytes_remaining: value, ..old(self)@ }),
    {
        self.memory_reader.bytes_remaining = value;
    }

    /// Starts the sample over from its first byte.
    pub fn restart(&mut self)
        ensures
            final(self)@ == (DmcState {
                bytes_remaining: old(self)@.sample_length,
                sample_address: old(self)@.sample_start_address,
                ..old(self)@
            }),
    {
        self.memory_reader.restart();
    }

    /// Clocks the channel; a sample byte it needs is read from `bus` at the current sample
    /// address. Returns the byte read, if one was.
    pub fn tick<M: Mem>(&mut self, bus: &mut M) -> (r: Option<u8>)
        requires
            old(self)@.wf(),
        ensures
            final(self)@.wf(),
            final(self)@ == old(self)@.tick_with(match r { Some(b) => b, None => 0 }),
            r is Some <==> (old(self)@.timer.data < 1 && old(self)@.bytes_remaining != 0 && old(self)@.sample_buffer is None),
            r matches Some(b) ==> b == old(bus).read_value(old(self)@.sample_address),
            r is None ==> *final(bus) == *old(bus),
    {
        let mut fetched: Option<u8> = None;
        if self.timer.tick(1) {
            if self.memory_reader.bytes_remaining != 0 && self.memory_reader.sample_buffer.is_none() {
                let (ended, byte) = self.memory_reader.load_new_sample(bus, self.loop_flag);
                self.outstanding_interrupt = self.outstanding_interrupt || (self.irq_enabled && ended);
                fetched = Some(byte);
            }
            self.output_unit.tick(&mut self.memory_reader);
        }
        fetched
    }

    pub fn is_interrupt_enabled(&self) -> (r: bool)
        ensures
            r == self@.irq_enabled,
    {
        self.irq_enabled
    }

    /// Whether the channel's interrupt is pending.
    pub fn is_interrupt_pending(&self) -> (r: bool)
        ensures
            r == self@.outstanding_interrupt,
    {
        self.outstanding_interrupt
    }

    pub fn get_bytes_remaining(&self) -> (r: u16)
        ensures
            r == self@.bytes_remaining,
    {
        self.memory_reader.bytes_remaining
    }

    /// The output level, from 0 to 127 once loaded through the APU.
    pub fn output_level(&self) -> (r: u8)
        ensures
            r == self@.output_buffer,
    {
        self.output_unit.output_buffer
    }
}

} // verus!
