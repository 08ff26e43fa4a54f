use vstd::prelude::*;
use crate::apu::data_modulation_channel::{DataModulationChannel, DmcState, output_rate_table};
use crate::apu::timer::Timer;
use crate::apu::noise_generator::{NoiseGenerator, NoiseState};
use crate::apu::pulse_generator::{PulseGenerator, PulseGeneratorID, PulseState};
use crate::apu::triangle_generator::{TriangleGenerator, TriangleState};
use crate::bus::{Mem, PollIRQ};

pub mod data_modulation_channel;
pub mod envelope;
pub mod length_counter;
pub mod noise_generator;
pub mod pulse_generator;
pub mod sweep_unit;
pub mod timer;
pub mod triangle_generator;

verus! {

/// The frame sequencer's two modes.
#[derive(Debug, Eq, PartialEq, Structural, Clone, Copy)]
pub enum FrameCounterMode {
    MODE5STEP,
    MODE4STEP,
}

/// The output levels of the five channels at one sample point: pulses, triangle and noise from
/// 0 to 15, the delta modulation channel from 0 to 127. Mixing them into one signal is left to
/// the caller.
#[derive(Debug, Clone, Copy, PartialEq, Eq, Structural)]
pub struct ChannelLevels {
    pub pulse1: u8,
    pub pulse2: u8,
    pub triangle: u8,
    pub noise: u8,
    pub dmc: u8,
}

/// The audio processing unit: two pulse channels, a triangle, a noise and a delta modulation
/// channel, clocked by a frame sequencer.
pub struct APU {
    pulse_generator1: PulseGenerator,
    pulse_generator2: PulseGenerator,
    noise_generator: NoiseGenerator,
    triangle_generator: TriangleGenerator,
    data_modulation_channel: DataModulationChannel,
    cycle_in_frame: usize,
    enable_interrupt: bool,
    frame_counter_mode: FrameCounterMode,
    outstanding_interrupt: bool,
    /// a frame interrupt was raised and the status was not read since
    frame_interrupt: bool,
}

/// The state of the APU: its channels and its frame sequencer.
pub struct ApuState {
    pub pulse1: PulseState,
    pub pulse2: PulseState,
    pub noise: NoiseState,
    pub triangle: TriangleState,
    pub dmc: DmcState,
    pub cycle_in_frame: usize,
    pub enable_interrupt: bool,
    pub frame_counter_mode: FrameCounterMode,
    pub outstanding_interrupt: bool,
    pub frame_interrupt: bool,
}

impl View for APU {
    type V = ApuState;

    closed spec fn view(&self) -> ApuState {
        ApuState {
            pulse1: self.pulse_generator1@,
            pulse2: self.pulse_generator2@,
            noise: self.noise_generator@,
            triangle: self.triangle_generator@,
            dmc: self.data_modulation_channel@,
            cycle_in_frame: self.cycle_in_frame,
            enable_interrupt: self.enable_interrupt,
            frame_counter_mode: self.frame_counter_mode,
            outstanding_interrupt: self.outstanding_interrupt,
            frame_interrupt: self.frame_interrupt,
        }
    }
}

impl ApuState {
    /// What every reachable APU state satisfies: sequencers in range, duty cycles and sweep
    /// shifts as the registers write them, and the frame position below the 5-step frame length.
    pub open spec fn wf(self) -> bool {
        &&& self.channels_wf()
        &&& self.cycle_in_frame < 18640
    }

    /// The part of `wf` that concerns the channels.
    pub open spec fn channels_wf(self) -> bool {
        &&& self.pulse1.wf()
        &&& self.pulse2.wf()
        &&& self.pulse1.duty < 4
        &&& self.pulse2.duty < 4
        &&& self.pulse1.sweep.shift < 16
        &&& self.pulse2.sweep.shift < 16
        &&& self.triangle.wf()
        &&& self.dmc.wf()
    }

    pub open spec fn half_frame(self) -> Self {
        ApuState {
            pulse1: self.pulse1.tick_half_frame(),
            pulse2: self.pulse2.tick_half_frame(),
            noise: self.noise.tick_half_frame(),
            triangle: self.triangle.tick_half_frame(),
            ..self
        }
    }

    pub open spec fn quarter_frame(self) -> Self {
        ApuState {
            pulse1: self.pulse1.tick_quarter_frame(),
            pulse2: self.pulse2.tick_quarter_frame(),
            noise: self.noise.tick_quarter_frame(),
            triangle: self.triangle.tick_quarter_frame(),
            ..self
        }
    }

    /// The 4-step sequence: quarter frames from cycle 3728 and 11185, half frames from 7456,
    /// and from 14914 a half frame, the frame interrupt (when enabled: the pending IRQ and the
    /// frame interrupt flag) and a new frame.
    pub open spec fn step4(self) -> Self {
        let c = self.cycle_in_frame;
        if c >= 14914 {
            ApuState {
                outstanding_interrupt: if self.enable_interrupt { true } else { self.outstanding_interrupt },
                frame_interrupt: if self.enable_interrupt { true } else { self.frame_interrupt },
                cycle_in_frame: 0,
                ..self.half_frame()
            }
        } else if c >= 11185 {
            self.quarter_frame()
        } else if c >= 7456 {
            self.half_frame()
        } else if c >= 3728 {
            self.quarter_frame()
        } else {
            self
        }
    }

    /// The 5-step sequence: as the 4-step one up to 11185, nothing from 14914, and from 18640 a
    /// half frame and a new frame, without interrupt.
    pub open spec fn step5(self) -> Self {
        let c = self.cycle_in_frame;
        if c >= 18640 {
            ApuState { cycle_in_frame: 0, ..self.half_frame() }
        } else if c >= 14914 {
            self
        } else if c >= 11185 {
            self.quarter_frame()
        } else if c >= 7456 {
            self.half_frame()
        } else if c >= 3728 {
            self.quarter_frame()
        } else {
            self
        }
    }

    /// Only the 4-step sequence raises the frame interrupt, and only as its frame ends (from
    /// cycle 14914) while interrupts are enabled; the 5-step sequence never raises it and ends
    /// its longer frame at cycle 18640.
    pub proof fn law_frame_interrupt(s: ApuState)
        ensures
            s.step4().frame_interrupt == (s.frame_interrupt || (s.enable_interrupt
                && s.cycle_in_frame >= 14914)),
            s.step4().outstanding_interrupt == (s.outstanding_interrupt || (s.enable_interrupt
                && s.cycle_in_frame >= 14914)),
            s.step4().cycle_in_frame == (if s.cycle_in_frame >= 14914 { 0 } else { s.cycle_in_frame }),
            s.step5().frame_interrupt == s.frame_interrupt,
            s.step5().outstanding_interrupt == s.outstanding_interrupt,
            s.step5().cycle_in_frame == (if s.cycle_in_frame >= 18640 { 0 } else { s.cycle_in_frame }),
    {
    }

    /// The frame sequencer keeps the channels well formed and ends inside the frame.
    pub proof fn lemma_steps_keep_wf(s: ApuState)
        requires
            s.channels_wf(),
            s.cycle_in_frame <= 18640,
            s.cycle_in_frame % 2 == 0,
        ensures
            s.step4().channels_wf(),
            s.step5().channels_wf(),
            s.step4().cycle_in_frame < 18640,
            s.step5().cycle_in_frame < 18640,
    {
    }

    pub open spec fn levels(self) -> ChannelLevels {
        ChannelLevels {
            pulse1: self.pulse1.level(),
            pulse2: self.pulse2.level(),
            triangle: self.triangle.level(),
            noise: self.noise.level(),
            dmc: self.dmc.output_buffer,
        }
    }

    /// One CPU cycle, `byte` being what a sample fetch would read: the triangle is clocked
    /// every cycle; every second cycle the frame sequencer, the pulse, noise and delta
    /// modulation channels are clocked, the delta modulation interrupt is taken over (replacing
    /// any pending one) and the channels' levels are sampled.
    pub open spec fn cycle(self, byte: u8) -> (Self, Option<ChannelLevels>) {
        let c = (self.cycle_in_frame + 1) as usize;
        let s1 = ApuState { cycle_in_frame: c, triangle: self.triangle.tick(), ..self };
        if c % 2 == 1 {
            (s1, None)
        } else {
            let s2 = if s1.frame_counter_mode == FrameCounterMode::MODE5STEP { s1.step5() } else { s1.step4() };
            let s3 = ApuState {
                pulse1: s2.pulse1.tick(),
                pulse2: s2.pulse2.tick(),
                noise: s2.noise.tick(),
                dmc: s2.dmc.tick_with(byte),
                ..s2
            };
            let s4 = ApuState {
                outstanding_interrupt: s3.dmc.outstanding_interrupt,
                dmc: DmcState { outstanding_interrupt: false, ..s3.dmc },
                ..s3
            };
            (s4, Some(s4.levels()))
        }
    }

    /// Whether the cycle after `self` fetches a sample byte: it clocks the channels and the delta
    /// modulation timer runs out while the channel waits for a byte of its sample.
    pub open spec fn fetches(self) -> bool {
        &&& (self.cycle_in_frame + 1) % 2 == 0
        &&& self.dmc.timer.data < 1
        &&& self.dmc.bytes_remaining != 0
        &&& self.dmc.sample_buffer is None
    }

    /// The state and samples after one cycle per byte of `bytes`.
    pub open spec fn run(self, bytes: Seq<u8>) -> (Self, Seq<ChannelLevels>)
        decreases bytes.len(),
    {
        if bytes.len() == 0 {
            (self, Seq::empty())
        } else {
            let (s, out) = self.run(bytes.drop_last());
            let (t, o) = s.cycle(bytes.last());
            (t, match o {
                Some(l) => out.push(l),
                None => out,
            })
        }
    }

    /// The status byte `IF-D NT21`: a pending delta modulation interrupt (I, whether still in
    /// the channel or taken over by the APU, which only the channel's interrupt survives in), a
    /// pending frame interrupt (F), DMC active (D) and the four length counters above zero.
    pub open spec fn status(self) -> u8 {
        (if self.pulse1.length.value > 0 { 1u8 } else { 0u8 })
            | (if self.pulse2.length.value > 0 { 2u8 } else { 0u8 })
            | (if self.triangle.length.value > 0 { 4u8 } else { 0u8 })
            | (if self.noise.length.value > 0 { 8u8 } else { 0u8 })
            | (if self.dmc.bytes_remaining != 0 { 0x10u8 } else { 0u8 })
            | (if self.frame_interrupt { 0x40u8 } else { 0u8 })
            | (if self.outstanding_interrupt || self.dmc.outstanding_interrupt { 0x80u8 } else { 0u8 })
    }
}

/// Cycle `i` of a run from `start` with the sample bytes `bytes` on the bus states `buses`:
/// when it fetches, its byte is what bus state `i` returns for the sample address, and the bus
/// moves on to state `i + 1`; otherwise the bus is left alone.
pub open spec fn fetch_matches<M: Mem>(start: ApuState, bytes: Seq<u8>, buses: Seq<M>, i: int) -> bool {
    let s = start.run(bytes.take(i)).0;
    &&& s.fetches() ==> bytes[i] == buses[i].read_value(s.dmc.sample_address)
    &&& !s.fetches() ==> buses[i + 1] == buses[i]
}

/// Every cycle of a run from `start` with `bytes` reads its sample byte from the bus it meets.
pub open spec fn sample_fetches<M: Mem>(start: ApuState, bytes: Seq<u8>, buses: Seq<M>) -> bool {
    &&& buses.len() == bytes.len() + 1
    &&& forall|i: int| 0 <= i < bytes.len() ==> #[trigger] fetch_matches(start, bytes, buses, i)
}

/// Every CPU cycle keeps the APU well formed.
pub proof fn law_cycle_keeps_wf(s: ApuState, byte: u8)
    requires
        s.wf(),
    ensures
        s.cycle(byte).0.wf(),
{
    let c = (s.cycle_in_frame + 1) as usize;
    let s1 = ApuState { cycle_in_frame: c, triangle: s.triangle.tick(), ..s };
    if c % 2 == 0 {
        ApuState::lemma_steps_keep_wf(s1);
    }
}

proof fn lemma_duty_bits(value: u8)
    ensures
        (value & 0xC0) >> 6u8 < 4,
{
    assert((value & 0xC0) >> 6u8 < 4) by {
        crate::bits::lemma_u8_bits(value);
    }
}

proof fn lemma_sweep_bits(value: u8)
    ensures
        value & 7 < 16,
        (value & 0x70) >> 4u8 < 255,
{
    assert(value & 7 < 16) by {
        crate::bits::lemma_u8_bits(value);
    }
    assert((value & 0x70) >> 4u8 < 255) by {
        crate::bits::lemma_u8_bits(value);
    }
}

proof fn lemma_length_bits(value: u8)
    ensures
        value >> 3u8 < 32,
{
    assert(value >> 3u8 < 32) by {
        crate::bits::lemma_u8_bits(value);
    }
}

impl PollIRQ for APU {
    /// Reports a pending interrupt once: returns whether one was outstanding and clears it.
    fn poll_irq(&mut self) -> (r: bool)
        ensures
            r == old(self)@.outstanding_interrupt,
            final(self)@ == (ApuState { outstanding_interrupt: false, ..old(self)@ }),
    {
        if self.outstanding_interrupt {
            self.outstanding_interrupt = false;
            true
        } else {
            false
        }
    }
}

impl APU {
    pub fn new() -> (r: APU)
        ensures
            r@.wf(),
            r@.pulse1 == PulseState::initial(PulseGeneratorID::One),
            r@.pulse2 == PulseState::initial(PulseGeneratorID::Two),
            r@.cycle_in_frame == 0,
            !r@.enable_interrupt,
            r@.frame_counter_mode == FrameCounterMode::MODE4STEP,
            !r@.outstanding_interrupt,
            !r@.frame_interrupt,
            r@.dmc == DmcState::initial(),
            r@.noise == NoiseState::initial(),
            r@.triangle == TriangleState::initial(),
    {
        Self {
            pulse_generator1: PulseGenerator::new(PulseGeneratorID::One),
            pulse_generator2: PulseGenerator::new(PulseGeneratorID::Two),
            noise_generator: NoiseGenerator::new(),
            triangle_generator: TriangleGenerator::new(),
            data_modulation_channel: DataModulationChannel::new(),
            cycle_in_frame: 0,
            enable_interrupt: false,
            frame_counter_mode: FrameCounterMode::MODE4STEP,
            outstanding_interrupt: false,
            frame_interrupt: false,
        }
    }

    /// Runs the APU for `cycles` CPU cycles, appending the channel levels of every sample point
    /// to `samples`. Sample bytes of the delta modulation channel are read from `bus`.
    pub fn tick<M: Mem>(&mut self, cycles: u8, bus: &mut M, samples: &mut Vec<ChannelLevels>)
        requires
            old(self)@.wf(),
        ensures
            final(self)@.wf(),
            exists|bytes: Seq<u8>, buses: Seq<M>|
                #![trigger sample_fetches(old(self)@, bytes, buses)]
                sample_fetches(old(self)@, bytes, buses) && bytes.len() == cycles && buses[0] == *old(bus)
                    && buses.last() == *final(bus) && final(self)@ == old(self)@.run(bytes).0
                    && final(samples)@ == old(samples)@ + old(self)@.run(bytes).1,
    {
        let ghost start = self@;
        let ghost start_samples = samples@;
        let ghost mut bytes: Seq<u8> = Seq::empty();
        let ghost mut buses: Seq<M> = seq![*bus];
        let ghost bus0 = *bus;
        let mut i: u8 = 0;
        while i < cycles
            invariant
                i <= cycles,
                self@.wf(),
                bytes.len() == i,
                self@ == start.run(bytes).0,
                samples@ == start_samples + start.run(bytes).1,
                sample_fetches(start, bytes, buses),
                buses[0] == bus0,
                buses.last() == *bus,
            decreases cycles - i,
        {
            let ghost before = self@;
            let ghost prev_bytes = bytes;
            let ghost prev_buses = buses;
            let ghost bus_before = *bus;
            let byte = self.tick_cycle(bus, samples);
            proof {
                bytes = bytes.push(byte);
                buses = buses.push(*bus);
                assert(bytes.take(i as int) =~= prev_bytes);
                assert forall|j: int| 0 <= j < bytes.len() implies #[trigger] fetch_matches(start, bytes, buses, j) by {
                    if j < i {
                        assert(bytes.take(j) =~= prev_bytes.take(j));
                        assert(fetch_matches(start, prev_bytes, prev_buses, j));
                    }
                }
                assert(bytes.drop_last() == prev_bytes);
                assert(start.run(bytes).1 == (match before.cycle(byte).1 {
                    Some(l) => start.run(prev_bytes).1.push(l),
                    None => start.run(prev_bytes).1,
                }));
                assert(samples@ =~= start_samples + start.run(bytes).1);
            }
            i = i + 1;
        }
        assert(start.run(bytes).0 == self@);
    }

    /// One CPU cycle of `tick`; returns the sample byte the cycle's transition was computed with.
    #[verifier::rlimit(80)]
    #[verifier::spinoff_prover]
    fn tick_cycle<M: Mem>(&mut self, bus: &mut M, samples: &mut Vec<ChannelLevels>) -> (byte: u8)
        requires
            old(self)@.wf(),
        ensures
            final(self)@.wf(),
            final(self)@ == old(self)@.cycle(byte).0,
            final(samples)@ == (match old(self)@.cycle(byte).1 {
                Some(l) => old(samples)@.push(l),
                None => old(samples)@,
            }),
            old(self)@.fetches() ==> byte == old(bus).read_value(old(self)@.dmc.sample_address),
            !old(self)@.fetches() ==> *final(bus) == *old(bus),
    {
        let ghost s0 = self@;
        self.cycle_in_frame = self.cycle_in_frame + 1;
        self.triangle_generator.tick(); // tick every cpu cycle
        let ghost s1 = self@;
        assert(s1 == ApuState { cycle_in_frame: (s0.cycle_in_frame + 1) as usize, triangle: s0.triangle.tick(), ..s0 });
        if self.cycle_in_frame % 2 == 1 {
            return 0;
        }
        if self.frame_counter_mode == FrameCounterMode::MODE5STEP {
            self.tick_5_step()
        } else {
            self.tick_4_step()
        }
        let ghost s2 = self@;
        assert(s2.dmc == s0.dmc);
        proof { ApuState::lemma_steps_keep_wf(s1); }
        self.pulse_generator1.tick();
        self.pulse_generator2.tick();
        self.noise_generator.tick();
        let ghost bus_before = *bus;
        let fetched = self.data_modulation_channel.tick(bus);
        assert(s0.fetches() <==> fetched is Some);
        let byte = match fetched {
            Some(b) => b,
            None => 0,
        };
        let ghost s3 = self@;
        assert(s3 == ApuState {
            pulse1: s2.pulse1.tick(),
            pulse2: s2.pulse2.tick(),
            noise: s2.noise.tick(),
            dmc: s2.dmc.tick_with(byte),
            ..s2
        });
        self.outstanding_interrupt = self.data_modulation_channel.poll_irq();
        samples.push(self.get_channel_levels());
        byte
    }

    fn tick_all_channels_half_frame(&mut self)
        requires
            old(self)@.channels_wf(),
        ensures
            final(self)@ == old(self)@.half_frame(),
    {
        self.pulse_generator1.tick_half_frame();
        self.pulse_generator2.tick_half_frame();
        self.noise_generator.tick_half_frame();
        self.triangle_generator.tick_half_frame();
    }

    fn tick_all_channels_quater_frame(&mut self)
        ensures
            final(self)@ == old(self)@.quarter_frame(),
    {
        self.pulse_generator1.tick_quarter_frame();
        self.pulse_generator2.tick_quarter_frame();
        self.noise_generator.tick_quarter_frame();
        self.triangle_generator.tick_quarter_frame();
    }

    fn tick_4_step(&mut self)
        requires
            old(self)@.channels_wf(),
        ensures
            final(self)@ == old(self)@.step4(),
    {
        let c = self.cycle_in_frame;
        if c >= 14914 {
            self.tick_all_channels_half_frame();
            if self.enable_interrupt {
                self.outstanding_interrupt = true;
                self.frame_interrupt = true;
            }
            self.cycle_in_frame = 0;
        } else if c >= 11185 {
            self.tick_all_channels_quater_frame()
        } else if c >= 7456 {
            self.tick_all_channels_half_frame()
        } else if c >= 3728 {
            self.tick_all_channels_quater_frame()
        }
    }

    fn tick_5_step(&mut self)
        requires
            old(self)@.channels_wf(),
        ensures
            final(self)@ == old(self)@.step5(),
    {
        let c = self.cycle_in_frame;
        if c >= 18640 {
            self.tick_all_channels_half_frame();
            self.cycle_in_frame = 0;
        } else if c >= 14914 {
            // Do Nothing
        } else if c >= 11185 {
            self.tick_all_channels_quater_frame()
        } else if c >= 7456 {
            self.tick_all_channels_half_frame()
        } else if c >= 3728 {
            self.tick_all_channels_quater_frame()
        }
    }

    /// The output levels of the five channels.
    pub fn get_channel_levels(&self) -> (r: ChannelLevels)
        requires
            self@.wf(),
        ensures
            r == self@.levels(),
    {
        ChannelLevels {
            pulse1: self.pulse_generator1.output_level(),
            pulse2: self.pulse_generator2.output_level(),
            triangle: self.triangle_generator.output_level(),
            noise: self.noise_generator.output_level(),
            dmc: self.data_modulation_channel.output_level(),
        }
    }

    /// IF-D NT21
    /// DMC interrupt (I), frame interrupt (F), DMC active (D), length counter > 0 (N/T/2/1)
    /// Reading the status clears the frame interrupt flag.
    pub fn get_status(&mut self) -> (r: u8)
        ensures
            r == old(self)@.status(),
            final(self)@ == (ApuState { frame_interrupt: false, ..old(self)@ }),
    {
        let p1 = self.pulse_generator1.is_active();
        let p2 = self.pulse_generator2.is_active();
        let t = self.triangle_generator.is_active();
        let n = self.noise_generator.is_active();
        let d = self.data_modulation_channel.get_bytes_remaining() != 0;
        let f = self.frame_interrupt;
        let i = self.outstanding_interrupt || self.data_modulation_channel.is_interrupt_pending();
        let status: u8 = (if p1 { 0b0000_0001u8 } else { 0u8 })
            | (if p2 { 0b0000_0010u8 } else { 0u8 })
            | (if t { 0b0000_0100u8 } else { 0u8 })
            | (if n { 0b0000_1000u8 } else { 0u8 })
            | (if d { 0b0001_0000u8 } else { 0u8 })
            | (if f { 0b0100_0000u8 } else { 0u8 })
            | (if i { 0b1000_0000u8 } else { 0u8 });
        self.frame_interrupt = false;
        status
    }

    /// ---D NT21
    /// Enable DMC (D), noise (N), triangle (T), and pulse channels (2/1)
    /// Clearing D stops the sample; setting it restarts a finished sample and clears the DMC
    /// interrupt enable.
    pub fn set_status(&mut self, value: u8)
        ensures
            final(self)@ == (ApuState {
                pulse1: PulseState { length: old(self)@.pulse1.length.set_enabled(value & 1 != 0), ..old(self)@.pulse1 },
                pulse2: PulseState { length: old(self)@.pulse2.length.set_enabled(value & 2 != 0), ..old(self)@.pulse2 },
                triangle: TriangleState { length: old(self)@.triangle.length.set_enabled(value & 4 != 0), ..old(self)@.triangle },
                noise: NoiseState { length: old(self)@.noise.length.set_enabled(value & 8 != 0), ..old(self)@.noise },
                dmc: if value & 0x10 == 0 {
                    DmcState { bytes_remaining: 0, ..old(self)@.dmc }
                } else if old(self)@.dmc.bytes_remaining == 0 {
                    DmcState {
                        bytes_remaining: old(self)@.dmc.sample_length,
                        sample_address: old(self)@.dmc.sample_start_address,
                        irq_enabled: false,
                        ..old(self)@.dmc
                    }
                } else {
                    DmcState { irq_enabled: false, ..old(self)@.dmc }
                },
                ..old(self)@
            }),
    {
        self.pulse_generator1.set_length_counter_enabled(value & 0b0000_0001 != 0);
        self.pulse_generator2.set_length_counter_enabled(value & 0b0000_0010 != 0);
        self.triangle_generator.set_length_counter_enabled(value & 0b0000_0100 != 0);
        self.noise_generator.set_length_counter_enabled(value & 0b0000_1000 != 0);
        if value & 0b0001_0000 == 0 {
            self.data_modulation_channel.set_bytes_remaining(0);
        } else {
            if self.data_modulation_channel.get_bytes_remaining() == 0 {
                self.data_modulation_channel.restart();
            }
            self.data_modulation_channel.set_irq_enable(false);
        }
    }

    /// MI-- ----
    /// Mode (M, 0 = 4-step, 1 = 5-step), IRQ inhibit flag (I)
    pub fn set_frame_counter(&mut self, value: u8)
        ensures
            final(self)@ == (ApuState {
                frame_counter_mode: if value & 0x80 == 0 { FrameCounterMode::MODE4STEP } else { FrameCounterMode::MODE5STEP },
                enable_interrupt: value & 0x40 == 0,
                ..old(self)@
            }),
    {
        if value & 0b1000_0000 == 0 {
            self.frame_counter_mode = FrameCounterMode::MODE4STEP;
        } else {
            self.frame_counter_mode = FrameCounterMode::MODE5STEP;
        }
        self.enable_interrupt = value & 0b0100_0000 == 0;
    }

    /// DDLC VVVV
    /// Duty (D), envelope loop / length counter halt (L), constant volume (C), volume/envelope (V)
    pub fn set_pulse1_DLCV(&mut self, value: u8)
        ensures
            final(self)@ == (ApuState { pulse1: old(self)@.pulse1.write_dlcv(value), ..old(self)@ }),
            old(self)@.wf() ==> final(self)@.wf(),
    {
        proof { lemma_duty_bits(value); }
        self.pulse_generator1.set_duty((value & 0b1100_0000) >> 6u8);
        let l = value & 0b0010_0000 != 0;
        self.pulse_generator1.set_length_counter_halt(l);
        self.pulse_generator1.set_envelope_parameters(l, value & 0b0001_0000 != 0, value & 0x0F);
    }

    /// DDLC VVVV
    /// Duty (D), envelope loop / length counter halt (L), constant volume (C), volume/envelope (V)
    pub fn set_pulse2_DLCV(&mut self, value: u8)
        ensures
            final(self)@ == (ApuState { pulse2: old(self)@.pulse2.write_dlcv(value), ..old(self)@ }),
            old(self)@.wf() ==> final(self)@.wf(),
    {
        proof { lemma_duty_bits(value); }
        self.pulse_generator2.set_duty((value & 0b1100_0000) >> 6u8);
        let l = value & 0b0010_0000 != 0;
        self.pulse_generator2.set_length_counter_halt(l);
        self.pulse_generator2.set_envelope_parameters(l, value & 0b0001_0000 != 0, value & 0x0F);
    }

    /// EPPP NSSS
    /// Sweep unit: enabled (E), period (P), negate (N), shift (S)
    pub fn set_pulse1_EPNS(&mut self, value: u8)
        ensures
            final(self)@ == (ApuState { pulse1: old(self)@.pulse1.write_epns(value), ..old(self)@ }),
            old(self)@.wf() ==> final(self)@.wf(),
    {
        proof { lemma_sweep_bits(value); }
        self.pulse_generator1.set_sweep_parameters(
            value & 0b1000_0000 != 0,
            value & 0b0000_1000 != 0,
            value & 0b0000_0111,
            (value & 0b0111_0000) >> 4u8,
        )
    }

    /// EPPP NSSS
    /// Sweep unit: enabled (E), period (P), negate (N), shift (S)
    pub fn set_pulse2_EPNS(&mut self, value: u8)
        ensures
            final(self)@ == (ApuState { pulse2: old(self)@.pulse2.write_epns(value), ..old(self)@ }),
            old(self)@.wf() ==> final(self)@.wf(),
    {
        proof { lemma_sweep_bits(value); }
        self.pulse_generator2.set_sweep_parameters(
            value & 0b1000_0000 != 0,
            value & 0b0000_1000 != 0,
            value & 0b0000_0111,
            (value & 0b0111_0000) >> 4u8,
        )
    }

    /// TTTT TTTT
    /// Timer low (T)
    pub fn set_pulse1_timer_low(&mut self, value: u8)
        ensures
            final(self)@ == (ApuState { pulse1: old(self)@.pulse1.set_timer_lower(value), ..old(self)@ }),
            old(self)@.wf() ==> final(self)@.wf(),
    {
        self.pulse_generator1.set_timer_lower(value)
    }

    /// TTTT TTTT
    /// Timer low (T)
    pub fn set_pulse2_timer_low(&mut self, value: u8)
        ensures
            final(self)@ == (ApuState { pulse2: old(self)@.pulse2.set_timer_lower(value), ..old(self)@ }),
            old(self)@.wf() ==> final(self)@.wf(),
    {
        self.pulse_generator2.set_timer_lower(value)
    }

    /// LLLL LTTT
    /// Length counter load (L), timer high (T)
    pub fn set_pulse1_LT(&mut self, value: u8)
        ensures
            final(self)@ == (ApuState {
                pulse1: old(self)@.pulse1.set_length_counter_value(value >> 3u8).set_timer_upper(value & 7),
                ..old(self)@
            }),
            old(self)@.wf() ==> final(self)@.wf(),
    {
        proof { lemma_length_bits(value); }
        self.pulse_generator1.set_length_counter_value(value >> 3u8);
        self.pulse_generator1.set_timer_upper(value & 0x7)
    }

    /// LLLL LTTT
    /// Length counter load (L), timer high (T)
    pub fn set_pulse2_LT(&mut self, value: u8)
        ensures
            final(self)@ == (ApuState {
                pulse2: old(self)@.pulse2.set_length_counter_value(value >> 3u8).set_timer_upper(value & 7),
                ..old(self)@
            }),
            old(self)@.wf() ==> final(self)@.wf(),
    {
        proof { lemma_length_bits(value); }
        self.pulse_generator2.set_length_counter_value(value >> 3u8);
        self.pulse_generator2.set_timer_upper(value & 0x7)
    }

    /// CRRR RRRR
    /// Length counter halt / linear counter control (C), linear counter load (R)
    pub fn set_triangle_CR(&mut self, value: u8)
        ensures
            final(self)@ == (ApuState {
                triangle: TriangleState {
                    length: old(self)@.triangle.length.set_halt(value & 0x80 != 0),
                    control_flag: value & 0x80 != 0,
                    counter_reload_value: value & 0x7F,
                    ..old(self)@.triangle
                },
                ..old(self)@
            }),
            old(self)@.wf() ==> final(self)@.wf(),
    {
        self.triangle_generator.set_length_counter_halt(value & 0b1000_0000 != 0);
        self.triangle_generator.set_control_flag(value & 0b1000_0000 != 0);
        self.triangle_generator.set_counter_reload_value(value & 0b0111_1111);
    }

    /// TTTT TTTT
    /// Timer low (T)
    pub fn set_triangle_timer_low(&mut self, value: u8)
        ensures
            final(self)@ == (ApuState { triangle: old(self)@.triangle.set_timer_lower(value), ..old(self)@ }),
            old(self)@.wf() ==> final(self)@.wf(),
    {
        self.triangle_generator.set_timer_lower(value);
    }

    /// LLLL LTTT
    /// Length counter load (L), timer high (T), set linear counter reload flag
    pub fn set_triangle_LT(&mut self, value: u8)
        ensures
            final(self)@ == (ApuState {
                triangle: old(self)@.triangle.set_timer_upper(value & 7).set_length_counter_value(value >> 3u8),
                ..old(self)@
            }),
            old(self)@.wf() ==> final(self)@.wf(),
    {
        proof { lemma_length_bits(value); }
        self.triangle_generator.set_timer_upper(value & 0b0000_0111);
        self.triangle_generator.set_length_counter_value(value >> 3u8);
    }

    /// --LC VVVV
    /// Envelope loop / length counter halt (L), constant volume (C), volume/envelope (V)
    pub fn set_noise_LCV(&mut self, value: u8)
        ensures
            final(self)@ == (ApuState {
                noise: NoiseState {
                    length: old(self)@.noise.length.set_halt(value & 0x20 != 0),
                    ..old(self)@.noise
                }.set_envelope_parameters(value & 0x20 != 0, value & 0x10 != 0, value & 0x0F),
                ..old(self)@
            }),
            old(self)@.wf() ==> final(self)@.wf(),
    {
        let l = value & 0b0010_0000 != 0;
        self.noise_generator.set_length_counter_halt(l);
        self.noise_generator.set_envelope_parameters(l, value & 0b0001_0000 != 0, value & 0x0F);
    }

    /// L--- PPPP
    /// Loop noise (L), noise period (P)
    pub fn set_noise_LP(&mut self, value: u8)
        ensures
            final(self)@ == (ApuState {
                noise: NoiseState { loop_mode: value & 0x80 != 0, ..old(self)@.noise }.set_period(value & 0xF),
                ..old(self)@
            }),
            old(self)@.wf() ==> final(self)@.wf(),
    {
        assert(value & 0xF < 16) by {
            crate::bits::lemma_u8_bits(value);
        }
        self.noise_generator.set_loop_mode(value & 0b1000_0000 != 0);
        self.noise_generator.set_period(value & 0xF);
    }

    /// LLLL L---
    /// Length counter load (L)
    pub fn set_noise_length_counter_load(&mut self, value: u8)
        ensures
            final(self)@ == (ApuState { noise: old(self)@.noise.set_length_counter_value(value >> 3u8), ..old(self)@ }),
            old(self)@.wf() ==> final(self)@.wf(),
    {
        proof { lemma_length_bits(value); }
        self.noise_generator.set_length_counter_value(value >> 3u8);
    }

    /// IL-- RRRR
    /// IRQ enable (I), loop (L), frequency (R)
    pub fn set_DMC_ILR(&mut self, value: u8)
        ensures
            final(self)@ == (ApuState {
                dmc: DmcState {
                    irq_enabled: value & 0x80 != 0,
                    loop_flag: value & 0x40 != 0,
                    timer: Timer {
                        timer_limit: (output_rate_table()[(value & 0xF) as int] / 2) as u16,
                        data: (output_rate_table()[(value & 0xF) as int] / 2) as u16,
                    },
                    ..old(self)@.dmc
                },
                ..old(self)@
            }),
            old(self)@.wf() ==> final(self)@.wf(),
    {
        assert(value & 0xF < 16) by {
            crate::bits::lemma_u8_bits(value);
        }
        self.data_modulation_channel.set_irq_enable(value & 0b1000_0000 != 0);
        self.data_modulation_channel.set_loop_flag(value & 0b0100_0000 != 0);
        self.data_modulation_channel.set_output_rate(value & 0b0000_1111);
    }

    /// -DDD DDDD
    /// Load counter (D)
    pub fn set_DMC_load_counter(&mut self, value: u8)
        ensures
            final(self)@ == (ApuState { dmc: DmcState { output_buffer: value & 0x7F, ..old(self)@.dmc }, ..old(self)@ }),
            old(self)@.wf() ==> final(self)@.wf(),
    {
        self.data_modulation_channel.direct_load(value & 0b0111_1111)
    }

    /// AAAA AAAA
    /// Sample address (A)
    pub fn set_DMC_sample_address(&mut self, value: u8)
        ensures
            final(self)@ == (ApuState {
                dmc: DmcState {
                    sample_start_address: (0xC000 + value * 64) as u16,
                    sample_address: (0xC000 + value * 64) as u16,
                    ..old(self)@.dmc
                },
                ..old(self)@
            }),
            old(self)@.wf() ==> final(self)@.wf(),
    {
        self.data_modulation_channel.set_sample_address(value);
    }

    /// LLLL LLLL
    /// Sample length (L)
    pub fn set_DMC_sample_length(&mut self, value: u8)
        ensures
            final(self)@ == (ApuState { dmc: DmcState { sample_length: (1 + value * 16) as u16, ..old(self)@.dmc }, ..old(self)@ }),
            old(self)@.wf() ==> final(self)@.wf(),
    {
        self.data_modulation_channel.set_sample_length(value);
    }
}

} // verus!
