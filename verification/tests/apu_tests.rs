use nes_rs::apu::envelope::EnvelopeGenerator;
use nes_rs::apu::length_counter::LengthCounter;
use nes_rs::apu::noise_generator::NoiseGenerator;
use nes_rs::apu::pulse_generator::{PulseGenerator, PulseGeneratorID};
use nes_rs::apu::sweep_unit::SweepUnit;
use nes_rs::apu::timer::Timer;
use nes_rs::apu::triangle_generator::TriangleGenerator;
use nes_rs::apu::{ChannelLevels, APU};
use nes_rs::bus::{Bus65k, Mem, PollIRQ};
use nes_rs::ring_buffer::RingBuffer;

#[test]
fn timer_counts_down_then_reloads() {
    let mut t = Timer::new();
    t.timer_limit = 3;
    t.data = 2;
    assert!(!t.tick(1));
    assert_eq!(t.data, 1);
    assert!(!t.tick(1));
    assert_eq!(t.data, 0);
    assert!(t.tick(1));
    assert_eq!(t.data, 2);
    // more cycles than the limit: stops at zero
    t.data = 0;
    assert!(t.tick(10));
    assert_eq!(t.data, 0);
}

#[test]
fn length_counter_loads_from_table_only_when_enabled() {
    let mut l = LengthCounter::new();
    l.set_length(1);
    assert_eq!(l.get_value(), 0);
    l.set_enabled(true);
    l.set_length(1);
    assert_eq!(l.get_value(), 254);
    l.tick();
    assert_eq!(l.get_value(), 253);
    l.set_halt(true);
    l.tick();
    assert_eq!(l.get_value(), 253);
    assert!(!l.should_mute());
    l.set_enabled(false);
    assert_eq!(l.get_value(), 0);
    assert!(l.is_halted());
    l.set_halt(false);
    assert!(l.should_mute());
}

#[test]
fn envelope_decays_and_loops() {
    let mut e = EnvelopeGenerator::new();
    e.set_envelope(0);
    e.set_start(true);
    e.tick();
    assert_eq!(e.get_volume(), 15);
    for expected in (0..15).rev() {
        e.tick();
        assert_eq!(e.get_volume(), expected);
    }
    e.tick();
    assert_eq!(e.get_volume(), 0);
    e.set_loop_envelope(true);
    e.tick();
    assert_eq!(e.get_volume(), 15);
    e.set_constant_volume(true);
    e.set_volume(7);
    assert_eq!(e.get_volume(), 7);
}

#[test]
fn sweep_mutes_short_and_long_periods() {
    let mut s = SweepUnit::new(PulseGeneratorID::One);
    s.set_shift(1);
    assert!(s.should_mute(7));
    assert!(!s.should_mute(0x100));
    assert!(s.should_mute(0x600));
    s.set_negate(true);
    assert!(!s.should_mute(0x600));
}

#[test]
fn sweep_changes_period_when_divider_runs_out() {
    let mut s = SweepUnit::new(PulseGeneratorID::Two);
    s.set_enable(true);
    s.set_shift(1);
    s.set_divider_period(0);
    // first clock reloads
    assert_eq!(s.tick(0x100), 0x100);
    // divider 1 -> 0: period grows by half
    assert_eq!(s.tick(0x100), 0x180);
    let mut one = SweepUnit::new(PulseGeneratorID::One);
    one.set_enable(true);
    one.set_shift(1);
    one.set_negate(true);
    one.set_divider_period(0);
    one.tick(0x100);
    // pulse one subtracts one more
    assert_eq!(one.tick(0x100), 0x7F);
}

#[test]
fn pulse_outputs_duty_times_volume() {
    let mut p = PulseGenerator::new(PulseGeneratorID::One);
    p.set_length_counter_enabled(true);
    p.set_length_counter_value(1);
    assert!(p.is_active());
    p.set_envelope_parameters(false, true, 9);
    p.set_duty(2);
    // duty 2 starts with a 0 bit
    assert_eq!(p.output_level(), 0);
    p.tick();
    assert_eq!(p.output_level(), 9);
}

#[test]
fn triangle_steps_through_sequence() {
    let mut t = TriangleGenerator::new();
    t.set_length_counter_enabled(true);
    t.set_length_counter_value(1);
    t.set_counter_reload_value(10);
    t.set_timer_lower(5);
    t.tick_quarter_frame();
    assert!(t.is_active());
    assert_eq!(t.output_level(), 15);
    for _ in 0..6 {
        t.tick();
    }
    assert_eq!(t.output_level(), 14);
}

#[test]
fn noise_shift_register_steps() {
    let mut n = NoiseGenerator::new();
    n.set_length_counter_enabled(true);
    n.set_length_counter_value(1);
    n.set_envelope_parameters(false, true, 4);
    // shift register starts at 1: silent
    assert_eq!(n.output_level(), 0);
    n.tick();
    // 1 -> feedback 1 enters at bit 14, bit 0 becomes 0
    assert_eq!(n.output_level(), 4);
    n.set_period(0);
    n.set_loop_mode(true);
    assert!(n.is_active());
}

#[test]
fn apu_status_reports_active_channels_and_clears_frame_flag() {
    let mut apu = APU::new();
    apu.set_status(0b0000_0101);
    apu.set_pulse1_LT(0b0000_1000);
    apu.set_triangle_LT(0b0000_1000);
    apu.set_noise_length_counter_load(0b0000_1000);
    apu.set_frame_counter(0);
    // no interrupt is pending yet
    assert_eq!(apu.get_status(), 0b0000_0101);
}

#[test]
fn apu_tick_samples_every_other_cycle() {
    let mut apu = APU::new();
    let mut bus = Bus65k::new();
    let mut samples: Vec<ChannelLevels> = Vec::new();
    apu.tick(7, &mut bus, &mut samples);
    assert_eq!(samples.len(), 3);
    assert_eq!(samples[0], ChannelLevels { pulse1: 0, pulse2: 0, triangle: 0, noise: 0, dmc: 0 });
    apu.set_DMC_load_counter(0xFF);
    apu.tick(2, &mut bus, &mut samples);
    // the output unit clocks once before the sample: a zero bit lowers the level by 2
    assert_eq!(samples.len(), 4);
    assert_eq!(samples[3].dmc, 0x7D);
}

#[test]
fn apu_frame_interrupt_in_four_step_mode() {
    let mut apu = APU::new();
    let mut bus = Bus65k::new();
    let mut samples: Vec<ChannelLevels> = Vec::new();
    // bit 7 clear: 4-step mode; bit 6 clear: interrupts allowed
    apu.set_frame_counter(0);
    assert_eq!(apu.get_status() & 0x40, 0);
    for _ in 0..(14914 / 200 + 1) {
        apu.tick(200, &mut bus, &mut samples);
    }
    // the interrupt is raised but the DMC poll that follows in the same cycle replaces it
    assert!(!apu.poll_irq());
    // the status reports the frame interrupt once
    assert_eq!(apu.get_status() & 0x40, 0x40);
    assert_eq!(apu.get_status() & 0x40, 0);
}

#[test]
fn apu_five_step_mode_raises_no_frame_interrupt() {
    let mut apu = APU::new();
    let mut bus = Bus65k::new();
    let mut samples: Vec<ChannelLevels> = Vec::new();
    apu.set_frame_counter(0x80);
    for _ in 0..(18640 / 200 + 1) {
        apu.tick(200, &mut bus, &mut samples);
    }
    assert_eq!(apu.get_status() & 0xC0, 0);
}

#[test]
fn ring_buffer_push_and_read_back() {
    let mut ring: RingBuffer<u32, 4> = RingBuffer::new();
    ring.push(1);
    ring.push(2);
    assert_eq!(ring.peak(0), Some(&1));
    assert_eq!(ring.next(), Some(1));
    assert_eq!(ring.next(), Some(2));
    assert_eq!(ring.next(), None);
    for v in 3..8 {
        ring.push(v);
    }
    // writes 3..=7 went to slots 2, 3, 0, 1, 2
    assert_eq!(ring.peak(6), Some(&7));
    assert_eq!(ring.get(3), Some(4));
    assert_eq!(ring.writer_head, 3);
    assert_eq!(ring.peak(3), None);
}

#[test]
fn dmc_reads_its_sample_bytes_in_order_from_the_bus() {
    let mut apu = APU::new();
    let mut bus = Bus65k::new();
    let mut samples: Vec<ChannelLevels> = Vec::new();
    // first byte all zero bits, the following ones all one bits
    bus.mem_write(0xC000, 0x00);
    for a in 0xC001u16..0xC011 {
        bus.mem_write(a, 0xFF);
    }
    apu.set_DMC_load_counter(64);
    apu.set_DMC_sample_address(0);
    apu.set_DMC_sample_length(1);
    apu.set_DMC_ILR(0x0F);
    apu.set_status(0x10);
    for _ in 0..100 {
        apu.tick(200, &mut bus, &mut samples);
    }
    // eight zero bits lower the level by 16, the one bits after them raise it to the top
    let levels: Vec<u8> = samples.iter().map(|l| l.dmc).collect();
    assert!(levels.iter().any(|&l| l < 64));
    assert_eq!(*levels.last().unwrap(), 126);
}

#[test]
fn ring_buffer_full_round_comes_back_in_order() {
    let mut ring: RingBuffer<u32, 4> = RingBuffer::new();
    ring.push(9);
    assert_eq!(ring.next(), Some(9));
    // a whole ring's worth, starting from a slot other than the first
    for v in [10, 11, 12, 13] {
        ring.push(v);
    }
    for v in [10, 11, 12, 13] {
        assert_eq!(ring.next(), Some(v));
    }
    assert_eq!(ring.next(), None);
}
