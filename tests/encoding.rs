use sstv::encoder::{
    encode, encode_with, level_to_uhz, step, EncodeContext, EncodeInput, EncodeOutput, Sample,
    SampleBuffer, AMPLITUDE_FULL, SILENCE_UHZ,
};
use sstv::modes::{count_bits_set, get_states, get_states_martin, get_states_preamble, get_states_scottie, get_states_vis_code};
use sstv::state::{Color, EncodeState, EncodeStates, VisCode, LEVEL_MAX};

/// Gradient image: red follows x, green follows y, blue off, fully opaque.
struct Gradient;

impl EncodeInput for Gradient {
    fn read(&self, x: u32, y: u32, width: u32, height: u32) -> Color {
        self.color_at(x, y, width, height)
    }

    fn color_at(&self, x: u32, y: u32, width: u32, height: u32) -> Color {
        Color {
            r: (x as u64 * LEVEL_MAX as u64 / width as u64) as u32,
            g: (y as u64 * LEVEL_MAX as u64 / height as u64) as u32,
            b: 0,
            a: LEVEL_MAX,
        }
    }
}

struct Flat(Color);

impl EncodeInput for Flat {
    fn read(&self, x: u32, y: u32, width: u32, height: u32) -> Color {
        self.color_at(x, y, width, height)
    }

    fn color_at(&self, _x: u32, _y: u32, _width: u32, _height: u32) -> Color {
        self.0
    }
}

fn tone_hz(st: &EncodeState) -> u32 {
    match st {
        EncodeState::Tone(t) => t.hz,
        _ => panic!("not a tone"),
    }
}

fn white() -> Color {
    Color { r: LEVEL_MAX, g: LEVEL_MAX, b: LEVEL_MAX, a: LEVEL_MAX }
}

/// Runs `ctx` on `states` sample by sample, calling `visit` with the context
/// before and after each sample.
fn run<F: FnMut(&EncodeContext, &EncodeContext)>(mut ctx: EncodeContext, states: &EncodeStates, input: &dyn EncodeInput, mut visit: F) -> EncodeContext {
    while ctx.y < ctx.height {
        let before = ctx;
        let color = input.read(ctx.x, ctx.y, ctx.width, ctx.height);
        step(&mut ctx, states, color);
        visit(&before, &ctx);
    }
    ctx
}

#[test]
fn count_bits_set_counts_every_bit() {
    assert_eq!(count_bits_set(0), 0);
    assert_eq!(count_bits_set(1), 1);
    assert_eq!(count_bits_set(40), 2);
    assert_eq!(count_bits_set(60), 4);
    assert_eq!(count_bits_set(0xFFFF_FFFF), 32);
    assert_eq!(count_bits_set(0x8000_0001), 2);
}

#[test]
fn vis_codes() {
    assert_eq!(VisCode::Scottie1.code(), 60);
    assert_eq!(VisCode::Scottie2.code(), 56);
    assert_eq!(VisCode::ScottieDX.code(), 76);
    assert_eq!(VisCode::Martin1.code(), 44);
    assert_eq!(VisCode::Martin2.code(), 40);
}

#[test]
fn vis_header_of_martin2() {
    let h = get_states_vis_code(VisCode::Martin2);
    let hz: Vec<u32> = h.iter().map(tone_hz).collect();
    // 40 = 0b0101000, two bits set: parity "0".
    assert_eq!(hz, vec![1900, 1500, 1900, 1200, 1300, 1300, 1300, 1100, 1300, 1100, 1300, 1300, 1200]);
}

#[test]
fn vis_header_parity_is_even_for_every_mode() {
    for mode in [VisCode::Scottie1, VisCode::Scottie2, VisCode::ScottieDX, VisCode::Martin1, VisCode::Martin2] {
        let h = get_states_vis_code(mode);
        let ones = h[4..12].iter().filter(|st| tone_hz(st) == 1100).count();
        assert_eq!(ones % 2, 0);
    }
    // 56 = 0b0111000 has three bits set: the parity tone is a "1".
    assert_eq!(tone_hz(&get_states_vis_code(VisCode::Scottie2)[11]), 1100);
}

#[test]
fn preamble_tones() {
    let p = get_states_preamble();
    let hz: Vec<u32> = p.iter().map(tone_hz).collect();
    assert_eq!(hz, vec![1900, 1500, 1900, 1500, 2300, 1500, 2300, 1500]);
}

#[test]
fn mode_tables() {
    let s = get_states(VisCode::Scottie1);
    assert_eq!(s.len(), 30);
    assert_eq!(s[29].get_next_state(), -6);
    assert_eq!(s[29].get_us(), 138_240);
    assert!(matches!(s[21], EncodeState::Silence(_)));
    let m = get_states(VisCode::Martin1);
    assert_eq!(m.len(), 29);
    assert_eq!(m[28].get_next_state(), -7);
    assert_eq!(m[23].get_us(), 146_432);
    assert_eq!(get_states_martin(VisCode::Martin2)[2].get_us(), 73_216);
    assert_eq!(get_states_scottie(VisCode::ScottieDX)[3].get_us(), 345_600);
    assert_eq!(get_states_scottie(VisCode::Scottie2)[5].get_us(), 88_064);
}

#[test]
fn color_channels() {
    let c = Color { r: 1, g: 2, b: 3, a: 4 };
    assert_eq!(c.get_ch(0), 1);
    assert_eq!(c.get_ch(1), 2);
    assert_eq!(c.get_ch(2), 3);
    assert_eq!(c.get_ch(3), 4);
    assert_eq!(Color::new(), Color { r: 0, g: 0, b: 0, a: 0 });
}

#[test]
fn level_to_frequency_is_linear() {
    assert_eq!(level_to_uhz(0), 1_500_000_000);
    assert_eq!(level_to_uhz(LEVEL_MAX), 2_300_000_000);
    assert_eq!(level_to_uhz(LEVEL_MAX / 2), 1_900_000_000);
    assert_eq!(level_to_uhz(250_000), 1_700_000_000);
}

#[test]
fn first_sample_is_preamble_tone() {
    let states = get_states(VisCode::Martin2);
    let mut ctx = EncodeContext::new();
    let sample = step(&mut ctx, &states, Color::new());
    assert_eq!(ctx.curr_uhz, 1_900_000_000);
    assert_eq!(ctx.curr_ampl, AMPLITUDE_FULL);
    assert_eq!(sample.cycle, 8_000_000_000);
    assert_eq!(sample.phase, 1_900_000_000);
    assert_eq!(sample.amplitude, AMPLITUDE_FULL);
    assert_eq!(ctx.time_units, 1_000_000);
}

#[test]
fn phase_advances_by_frequency_over_rate() {
    let states = get_states(VisCode::Martin2);
    let mut ctx = EncodeContext::new();
    let mut last = 0u64;
    for _ in 0..20 {
        let s = step(&mut ctx, &states, Color::new());
        assert!(s.phase < s.cycle);
        assert_eq!(s.phase, (last + 1_900_000_000) % 8_000_000_000);
        last = s.phase;
    }
}

#[test]
fn amplitude_is_smoothed() {
    let states = get_states(VisCode::Scottie1);
    let mut ctx = EncodeContext::new();
    ctx.state_idx = 21;
    let s1 = step(&mut ctx, &states, Color::new());
    assert_eq!(ctx.curr_ampl, 0);
    assert_eq!(s1.amplitude, 900_000);
    let s2 = step(&mut ctx, &states, Color::new());
    assert_eq!(s2.amplitude, 810_000);
}

#[test]
fn silence_restarts_phase() {
    let states = get_states(VisCode::Scottie1);
    let mut ctx = EncodeContext::new();
    ctx.state_idx = 21;
    ctx.oscil_phase = 12345;
    let s = step(&mut ctx, &states, Color::new());
    assert_eq!(ctx.curr_uhz, SILENCE_UHZ);
    assert_eq!(s.phase, SILENCE_UHZ);
}

#[test]
fn overshoot_is_carried_into_next_state() {
    // Martin sync porch lasts 572 us: 4.576 samples at 8000 Hz.
    let states = get_states(VisCode::Martin2);
    let mut ctx = EncodeContext::new();
    ctx.state_idx = 22;
    let mut n = 0;
    while ctx.state_idx == 22 {
        step(&mut ctx, &states, Color::new());
        n += 1;
    }
    assert_eq!(n, 6);
    assert_eq!(ctx.state_idx, 23);
    // The sixth sample finds 5 periods (625 us) spent: 53 us carry over, then one more period passes.
    assert_eq!(ctx.time_units, 5_000_000 - 4_576_000 + 1_000_000);
}

#[test]
fn rows_increment_exactly_height_times() {
    let states = get_states(VisCode::Martin2);
    let ctx = EncodeContext::with_format(4, 3, 8000);
    let mut increments = 0;
    let end = run(ctx, &states, &Gradient, |b, a| {
        assert!(a.y <= a.height);
        assert!(a.y == b.y || a.y == b.y + 1);
        if a.y == b.y + 1 {
            increments += 1;
        }
    });
    assert_eq!(increments, 3);
    assert_eq!(end.y, 3);
}

#[test]
fn scan_position_never_goes_back_and_reaches_last_pixel() {
    let states = get_states(VisCode::Martin1);
    let ctx = EncodeContext::with_format(320, 2, 8000);
    let mut max_in_state = 0u32;
    let mut ends = 0;
    run(ctx, &states, &Gradient, |b, a| {
        if let EncodeState::ColorScan(_) = states[b.state_idx as usize] {
            assert!(a.x < a.width);
            if a.state_idx == b.state_idx {
                assert!(a.x >= max_in_state);
                max_in_state = a.x;
            } else {
                assert_eq!(a.x, a.width - 1);
                ends += 1;
                max_in_state = 0;
            }
        }
    });
    assert_eq!(ends, 6);
}

#[test]
fn scottie1_first_row_takes_its_duration() {
    let states = get_states(VisCode::Scottie1);
    let mut ticks = 0u64;
    let mut row_start: Option<u64> = None;
    let mut row_end: Option<u64> = None;
    run(EncodeContext::new(), &states, &Gradient, |b, a| {
        ticks += 1;
        if row_start.is_none() && a.state_idx == 22 {
            row_start = Some(ticks);
        }
        if row_end.is_none() && b.y == 0 && a.y == 1 {
            row_end = Some(ticks);
        }
    });
    let n = row_end.unwrap() - row_start.unwrap();
    // 437.22 ms at 8000 Hz is 3497.76 samples.
    assert!((3497..=3499).contains(&n), "{}", n);
}

#[test]
fn white_opaque_pixel_scans_at_2300_hz() {
    let states = get_states(VisCode::Martin2);
    let ctx = EncodeContext::with_format(1, 1, 8000);
    let mut scans = 0;
    run(ctx, &states, &Flat(white()), |b, a| {
        if let EncodeState::ColorScan(_) = states[b.state_idx as usize] {
            scans += 1;
            assert_eq!(a.curr_uhz, 2_300_000_000);
            assert_eq!(a.curr_ampl, AMPLITUDE_FULL);
        }
    });
    assert!(scans >= 3 * 585);
}

#[test]
fn transparent_image_scans_silently() {
    let states = get_states(VisCode::Scottie2);
    let ctx = EncodeContext::with_format(8, 2, 8000);
    let c = Color { r: LEVEL_MAX, g: 300_000, b: 0, a: 0 };
    let mut scans = 0;
    run(ctx, &states, &Flat(c), |b, a| {
        if let EncodeState::ColorScan(_) = states[b.state_idx as usize] {
            scans += 1;
            assert_eq!(a.curr_ampl, 0);
        }
    });
    assert!(scans > 0);
}

#[test]
fn half_alpha_is_opaque() {
    let states = get_states(VisCode::Martin2);
    let mut ctx = EncodeContext::with_format(8, 2, 8000);
    ctx.state_idx = 23;
    step(&mut ctx, &states, Color { r: 0, g: 0, b: 0, a: 500_000 });
    assert_eq!(ctx.curr_ampl, AMPLITUDE_FULL);
    assert_eq!(ctx.curr_uhz, 1_500_000_000);
    step(&mut ctx, &states, Color { r: 0, g: 0, b: 0, a: 499_999 });
    assert_eq!(ctx.curr_ampl, 0);
}

#[test]
fn encode_full_picture() {
    let states = get_states(VisCode::Martin2);
    let mut out = SampleBuffer::new();
    let end = encode(&states, &Gradient, &mut out);
    assert_eq!(end.y, 256);
    assert_eq!(end.width, 320);
    assert!(out.samples.len() > 256 * 1800);
    assert!(out.samples.iter().all(|s| s.phase < s.cycle && s.cycle == 8_000_000_000));
}

#[test]
fn encode_at_24000_hz() {
    let states = get_states(VisCode::Scottie2);
    let mut out = SampleBuffer::new();
    let end = encode_with(EncodeContext::with_format(16, 2, 24000), &states, &Gradient, &mut out);
    assert_eq!(end.y, 2);
    assert_eq!(out.samples[0].cycle, 24_000_000_000);
}

#[test]
fn sample_buffer_keeps_order() {
    let mut b = SampleBuffer::new();
    let s1 = Sample { phase: 1, cycle: 8, amplitude: 0 };
    let s2 = Sample { phase: 5, cycle: 8, amplitude: 7 };
    assert_eq!(b.write(s1), 1);
    assert_eq!(b.write(s2), 1);
    assert_eq!(b.samples, vec![s1, s2]);
}

#[test]
fn encode_writes_one_sample_per_step() {
    let states = get_states(VisCode::Martin2);
    let ctx = EncodeContext::with_format(4, 2, 8000);
    let mut expected = Vec::new();
    run(ctx, &states, &Gradient, |_, a| {
        expected.push(Sample { phase: a.oscil_phase, cycle: 8_000_000_000, amplitude: a.smoothed_ampl });
    });
    let mut out = SampleBuffer::new();
    encode_with(ctx, &states, &Gradient, &mut out);
    assert_eq!(out.samples, expected);
}
