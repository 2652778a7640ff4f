use vstd::arithmetic::div_mod::{lemma_div_is_ordered, lemma_div_multiples_vanish};
use vstd::arithmetic::mul::lemma_mul_inequality;
use vstd::prelude::*;

use crate::state::{
    states_valid, Color, EncodeState, EncodeStates, ALPHA_THRESHOLD, LEVEL_MAX, MAX_DURATION_US,
    MAX_SAMPLE_RATE, MIN_SAMPLE_RATE,
};

verus! {

/// Elapsed time is kept in microseconds times the sample rate, so that one sample
/// period adds exactly this many units whatever the rate.
pub const TICK_UNITS: u64 = 1_000_000;

/// Frequencies are kept in microhertz.
pub const UHZ_PER_HZ: u64 = 1_000_000;

/// Full amplitude, in parts per million.
pub const AMPLITUDE_FULL: u32 = 1_000_000;

/// Frequency of a black channel level (1500 Hz), in microhertz.
pub const BLACK_UHZ: u64 = 1_500_000_000;

/// Microhertz added per channel level: 800 Hz spread over `LEVEL_MAX` levels.
pub const UHZ_PER_LEVEL: u64 = 800;

/// Frequency held during silence (1 Hz), in microhertz.
pub const SILENCE_UHZ: u64 = 1_000_000;

pub const DEFAULT_WIDTH: u32 = 320;

pub const DEFAULT_HEIGHT: u32 = 256;

pub const DEFAULT_SAMPLE_RATE: u32 = 8000;

/// One output sample: the oscillator sits at `phase / cycle` of its waveform cycle,
/// with smoothed amplitude `amplitude` (parts per million). The waveform value is
/// `sin(2 * pi * phase / cycle)`.
#[derive(Clone, Copy, Debug, PartialEq, Eq, Structural)]
pub struct Sample {
    pub phase: u64,
    pub cycle: u64,
    pub amplitude: u32,
}

/// The run state of one encode session.
#[derive(Clone, Copy, Debug)]
pub struct EncodeContext {
    pub width: u32,
    pub height: u32,
    /// Scan position within the current row, in pixels.
    pub x: u32,
    /// Current row: the number of rows completed.
    pub y: u32,
    /// Color sampled at `(x / width, y / height)` for the current sample.
    pub color: Color,
    /// Target frequency, in microhertz.
    pub curr_uhz: u64,
    /// Target amplitude, in parts per million.
    pub curr_ampl: u32,
    /// Time spent in the current state, in microseconds times the sample rate.
    pub time_units: u64,
    /// Oscillator phase, in units of `1 / cycle_units(sample_rate)` of a cycle.
    pub oscil_phase: u64,
    /// Exponential moving average of the target amplitude.
    pub smoothed_ampl: u32,
    pub sample_rate: u32,
    /// Index of the current state in the state table.
    pub state_idx: i32,
}

/// Number of phase units in one oscillator cycle.
pub open spec fn cycle_units(sample_rate: u32) -> int {
    sample_rate * UHZ_PER_HZ
}

/// Duration of `st` in elapsed-time units at `sample_rate`.
pub open spec fn duration_units(st: EncodeState, sample_rate: u32) -> int {
    st.spec_us() * sample_rate
}

/// Upper bound on elapsed time in any state of a valid table.
pub open spec fn time_bound() -> int {
    MAX_DURATION_US * MAX_SAMPLE_RATE + TICK_UNITS
}

/// Frequency, in microhertz, of channel level `v`: 1500 Hz for 0 rising linearly
/// to 2300 Hz for `LEVEL_MAX`.
pub open spec fn level_uhz(v: u32) -> int {
    BLACK_UHZ + UHZ_PER_LEVEL * v
}

/// Scan position after time `t` of a scan lasting `d` over a row `width` pixels
/// wide: `floor(t / (d / width))`, held at the last pixel.
pub open spec fn scan_x(t: int, width: int, d: int) -> int {
    let q = t * width / d;
    if q < width - 1 {
        q
    } else {
        width - 1
    }
}

/// One step of the amplitude low-pass: nine tenths of the old value plus one tenth of the target.
pub open spec fn smooth(prev: int, target: int) -> int {
    (prev * 9 + target) / 10
}

/// Amplitude of a scan of color `c`: silent below half alpha.
pub open spec fn scan_ampl(c: Color) -> u32 {
    if c.a < ALPHA_THRESHOLD {
        0
    } else {
        AMPLITUDE_FULL
    }
}

/// `st` is short and long enough to be run at `sample_rate`, and reads a channel that exists.
pub open spec fn runnable(st: EncodeState, sample_rate: u32) -> bool {
    &&& 1_000_000 <= st.spec_us() * sample_rate
    &&& st.spec_us() <= MAX_DURATION_US
    &&& (st matches EncodeState::ColorScan(s) ==> s.ch < 4)
}

impl EncodeContext {
    pub open spec fn wf(self) -> bool {
        &&& 1 <= self.width
        &&& 1 <= self.height
        &&& MIN_SAMPLE_RATE <= self.sample_rate <= MAX_SAMPLE_RATE
        &&& self.oscil_phase < cycle_units(self.sample_rate)
        &&& self.x < self.width
        &&& self.y <= self.height
        &&& self.curr_ampl <= AMPLITUDE_FULL
        &&& self.smoothed_ampl <= AMPLITUDE_FULL
    }

    /// The context can run the table `s`: it points at a state of it and has spent
    /// less than that state's duration plus one sample period in it.
    pub open spec fn ready(self, s: Seq<EncodeState>) -> bool {
        &&& self.wf()
        &&& states_valid(s, self.sample_rate as int)
        &&& 0 <= self.state_idx < s.len()
        &&& self.time_units < duration_units(s[self.state_idx as int], self.sample_rate) + TICK_UNITS
    }

    /// A fresh session on a `width` by `height` image at `sample_rate`.
    pub open spec fn fresh(width: u32, height: u32, sample_rate: u32) -> EncodeContext {
        EncodeContext {
            width,
            height,
            x: 0,
            y: 0,
            color: Color { r: 0, g: 0, b: 0, a: 0 },
            curr_uhz: 0,
            curr_ampl: 0,
            time_units: 0,
            oscil_phase: 0,
            smoothed_ampl: AMPLITUDE_FULL,
            sample_rate,
            state_idx: 0,
        }
    }

    /// A session on a 320 by 256 image at 8000 samples per second.
    pub fn new() -> (r: EncodeContext)
        ensures
            r == EncodeContext::fresh(DEFAULT_WIDTH, DEFAULT_HEIGHT, DEFAULT_SAMPLE_RATE),
            r.wf(),
    {
        EncodeContext::with_format(DEFAULT_WIDTH, DEFAULT_HEIGHT, DEFAULT_SAMPLE_RATE)
    }

    /// A session on a `width` by `height` image at `sample_rate` samples per second.
    pub fn with_format(width: u32, height: u32, sample_rate: u32) -> (r: EncodeContext)
        requires
            1 <= width,
            1 <= height,
            MIN_SAMPLE_RATE <= sample_rate <= MAX_SAMPLE_RATE,
        ensures
            r == EncodeContext::fresh(width, height, sample_rate),
            r.wf(),
    {
        EncodeContext {
            width,
            height,
            x: 0,
            y: 0,
            color: Color::new(),
            curr_uhz: 0,
            curr_ampl: 0,
            time_units: 0,
            oscil_phase: 0,
            smoothed_ampl: AMPLITUDE_FULL,
            sample_rate,
            state_idx: 0,
        }
    }
}

/// The row count after `st` has run at `c`: one more where `st` ends a row and its time is up.
pub open spec fn row_after(c: EncodeContext, st: EncodeState) -> u32 {
    if st.spec_next() < 0 && c.time_units >= duration_units(st, c.sample_rate) {
        (c.y + 1) as u32
    } else {
        c.y
    }
}

/// What the encode rule of `st` does to `c`.
pub open spec fn encode_rule(c: EncodeContext, st: EncodeState) -> EncodeContext {
    let y = row_after(c, st);
    match st {
        EncodeState::Silence(_) => EncodeContext {
            curr_uhz: SILENCE_UHZ,
            curr_ampl: 0,
            oscil_phase: 0,
            y,
            ..c
        },
        EncodeState::Tone(t) => EncodeContext {
            curr_uhz: (t.hz * UHZ_PER_HZ) as u64,
            curr_ampl: AMPLITUDE_FULL,
            y,
            ..c
        },
        EncodeState::ColorScan(t) => EncodeContext {
            x: scan_x(c.time_units as int, c.width as int, duration_units(st, c.sample_rate)) as u32,
            curr_uhz: level_uhz(c.color.channel(t.ch)) as u64,
            curr_ampl: scan_ampl(c.color),
            y,
            ..c
        },
    }
}

/// Once the time of `st` is up: carry the overshoot and move along the table.
pub open spec fn advance_state(c: EncodeContext, st: EncodeState) -> EncodeContext {
    let d = duration_units(st, c.sample_rate);
    if c.time_units >= d {
        EncodeContext {
            time_units: (c.time_units - d) as u64,
            state_idx: (c.state_idx + st.spec_next()) as i32,
            ..c
        }
    } else {
        c
    }
}

/// The oscillator: advance the phase by the target frequency over one sample period,
/// smooth the amplitude, and let one sample period pass.
pub open spec fn oscillate(c: EncodeContext) -> EncodeContext {
    EncodeContext {
        oscil_phase: ((c.oscil_phase + c.curr_uhz) % cycle_units(c.sample_rate)) as u64,
        smoothed_ampl: smooth(c.smoothed_ampl as int, c.curr_ampl as int) as u32,
        time_units: (c.time_units + TICK_UNITS) as u64,
        ..c
    }
}

/// The context after one sample, with `k` the color sampled for it, on table `s`.
pub open spec fn tick_spec(c: EncodeContext, s: Seq<EncodeState>, k: Color) -> EncodeContext {
    let st = s[c.state_idx as int];
    oscillate(advance_state(encode_rule(EncodeContext { color: k, ..c }, st), st))
}

/// The sample that the oscillator emits at `c`.
pub open spec fn sample_of(c: EncodeContext) -> Sample {
    Sample {
        phase: c.oscil_phase,
        cycle: cycle_units(c.sample_rate) as u64,
        amplitude: c.smoothed_ampl,
    }
}

/// Frequency, in microhertz, of channel level `v`.
pub fn level_to_uhz(v: u32) -> (r: u64)
    ensures
        r == level_uhz(v),
{
    BLACK_UHZ + UHZ_PER_LEVEL * (v as u64)
}

/// Duration of `st` in elapsed-time units at `sample_rate`.
fn state_units(st: &EncodeState, sample_rate: u32) -> (r: u64)
    requires
        st.spec_us() <= MAX_DURATION_US,
        sample_rate <= MAX_SAMPLE_RATE,
    ensures
        r == duration_units(*st, sample_rate),
{
    let us = st.get_us();
    assert(us * sample_rate <= MAX_DURATION_US * MAX_SAMPLE_RATE) by (nonlinear_arith)
        requires
            us <= MAX_DURATION_US,
            sample_rate <= MAX_SAMPLE_RATE,
    ;
    us * (sample_rate as u64)
}

/// Counts a completed row when `state` ends a row and its time is up.
fn check_end_state(ctx: &mut EncodeContext, state: &EncodeState)
    requires
        old(ctx).y < old(ctx).height,
        state.spec_us() <= MAX_DURATION_US,
        old(ctx).sample_rate <= MAX_SAMPLE_RATE,
    ensures
        *final(ctx) == (EncodeContext { y: row_after(*old(ctx), *state), ..*old(ctx) }),
{
    if state.get_next_state() < 0 && ctx.time_units >= state_units(state, ctx.sample_rate) {
        ctx.y = ctx.y + 1;
    }
}

impl EncodeState {
    /// Sets the signal targets that this state dictates for the current sample.
    pub fn encode(&self, ctx: &mut EncodeContext)
        requires
            old(ctx).wf(),
            old(ctx).y < old(ctx).height,
            runnable(*self, old(ctx).sample_rate),
        ensures
            *final(ctx) == encode_rule(*old(ctx), *self),
            final(ctx).wf(),
    {
        match self {
            EncodeState::Silence(_) => {
                ctx.curr_uhz = SILENCE_UHZ;
                ctx.curr_ampl = 0;
                ctx.oscil_phase = 0;
            },
            EncodeState::Tone(t) => {
                ctx.curr_uhz = (t.hz as u64) * UHZ_PER_HZ;
                ctx.curr_ampl = AMPLITUDE_FULL;
            },
            EncodeState::ColorScan(t) => {
                let d = state_units(self, ctx.sample_rate);
                let t_units = ctx.time_units;
                let w = ctx.width;
                assert((t_units as int) * (w as int) <= 0xFFFF_FFFF_FFFF_FFFF * 0xFFFF_FFFF)
                    by (nonlinear_arith)
                    requires
                        t_units <= 0xFFFF_FFFF_FFFF_FFFFu64,
                        w <= 0xFFFF_FFFFu32,
                ;
                let q: u128 = (t_units as u128) * (w as u128) / (d as u128);
                ctx.x = if q < (w - 1) as u128 {
                    q as u32
                } else {
                    w - 1
                };
                ctx.curr_uhz = level_to_uhz(ctx.color.get_ch(t.ch));
                ctx.curr_ampl = if ctx.color.a < ALPHA_THRESHOLD {
                    0
                } else {
                    AMPLITUDE_FULL
                };
            },
        }
        check_end_state(ctx, self);
    }
}

/// Source of image colors. The color it gives depends on the point alone.
pub trait EncodeInput {
    /// The color of the image at the point `(x / width, y / height)`.
    spec fn color_at(&self, x: u32, y: u32, width: u32, height: u32) -> Color;

    /// Reads the color of the image at the point `(x / width, y / height)`.
    fn read(&self, x: u32, y: u32, width: u32, height: u32) -> (r: Color)
        ensures
            r == self.color_at(x, y, width, height),
    ;
}

/// Sink of output samples, which it keeps in the order given.
pub trait EncodeOutput {
    /// The samples taken so far, in order.
    spec fn written(&self) -> Seq<Sample>;

    /// Takes one sample; returns how many samples it accepted.
    fn write(&mut self, sample: Sample) -> (r: usize)
        ensures
            final(self).written() == old(self).written().push(sample),
    ;
}

/// A sink that keeps every sample it takes, in order.
pub struct SampleBuffer {
    pub samples: Vec<Sample>,
}

impl SampleBuffer {
    pub fn new() -> (r: SampleBuffer)
        ensures
            r.samples@ == Seq::<Sample>::empty(),
    {
        SampleBuffer { samples: Vec::new() }
    }
}

impl EncodeOutput for SampleBuffer {
    open spec fn written(&self) -> Seq<Sample> {
        self.samples@
    }

    fn write(&mut self, sample: Sample) -> (r: usize)
        ensures
            final(self).written() == old(self).written().push(sample),
    {
        self.samples.push(sample);
        1
    }
}

/// The color that `input` gives at the scan position of `c`.
pub open spec fn sampled<I: EncodeInput>(input: &I, c: EncodeContext) -> Color {
    input.color_at(c.x, c.y, c.width, c.height)
}

/// The context after at most `n` sample periods of table `s` from `c`, each
/// sampling `input` at the scan position, stopping once every row is done.
pub open spec fn run<I: EncodeInput>(c: EncodeContext, s: Seq<EncodeState>, input: &I, n: nat) -> EncodeContext
    decreases n,
{
    if n == 0 || c.y >= c.height {
        c
    } else {
        run(tick_spec(c, s, sampled(input, c)), s, input, (n - 1) as nat)
    }
}

/// The samples emitted over that run, in order.
pub open spec fn stream<I: EncodeInput>(c: EncodeContext, s: Seq<EncodeState>, input: &I, n: nat) -> Seq<Sample>
    decreases n,
{
    if n == 0 || c.y >= c.height {
        Seq::empty()
    } else {
        let t = tick_spec(c, s, sampled(input, c));
        seq![sample_of(t)] + stream(t, s, input, (n - 1) as nat)
    }
}

/// The number of sample periods of that run in which a row was completed.
pub open spec fn rows_completed<I: EncodeInput>(c: EncodeContext, s: Seq<EncodeState>, input: &I, n: nat) -> int
    decreases n,
{
    if n == 0 || c.y >= c.height {
        0
    } else {
        let t = tick_spec(c, s, sampled(input, c));
        (if t.y == c.y + 1 {
            1int
        } else {
            0int
        }) + rows_completed(t, s, input, (n - 1) as nat)
    }
}

/// The time, in elapsed-time units, of the states whose duration ran out over that run.
pub open spec fn time_completed<I: EncodeInput>(c: EncodeContext, s: Seq<EncodeState>, input: &I, n: nat) -> int
    decreases n,
{
    if n == 0 || c.y >= c.height {
        0
    } else {
        let t = tick_spec(c, s, sampled(input, c));
        let d = duration_units(s[c.state_idx as int], c.sample_rate);
        (if c.time_units >= d {
            d
        } else {
            0
        }) + time_completed(t, s, input, (n - 1) as nat)
    }
}

/// Over any run, the durations of the states completed plus the time spent in the
/// current state equal the time at the start plus one sample period per sample:
/// the overshoot of each state is carried, so timing error does not accumulate.
pub proof fn lemma_run_time<I: EncodeInput>(c: EncodeContext, s: Seq<EncodeState>, input: &I, n: nat)
    requires
        c.ready(s),
    ensures
        time_completed(c, s, input, n) + run(c, s, input, n).time_units == c.time_units
            + TICK_UNITS * stream(c, s, input, n).len(),
    decreases n,
{
    if n == 0 || c.y >= c.height {
    } else {
        let t = tick_spec(c, s, sampled(input, c));
        lemma_tick_progress(c, s, sampled(input, c));
        lemma_run_time(t, s, input, (n - 1) as nat);
        assert(stream(c, s, input, n).len() == 1 + stream(t, s, input, (n - 1) as nat).len());
    }
}

/// One more sample period extends a run that has rows left.
proof fn lemma_run_push<I: EncodeInput>(c: EncodeContext, s: Seq<EncodeState>, input: &I, n: nat)
    requires
        run(c, s, input, n).y < run(c, s, input, n).height,
    ensures
        ({
            let e = run(c, s, input, n);
            let t = tick_spec(e, s, sampled(input, e));
            &&& run(c, s, input, n + 1) == t
            &&& stream(c, s, input, n + 1) == stream(c, s, input, n).push(sample_of(t))
            &&& rows_completed(c, s, input, n + 1) == rows_completed(c, s, input, n) + (if t.y == e.y + 1 {
                1int
            } else {
                0int
            })
        }),
    decreases n,
{
    let t = tick_spec(c, s, sampled(input, c));
    if n == 0 {
        assert(run(c, s, input, 0) == c);
        assert(run(t, s, input, 0) == t);
        assert(stream(t, s, input, 0) =~= Seq::<Sample>::empty());
        assert(rows_completed(t, s, input, 0) == 0);
        assert(seq![sample_of(t)] + Seq::<Sample>::empty() =~= Seq::<Sample>::empty().push(sample_of(t)));
    } else {
        assert(c.y < c.height);
        assert(run(c, s, input, n) == run(t, s, input, (n - 1) as nat));
        lemma_run_push(t, s, input, (n - 1) as nat);
        assert(((n + 1) - 1) as nat == n);
        assert(run(c, s, input, n + 1) == run(t, s, input, n));
        let e = run(c, s, input, n);
        let x = sample_of(tick_spec(e, s, sampled(input, e)));
        assert(seq![sample_of(t)] + stream(t, s, input, (n - 1) as nat).push(x) =~= (seq![sample_of(t)]
            + stream(t, s, input, (n - 1) as nat)).push(x));
    }
}

/// Over any run the row count only grows one row at a time and never passes the
/// image height: the rows completed are exactly the rows gained, and one sample
/// is emitted per sample period. A full encode from a fresh context therefore
/// completes exactly `height` rows.
pub proof fn lemma_run_rows<I: EncodeInput>(c: EncodeContext, s: Seq<EncodeState>, input: &I, n: nat)
    requires
        c.ready(s),
    ensures
        run(c, s, input, n).ready(s),
        run(c, s, input, n).height == c.height,
        c.y <= run(c, s, input, n).y <= c.height,
        rows_completed(c, s, input, n) == run(c, s, input, n).y - c.y,
        stream(c, s, input, n).len() <= n,
    decreases n,
{
    if n == 0 || c.y >= c.height {
    } else {
        let t = tick_spec(c, s, sampled(input, c));
        lemma_tick_progress(c, s, sampled(input, c));
        lemma_run_rows(t, s, input, (n - 1) as nat);
    }
}

/// Each sample period moves the run forward: it completes a row, or moves on
/// along the table, or spends time in the current state, which stays bounded.
proof fn lemma_tick_progress(c: EncodeContext, s: Seq<EncodeState>, k: Color)
    requires
        c.ready(s),
        c.y < c.height,
    ensures
        ({
            let n = tick_spec(c, s, k);
            &&& n.ready(s)
            &&& n.height == c.height && n.width == c.width && n.sample_rate == c.sample_rate
            &&& n.y == c.y + 1 || (n.y == c.y && n.state_idx > c.state_idx) || (n.y == c.y
                && n.state_idx == c.state_idx && n.time_units > c.time_units)
            &&& n.time_units < time_bound()
        }),
{
    let st = s[c.state_idx as int];
    let len = s.len() as int;
    let sr = c.sample_rate;
    assert(crate::state::state_valid(st, c.state_idx as int, len, sr as int));
    let d = duration_units(st, sr);
    assert(d <= MAX_DURATION_US * MAX_SAMPLE_RATE) by (nonlinear_arith)
        requires
            st.spec_us() <= MAX_DURATION_US,
            sr <= MAX_SAMPLE_RATE,
            d == st.spec_us() * sr,
    ;
    let n = tick_spec(c, s, k);
    if c.time_units >= d {
        let j = c.state_idx + st.spec_next();
        assert(crate::state::state_valid(s[j], j, len, sr as int));
        assert(duration_units(s[j], sr) <= MAX_DURATION_US * MAX_SAMPLE_RATE) by (nonlinear_arith)
            requires
                s[j].spec_us() <= MAX_DURATION_US,
                sr <= MAX_SAMPLE_RATE,
                duration_units(s[j], sr) == s[j].spec_us() * sr,
        ;
    }
    let e = encode_rule(EncodeContext { color: k, ..c }, st);
    let a = advance_state(e, st);
    assert(cycle_units(sr) > 0);
    assert(n.oscil_phase == (a.oscil_phase + a.curr_uhz) % cycle_units(sr));
}

/// Runs one sample period on table `states`, with `color` the color sampled for it,
/// and returns the sample that the oscillator emits.
pub fn step(ctx: &mut EncodeContext, states: &EncodeStates, color: Color) -> (r: Sample)
    requires
        old(ctx).ready(states@),
        old(ctx).y < old(ctx).height,
    ensures
        *final(ctx) == tick_spec(*old(ctx), states@, color),
        r == sample_of(*final(ctx)),
        final(ctx).ready(states@),
{
    proof {
        lemma_tick_progress(*ctx, states@, color);
        assert(crate::state::state_valid(states@[ctx.state_idx as int], ctx.state_idx as int, states@.len() as int, ctx.sample_rate as int));
    }
    ctx.color = color;
    let st = &states[ctx.state_idx as usize];
    st.encode(ctx);
    let d = state_units(st, ctx.sample_rate);
    if ctx.time_units >= d {
        ctx.time_units = ctx.time_units - d;
        ctx.state_idx = ctx.state_idx + st.get_next_state();
    }
    let cycle = (ctx.sample_rate as u64) * UHZ_PER_HZ;
    ctx.oscil_phase = (ctx.oscil_phase + ctx.curr_uhz) % cycle;
    ctx.smoothed_ampl = (((ctx.smoothed_ampl as u64) * 9 + (ctx.curr_ampl as u64)) / 10) as u32;
    ctx.time_units = ctx.time_units + TICK_UNITS;
    Sample { phase: ctx.oscil_phase, cycle, amplitude: ctx.smoothed_ampl }
}

/// Encodes the image that `input` holds as a 320 by 256 picture at 8000 samples
/// per second, handing each sample to `output`, until every row is scanned.
pub fn encode<I: EncodeInput, O: EncodeOutput>(states: &EncodeStates, input: &I, output: &mut O) -> (r: EncodeContext)
    requires
        states_valid(states@, DEFAULT_SAMPLE_RATE as int),
    ensures
        r.width == DEFAULT_WIDTH,
        r.height == DEFAULT_HEIGHT,
        r.sample_rate == DEFAULT_SAMPLE_RATE,
        r.y == r.height,
        exists|n: nat|
            {
                &&& r == #[trigger] run(EncodeContext::fresh(DEFAULT_WIDTH, DEFAULT_HEIGHT, DEFAULT_SAMPLE_RATE), states@, input, n)
                &&& final(output).written() == old(output).written() + stream(EncodeContext::fresh(DEFAULT_WIDTH, DEFAULT_HEIGHT, DEFAULT_SAMPLE_RATE), states@, input, n)
                &&& stream(EncodeContext::fresh(DEFAULT_WIDTH, DEFAULT_HEIGHT, DEFAULT_SAMPLE_RATE), states@, input, n).len() == n
                &&& rows_completed(EncodeContext::fresh(DEFAULT_WIDTH, DEFAULT_HEIGHT, DEFAULT_SAMPLE_RATE), states@, input, n) == DEFAULT_HEIGHT
            },
{
    encode_with(EncodeContext::new(), states, input, output)
}

/// Runs the session `ctx` on table `states` from where it stands until every row is
/// scanned. Each sample period reads `input` at the scan position, steps, and hands
/// the sample to `output`: after `n` periods the result is `run(ctx, states@, input, n)`
/// and `output` has taken `stream(ctx, states@, input, n)`, one sample per period.
pub fn encode_with<I: EncodeInput, O: EncodeOutput>(
    ctx: EncodeContext,
    states: &EncodeStates,
    input: &I,
    output: &mut O,
) -> (r: EncodeContext)
    requires
        ctx.ready(states@),
    ensures
        r.ready(states@),
        r.width == ctx.width,
        r.height == ctx.height,
        r.sample_rate == ctx.sample_rate,
        r.y == r.height,
        exists|n: nat|
            {
                &&& r == #[trigger] run(ctx, states@, input, n)
                &&& final(output).written() == old(output).written() + stream(ctx, states@, input, n)
                &&& stream(ctx, states@, input, n).len() == n
                &&& rows_completed(ctx, states@, input, n) == r.height - ctx.y
            },
{
    let ghost c0 = ctx;
    let ghost n: nat = 0;
    let ghost w0 = output.written();
    let mut ctx = ctx;
    let ghost width = ctx.width;
    let ghost height = ctx.height;
    let ghost sample_rate = ctx.sample_rate;
    proof {
        let st = states@[ctx.state_idx as int];
        assert(crate::state::state_valid(st, ctx.state_idx as int, states@.len() as int, sample_rate as int));
        assert(duration_units(st, sample_rate) <= MAX_DURATION_US * MAX_SAMPLE_RATE) by (nonlinear_arith)
            requires
                st.spec_us() <= MAX_DURATION_US,
                sample_rate <= MAX_SAMPLE_RATE,
                duration_units(st, sample_rate) == st.spec_us() * sample_rate,
        ;
        assert(stream(c0, states@, input, 0) =~= Seq::<Sample>::empty());
        assert(w0 + Seq::<Sample>::empty() =~= w0);
    }
    while ctx.y < ctx.height
        invariant
            ctx.ready(states@),
            ctx.width == width,
            ctx.height == height,
            ctx.sample_rate == sample_rate,
            ctx.time_units < time_bound(),
            ctx == run(c0, states@, input, n),
            output.written() == w0 + stream(c0, states@, input, n),
            stream(c0, states@, input, n).len() == n,
            rows_completed(c0, states@, input, n) == ctx.y - c0.y,
        decreases ctx.height - ctx.y, states@.len() - ctx.state_idx, time_bound() - ctx.time_units,
    {
        let color = input.read(ctx.x, ctx.y, ctx.width, ctx.height);
        proof {
            lemma_tick_progress(ctx, states@, color);
            lemma_run_push(c0, states@, input, n);
        }
        let sample = step(&mut ctx, states, color);
        output.write(sample);
        proof {
            assert(w0 + stream(c0, states@, input, n).push(sample) =~= (w0 + stream(c0, states@, input, n)).push(sample));
            n = n + 1;
        }
    }
    ctx
}

/// Channel levels map linearly onto frequency: black (0) is 1500 Hz, white
/// (`LEVEL_MAX`) is 2300 Hz, and the middle level is 1900 Hz.
pub proof fn lemma_level_uhz_linear(v: u32, w: u32)
    ensures
        level_uhz(0) == 1500 * UHZ_PER_HZ,
        level_uhz(LEVEL_MAX) == 2300 * UHZ_PER_HZ,
        level_uhz(LEVEL_MAX / 2) == 1900 * UHZ_PER_HZ,
        level_uhz(w) - level_uhz(v) == UHZ_PER_LEVEL * (w - v),
{
}

/// The scan position never goes back as time within a scan grows, always lies on
/// the row, and stands on the last pixel once the time covers `width - 1` of the
/// `width` pixel slots.
pub proof fn lemma_scan_x(t1: int, t2: int, width: int, d: int)
    requires
        0 <= t1 <= t2,
        1 <= width,
        0 < d,
    ensures
        0 <= scan_x(t1, width, d) <= scan_x(t2, width, d) <= width - 1,
        t1 * width >= d * (width - 1) ==> scan_x(t1, width, d) == width - 1,
{
    lemma_mul_inequality(t1, t2, width);
    lemma_div_is_ordered(t1 * width, t2 * width, d);
    assert(0 <= t1 * width) by (nonlinear_arith)
        requires
            0 <= t1,
            1 <= width,
    ;
    lemma_div_is_ordered(0, t1 * width, d);
    if t1 * width >= d * (width - 1) {
        lemma_div_is_ordered(d * (width - 1), t1 * width, d);
        lemma_div_multiples_vanish(width - 1, d);
    }
}

/// Within one sample period the row count grows by one exactly when a state that
/// ends a row uses up its time, and it never passes the image height.
pub proof fn lemma_row_count_step(c: EncodeContext, s: Seq<EncodeState>, k: Color)
    requires
        c.ready(s),
        c.y < c.height,
    ensures
        ({
            let st = s[c.state_idx as int];
            let n = tick_spec(c, s, k);
            &&& n.y <= n.height == c.height
            &&& n.y == c.y || n.y == c.y + 1
            &&& (n.y == c.y + 1) == (st.spec_next() < 0 && c.time_units >= duration_units(st, c.sample_rate))
        }),
{
    lemma_tick_progress(c, s, k);
}

/// During a scan the scan position stays on the row, never moves back while the
/// scan lasts, and stands on the last pixel in the sample period that ends the scan.
pub proof fn lemma_scan_position(c: EncodeContext, s: Seq<EncodeState>, k1: Color, k2: Color)
    requires
        c.ready(s),
        c.y < c.height,
        s[c.state_idx as int] is ColorScan,
    ensures
        ({
            let n1 = tick_spec(c, s, k1);
            &&& n1.x < c.width
            &&& n1.state_idx != c.state_idx ==> n1.x == c.width - 1
            &&& (n1.state_idx == c.state_idx && n1.y < n1.height) ==> n1.x <= tick_spec(n1, s, k2).x
        }),
{
    lemma_tick_progress(c, s, k1);
    let st = s[c.state_idx as int];
    let sr = c.sample_rate;
    let w = c.width as int;
    let d = duration_units(st, sr);
    assert(crate::state::state_valid(st, c.state_idx as int, s.len() as int, sr as int));
    let t1 = c.time_units as int;
    let n1 = tick_spec(c, s, k1);
    if t1 >= d {
        lemma_mul_inequality(d, t1, w);
        lemma_div_is_ordered(d * w, t1 * w, d);
        lemma_div_multiples_vanish(w, d);
        assert(d * w == w * d) by (nonlinear_arith);
    } else {
        assert(n1.state_idx == c.state_idx);
        if n1.y < n1.height {
            let t2 = n1.time_units as int;
            assert(t2 == t1 + TICK_UNITS);
            lemma_mul_inequality(t1, t2, w);
            lemma_div_is_ordered(t1 * w, t2 * w, d);
        }
    }
}

/// The phase stays within one cycle, and each sample period advances it by the
/// target frequency over the sample rate, modulo one cycle; silence restarts it.
pub proof fn lemma_phase_step(c: EncodeContext, s: Seq<EncodeState>, k: Color)
    requires
        c.ready(s),
        c.y < c.height,
    ensures
        ({
            let n = tick_spec(c, s, k);
            &&& n.oscil_phase < cycle_units(c.sample_rate)
            &&& !(s[c.state_idx as int] is Silence) ==> n.oscil_phase == (c.oscil_phase + n.curr_uhz) % cycle_units(c.sample_rate)
            &&& s[c.state_idx as int] is Silence ==> n.oscil_phase == (SILENCE_UHZ as int) % cycle_units(c.sample_rate)
        }),
{
    lemma_tick_progress(c, s, k);
}

/// A scan sends the frequency of the sampled channel level, and is silent where
/// the sampled alpha is below half, whatever the channel level.
pub proof fn lemma_scan_targets(c: EncodeContext, s: Seq<EncodeState>, k: Color)
    requires
        c.ready(s),
        c.y < c.height,
        s[c.state_idx as int] is ColorScan,
    ensures
        ({
            let n = tick_spec(c, s, k);
            let ch = s[c.state_idx as int]->ColorScan_0.ch;
            &&& n.curr_uhz == level_uhz(k.channel(ch))
            &&& k.a < ALPHA_THRESHOLD ==> n.curr_ampl == 0
            &&& k.a >= ALPHA_THRESHOLD ==> n.curr_ampl == AMPLITUDE_FULL
        }),
{
    lemma_tick_progress(c, s, k);
}

} // verus!
