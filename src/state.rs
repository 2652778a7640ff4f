use vstd::prelude::*;

verus! {

/// Full-scale level of a color channel: channel levels are parts per million of full intensity.
pub const LEVEL_MAX: u32 = 1_000_000;

/// Alpha levels below this value gate the scan amplitude to zero.
pub const ALPHA_THRESHOLD: u32 = 500_000;

/// Shortest state duration, in microseconds, that the built-in mode tables use.
pub const MIN_DURATION_US: u64 = 500;

/// Lowest sample rate, in hertz, at which every built-in state lasts at least one sample.
pub const MIN_SAMPLE_RATE: u32 = 2000;

/// Highest sample rate, in hertz, that an encode session accepts.
pub const MAX_SAMPLE_RATE: u32 = 192_000;

/// Largest state duration, in microseconds, that a state table may hold.
pub const MAX_DURATION_US: u64 = 1_000_000_000;

/// The SSTV modes this encoder supports, each identified by its 7-bit VIS code.
#[derive(Clone, Copy, Debug, PartialEq, Eq, Structural)]
pub enum VisCode {
    Scottie1,
    Scottie2,
    ScottieDX,
    Martin1,
    Martin2,
}

impl VisCode {
    /// The 7-bit VIS code transmitted in the header for this mode.
    pub open spec fn spec_code(self) -> u32 {
        match self {
            VisCode::Scottie1 => 60,
            VisCode::Scottie2 => 56,
            VisCode::ScottieDX => 76,
            VisCode::Martin1 => 44,
            VisCode::Martin2 => 40,
        }
    }

    pub open spec fn is_scottie(self) -> bool {
        self is Scottie1 || self is Scottie2 || self is ScottieDX
    }

    pub fn code(&self) -> (r: u32)
        ensures
            r == self.spec_code(),
            r <= 127,
    {
        match self {
            VisCode::Scottie1 => 60,
            VisCode::Scottie2 => 56,
            VisCode::ScottieDX => 76,
            VisCode::Martin1 => 44,
            VisCode::Martin2 => 40,
        }
    }
}

/// An RGBA color; each channel is a level in `0..=LEVEL_MAX`.
#[derive(Clone, Copy, Debug, PartialEq, Eq, Structural)]
pub struct Color {
    pub r: u32,
    pub g: u32,
    pub b: u32,
    pub a: u32,
}

impl Color {
    /// Channel `ch` of the color: 0 red, 1 green, 2 blue, 3 alpha.
    pub open spec fn channel(self, ch: u32) -> u32 {
        if ch == 0 {
            self.r
        } else if ch == 1 {
            self.g
        } else if ch == 2 {
            self.b
        } else {
            self.a
        }
    }

    pub open spec fn wf(self) -> bool {
        self.r <= LEVEL_MAX && self.g <= LEVEL_MAX && self.b <= LEVEL_MAX && self.a <= LEVEL_MAX
    }

    /// Transparent black.
    pub fn new() -> (r: Color)
        ensures
            r == (Color { r: 0, g: 0, b: 0, a: 0 }),
    {
        Color { r: 0, g: 0, b: 0, a: 0 }
    }

    pub fn get_ch(&self, ch: u32) -> (r: u32)
        requires
            ch < 4,
        ensures
            r == self.channel(ch),
    {
        match ch {
            0 => self.r,
            1 => self.g,
            2 => self.b,
            _ => self.a,
        }
    }
}

/// A silent stretch of `us` microseconds.
#[derive(Clone, Copy, Debug)]
pub struct SilenceState {
    pub name: &'static str,
    pub us: u64,
    pub next_state: i32,
}

impl SilenceState {
    pub fn new(name: &'static str, us: u64, next_state: i32) -> (r: SilenceState)
        ensures
            r.name == name,
            r.us == us,
            r.next_state == next_state,
    {
        SilenceState { name, us, next_state }
    }
}

/// A steady tone of `hz` hertz lasting `us` microseconds.
#[derive(Clone, Copy, Debug)]
pub struct ToneState {
    pub name: &'static str,
    pub us: u64,
    pub hz: u32,
    pub next_state: i32,
}

impl ToneState {
    pub fn new(name: &'static str, us: u64, hz: u32, next_state: i32) -> (r: ToneState)
        ensures
            r.name == name,
            r.us == us,
            r.hz == hz,
            r.next_state == next_state,
    {
        ToneState { name, us, hz, next_state }
    }
}

/// A scan of one image row through color channel `ch`, spread over `us` microseconds.
#[derive(Clone, Copy, Debug)]
pub struct ColorRGBScanState {
    pub name: &'static str,
    pub us: u64,
    pub ch: u32,
    pub next_state: i32,
}

impl ColorRGBScanState {
    pub fn new(name: &'static str, us: u64, ch: u32, next_state: i32) -> (r: ColorRGBScanState)
        ensures
            r.name == name,
            r.us == us,
            r.ch == ch,
            r.next_state == next_state,
    {
        ColorRGBScanState { name, us, ch, next_state }
    }
}

/// One state of a mode's protocol. When its duration is used up the engine moves
/// `next_state` entries along the table; a negative move ends an image row.
#[derive(Clone, Copy, Debug)]
pub enum EncodeState {
    Silence(SilenceState),
    Tone(ToneState),
    ColorScan(ColorRGBScanState),
}

pub type EncodeStates = Vec<EncodeState>;

impl EncodeState {
    pub open spec fn spec_us(self) -> u64 {
        match self {
            EncodeState::Silence(s) => s.us,
            EncodeState::Tone(s) => s.us,
            EncodeState::ColorScan(s) => s.us,
        }
    }

    pub open spec fn spec_next(self) -> i32 {
        match self {
            EncodeState::Silence(s) => s.next_state,
            EncodeState::Tone(s) => s.next_state,
            EncodeState::ColorScan(s) => s.next_state,
        }
    }

    pub fn get_us(&self) -> (r: u64)
        ensures
            r == self.spec_us(),
    {
        match self {
            EncodeState::Silence(s) => s.us,
            EncodeState::Tone(s) => s.us,
            EncodeState::ColorScan(s) => s.us,
        }
    }

    pub fn get_next_state(&self) -> (r: i32)
        ensures
            r == self.spec_next(),
    {
        match self {
            EncodeState::Silence(s) => s.next_state,
            EncodeState::Tone(s) => s.next_state,
            EncodeState::ColorScan(s) => s.next_state,
        }
    }
}

/// State `i` of a table of `len` states can be run at `sample_rate`: its move stays
/// inside the table and is not zero, it lasts at least one sample period and at most
/// `MAX_DURATION_US`, and a scan reads one of the four channels.
pub open spec fn state_valid(st: EncodeState, i: int, len: int, sample_rate: int) -> bool {
    &&& st.spec_next() != 0
    &&& 0 <= i + st.spec_next() < len
    &&& 1_000_000 <= st.spec_us() * sample_rate
    &&& st.spec_us() <= MAX_DURATION_US
    &&& (st matches EncodeState::ColorScan(s) ==> s.ch < 4)
}

/// Every state of the table can be run at `sample_rate`.
pub open spec fn states_valid(s: Seq<EncodeState>, sample_rate: int) -> bool {
    &&& 0 < s.len() <= i32::MAX
    &&& forall|i: int| 0 <= i < s.len() ==> state_valid(#[trigger] s[i], i, s.len() as int, sample_rate)
}

} // verus!
