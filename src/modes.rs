use vstd::prelude::*;

use crate::state::{
    states_valid, state_valid, ColorRGBScanState, EncodeState, EncodeStates, SilenceState, ToneState, VisCode,
    MAX_DURATION_US, MAX_SAMPLE_RATE, MIN_DURATION_US, MIN_SAMPLE_RATE,
};

verus! {

/// Value of bit `i` of `v`, as 0 or 1.
pub open spec fn bit(v: u32, i: u32) -> u32 {
    (v >> i) & 1
}

/// Number of bits set in the low eight bits of `v`.
pub open spec fn popcount8(v: u32) -> u32 {
    (bit(v, 0) + bit(v, 1) + bit(v, 2) + bit(v, 3) + bit(v, 4) + bit(v, 5) + bit(v, 6) + bit(v, 7)) as u32
}

/// Number of bits set in `v`.
pub open spec fn popcount(v: u32) -> u32 {
    (popcount8(v) + popcount8(v >> 8) + popcount8(v >> 16) + popcount8(v >> 24)) as u32
}

/// Counts the bits set in `in_value` by summing adjacent fields of doubling width.
pub fn count_bits_set(in_value: u32) -> (r: u32)
    ensures
        r == popcount(in_value),
{
    assert((in_value & 0x55555555) + ((in_value & 0xAAAAAAAA) >> 1) <= 0xFFFFFFFF) by (bit_vector);
    let v1: u32 = (in_value & 0x55555555) + ((in_value & 0xAAAAAAAA) >> 1);
    assert((v1 & 0x33333333) + ((v1 & 0xCCCCCCCC) >> 2) <= 0xFFFFFFFF) by (bit_vector);
    let v2: u32 = (v1 & 0x33333333) + ((v1 & 0xCCCCCCCC) >> 2);
    assert((v2 & 0x0F0F0F0F) + ((v2 & 0xF0F0F0F0) >> 4) <= 0xFFFFFFFF) by (bit_vector);
    let v3: u32 = (v2 & 0x0F0F0F0F) + ((v2 & 0xF0F0F0F0) >> 4);
    assert((v3 & 0x00FF00FF) + ((v3 & 0xFF00FF00) >> 8) <= 0xFFFFFFFF) by (bit_vector);
    let v4: u32 = (v3 & 0x00FF00FF) + ((v3 & 0xFF00FF00) >> 8);
    assert((v4 & 0x0000FFFF) + ((v4 & 0xFFFF0000) >> 16) <= 0xFFFFFFFF) by (bit_vector);
    let r: u32 = (v4 & 0x0000FFFF) + ((v4 & 0xFFFF0000) >> 16);
    proof {
        assert(r == popcount(in_value)) by (bit_vector)
            requires
                v1 == (in_value & 0x55555555) + ((in_value & 0xAAAAAAAA) >> 1),
                v2 == (v1 & 0x33333333) + ((v1 & 0xCCCCCCCC) >> 2),
                v3 == (v2 & 0x0F0F0F0F) + ((v2 & 0xF0F0F0F0) >> 4),
                v4 == (v3 & 0x00FF00FF) + ((v3 & 0xFF00FF00) >> 8),
                r == (v4 & 0x0000FFFF) + ((v4 & 0xFFFF0000) >> 16),
        ;
    }
    r
}


/// `st` is a tone of `hz` hertz lasting `us` microseconds that moves `next` states on.
pub open spec fn is_tone(st: EncodeState, us: u64, hz: u32, next: i32) -> bool {
    &&& st matches EncodeState::Tone(t)
    &&& t.us == us && t.hz == hz && t.next_state == next
}

/// `st` is a silence lasting `us` microseconds that moves `next` states on.
pub open spec fn is_silence(st: EncodeState, us: u64, next: i32) -> bool {
    &&& st matches EncodeState::Silence(t)
    &&& t.us == us && t.next_state == next
}

/// `st` is a scan of channel `ch` lasting `us` microseconds that moves `next` states on.
pub open spec fn is_scan(st: EncodeState, us: u64, ch: u32, next: i32) -> bool {
    &&& st matches EncodeState::ColorScan(t)
    &&& t.us == us && t.ch == ch && t.next_state == next
}

/// Frequency of calibration tone `j` of the preamble.
pub open spec fn preamble_hz(j: int) -> u32 {
    if j % 2 == 1 {
        1500
    } else if j < 4 {
        1900
    } else {
        2300
    }
}

/// The eight 100 ms calibration tones that open every transmission.
pub open spec fn preamble_ok(s: Seq<EncodeState>) -> bool {
    &&& s.len() == 8
    &&& forall|j: int| 0 <= j < 8 ==> is_tone(#[trigger] s[j], 100_000, preamble_hz(j), 1)
}

/// Frequency of a VIS bit tone: 1100 Hz for a one, 1300 Hz for a zero.
pub open spec fn bit_hz(one: bool) -> u32 {
    if one {
        1100
    } else {
        1300
    }
}

/// The VIS header for `code`: leader, break, leader, start bit, the seven data bits
/// from the lowest up, the even-parity bit and the stop bit.
pub open spec fn vis_header_ok(s: Seq<EncodeState>, code: u32) -> bool {
    &&& s.len() == 13
    &&& is_tone(s[0], 300_000, 1900, 1)
    &&& is_tone(s[1], 10_000, 1500, 1)
    &&& is_tone(s[2], 300_000, 1900, 1)
    &&& is_tone(s[3], 30_000, 1200, 1)
    &&& forall|j: int| 4 <= j < 11 ==> is_tone(#[trigger] s[j], 30_000, bit_hz(bit(code, (j - 4) as u32) == 1), 1)
    &&& is_tone(s[11], 30_000, bit_hz(popcount(code) & 1 == 1), 1)
    &&& is_tone(s[12], 30_000, 1200, 1)
}

/// Scan time of one color channel of a row, in microseconds.
pub open spec fn scan_us(mode: VisCode) -> u64 {
    match mode {
        VisCode::Scottie1 => 138_240,
        VisCode::Scottie2 => 88_064,
        VisCode::ScottieDX => 345_600,
        VisCode::Martin1 => 146_432,
        VisCode::Martin2 => 73_216,
    }
}

/// The Scottie body: a lead-in silence and starting sync pulse, then the row cycle
/// separator, green, separator, blue, sync, porch, red, which moves six states back.
pub open spec fn scottie_body_ok(s: Seq<EncodeState>, scan: u64) -> bool {
    &&& s.len() == 9
    &&& is_silence(s[0], 500_000, 1)
    &&& is_tone(s[1], 9_000, 1200, 1)
    &&& is_tone(s[2], 1_500, 1500, 1)
    &&& is_scan(s[3], scan, 1, 1)
    &&& is_tone(s[4], 1_500, 1500, 1)
    &&& is_scan(s[5], scan, 2, 1)
    &&& is_tone(s[6], 9_000, 1200, 1)
    &&& is_tone(s[7], 1_500, 1500, 1)
    &&& is_scan(s[8], scan, 0, -6i32)
}

/// The Martin body: the row cycle sync, porch, green, separator, blue, separator,
/// red, separator, which moves seven states back.
pub open spec fn martin_body_ok(s: Seq<EncodeState>, scan: u64) -> bool {
    &&& s.len() == 8
    &&& is_tone(s[0], 4_862, 1200, 1)
    &&& is_tone(s[1], 572, 1500, 1)
    &&& is_scan(s[2], scan, 1, 1)
    &&& is_tone(s[3], 572, 1500, 1)
    &&& is_scan(s[4], scan, 2, 1)
    &&& is_tone(s[5], 572, 1500, 1)
    &&& is_scan(s[6], scan, 0, 1)
    &&& is_tone(s[7], 572, 1500, -7i32)
}

pub open spec fn body_ok(s: Seq<EncodeState>, mode: VisCode) -> bool {
    if mode.is_scottie() {
        scottie_body_ok(s, scan_us(mode))
    } else {
        martin_body_ok(s, scan_us(mode))
    }
}

/// The full state table of `mode`: preamble, VIS header, then the mode's body.
pub open spec fn mode_table_ok(s: Seq<EncodeState>, mode: VisCode) -> bool {
    &&& 21 <= s.len()
    &&& preamble_ok(s.subrange(0, 8))
    &&& vis_header_ok(s.subrange(8, 21), mode.spec_code())
    &&& body_ok(s.subrange(21, s.len() as int), mode)
}

fn tone(name: &'static str, us: u64, hz: u32, next_state: i32) -> (r: EncodeState)
    ensures
        is_tone(r, us, hz, next_state),
{
    EncodeState::Tone(ToneState::new(name, us, hz, next_state))
}

fn scan(name: &'static str, us: u64, ch: u32, next_state: i32) -> (r: EncodeState)
    ensures
        is_scan(r, us, ch, next_state),
{
    EncodeState::ColorScan(ColorRGBScanState::new(name, us, ch, next_state))
}

pub fn get_states_preamble() -> (r: EncodeStates)
    ensures
        preamble_ok(r@),
{
    let r = vec![
        tone("Preamble", 100_000, 1900, 1),
        tone("Preamble", 100_000, 1500, 1),
        tone("Preamble", 100_000, 1900, 1),
        tone("Preamble", 100_000, 1500, 1),
        tone("Preamble", 100_000, 2300, 1),
        tone("Preamble", 100_000, 1500, 1),
        tone("Preamble", 100_000, 2300, 1),
        tone("Preamble", 100_000, 1500, 1),
    ];
    assert forall|j: int| 0 <= j < 8 implies is_tone(#[trigger] r@[j], 100_000, preamble_hz(j), 1) by {
        if j == 0 {} else if j == 1 {} else if j == 2 {} else if j == 3 {}
        else if j == 4 {} else if j == 5 {} else if j == 6 {} else {}
    }
    r
}

/// Tone for bit `i` of `code`.
fn bit_tone_hz(code: u32, i: u32) -> (r: u32)
    requires
        i < 32,
    ensures
        r == bit_hz(bit(code, i) == 1),
{
    let mask: u32 = 1u32 << i;
    assert(((code & mask) != 0) == (bit(code, i) == 1)) by (bit_vector)
        requires
            mask == 1u32 << i,
            i < 32,
    ;
    if code & mask != 0 {
        1100
    } else {
        1300
    }
}

pub fn get_states_vis_code(vis_code: VisCode) -> (r: EncodeStates)
    ensures
        vis_header_ok(r@, vis_code.spec_code()),
{
    let code = vis_code.code();
    let ones = count_bits_set(code);
    assert(((ones & 1) != 0) == ((ones & 1) == 1)) by (bit_vector);
    let parity_hz: u32 = if ones & 1 != 0 {
        1100
    } else {
        1300
    };
    let r = vec![
        tone("Leader Tone", 300_000, 1900, 1),
        tone("Break", 10_000, 1500, 1),
        tone("Leader Tone", 300_000, 1900, 1),
        tone("Start Bit", 30_000, 1200, 1),
        tone("Bit 0", 30_000, bit_tone_hz(code, 0), 1),
        tone("Bit 1", 30_000, bit_tone_hz(code, 1), 1),
        tone("Bit 2", 30_000, bit_tone_hz(code, 2), 1),
        tone("Bit 3", 30_000, bit_tone_hz(code, 3), 1),
        tone("Bit 4", 30_000, bit_tone_hz(code, 4), 1),
        tone("Bit 5", 30_000, bit_tone_hz(code, 5), 1),
        tone("Bit 6", 30_000, bit_tone_hz(code, 6), 1),
        tone("Parity", 30_000, parity_hz, 1),
        tone("Stop Bit", 30_000, 1200, 1),
    ];
    assert forall|j: int| 4 <= j < 11 implies is_tone(#[trigger] r@[j], 30_000, bit_hz(bit(code, (j - 4) as u32) == 1), 1) by {
        if j == 4 {} else if j == 5 {} else if j == 6 {} else if j == 7 {}
        else if j == 8 {} else if j == 9 {} else {}
    }
    r
}

pub fn get_states_scottie(vis_code: VisCode) -> (r: EncodeStates)
    requires
        vis_code.is_scottie(),
    ensures
        scottie_body_ok(r@, scan_us(vis_code)),
{
    let scan_us: u64 = match vis_code {
        VisCode::Scottie1 => 138_240,
        VisCode::Scottie2 => 88_064,
        _ => 345_600,
    };
    vec![
        EncodeState::Silence(SilenceState::new("Start Silence", 500_000, 1)),
        tone("Starting Sync Pulse", 9_000, 1200, 1),
        tone("Separator Pulse", 1_500, 1500, 1),
        scan("Green Scan", scan_us, 1, 1),
        tone("Separator Pulse", 1_500, 1500, 1),
        scan("Blue Scan", scan_us, 2, 1),
        tone("Sync Pulse", 9_000, 1200, 1),
        tone("Sync Porch", 1_500, 1500, 1),
        scan("Red Scan", scan_us, 0, -6),
    ]
}

pub fn get_states_martin(vis_code: VisCode) -> (r: EncodeStates)
    requires
        !vis_code.is_scottie(),
    ensures
        martin_body_ok(r@, scan_us(vis_code)),
{
    let scan_us: u64 = match vis_code {
        VisCode::Martin1 => 146_432,
        _ => 73_216,
    };
    vec![
        tone("Sync Pulse", 4_862, 1200, 1),
        tone("Sync Porch", 572, 1500, 1),
        scan("Green Scan", scan_us, 1, 1),
        tone("Separator Pulse", 572, 1500, 1),
        scan("Blue Scan", scan_us, 2, 1),
        tone("Separator Pulse", 572, 1500, 1),
        scan("Red Scan", scan_us, 0, 1),
        tone("Separator Pulse", 572, 1500, -7),
    ]
}

/// Builds the state table of `vis_code`, runnable at every supported sample rate.
pub fn get_states(vis_code: VisCode) -> (r: EncodeStates)
    ensures
        mode_table_ok(r@, vis_code),
        forall|sr: int| MIN_SAMPLE_RATE <= sr <= MAX_SAMPLE_RATE ==> states_valid(r@, sr),
{
    let mut out_states = get_states_preamble();
    let mut vis_code_states = get_states_vis_code(vis_code);
    let mut mode_states = match vis_code {
        VisCode::Scottie1 | VisCode::Scottie2 | VisCode::ScottieDX => get_states_scottie(vis_code),
        _ => get_states_martin(vis_code),
    };
    let ghost p = out_states@;
    let ghost h = vis_code_states@;
    let ghost b = mode_states@;
    out_states.append(&mut vis_code_states);
    out_states.append(&mut mode_states);
    proof {
        let s = out_states@;
        assert(s.subrange(0, 8) =~= p);
        assert(s.subrange(8, 21) =~= h);
        assert(s.subrange(21, s.len() as int) =~= b);
        assert forall|sr: int| MIN_SAMPLE_RATE <= sr <= MAX_SAMPLE_RATE implies states_valid(s, sr) by {
            lemma_mode_table_valid(s, vis_code, sr);
        }
    }
    out_states
}

/// Every state of a built-in table lasts from `MIN_DURATION_US` to `MAX_DURATION_US`,
/// scans a color channel if it scans, and moves one state on, but for the last,
/// which moves back six (Scottie) or seven (Martin) states.
proof fn lemma_mode_table_valid(s: Seq<EncodeState>, mode: VisCode, sr: int)
    requires
        mode_table_ok(s, mode),
        MIN_SAMPLE_RATE <= sr <= MAX_SAMPLE_RATE,
    ensures
        states_valid(s, sr),
{
    let len = s.len() as int;
    let b = s.subrange(21, len);
    assert(len == 29 || len == 30);
    assert forall|i: int| 0 <= i < len implies state_valid(#[trigger] s[i], i, len, sr) by {
        let st = s[i];
        if i < 8 {
            assert(s.subrange(0, 8)[i] == st);
        } else if i < 21 {
            assert(s.subrange(8, 21)[i - 8] == st);
            if 12 <= i < 19 {
                assert(is_tone(s.subrange(8, 21)[i - 8], 30_000, bit_hz(bit(mode.spec_code(), (i - 12) as u32) == 1), 1));
            }
        } else {
            assert(b[i - 21] == st);
        }
        assert(MIN_DURATION_US <= st.spec_us() <= MAX_DURATION_US);
        assert(1_000_000 <= st.spec_us() * sr) by (nonlinear_arith)
            requires
                500 <= st.spec_us(),
                2000 <= sr,
        ;
    }
}

/// 1 where `st` is the "one" tone of a VIS bit, else 0.
pub open spec fn one_tone(st: EncodeState) -> int {
    if st matches EncodeState::Tone(t) && t.hz == 1100 {
        1
    } else {
        0
    }
}

proof fn lemma_seven_bit_parity(c: u32)
    by (bit_vector)
    requires
        c <= 127,
    ensures
        (bit(c, 0) + bit(c, 1) + bit(c, 2) + bit(c, 3) + bit(c, 4) + bit(c, 5) + bit(c, 6)
            + (popcount(c) & 1)) % 2 == 0,
        popcount(c) & 1 == 0 || popcount(c) & 1 == 1,
        bit(c, 0) <= 1 && bit(c, 1) <= 1 && bit(c, 2) <= 1 && bit(c, 3) <= 1,
        bit(c, 4) <= 1 && bit(c, 5) <= 1 && bit(c, 6) <= 1,
{
}

/// In the VIS header of any 7-bit code, the seven data-bit tones and the parity
/// tone together hold an even number of "one" tones.
pub proof fn lemma_vis_parity_even(s: Seq<EncodeState>, code: u32)
    requires
        code <= 127,
        vis_header_ok(s, code),
    ensures
        (one_tone(s[4]) + one_tone(s[5]) + one_tone(s[6]) + one_tone(s[7]) + one_tone(s[8])
            + one_tone(s[9]) + one_tone(s[10]) + one_tone(s[11])) % 2 == 0,
{
    lemma_seven_bit_parity(code);
    assert(is_tone(s[4], 30_000, bit_hz(bit(code, 0) == 1), 1));
    assert(is_tone(s[5], 30_000, bit_hz(bit(code, 1) == 1), 1));
    assert(is_tone(s[6], 30_000, bit_hz(bit(code, 2) == 1), 1));
    assert(is_tone(s[7], 30_000, bit_hz(bit(code, 3) == 1), 1));
    assert(is_tone(s[8], 30_000, bit_hz(bit(code, 4) == 1), 1));
    assert(is_tone(s[9], 30_000, bit_hz(bit(code, 5) == 1), 1));
    assert(is_tone(s[10], 30_000, bit_hz(bit(code, 6) == 1), 1));
}

} // verus!
