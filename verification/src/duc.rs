//! Saturn DUC (transmit upconverter) FIFO rules: frame geometry, the FIFO
//! monitor word, refill sizing, the RF-disabled register state the DUC
//! probe runs in, the test IQ patterns, latency histograms and the
//! acceptance gates of a probe run.
use vstd::prelude::*;

use crate::text::{chars_of, eq_str, lower_chars};
use crate::xdma::{
    CW_KEYER_ENABLE_BIT, DUC_MUX_RESET_BIT, DUC_STREAM_ENABLE_BIT, MOX_BIT, TX_AMPLITUDE_MASK,
    TX_ENABLE_BIT, TX_IQ_DEINTERLEAVE_BIT, TX_MODULATION_SOURCE_MASK, TX_OUTPUT_GATE_BIT,
    TX_PROTOCOL_P2_BIT, TX_RELAY_DISABLE_BIT, TX_WATCHDOG_OVERRIDE_BIT,
};

verus! {

pub const DUC_SAMPLE_RATE_HZ: u64 = 192_000;
pub const DUC_IQ_PAIRS_PER_FRAME: usize = 240;
pub const DUC_FRAME_BYTES: usize = 1_440;
pub const DUC_FIFO_WORDS_PER_FRAME: usize = 180;
pub const DUC_FRAMES_PER_SECOND: u64 = 800;
pub const DUC_PREFILL_FRAMES: usize = 20;
pub const DUC_REFILL_LOW_FRAMES: usize = 12;
pub const DUC_REFILL_TARGET_FRAMES: usize = 20;
pub const DUC_MAX_DMA_BATCH_FRAMES: usize = 11;
pub const DMA_BUFFER_BYTES: usize = 15_840;
pub const HISTOGRAM_BUCKET_WIDTH_NS: u128 = 10_000;
pub const HISTOGRAM_MAX_NS: u128 = 100_000_000;
pub const HISTOGRAM_BUCKETS: usize = 10_000;
pub const DEFAULT_PROBE_DURATION_MS: u64 = 3_000;
pub const MIN_PROBE_DURATION_MS: u64 = 500;
pub const MAX_PROBE_DURATION_MS: u64 = 86_400_000;
pub const DEFAULT_MAX_P9999_REFILL_SERVICE_US: u64 = 5_000;
pub const MIN_MAX_P9999_REFILL_SERVICE_US: u64 = 100;
pub const MAX_MAX_P9999_REFILL_SERVICE_US: u64 = 100_000;
pub const DEFAULT_MAX_P9999_MARGIN_PERCENT: u64 = 60;
pub const MIN_MAX_P9999_MARGIN_PERCENT: u64 = 10;
pub const MAX_MAX_P9999_MARGIN_PERCENT: u64 = 95;
pub const MAX_RT_PRIORITY: u64 = 80;

/// The IQ written to the DUC.
#[derive(Clone, Copy, Debug, PartialEq, Eq, Structural)]
pub enum DucIqPattern {
    Zero,
    Changing,
    Carrier,
}

impl DucIqPattern {
    pub fn label(self) -> (r: &'static str)
        ensures
            r@ == (match self {
                DucIqPattern::Zero => "zero"@,
                DucIqPattern::Changing => "changing"@,
                DucIqPattern::Carrier => "carrier"@,
            }),
    {
        match self {
            DucIqPattern::Zero => "zero",
            DucIqPattern::Changing => "changing",
            DucIqPattern::Carrier => "carrier",
        }
    }

    /// The pattern a setting names, in any case: `zero` or `changing`.
    pub fn from_setting(value: &str) -> (r: Option<Self>)
        ensures
            r == (if crate::text::lower(value@) == "zero"@ {
                Some(DucIqPattern::Zero)
            } else if crate::text::lower(value@) == "changing"@ {
                Some(DucIqPattern::Changing)
            } else {
                None
            }),
    {
        let v = lower_chars(&chars_of(value));
        if eq_str(&v, "zero") {
            Some(DucIqPattern::Zero)
        } else if eq_str(&v, "changing") {
            Some(DucIqPattern::Changing)
        } else {
            None
        }
    }
}

/// The DUC FIFO monitor word: occupancy in the low 16 bits, then the
/// overflow (31), over-threshold (30) and underflow (29) flags.
#[derive(Clone, Copy, Debug, PartialEq, Eq, Structural)]
pub struct FifoSnapshot {
    pub occupied_words: usize,
    pub overflow: bool,
    pub over_threshold: bool,
    pub underflow: bool,
}

impl FifoSnapshot {
    pub fn empty() -> (r: Self)
        ensures
            r.occupied_words == 0 && !r.overflow && !r.over_threshold && !r.underflow,
    {
        FifoSnapshot { occupied_words: 0, overflow: false, over_threshold: false, underflow: false }
    }

    pub fn decode(value: u32) -> (r: Self)
        ensures
            r.occupied_words == value as nat % 0x1_0000,
            r.overflow == (value as nat / 0x8000_0000 % 2 == 1),
            r.over_threshold == (value as nat / 0x4000_0000 % 2 == 1),
            r.underflow == (value as nat / 0x2000_0000 % 2 == 1),
    {
        FifoSnapshot {
            occupied_words: (value % 0x1_0000) as usize,
            overflow: value / 0x8000_0000 % 2 == 1,
            over_threshold: value / 0x4000_0000 % 2 == 1,
            underflow: value / 0x2000_0000 % 2 == 1,
        }
    }
}

/// A FIFO fault, or two frames or fewer left, ends a probe run.
pub fn is_terminal_fifo_condition(snapshot: FifoSnapshot, occupied_frames: usize) -> (b: bool)
    ensures
        b == (snapshot.overflow || snapshot.over_threshold || snapshot.underflow || occupied_frames
            <= 2),
{
    snapshot.overflow || snapshot.over_threshold || snapshot.underflow || occupied_frames <= 2
}

/// FIFO depth by firmware generation: 4096 words from minor 13, 2048 for 10 to 12, else 1024.
pub fn duc_fifo_depth_words(firmware_minor: u16) -> (n: usize)
    ensures
        n == (if firmware_minor >= 13 {
            4096usize
        } else if firmware_minor >= 10 {
            2048usize
        } else {
            1024usize
        }),
{
    if firmware_minor >= 13 {
        4_096
    } else if firmware_minor >= 10 {
        2_048
    } else {
        1_024
    }
}

/// Frames to write so the FIFO reaches the target (capped by the FIFO's
/// frame capacity): the missing frames rounded up, limited by the free
/// frames and by one DMA batch.
pub open spec fn refill_frames(occupied: nat, depth: nat, target: nat) -> nat {
    let fifo_frames = depth / 180;
    let target_words = (if target < fifo_frames { target } else { fifo_frames }) * 180;
    if occupied >= target_words {
        0
    } else {
        let needed: nat = ((target_words - occupied) as nat + 179) / 180;
        let free: nat = (if depth >= occupied { (depth - occupied) as nat } else { 0nat }) / 180;
        let a: nat = if needed < free { needed } else { free };
        if a < 11 { a } else { 11 }
    }
}

pub fn refill_batch_frames(occupied_words: usize, fifo_depth_words: usize, target_frames: usize) -> (n: usize)
    ensures
        n as nat == refill_frames(occupied_words as nat, fifo_depth_words as nat, target_frames as nat),
        n <= DUC_MAX_DMA_BATCH_FRAMES,
{
    let fifo_frames = fifo_depth_words / DUC_FIFO_WORDS_PER_FRAME;
    let capped = if target_frames < fifo_frames {
        target_frames
    } else {
        fifo_frames
    };
    assert(capped * 180 <= fifo_depth_words) by (nonlinear_arith)
        requires
            capped <= fifo_depth_words / 180,
    ;
    let target_words = capped * DUC_FIFO_WORDS_PER_FRAME;
    if occupied_words >= target_words {
        return 0;
    }
    let needed_words = target_words - occupied_words;
    let needed_frames = needed_words / DUC_FIFO_WORDS_PER_FRAME + if needed_words
        % DUC_FIFO_WORDS_PER_FRAME == 0 {
        0
    } else {
        1
    };
    assert(needed_frames == (needed_words as nat + 179) / 180);
    let free_words = if fifo_depth_words >= occupied_words {
        fifo_depth_words - occupied_words
    } else {
        0
    };
    let free_frames = free_words / DUC_FIFO_WORDS_PER_FRAME;
    let a = if needed_frames < free_frames {
        needed_frames
    } else {
        free_frames
    };
    if a < DUC_MAX_DMA_BATCH_FRAMES {
        a
    } else {
        DUC_MAX_DMA_BATCH_FRAMES
    }
}

/// Nanoseconds of IQ held by `occupied_words` FIFO words at 800 frames/s.
pub open spec fn margin_ns(occupied_words: nat) -> nat {
    occupied_words * 1_000_000_000 / 144_000
}

pub fn fifo_margin_ns(occupied_words: usize) -> (n: u128)
    ensures
        n as nat == margin_ns(occupied_words as nat),
{
    (occupied_words as u128) * 1_000_000_000 / 144_000
}

/// TX configuration for the RF-disabled DUC probe: modulation source,
/// amplitude, watchdog override, mux reset, IQ deinterleave and stream enable
/// cleared; output gate and protocol-2 set; the stream enabled on request;
/// every other bit kept.
pub open spec fn phase4_tx_config_spec(current: u32, stream_enabled: bool) -> u32 {
    let cleared = current & !(TX_MODULATION_SOURCE_MASK | TX_AMPLITUDE_MASK | TX_WATCHDOG_OVERRIDE_BIT
        | DUC_MUX_RESET_BIT | TX_IQ_DEINTERLEAVE_BIT | DUC_STREAM_ENABLE_BIT);
    let set = cleared | TX_OUTPUT_GATE_BIT | TX_PROTOCOL_P2_BIT;
    if stream_enabled {
        set | DUC_STREAM_ENABLE_BIT
    } else {
        set
    }
}

pub fn phase4_tx_config(current: u32, stream_enabled: bool) -> (r: u32)
    ensures
        r == phase4_tx_config_spec(current, stream_enabled),
{
    let mut next = current & !(TX_MODULATION_SOURCE_MASK | TX_AMPLITUDE_MASK | TX_WATCHDOG_OVERRIDE_BIT
        | DUC_MUX_RESET_BIT | TX_IQ_DEINTERLEAVE_BIT | DUC_STREAM_ENABLE_BIT);
    next = next | TX_OUTPUT_GATE_BIT | TX_PROTOCOL_P2_BIT;
    if stream_enabled {
        next = next | DUC_STREAM_ENABLE_BIT;
    }
    next
}

/// TX configuration for the DUC shutdown: the probe configuration without
/// the output gate, stream enable or mux reset.
pub open spec fn duc_shutdown_tx_config_spec(current: u32) -> u32 {
    phase4_tx_config_spec(current, false) & !(TX_OUTPUT_GATE_BIT | DUC_STREAM_ENABLE_BIT
        | DUC_MUX_RESET_BIT)
}

pub fn duc_shutdown_tx_config(current: u32) -> (r: u32)
    ensures
        r == duc_shutdown_tx_config_spec(current),
{
    phase4_tx_config(current, false) & !(TX_OUTPUT_GATE_BIT | DUC_STREAM_ENABLE_BIT
        | DUC_MUX_RESET_BIT)
}

/// Registers of the RF-disabled DUC probe state.
pub open spec fn rf_disabled_duc_state(gpio: u32, keyer: u32, tx: u32, stream_enabled: bool) -> bool {
    &&& gpio & (MOX_BIT | TX_ENABLE_BIT) == 0
    &&& gpio & TX_RELAY_DISABLE_BIT != 0
    &&& keyer & CW_KEYER_ENABLE_BIT == 0
    &&& tx & (TX_MODULATION_SOURCE_MASK | TX_AMPLITUDE_MASK | TX_WATCHDOG_OVERRIDE_BIT
        | DUC_MUX_RESET_BIT | TX_IQ_DEINTERLEAVE_BIT) == 0
    &&& tx & (TX_OUTPUT_GATE_BIT | TX_PROTOCOL_P2_BIT) == TX_OUTPUT_GATE_BIT | TX_PROTOCOL_P2_BIT
    &&& tx & DUC_STREAM_ENABLE_BIT == (if stream_enabled { DUC_STREAM_ENABLE_BIT } else { 0u32 })
}

pub fn verify_rf_disabled_duc_state(gpio: u32, keyer: u32, tx: u32, stream_enabled: bool) -> (b: bool)
    ensures
        b == rf_disabled_duc_state(gpio, keyer, tx, stream_enabled),
{
    let expected_stream = if stream_enabled {
        DUC_STREAM_ENABLE_BIT
    } else {
        0
    };
    !(gpio & (MOX_BIT | TX_ENABLE_BIT) != 0 || gpio & TX_RELAY_DISABLE_BIT == 0 || keyer
        & CW_KEYER_ENABLE_BIT != 0 || tx & (TX_MODULATION_SOURCE_MASK | TX_AMPLITUDE_MASK
        | TX_WATCHDOG_OVERRIDE_BIT | DUC_MUX_RESET_BIT | TX_IQ_DEINTERLEAVE_BIT) != 0 || tx & (
    TX_OUTPUT_GATE_BIT | TX_PROTOCOL_P2_BIT) != TX_OUTPUT_GATE_BIT | TX_PROTOCOL_P2_BIT || tx
        & DUC_STREAM_ENABLE_BIT != expected_stream)
}

/// Registers after the DUC shutdown.
pub open spec fn duc_shutdown_state(gpio: u32, keyer: u32, tx: u32) -> bool {
    &&& gpio & (MOX_BIT | TX_ENABLE_BIT) == 0
    &&& gpio & TX_RELAY_DISABLE_BIT != 0
    &&& keyer & CW_KEYER_ENABLE_BIT == 0
    &&& tx & (TX_AMPLITUDE_MASK | TX_OUTPUT_GATE_BIT | TX_WATCHDOG_OVERRIDE_BIT | DUC_MUX_RESET_BIT
        | TX_IQ_DEINTERLEAVE_BIT | DUC_STREAM_ENABLE_BIT) == 0
}

pub fn verify_rf_disabled_duc_shutdown(gpio: u32, keyer: u32, tx: u32) -> (b: bool)
    ensures
        b == duc_shutdown_state(gpio, keyer, tx),
{
    !(gpio & (MOX_BIT | TX_ENABLE_BIT) != 0 || gpio & TX_RELAY_DISABLE_BIT == 0 || keyer
        & CW_KEYER_ENABLE_BIT != 0 || tx & (TX_AMPLITUDE_MASK | TX_OUTPUT_GATE_BIT
        | TX_WATCHDOG_OVERRIDE_BIT | DUC_MUX_RESET_BIT | TX_IQ_DEINTERLEAVE_BIT
        | DUC_STREAM_ENABLE_BIT) != 0)
}

/// Low three bytes of `v`, least significant first (two's complement).
pub open spec fn i24_le_bytes(v: i32) -> Seq<u8> {
    let u: nat = if v < 0 { (v + 0x1_0000_0000) as nat } else { v as nat };
    seq![(u % 256) as u8, (u / 256 % 256) as u8, (u / 65536 % 256) as u8]
}

/// Low three bytes of `v`, most significant first.
pub open spec fn i24_be_bytes(v: i32) -> Seq<u8> {
    let u: nat = if v < 0 { (v + 0x1_0000_0000) as nat } else { v as nat };
    seq![(u / 65536 % 256) as u8, (u / 256 % 256) as u8, (u % 256) as u8]
}

fn low_bytes(v: i32) -> (r: (u8, u8, u8))
    ensures
        ({
            let u: nat = if v < 0 { (v + 0x1_0000_0000) as nat } else { v as nat };
            r == ((u % 256) as u8, (u / 256 % 256) as u8, (u / 65536 % 256) as u8)
        }),
{
    let u: u64 = if v < 0 {
        (v as i64 + 0x1_0000_0000) as u64
    } else {
        v as u64
    };
    ((u % 256) as u8, (u / 256 % 256) as u8, (u / 65536 % 256) as u8)
}

/// Writes the little-endian 24-bit form of `value` at `at`.
pub fn write_i24_le(target: &mut Vec<u8>, at: usize, value: i32)
    requires
        at + 3 <= old(target).len(),
    ensures
        final(target)@ == old(target)@.update(at as int, i24_le_bytes(value)[0]).update(
            at + 1,
            i24_le_bytes(value)[1],
        ).update(at + 2, i24_le_bytes(value)[2]),
{
    let (b0, b1, b2) = low_bytes(value);
    let a1 = at + 1;
    let a2 = at + 2;
    target.set(at, b0);
    target.set(a1, b1);
    target.set(a2, b2);
}

/// Writes the big-endian 24-bit form of `value` at `at`.
pub fn write_i24_be(target: &mut Vec<u8>, at: usize, value: i32)
    requires
        at + 3 <= old(target).len(),
    ensures
        final(target)@ == old(target)@.update(at as int, i24_be_bytes(value)[0]).update(
            at + 1,
            i24_be_bytes(value)[1],
        ).update(at + 2, i24_be_bytes(value)[2]),
{
    let (b0, b1, b2) = low_bytes(value);
    let a1 = at + 1;
    let a2 = at + 2;
    target.set(at, b2);
    target.set(a1, b1);
    target.set(a2, b0);
}

/// The six bytes of IQ pair `index` of the changing pattern: a ramp
/// `i = ((index mod 65536) - 32768) * 128`, `q = -i`, both little-endian.
pub open spec fn changing_pair(index: u64) -> Seq<u8> {
    let i = ((index as int % 65536) - 32768) * 128;
    i24_le_bytes(i as i32) + i24_le_bytes((-i) as i32)
}

/// The six bytes of the guarded carrier: Q = 0 then I = full scale, big-endian.
pub open spec fn carrier_pair() -> Seq<u8> {
    i24_be_bytes(0) + i24_be_bytes(0x007f_ffff)
}

/// The pattern bytes of pair `k` of a buffer filled from pair index `start`.
pub open spec fn pattern_pair(pattern: DucIqPattern, start: u64, k: int) -> Seq<u8> {
    match pattern {
        DucIqPattern::Zero => seq![0u8, 0u8, 0u8, 0u8, 0u8, 0u8],
        DucIqPattern::Carrier => carrier_pair(),
        DucIqPattern::Changing => changing_pair(((start as int + k) % 0x1_0000_0000_0000_0000) as u64),
    }
}

/// The bytes of the first `n` pattern pairs of a buffer filled from pair index `start`.
pub open spec fn pattern_bytes(pattern: DucIqPattern, start: u64, n: nat) -> Seq<u8>
    decreases n,
{
    if n == 0 {
        Seq::empty()
    } else {
        pattern_bytes(pattern, start, (n - 1) as nat) + pattern_pair(pattern, start, n - 1)
    }
}

/// The pair index after filling `pairs` pairs from `start`: the changing
/// pattern wraps per pair, the others add saturating.
pub open spec fn next_pair_index(pattern: DucIqPattern, start: u64, pairs: nat) -> u64 {
    if pattern == DucIqPattern::Changing {
        ((start + pairs) % 0x1_0000_0000_0000_0000) as u64
    } else if start + pairs > u64::MAX {
        u64::MAX
    } else {
        (start + pairs) as u64
    }
}

proof fn lemma_pair_in_bounds(k: int, n: int, len: int)
    requires
        0 <= k < n,
        n == len / 6,
        len >= 0,
    ensures
        6 * k + 6 <= len,
{
    assert(6 * k + 6 <= len) by (nonlinear_arith)
        requires
            0 <= k < n,
            n == len / 6,
            len >= 0,
    ;
}

proof fn lemma_pair_step(before: Seq<u8>, after: Seq<u8>, orig: Seq<u8>, at: int, pair: Seq<u8>)
    requires
        0 <= at,
        at + 6 <= orig.len(),
        before.len() == orig.len(),
        after.len() == orig.len(),
        pair.len() == 6,
        after.subrange(at, at + 6) == pair,
        forall|t: int| 0 <= t < orig.len() && !(at <= t < at + 6) ==> after[t] == before[t],
        before.subrange(at, orig.len() as int) == orig.subrange(at, orig.len() as int),
    ensures
        after.subrange(0, at + 6) == before.subrange(0, at) + pair,
        after.subrange(at + 6, orig.len() as int) == orig.subrange(at + 6, orig.len() as int),
{
    assert(after.subrange(0, at + 6) =~= before.subrange(0, at) + pair) by {
        assert forall|t: int| 0 <= t < at + 6 implies after.subrange(0, at + 6)[t] == (before.subrange(
            0,
            at,
        ) + pair)[t] by {
            if t >= at {
                assert(after[t] == after.subrange(at, at + 6)[t - at]);
            }
        }
    }
    assert(after.subrange(at + 6, orig.len() as int) =~= orig.subrange(at + 6, orig.len() as int))
        by {
        assert forall|t: int| 0 <= t < orig.len() - (at + 6) implies #[trigger] after.subrange(
            at + 6,
            orig.len() as int,
        )[t] == orig.subrange(at + 6, orig.len() as int)[t] by {
            assert(before[at + 6 + t] == before.subrange(at, orig.len() as int)[6 + t]);
        }
    }
}

proof fn lemma_wrap_step(start: u64, k: nat, idx: u64)
    requires
        idx == ((start + k) % 0x1_0000_0000_0000_0000) as u64,
    ensures
        (if idx + 1 > u64::MAX { idx + 1 - 0x1_0000_0000_0000_0000 } else { idx + 1 }) == ((start + k
            + 1) % 0x1_0000_0000_0000_0000),
{
}

/// Writes the six bytes of one pair of `pattern` (not the zero pattern) at `at`.
fn write_pair(buffer: &mut Vec<u8>, at: usize, pattern: DucIqPattern, idx: u64)
    requires
        at + 6 <= old(buffer).len(),
        pattern != DucIqPattern::Zero,
    ensures
        final(buffer)@.len() == old(buffer)@.len(),
        final(buffer)@.subrange(at as int, at + 6) == (if pattern == DucIqPattern::Carrier {
            carrier_pair()
        } else {
            changing_pair(idx)
        }),
        forall|t: int|
            0 <= t < old(buffer)@.len() && !(at <= t < at + 6) ==> final(buffer)@[t] == old(
                buffer,
            )@[t],
{
    if pattern == DucIqPattern::Carrier {
        write_i24_be(buffer, at, 0);
        write_i24_be(buffer, at + 3, 0x007f_ffff);
        assert(buffer@.subrange(at as int, at + 6) =~= carrier_pair());
    } else {
        let phase: i32 = (idx % 65536) as i32 - 32768;
        let i: i32 = phase * 128;
        write_i24_le(buffer, at, i);
        write_i24_le(buffer, at + 3, -i);
        assert(buffer@.subrange(at as int, at + 6) =~= changing_pair(idx));
    }
}

/// Fills `buffer` with IQ of `pattern`, six bytes per pair. The zero pattern
/// clears the whole buffer; the others fill every whole pair and leave a
/// trailing partial pair untouched.
#[verifier::spinoff_prover]
#[verifier::rlimit(40)]
pub fn fill_iq_pattern(buffer: &mut Vec<u8>, pattern: DucIqPattern, pair_index: &mut u64)
    ensures
        final(buffer)@.len() == old(buffer)@.len(),
        pattern == DucIqPattern::Zero ==> final(buffer)@ == Seq::new(
            old(buffer)@.len(),
            |j: int| 0u8,
        ),
        pattern != DucIqPattern::Zero ==> final(buffer)@ == pattern_bytes(
            pattern,
            *old(pair_index),
            old(buffer)@.len() / 6,
        ) + old(buffer)@.subrange(6 * (old(buffer)@.len() / 6) as int, old(buffer)@.len() as int),
        *final(pair_index) == next_pair_index(pattern, *old(pair_index), old(buffer)@.len() / 6),
{
    let n = buffer.len() / 6;
    let ghost start = *pair_index;
    let ghost orig = buffer@;
    if pattern == DucIqPattern::Zero {
        let mut j: usize = 0;
        while j < buffer.len()
            invariant
                buffer@.len() == orig.len(),
                j <= buffer@.len(),
                forall|t: int| 0 <= t < j ==> buffer@[t] == 0u8,
            decreases buffer@.len() - j,
        {
            buffer.set(j, 0);
            j = j + 1;
        }
        assert(buffer@ =~= Seq::new(orig.len(), |t: int| 0u8));
        *pair_index = pair_index.saturating_add(n as u64);
        return;
    }
    let mut idx: u64 = *pair_index;
    let mut k: usize = 0;
    while k < n
        invariant
            n == orig.len() / 6,
            orig.len() <= usize::MAX,
            buffer@.len() == orig.len(),
            k <= n,
            pattern != DucIqPattern::Zero,
            buffer@.subrange(0, 6 * k as int) == pattern_bytes(pattern, start, k as nat),
            buffer@.subrange(6 * k as int, orig.len() as int) == orig.subrange(
                6 * k as int,
                orig.len() as int,
            ),
            pattern == DucIqPattern::Changing ==> idx == next_pair_index(pattern, start, k as nat),
            pattern == DucIqPattern::Carrier ==> idx == start,
        decreases n - k,
    {
        proof {
            lemma_pair_in_bounds(k as int, n as int, orig.len() as int);
        }
        let at = 6 * k;
        let ghost before = buffer@;
        proof {
            if pattern == DucIqPattern::Changing {
                assert(idx == ((start + k) % 0x1_0000_0000_0000_0000) as u64);
            }
        }
        write_pair(buffer, at, pattern, idx);
        proof {
            lemma_pair_step(before, buffer@, orig, at as int, pattern_pair(pattern, start, k as int));
        }
        if pattern == DucIqPattern::Changing {
            proof {
                lemma_wrap_step(start, k as nat, idx);
            }
            idx = idx.wrapping_add(1);
        }
        k = k + 1;
    }
    proof {
        assert(buffer@ =~= buffer@.subrange(0, 6 * n as int) + buffer@.subrange(
            6 * n as int,
            orig.len() as int,
        ));
    }
    if pattern == DucIqPattern::Carrier {
        *pair_index = idx.saturating_add(n as u64);
    } else {
        *pair_index = idx;
    }
}

/// `x + 1` saturating at `u64::MAX`.
pub open spec fn sat_inc(x: u64) -> u64 {
    if x == u64::MAX {
        u64::MAX
    } else {
        (x + 1) as u64
    }
}

/// `x + y` saturating at `u64::MAX`.
pub open spec fn sat_add(x: u64, y: u64) -> u64 {
    if x + y > u64::MAX {
        u64::MAX
    } else {
        (x + y) as u64
    }
}

/// The bucket of a latency: `(value - 1) / width`, with zero in the first bucket.
pub open spec fn bucket_of(value_ns: u128) -> int {
    (if value_ns == 0 {
        0
    } else {
        value_ns - 1
    }) / 10_000
}

/// Running bucket total over the first `n` buckets, saturating at `u64::MAX`.
pub open spec fn cumulative(b: Seq<u64>, n: int) -> nat
    decreases n,
{
    if n <= 0 {
        0
    } else {
        let c: nat = cumulative(b, n - 1) + b[n - 1] as nat;
        if c > u64::MAX {
            u64::MAX as nat
        } else {
            c
        }
    }
}

/// From bucket `i` on: the upper edge of the first bucket whose running total
/// reaches `rank`, capped by the exact maximum; the maximum if none does.
pub open spec fn scan(b: Seq<u64>, rank: nat, max_ns: u128, i: int) -> u128
    decreases b.len() - i,
{
    if i < 0 || i >= b.len() {
        max_ns
    } else if cumulative(b, i + 1) >= rank {
        let edge = (i + 1) * 10_000;
        if edge < max_ns {
            edge as u128
        } else {
            max_ns
        }
    } else {
        scan(b, rank, max_ns, i + 1)
    }
}

/// Rank of a percentile given in parts per million (clamped to one
/// million) among `observations`: `ceil(ppm * observations / 10^6)`.
pub open spec fn rank_of(ppm: nat, observations: nat) -> nat {
    let p = if ppm > 1_000_000 {
        1_000_000
    } else {
        ppm
    };
    (p * observations + 999_999) / 1_000_000
}

/// A latency histogram of fixed 10 us buckets up to 100 ms, with exact
/// count, overflow count and maximum.
#[derive(Debug)]
pub struct LatencyHistogram {
    pub buckets: Vec<u64>,
    pub observations: u64,
    pub overflow_observations: u64,
    pub max_ns: u128,
}

impl LatencyHistogram {
    /// The percentile (parts per million) this histogram reports.
    pub open spec fn percentile_spec(&self, ppm: nat) -> u128 {
        if self.observations == 0 {
            0
        } else {
            scan(self.buckets@, rank_of(ppm, self.observations as nat), self.max_ns, 0)
        }
    }

    /// A histogram without buckets (every observation overflows).
    pub fn empty() -> (h: Self)
        ensures
            h.buckets@.len() == 0,
            h.observations == 0,
            h.overflow_observations == 0,
            h.max_ns == 0,
    {
        LatencyHistogram { buckets: Vec::new(), observations: 0, overflow_observations: 0, max_ns: 0 }
    }

    /// The probe histogram: 10 000 empty buckets.
    pub fn new() -> (h: Self)
        ensures
            h.buckets@ == Seq::new(HISTOGRAM_BUCKETS as nat, |i: int| 0u64),
            h.observations == 0,
            h.overflow_observations == 0,
            h.max_ns == 0,
    {
        let mut buckets: Vec<u64> = Vec::new();
        let mut i: usize = 0;
        while i < HISTOGRAM_BUCKETS
            invariant
                i <= HISTOGRAM_BUCKETS,
                buckets@ == Seq::new(i as nat, |j: int| 0u64),
            decreases HISTOGRAM_BUCKETS - i,
        {
            buckets.push(0);
            i = i + 1;
            assert(buckets@ =~= Seq::new(i as nat, |j: int| 0u64));
        }
        LatencyHistogram { buckets, observations: 0, overflow_observations: 0, max_ns: 0 }
    }

    pub fn observe(&mut self, value_ns: u128)
        ensures
            final(self).observations == sat_inc(old(self).observations),
            final(self).max_ns == (if value_ns > old(self).max_ns {
                value_ns
            } else {
                old(self).max_ns
            }),
            bucket_of(value_ns) < old(self).buckets@.len() ==> final(self).buckets@ == old(
                self,
            ).buckets@.update(bucket_of(value_ns), sat_inc(old(self).buckets@[bucket_of(value_ns)]))
                && final(self).overflow_observations == old(self).overflow_observations,
            bucket_of(value_ns) >= old(self).buckets@.len() ==> final(self).buckets@ == old(
                self,
            ).buckets@ && final(self).overflow_observations == sat_inc(
                old(self).overflow_observations,
            ),
    {
        self.observations = self.observations.saturating_add(1);
        if value_ns > self.max_ns {
            self.max_ns = value_ns;
        }
        let bucket = value_ns.saturating_sub(1) / HISTOGRAM_BUCKET_WIDTH_NS;
        if bucket < self.buckets.len() as u128 {
            let b = bucket as usize;
            let c = self.buckets[b].saturating_add(1);
            self.buckets.set(b, c);
        } else {
            self.overflow_observations = self.overflow_observations.saturating_add(1);
        }
    }

    /// The latency at `ppm` parts per million (clamped to one million):
    /// zero without observations, else the upper edge of the first bucket
    /// whose running count reaches the rank, capped by the exact maximum, or
    /// the maximum itself when the rank lies among the overflows.
    pub fn percentile_ns(&self, ppm: u64) -> (r: u128)
        ensures
            r == self.percentile_spec(ppm as nat),
    {
        if self.observations == 0 {
            return 0;
        }
        let p: u128 = if ppm > 1_000_000 {
            1_000_000
        } else {
            ppm as u128
        };
        assert(p * (self.observations as u128) <= 1_000_000 * 0xffff_ffff_ffff_ffff) by (
        nonlinear_arith)
            requires
                p <= 1_000_000,
                self.observations <= 0xffff_ffff_ffff_ffff,
        ;
        let rank: u128 = (p * (self.observations as u128) + 999_999) / 1_000_000;
        let ghost b = self.buckets@;
        let mut cumulative_count: u64 = 0;
        let mut i: usize = 0;
        while i < self.buckets.len()
            invariant
                b == self.buckets@,
                i <= b.len(),
                cumulative_count as nat == cumulative(b, i as int),
                rank as nat == rank_of(ppm as nat, self.observations as nat),
                self.observations != 0,
                scan(b, rank as nat, self.max_ns, 0) == scan(b, rank as nat, self.max_ns, i as int),
            decreases b.len() - i,
        {
            cumulative_count = cumulative_count.saturating_add(self.buckets[i]);
            if cumulative_count as u128 >= rank {
                let edge: u128 = (i as u128 + 1) * HISTOGRAM_BUCKET_WIDTH_NS;
                return if edge < self.max_ns {
                    edge
                } else {
                    self.max_ns
                };
            }
            i = i + 1;
        }
        self.max_ns
    }
}

/// `scan` never reports more than the exact maximum.
pub proof fn lemma_scan_bounded(b: Seq<u64>, rank: nat, max_ns: u128, i: int)
    ensures
        scan(b, rank, max_ns, i) <= max_ns,
    decreases b.len() - i,
{
    if 0 <= i < b.len() && cumulative(b, i + 1) < rank {
        lemma_scan_bounded(b, rank, max_ns, i + 1);
    }
}

/// From bucket `i` on, `scan` reports at least the upper edge of bucket `i`
/// (capped by the maximum).
proof fn lemma_scan_at_least(b: Seq<u64>, rank: nat, max_ns: u128, i: int)
    requires
        0 <= i,
    ensures
        scan(b, rank, max_ns, i) >= (if (i + 1) * 10_000 < max_ns {
            (i + 1) * 10_000
        } else {
            max_ns as int
        }),
    decreases b.len() - i,
{
    if i < b.len() && cumulative(b, i + 1) < rank {
        lemma_scan_at_least(b, rank, max_ns, i + 1);
    }
}

/// A higher rank never reports a lower latency.
pub proof fn lemma_scan_monotone(b: Seq<u64>, r1: nat, r2: nat, max_ns: u128, i: int)
    requires
        r1 <= r2,
        0 <= i,
    ensures
        scan(b, r1, max_ns, i) <= scan(b, r2, max_ns, i),
    decreases b.len() - i,
{
    if i < b.len() {
        if cumulative(b, i + 1) >= r2 {
        } else if cumulative(b, i + 1) >= r1 {
            lemma_scan_at_least(b, r2, max_ns, i + 1);
        } else {
            lemma_scan_monotone(b, r1, r2, max_ns, i + 1);
        }
    }
}

/// Statistics of a DUC probe run. Counters saturate; times are nanoseconds.
#[derive(Debug)]
pub struct DucStats {
    pub dma_writes: u64,
    pub dma_bytes: u64,
    pub frames_written: u64,
    pub max_batch_frames: usize,
    pub fifo_lwm: usize,
    pub fifo_hwm: usize,
    pub fifo_final: usize,
    pub fifo_overflows: u64,
    pub fifo_over_threshold: u64,
    pub fifo_underflows: u64,
    pub fifo_startup_underflow: bool,
    pub safety_checks: u64,
    pub write_time_ns: u128,
    pub write_latencies: LatencyHistogram,
    pub refill_gaps: LatencyHistogram,
    pub refill_service_latencies: LatencyHistogram,
    pub max_loop_gap_ns: u128,
    pub low_water_events: u64,
    pub critical_low_events: u64,
    pub batch_size_changes: u64,
    pub terminated_early: bool,
    pub elapsed_ns: u64,
}

/// FIFO words the FPGA consumed: written words less those still queued.
pub open spec fn consumed_words_spec(frames_written: u64, fifo_final: usize) -> u64 {
    let written: int = if frames_written * 180 > u64::MAX {
        u64::MAX as int
    } else {
        frames_written * 180
    };
    if written >= fifo_final {
        (written - fifo_final) as u64
    } else {
        0
    }
}

/// IQ pairs the FPGA consumed: 240 pairs per 180 words, saturating.
pub open spec fn consumed_pairs_spec(words: u64) -> u64 {
    let scaled: int = if words * 240 > u64::MAX {
        u64::MAX as int
    } else {
        words * 240
    };
    (scaled / 180) as u64
}

impl DucStats {
    /// Everything zero, histograms without buckets.
    pub fn empty() -> (s: Self)
        ensures
            s.dma_writes == 0 && s.dma_bytes == 0 && s.frames_written == 0,
            s.max_batch_frames == 0 && s.fifo_lwm == 0 && s.fifo_hwm == 0 && s.fifo_final == 0,
            s.fifo_overflows == 0 && s.fifo_over_threshold == 0 && s.fifo_underflows == 0,
            !s.fifo_startup_underflow && !s.terminated_early,
            s.safety_checks == 0 && s.write_time_ns == 0 && s.max_loop_gap_ns == 0,
            s.low_water_events == 0 && s.critical_low_events == 0 && s.batch_size_changes == 0,
            s.elapsed_ns == 0,
            s.write_latencies.buckets@.len() == 0 && s.write_latencies.observations == 0,
            s.refill_gaps.buckets@.len() == 0 && s.refill_gaps.observations == 0,
            s.refill_service_latencies.buckets@.len() == 0
                && s.refill_service_latencies.observations == 0,
    {
        DucStats {
            dma_writes: 0,
            dma_bytes: 0,
            frames_written: 0,
            max_batch_frames: 0,
            fifo_lwm: 0,
            fifo_hwm: 0,
            fifo_final: 0,
            fifo_overflows: 0,
            fifo_over_threshold: 0,
            fifo_underflows: 0,
            fifo_startup_underflow: false,
            safety_checks: 0,
            write_time_ns: 0,
            write_latencies: LatencyHistogram::empty(),
            refill_gaps: LatencyHistogram::empty(),
            refill_service_latencies: LatencyHistogram::empty(),
            max_loop_gap_ns: 0,
            low_water_events: 0,
            critical_low_events: 0,
            batch_size_changes: 0,
            terminated_early: false,
            elapsed_ns: 0,
        }
    }

    /// The state a probe run starts from: no low-water mark yet and three
    /// bucketed histograms.
    pub fn for_probe() -> (s: Self)
        ensures
            s.fifo_lwm == usize::MAX,
            s.fifo_hwm == 0 && s.fifo_final == 0 && s.dma_writes == 0 && s.frames_written == 0,
            s.fifo_overflows == 0 && s.fifo_over_threshold == 0 && s.fifo_underflows == 0,
            s.critical_low_events == 0 && s.low_water_events == 0,
            s.refill_service_latencies.observations == 0,
            s.write_latencies.buckets@.len() == HISTOGRAM_BUCKETS,
            s.refill_gaps.buckets@.len() == HISTOGRAM_BUCKETS,
            s.refill_service_latencies.buckets@.len() == HISTOGRAM_BUCKETS,
    {
        let mut s = DucStats::empty();
        s.fifo_lwm = usize::MAX;
        s.write_latencies = LatencyHistogram::new();
        s.refill_gaps = LatencyHistogram::new();
        s.refill_service_latencies = LatencyHistogram::new();
        s
    }

    /// Folds one FIFO monitor reading into the marks and fault counters.
    pub fn observe_fifo(&mut self, snapshot: FifoSnapshot)
        ensures
            final(self).fifo_lwm == (if snapshot.occupied_words < old(self).fifo_lwm {
                snapshot.occupied_words
            } else {
                old(self).fifo_lwm
            }),
            final(self).fifo_hwm == (if snapshot.occupied_words > old(self).fifo_hwm {
                snapshot.occupied_words
            } else {
                old(self).fifo_hwm
            }),
            final(self).fifo_overflows == (if snapshot.overflow {
                sat_inc(old(self).fifo_overflows)
            } else {
                old(self).fifo_overflows
            }),
            final(self).fifo_over_threshold == (if snapshot.over_threshold {
                sat_inc(old(self).fifo_over_threshold)
            } else {
                old(self).fifo_over_threshold
            }),
            final(self).fifo_underflows == (if snapshot.underflow {
                sat_inc(old(self).fifo_underflows)
            } else {
                old(self).fifo_underflows
            }),
            final(self).critical_low_events == old(self).critical_low_events,
            final(self).low_water_events == old(self).low_water_events,
            final(self).batch_size_changes == old(self).batch_size_changes,
            final(self).terminated_early == old(self).terminated_early,
            final(self).fifo_final == old(self).fifo_final,
            final(self).frames_written == old(self).frames_written,
            final(self).refill_service_latencies == old(self).refill_service_latencies,
            final(self).elapsed_ns == old(self).elapsed_ns,
    {
        if snapshot.occupied_words < self.fifo_lwm {
            self.fifo_lwm = snapshot.occupied_words;
        }
        if snapshot.occupied_words > self.fifo_hwm {
            self.fifo_hwm = snapshot.occupied_words;
        }
        if snapshot.overflow {
            self.fifo_overflows = self.fifo_overflows.saturating_add(1);
        }
        if snapshot.over_threshold {
            self.fifo_over_threshold = self.fifo_over_threshold.saturating_add(1);
        }
        if snapshot.underflow {
            self.fifo_underflows = self.fifo_underflows.saturating_add(1);
        }
    }

    /// Accounts one completed DMA write of `frames` frames.
    pub fn record_dma_write(&mut self, frames: usize, bytes: u64, write_time_ns: u128)
        ensures
            final(self).dma_writes == sat_inc(old(self).dma_writes),
            final(self).dma_bytes == sat_add(old(self).dma_bytes, bytes),
            final(self).frames_written == sat_add(old(self).frames_written, frames as u64),
            final(self).max_batch_frames == (if frames > old(self).max_batch_frames {
                frames
            } else {
                old(self).max_batch_frames
            }),
            final(self).write_time_ns == (if old(self).write_time_ns + write_time_ns > u128::MAX {
                u128::MAX
            } else {
                (old(self).write_time_ns + write_time_ns) as u128
            }),
            final(self).write_latencies.observations == sat_inc(
                old(self).write_latencies.observations,
            ),
            final(self).fifo_lwm == old(self).fifo_lwm,
            final(self).fifo_final == old(self).fifo_final,
            final(self).refill_service_latencies == old(self).refill_service_latencies,
    {
        self.dma_writes = self.dma_writes.saturating_add(1);
        self.dma_bytes = self.dma_bytes.saturating_add(bytes);
        self.frames_written = self.frames_written.saturating_add(frames as u64);
        if frames > self.max_batch_frames {
            self.max_batch_frames = frames;
        }
        self.write_time_ns = self.write_time_ns.saturating_add(write_time_ns);
        self.write_latencies.observe(write_time_ns);
    }

    /// Keeps the longest gap between polling loop passes.
    pub fn observe_loop_gap(&mut self, gap_ns: u128)
        ensures
            final(self).max_loop_gap_ns == (if gap_ns > old(self).max_loop_gap_ns {
                gap_ns
            } else {
                old(self).max_loop_gap_ns
            }),
    {
        if gap_ns > self.max_loop_gap_ns {
            self.max_loop_gap_ns = gap_ns;
        }
    }

    pub fn consumed_fifo_words(&self) -> (n: u64)
        ensures
            n == consumed_words_spec(self.frames_written, self.fifo_final),
    {
        let written = match self.frames_written.checked_mul(DUC_FIFO_WORDS_PER_FRAME as u64) {
            Some(v) => v,
            None => u64::MAX,
        };
        written.saturating_sub(self.fifo_final as u64)
    }

    pub fn consumed_iq_pairs(&self) -> (n: u64)
        ensures
            n == consumed_pairs_spec(consumed_words_spec(self.frames_written, self.fifo_final)),
    {
        let scaled = match self.consumed_fifo_words().checked_mul(DUC_IQ_PAIRS_PER_FRAME as u64) {
            Some(v) => v,
            None => u64::MAX,
        };
        scaled / DUC_FIFO_WORDS_PER_FRAME as u64
    }
}

/// Settings of a DUC probe run.
#[derive(Clone, Copy, Debug, PartialEq, Eq, Structural)]
pub struct DucProbeConfig {
    pub duration_ms: u64,
    pub iq_pattern: DucIqPattern,
    pub max_p9999_refill_service_us: u64,
    pub max_p9999_margin_percent: u64,
    pub cpu: Option<usize>,
    pub rt_priority: i32,
}

/// Why a finished probe run fails its acceptance gates.
#[derive(Clone, Copy, Debug, PartialEq, Eq, Structural)]
pub enum DucGateFailure {
    /// The FIFO reported overflow, threshold or underflow while running.
    FifoFault { overflow: u64, threshold: u64, underflow: u64 },
    /// The FIFO fell to the critical low-water boundary.
    CriticalLow { events: u64 },
    /// The FPGA consumed IQ outside 5% of 192 kHz.
    PairRate { consumed_pairs: u64, elapsed_ns: u64 },
    /// The p99.99 refill service time exceeded its gate.
    RefillService { p9999_ns: u128, gate_ns: u128 },
    /// The slowest refill used up the smallest FIFO margin.
    MarginExhausted { max_service_ns: u128, margin_ns: u128 },
    /// The p99.99 refill service used too large a share of the margin.
    MarginPercent { percent: u128, gate: u64 },
}

/// The elapsed time the rate gate divides by: at least one millisecond.
pub open spec fn rate_elapsed_ns(elapsed_ns: u64) -> nat {
    if elapsed_ns < 1_000_000 {
        1_000_000
    } else {
        elapsed_ns as nat
    }
}

/// `pairs / elapsed` lies within 95%..=105% of 192 000 pairs per second.
pub open spec fn pair_rate_ok(pairs: u64, elapsed_ns: u64) -> bool {
    let e = rate_elapsed_ns(elapsed_ns);
    182_400 * e <= pairs * 1_000_000_000 && pairs * 1_000_000_000 <= 201_600 * e
}

/// The p99.99 refill service time's share of a margin, in percent, saturating.
pub open spec fn margin_percent(p9999_ns: u128, margin: u128) -> u128 {
    let scaled: int = if p9999_ns * 100 > u128::MAX {
        u128::MAX as int
    } else {
        p9999_ns * 100
    };
    (scaled / (if margin == 0 {
        1
    } else {
        margin as int
    })) as u128
}

/// The acceptance gates of a probe run, checked in order.
pub open spec fn duc_gate(stats: &DucStats, config: DucProbeConfig) -> Option<DucGateFailure> {
    let pairs = consumed_pairs_spec(consumed_words_spec(stats.frames_written, stats.fifo_final));
    let p9999 = stats.refill_service_latencies.percentile_spec(999_900);
    let gate_ns = (config.max_p9999_refill_service_us * 1000) as u128;
    let margin = margin_ns(stats.fifo_lwm as nat) as u128;
    if stats.fifo_overflows != 0 || stats.fifo_over_threshold != 0 || stats.fifo_underflows != 0 {
        Some(
            DucGateFailure::FifoFault {
                overflow: stats.fifo_overflows,
                threshold: stats.fifo_over_threshold,
                underflow: stats.fifo_underflows,
            },
        )
    } else if stats.critical_low_events != 0 {
        Some(DucGateFailure::CriticalLow { events: stats.critical_low_events })
    } else if !pair_rate_ok(pairs, stats.elapsed_ns) {
        Some(DucGateFailure::PairRate { consumed_pairs: pairs, elapsed_ns: stats.elapsed_ns })
    } else if p9999 > gate_ns {
        Some(DucGateFailure::RefillService { p9999_ns: p9999, gate_ns })
    } else if stats.refill_service_latencies.max_ns >= margin {
        Some(
            DucGateFailure::MarginExhausted {
                max_service_ns: stats.refill_service_latencies.max_ns,
                margin_ns: margin,
            },
        )
    } else if margin_percent(p9999, margin) > config.max_p9999_margin_percent {
        Some(
            DucGateFailure::MarginPercent {
                percent: margin_percent(p9999, margin),
                gate: config.max_p9999_margin_percent,
            },
        )
    } else {
        None
    }
}

/// Checks a finished probe run against its acceptance gates.
pub fn validate_duc_stats(stats: &DucStats, config: DucProbeConfig) -> (r: Result<
    (),
    DucGateFailure,
>)
    ensures
        r is Ok <==> duc_gate(stats, config) is None,
        r matches Err(f) ==> duc_gate(stats, config) == Some(f),
{
    if stats.fifo_overflows != 0 || stats.fifo_over_threshold != 0 || stats.fifo_underflows != 0 {
        return Err(
            DucGateFailure::FifoFault {
                overflow: stats.fifo_overflows,
                threshold: stats.fifo_over_threshold,
                underflow: stats.fifo_underflows,
            },
        );
    }
    if stats.critical_low_events != 0 {
        return Err(DucGateFailure::CriticalLow { events: stats.critical_low_events });
    }
    let pairs = stats.consumed_iq_pairs();
    let elapsed: u128 = if stats.elapsed_ns < 1_000_000 {
        1_000_000
    } else {
        stats.elapsed_ns as u128
    };
    let scaled: u128 = pairs as u128 * 1_000_000_000;
    if !(182_400 * elapsed <= scaled && scaled <= 201_600 * elapsed) {
        return Err(DucGateFailure::PairRate { consumed_pairs: pairs, elapsed_ns: stats.elapsed_ns });
    }
    let p9999 = stats.refill_service_latencies.percentile_ns(999_900);
    let gate_ns: u128 = config.max_p9999_refill_service_us as u128 * 1000;
    if p9999 > gate_ns {
        return Err(DucGateFailure::RefillService { p9999_ns: p9999, gate_ns });
    }
    let margin = fifo_margin_ns(stats.fifo_lwm);
    if stats.refill_service_latencies.max_ns >= margin {
        return Err(
            DucGateFailure::MarginExhausted {
                max_service_ns: stats.refill_service_latencies.max_ns,
                margin_ns: margin,
            },
        );
    }
    let scaled_service = match p9999.checked_mul(100) {
        Some(v) => v,
        None => u128::MAX,
    };
    let divisor = if margin == 0 {
        1
    } else {
        margin
    };
    let percent = scaled_service / divisor;
    if percent > config.max_p9999_margin_percent as u128 {
        return Err(
            DucGateFailure::MarginPercent { percent, gate: config.max_p9999_margin_percent },
        );
    }
    Ok(())
}

/// What the probe loop does after one FIFO reading.
#[derive(Clone, Copy, Debug, PartialEq, Eq, Structural)]
pub enum DucPollAction {
    /// A FIFO fault or a critical level: stop the run.
    Terminate,
    /// Check the RF safety registers, then write this many frames.
    Refill(usize),
    /// Nothing to write: sleep one poll interval.
    Wait,
}

/// Edge-detection state of the probe loop.
#[derive(Clone, Copy, Debug, PartialEq, Eq, Structural)]
pub struct DucLoopState {
    pub low_water_active: bool,
    pub critical_low_active: bool,
    pub previous_batch_frames: usize,
}

impl DucLoopState {
    /// After the prefill: no level active, last batch the prefill remainder.
    pub fn new() -> (s: Self)
        ensures
            !s.low_water_active && !s.critical_low_active,
            s.previous_batch_frames == DUC_PREFILL_FRAMES % DUC_MAX_DMA_BATCH_FRAMES,
    {
        DucLoopState {
            low_water_active: false,
            critical_low_active: false,
            previous_batch_frames: DUC_PREFILL_FRAMES % DUC_MAX_DMA_BATCH_FRAMES,
        }
    }
}

/// The decision of one probe-loop pass: fold the reading into the stats,
/// count low-water and critical-level entries (each once per episode), stop
/// on a terminal condition, else refill toward the target when at or below
/// the low-water level.
pub fn duc_poll_step(
    state: &mut DucLoopState,
    stats: &mut DucStats,
    fifo: FifoSnapshot,
    fifo_depth_words: usize,
) -> (action: DucPollAction)
    ensures
        ({
            let frames = fifo.occupied_words / 180;
            let low = frames <= DUC_REFILL_LOW_FRAMES;
            let critical = frames <= 2;
            let refill = refill_frames(
                fifo.occupied_words as nat,
                fifo_depth_words as nat,
                DUC_REFILL_TARGET_FRAMES as nat,
            );
            &&& final(state).low_water_active == low
            &&& final(state).critical_low_active == critical
            &&& final(stats).low_water_events == (if low && !old(state).low_water_active {
                sat_inc(old(stats).low_water_events)
            } else {
                old(stats).low_water_events
            })
            &&& final(stats).critical_low_events == (if critical && !old(
                state,
            ).critical_low_active {
                sat_inc(old(stats).critical_low_events)
            } else {
                old(stats).critical_low_events
            })
            &&& final(stats).fifo_lwm == (if fifo.occupied_words < old(stats).fifo_lwm {
                fifo.occupied_words
            } else {
                old(stats).fifo_lwm
            })
            &&& final(stats).fifo_overflows == (if fifo.overflow {
                sat_inc(old(stats).fifo_overflows)
            } else {
                old(stats).fifo_overflows
            })
            &&& final(stats).fifo_over_threshold == (if fifo.over_threshold {
                sat_inc(old(stats).fifo_over_threshold)
            } else {
                old(stats).fifo_over_threshold
            })
            &&& final(stats).fifo_underflows == (if fifo.underflow {
                sat_inc(old(stats).fifo_underflows)
            } else {
                old(stats).fifo_underflows
            })
            &&& (action == DucPollAction::Terminate) == is_terminal_fifo_condition_spec(
                fifo,
                frames as nat,
            )
            &&& final(stats).terminated_early == (old(stats).terminated_early
                || action == DucPollAction::Terminate)
            &&& (action matches DucPollAction::Refill(n) ==> n as nat == refill && n != 0 && low)
            &&& (action == DucPollAction::Wait ==> !is_terminal_fifo_condition_spec(
                fifo,
                frames as nat,
            ) && (!low || refill == 0))
            &&& (action matches DucPollAction::Refill(n) ==> final(state).previous_batch_frames == n
                && final(stats).batch_size_changes == (if n != old(state).previous_batch_frames {
                sat_inc(old(stats).batch_size_changes)
            } else {
                old(stats).batch_size_changes
            }))
            &&& (!(action is Refill) ==> final(state).previous_batch_frames == old(
                state,
            ).previous_batch_frames && final(stats).batch_size_changes == old(
                stats,
            ).batch_size_changes)
        }),
{
    stats.observe_fifo(fifo);
    let occupied_frames = fifo.occupied_words / DUC_FIFO_WORDS_PER_FRAME;
    let low_now = occupied_frames <= DUC_REFILL_LOW_FRAMES;
    if low_now && !state.low_water_active {
        stats.low_water_events = stats.low_water_events.saturating_add(1);
    }
    state.low_water_active = low_now;
    let critical_now = occupied_frames <= 2;
    if critical_now && !state.critical_low_active {
        stats.critical_low_events = stats.critical_low_events.saturating_add(1);
    }
    state.critical_low_active = critical_now;
    if is_terminal_fifo_condition(fifo, occupied_frames) {
        stats.terminated_early = true;
        return DucPollAction::Terminate;
    }
    if low_now {
        let frames = refill_batch_frames(
            fifo.occupied_words,
            fifo_depth_words,
            DUC_REFILL_TARGET_FRAMES,
        );
        if frames != 0 {
            if frames != state.previous_batch_frames {
                stats.batch_size_changes = stats.batch_size_changes.saturating_add(1);
                state.previous_batch_frames = frames;
            }
            return DucPollAction::Refill(frames);
        }
    }
    DucPollAction::Wait
}

/// A FIFO fault, or two frames or fewer left.
pub open spec fn is_terminal_fifo_condition_spec(snapshot: FifoSnapshot, occupied_frames: nat) -> bool {
    snapshot.overflow || snapshot.over_threshold || snapshot.underflow || occupied_frames <= 2
}

/// The two TX configuration writes that pulse the DUC mux reset: the
/// current value with the stream and the reset cleared, first with the
/// reset set, then without it.
pub fn duc_mux_reset_pulse(tx_config: u32) -> (r: (u32, u32))
    ensures
        r.1 == tx_config & !(DUC_STREAM_ENABLE_BIT | DUC_MUX_RESET_BIT),
        r.0 == r.1 | DUC_MUX_RESET_BIT,
{
    let base = tx_config & !(DUC_STREAM_ENABLE_BIT | DUC_MUX_RESET_BIT);
    (base | DUC_MUX_RESET_BIT, base)
}

/// A DMA batch is one to eleven frames.
pub fn valid_dma_batch(frames: usize) -> (b: bool)
    ensures
        b == (1 <= frames <= DUC_MAX_DMA_BATCH_FRAMES),
{
    frames != 0 && frames <= DUC_MAX_DMA_BATCH_FRAMES
}

/// Frames of the next prefill write: at most one DMA batch.
pub fn next_prefill_batch(remaining: usize) -> (n: usize)
    ensures
        n == (if remaining < DUC_MAX_DMA_BATCH_FRAMES {
            remaining
        } else {
            DUC_MAX_DMA_BATCH_FRAMES
        }),
{
    if remaining < DUC_MAX_DMA_BATCH_FRAMES {
        remaining
    } else {
        DUC_MAX_DMA_BATCH_FRAMES
    }
}

/// FIFO words a prefill must leave queued: the prefill less two frames.
pub const MINIMUM_PREFILL_WORDS: usize = 3_240;

/// A prefill was accepted when at least the prefill less two frames is queued.
pub fn prefill_accepted(snapshot: FifoSnapshot) -> (b: bool)
    ensures
        b == (snapshot.occupied_words >= (DUC_PREFILL_FRAMES - 2) * DUC_FIFO_WORDS_PER_FRAME),
{
    snapshot.occupied_words >= MINIMUM_PREFILL_WORDS
}

/// Why a guarded-carrier service cycle stops keyed RF.
#[derive(Clone, Copy, Debug, PartialEq, Eq, Structural)]
pub enum GuardedFifoFault {
    /// The FIFO reported a fault before the refill.
    Fault(FifoSnapshot),
    /// The FIFO held two frames or fewer (its word count).
    Critical(usize),
    /// The FIFO reported a fault after the refill.
    FaultAfterRefill(FifoSnapshot),
}

/// Frames one guarded-carrier service cycle writes for the reading taken
/// before it: any fault or a critical level is fatal; at or below the
/// low-water level it refills toward the target; otherwise nothing.
pub fn guarded_refill_frames(before: FifoSnapshot, fifo_depth_words: usize) -> (r: Result<
    usize,
    GuardedFifoFault,
>)
    ensures
        (before.overflow || before.over_threshold || before.underflow) ==> r == Err::<
            usize,
            GuardedFifoFault,
        >(GuardedFifoFault::Fault(before)),
        !(before.overflow || before.over_threshold || before.underflow) && before.occupied_words
            / 180 <= 2 ==> r == Err::<usize, GuardedFifoFault>(
            GuardedFifoFault::Critical(before.occupied_words),
        ),
        !(before.overflow || before.over_threshold || before.underflow) && before.occupied_words
            / 180 > 2 ==> r == Ok::<usize, GuardedFifoFault>(
            if before.occupied_words / 180 <= DUC_REFILL_LOW_FRAMES {
                refill_frames(
                    before.occupied_words as nat,
                    fifo_depth_words as nat,
                    DUC_REFILL_TARGET_FRAMES as nat,
                ) as usize
            } else {
                0
            },
        ),
{
    if before.overflow || before.over_threshold || before.underflow {
        return Err(GuardedFifoFault::Fault(before));
    }
    let occupied_frames = before.occupied_words / DUC_FIFO_WORDS_PER_FRAME;
    if occupied_frames <= 2 {
        return Err(GuardedFifoFault::Critical(before.occupied_words));
    }
    if occupied_frames <= DUC_REFILL_LOW_FRAMES {
        Ok(refill_batch_frames(before.occupied_words, fifo_depth_words, DUC_REFILL_TARGET_FRAMES))
    } else {
        Ok(0)
    }
}

/// The reading after a guarded-carrier refill must show no fault.
pub fn check_guarded_after(after: FifoSnapshot) -> (r: Result<FifoSnapshot, GuardedFifoFault>)
    ensures
        r == (if after.overflow || after.over_threshold || after.underflow {
            Err::<FifoSnapshot, GuardedFifoFault>(GuardedFifoFault::FaultAfterRefill(after))
        } else {
            Ok(after)
        }),
{
    if after.overflow || after.over_threshold || after.underflow {
        Err(GuardedFifoFault::FaultAfterRefill(after))
    } else {
        Ok(after)
    }
}

/// A numeric probe setting.
#[derive(Clone, Copy, Debug, PartialEq, Eq, Structural)]
pub enum DucSetting {
    DurationMs,
    MaxP9999RefillServiceUs,
    MaxP9999MarginPercent,
    RtPriority,
}

/// Why probe settings are refused.
#[derive(Clone, Copy, Debug, PartialEq, Eq, Structural)]
pub enum DucConfigError {
    /// The setting is not an unsigned integer.
    NotUnsigned(DucSetting),
    /// The duration lies outside 500..=86 400 000 ms.
    Duration(u64),
    /// The p99.99 refill service gate lies outside 100..=100 000 us.
    RefillService(u64),
    /// The p99.99 margin gate lies outside 10..=95 %.
    MarginPercent(u64),
    /// The CPU setting is neither a number, `auto` nor `none`.
    CpuNotNumber,
    /// The CPU is not in the process's affinity mask.
    CpuUnavailable(usize),
    /// The real-time priority exceeds 80.
    RtPriority(u64),
    /// The IQ pattern is neither `zero` nor `changing`.
    Pattern,
}

pub open spec fn opt_view(value: Option<&str>) -> Option<Seq<char>> {
    match value {
        Some(s) => Some(s@),
        None => None,
    }
}

/// A numeric setting: its default when absent, else `str::parse::<u64>`.
pub open spec fn setting_u64(value: Option<Seq<char>>, default: u64) -> Option<nat> {
    match value {
        None => Some(default as nat),
        Some(v) => crate::text::parse_unsigned(v, u64::MAX as nat),
    }
}

/// The CPU the probe pins to: absent or `none` for none, `auto` for the
/// last available CPU, else an available CPU number.
pub open spec fn cpu_choice(value: Option<Seq<char>>, allowed: Seq<usize>) -> Result<
    Option<usize>,
    DucConfigError,
> {
    match value {
        None => Ok(None),
        Some(v) => if crate::text::lower(v) == "none"@ {
            Ok(None)
        } else if crate::text::lower(v) == "auto"@ {
            Ok(
                if allowed.len() > 0 {
                    Some(allowed.last())
                } else {
                    None
                },
            )
        } else {
            match crate::text::parse_unsigned(v, usize::MAX as nat) {
                None => Err(DucConfigError::CpuNotNumber),
                Some(c) => if allowed.contains(c as usize) {
                    Ok(Some(c as usize))
                } else {
                    Err(DucConfigError::CpuUnavailable(c as usize))
                },
            }
        },
    }
}

/// The IQ pattern setting: zero when absent.
pub open spec fn pattern_choice(value: Option<Seq<char>>) -> Option<DucIqPattern> {
    match value {
        None => Some(DucIqPattern::Zero),
        Some(v) => if crate::text::lower(v) == "zero"@ {
            Some(DucIqPattern::Zero)
        } else if crate::text::lower(v) == "changing"@ {
            Some(DucIqPattern::Changing)
        } else {
            None
        },
    }
}

/// Probe settings checked in order: duration, service gate, margin gate,
/// CPU, real-time priority, IQ pattern.
pub open spec fn probe_config_spec(
    duration: Option<Seq<char>>,
    service: Option<Seq<char>>,
    margin: Option<Seq<char>>,
    cpu: Option<Seq<char>>,
    allowed: Seq<usize>,
    rt_priority: Option<Seq<char>>,
    pattern: Option<Seq<char>>,
) -> Result<DucProbeConfig, DucConfigError> {
    match setting_u64(duration, DEFAULT_PROBE_DURATION_MS) {
        None => Err(DucConfigError::NotUnsigned(DucSetting::DurationMs)),
        Some(d) => if !(MIN_PROBE_DURATION_MS <= d <= MAX_PROBE_DURATION_MS) {
            Err(DucConfigError::Duration(d as u64))
        } else {
            match setting_u64(service, DEFAULT_MAX_P9999_REFILL_SERVICE_US) {
                None => Err(DucConfigError::NotUnsigned(DucSetting::MaxP9999RefillServiceUs)),
                Some(sv) => if !(MIN_MAX_P9999_REFILL_SERVICE_US <= sv
                    <= MAX_MAX_P9999_REFILL_SERVICE_US) {
                    Err(DucConfigError::RefillService(sv as u64))
                } else {
                    match setting_u64(margin, DEFAULT_MAX_P9999_MARGIN_PERCENT) {
                        None => Err(DucConfigError::NotUnsigned(DucSetting::MaxP9999MarginPercent)),
                        Some(m) => if !(MIN_MAX_P9999_MARGIN_PERCENT <= m
                            <= MAX_MAX_P9999_MARGIN_PERCENT) {
                            Err(DucConfigError::MarginPercent(m as u64))
                        } else {
                            match cpu_choice(cpu, allowed) {
                                Err(e) => Err(e),
                                Ok(c) => match setting_u64(rt_priority, 0) {
                                    None => Err(DucConfigError::NotUnsigned(DucSetting::RtPriority)),
                                    Some(rt) => if rt > MAX_RT_PRIORITY {
                                        Err(DucConfigError::RtPriority(rt as u64))
                                    } else {
                                        match pattern_choice(pattern) {
                                            None => Err(DucConfigError::Pattern),
                                            Some(p) => Ok(
                                                DucProbeConfig {
                                                    duration_ms: d as u64,
                                                    iq_pattern: p,
                                                    max_p9999_refill_service_us: sv as u64,
                                                    max_p9999_margin_percent: m as u64,
                                                    cpu: c,
                                                    rt_priority: rt as i32,
                                                },
                                            ),
                                        }
                                    },
                                },
                            }
                        },
                    }
                },
            }
        },
    }
}

pub(crate) fn setting_u64_exec(value: Option<&str>, default: u64) -> (r: Option<u64>)
    ensures
        r matches Some(v) ==> setting_u64(opt_view(value), default) == Some(v as nat),
        r is None ==> setting_u64(opt_view(value), default) is None,
{
    match value {
        None => Some(default),
        Some(s) => crate::text::parse_unsigned_exact(&chars_of(s), u64::MAX),
    }
}

fn contains_usize(values: &Vec<usize>, x: usize) -> (b: bool)
    ensures
        b == values@.contains(x),
{
    let mut i: usize = 0;
    while i < values.len()
        invariant
            i <= values.len(),
            forall|j: int| 0 <= j < i ==> values@[j] != x,
        decreases values.len() - i,
    {
        if values[i] == x {
            assert(values@[i as int] == x);
            return true;
        }
        i = i + 1;
    }
    false
}

fn cpu_choice_exec(value: Option<&str>, allowed: &Vec<usize>) -> (r: Result<
    Option<usize>,
    DucConfigError,
>)
    ensures
        r == cpu_choice(opt_view(value), allowed@),
{
    match value {
        None => Ok(None),
        Some(s) => {
            let v = chars_of(s);
            let l = lower_chars(&v);
            if eq_str(&l, "none") {
                Ok(None)
            } else if eq_str(&l, "auto") {
                if allowed.len() > 0 {
                    Ok(Some(allowed[allowed.len() - 1]))
                } else {
                    Ok(None)
                }
            } else {
                match crate::text::parse_unsigned_exact(&v, usize::MAX as u64) {
                    None => Err(DucConfigError::CpuNotNumber),
                    Some(c64) => {
                        let c = c64 as usize;
                        if contains_usize(allowed, c) {
                            return Ok(Some(c));
                        }
                        Err(DucConfigError::CpuUnavailable(c))
                    },
                }
            }
        },
    }
}

impl DucProbeConfig {
    /// Probe settings from their text (absent when unset) and the CPUs the
    /// process may run on.
    pub fn from_settings(
        duration: Option<&str>,
        service: Option<&str>,
        margin: Option<&str>,
        cpu: Option<&str>,
        allowed_cpus: &Vec<usize>,
        rt_priority: Option<&str>,
        pattern: Option<&str>,
    ) -> (r: Result<Self, DucConfigError>)
        ensures
            r == probe_config_spec(
                opt_view(duration),
                opt_view(service),
                opt_view(margin),
                opt_view(cpu),
                allowed_cpus@,
                opt_view(rt_priority),
                opt_view(pattern),
            ),
    {
        let d = match setting_u64_exec(duration, DEFAULT_PROBE_DURATION_MS) {
            None => return Err(DucConfigError::NotUnsigned(DucSetting::DurationMs)),
            Some(d) => d,
        };
        if !(MIN_PROBE_DURATION_MS <= d && d <= MAX_PROBE_DURATION_MS) {
            return Err(DucConfigError::Duration(d));
        }
        let sv = match setting_u64_exec(service, DEFAULT_MAX_P9999_REFILL_SERVICE_US) {
            None => return Err(DucConfigError::NotUnsigned(DucSetting::MaxP9999RefillServiceUs)),
            Some(v) => v,
        };
        if !(MIN_MAX_P9999_REFILL_SERVICE_US <= sv && sv <= MAX_MAX_P9999_REFILL_SERVICE_US) {
            return Err(DucConfigError::RefillService(sv));
        }
        let m = match setting_u64_exec(margin, DEFAULT_MAX_P9999_MARGIN_PERCENT) {
            None => return Err(DucConfigError::NotUnsigned(DucSetting::MaxP9999MarginPercent)),
            Some(v) => v,
        };
        if !(MIN_MAX_P9999_MARGIN_PERCENT <= m && m <= MAX_MAX_P9999_MARGIN_PERCENT) {
            return Err(DucConfigError::MarginPercent(m));
        }
        let c = match cpu_choice_exec(cpu, allowed_cpus) {
            Err(e) => return Err(e),
            Ok(c) => c,
        };
        let rt = match setting_u64_exec(rt_priority, 0) {
            None => return Err(DucConfigError::NotUnsigned(DucSetting::RtPriority)),
            Some(v) => v,
        };
        if rt > MAX_RT_PRIORITY {
            return Err(DucConfigError::RtPriority(rt));
        }
        let p = match pattern {
            None => DucIqPattern::Zero,
            Some(s) => match DucIqPattern::from_setting(s) {
                Some(p) => p,
                None => return Err(DucConfigError::Pattern),
            },
        };
        Ok(
            DucProbeConfig {
                duration_ms: d,
                iq_pattern: p,
                max_p9999_refill_service_us: sv,
                max_p9999_margin_percent: m,
                cpu: c,
                rt_priority: rt as i32,
            },
        )
    }
}

} // verus!
