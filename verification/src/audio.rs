//! Rules of the codec audio probe: microphone capture from its FIFO and a
//! muted speaker silence write, with the FIFO monitor decoding, the capture
//! statistics and the checks that decide whether the probe passed.
use vstd::prelude::*;
use crate::codec::s16_le;
use crate::duc::{opt_view, setting_u64, setting_u64_exec};
use crate::text::{dec, push_dec, push_str};
use crate::xdma::XdmaError;

verus! {

pub const DEFAULT_CAPTURE_DURATION_MS: u64 = 2_000;
pub const MIN_CAPTURE_DURATION_MS: u64 = 250;
pub const MAX_CAPTURE_DURATION_MS: u64 = 10_000;

pub const AUDIO_DMA_AXI_OFFSET: u64 = 0x40000;
pub const FIFO_RESET_REGISTER: u64 = 0x7000;
pub const FIFO_MONITOR_MIC_REGISTER: u64 = 0x9008;
pub const FIFO_MONITOR_SPEAKER_REGISTER: u64 = 0x900c;
pub const MIC_FIFO_RESET_BIT: u32 = 1;
pub const SPEAKER_FIFO_RESET_BIT: u32 = 2;
pub const SPEAKER_MUTE_BIT: u32 = 16;
pub const NETWORK_BYTE_ORDER_BIT: u32 = 0x0400_0000;

pub const MIC_SAMPLE_RATE_HZ: u64 = 48_000;
pub const MIC_DMA_BYTES: usize = 128;
pub const MIC_SAMPLES_PER_DMA: usize = 64;
pub const MIC_FIFO_WORDS_PER_DMA: usize = 16;
pub const MIC_FIFO_GUARD_WORDS: usize = 16;
pub const SPEAKER_SAMPLE_RATE_HZ: u64 = 48_000;
pub const SPEAKER_DMA_BYTES: usize = 4096;
pub const SPEAKER_FRAME_BYTES: usize = 256;
pub const SPEAKER_SAMPLE_PAIRS_PER_FRAME: usize = 64;
pub const DMA_ALIGNMENT: usize = 4096;

/// A reading of a codec FIFO monitor register.
#[derive(Clone, Copy, Debug, Default, PartialEq, Eq, Structural)]
pub struct FifoSnapshot {
    pub depth_words: usize,
    pub overflow: bool,
    pub over_threshold: bool,
    pub underflow: bool,
}

impl FifoSnapshot {
    /// Depth in the low 16 bits; overflow, over-threshold and underflow in
    /// bits 31, 30 and 29.
    pub fn decode(value: u32) -> (s: FifoSnapshot)
        ensures
            s.depth_words == (value & 0xffff) as usize,
            s.overflow == (value & 0x8000_0000 != 0),
            s.over_threshold == (value & 0x4000_0000 != 0),
            s.underflow == (value & 0x2000_0000 != 0),
    {
        FifoSnapshot {
            depth_words: (value & 0xffff) as usize,
            overflow: (value & 0x8000_0000) != 0,
            over_threshold: (value & 0x4000_0000) != 0,
            underflow: (value & 0x2000_0000) != 0,
        }
    }
}

/// Counts of one flag, saturating.
pub open spec fn add_flag(count: u64, flag: bool) -> u64 {
    if !flag {
        count
    } else if count == u64::MAX {
        count
    } else {
        (count + 1) as u64
    }
}

fn add_flag_exec(count: u64, flag: bool) -> (r: u64)
    ensures
        r == add_flag(count, flag),
{
    if flag {
        count.saturating_add(1)
    } else {
        count
    }
}

/// Integer statistics of a microphone capture; counters saturate.
#[derive(Clone, Copy, Debug, PartialEq, Eq, Structural)]
pub struct MicStats {
    pub dma_reads: u64,
    pub dma_bytes: u64,
    pub samples: u64,
    pub fifo_hwm: usize,
    pub fifo_overflows: u64,
    pub fifo_over_threshold: u64,
    pub fifo_underflows: u64,
    pub fifo_startup_underflow: bool,
}

impl MicStats {
    pub fn new() -> (s: MicStats)
        ensures
            s.dma_reads == 0 && s.dma_bytes == 0 && s.samples == 0 && s.fifo_hwm == 0,
            s.fifo_overflows == 0 && s.fifo_over_threshold == 0 && s.fifo_underflows == 0,
            !s.fifo_startup_underflow,
    {
        MicStats {
            dma_reads: 0,
            dma_bytes: 0,
            samples: 0,
            fifo_hwm: 0,
            fifo_overflows: 0,
            fifo_over_threshold: 0,
            fifo_underflows: 0,
            fifo_startup_underflow: false,
        }
    }

    /// The first reading after reset: it sets the high-water mark and
    /// records a startup underflow rather than counting it.
    pub fn observe_startup(&mut self, snapshot: FifoSnapshot)
        ensures
            final(self).fifo_hwm == snapshot.depth_words,
            final(self).fifo_overflows == add_flag(old(self).fifo_overflows, snapshot.overflow),
            final(self).fifo_over_threshold == add_flag(old(self).fifo_over_threshold, snapshot.over_threshold),
            final(self).fifo_startup_underflow == snapshot.underflow,
            final(self).fifo_underflows == old(self).fifo_underflows,
            final(self).dma_reads == old(self).dma_reads && final(self).dma_bytes == old(self).dma_bytes,
            final(self).samples == old(self).samples,
    {
        self.fifo_hwm = snapshot.depth_words;
        self.fifo_overflows = add_flag_exec(self.fifo_overflows, snapshot.overflow);
        self.fifo_over_threshold = add_flag_exec(self.fifo_over_threshold, snapshot.over_threshold);
        self.fifo_startup_underflow = snapshot.underflow;
    }

    /// A reading during the capture.
    pub fn observe_fifo(&mut self, snapshot: FifoSnapshot)
        ensures
            final(self).fifo_hwm == (if snapshot.depth_words > old(self).fifo_hwm {
                snapshot.depth_words
            } else {
                old(self).fifo_hwm
            }),
            final(self).fifo_overflows == add_flag(old(self).fifo_overflows, snapshot.overflow),
            final(self).fifo_over_threshold == add_flag(old(self).fifo_over_threshold, snapshot.over_threshold),
            final(self).fifo_underflows == add_flag(old(self).fifo_underflows, snapshot.underflow),
            final(self).fifo_startup_underflow == old(self).fifo_startup_underflow,
            final(self).dma_reads == old(self).dma_reads && final(self).dma_bytes == old(self).dma_bytes,
            final(self).samples == old(self).samples,
    {
        if snapshot.depth_words > self.fifo_hwm {
            self.fifo_hwm = snapshot.depth_words;
        }
        self.fifo_overflows = add_flag_exec(self.fifo_overflows, snapshot.overflow);
        self.fifo_over_threshold = add_flag_exec(self.fifo_over_threshold, snapshot.over_threshold);
        self.fifo_underflows = add_flag_exec(self.fifo_underflows, snapshot.underflow);
    }

    /// A completed DMA read of `bytes` bytes holding `samples` samples.
    pub fn record_read(&mut self, bytes: usize, samples: usize)
        ensures
            final(self).dma_reads == add_flag(old(self).dma_reads, true),
            final(self).dma_bytes == (if old(self).dma_bytes + bytes > u64::MAX {
                u64::MAX as int
            } else {
                old(self).dma_bytes + bytes
            }),
            final(self).samples == (if old(self).samples + samples > u64::MAX {
                u64::MAX as int
            } else {
                old(self).samples + samples
            }),
            final(self).fifo_hwm == old(self).fifo_hwm,
            final(self).fifo_overflows == old(self).fifo_overflows,
            final(self).fifo_over_threshold == old(self).fifo_over_threshold,
            final(self).fifo_underflows == old(self).fifo_underflows,
            final(self).fifo_startup_underflow == old(self).fifo_startup_underflow,
    {
        self.dma_reads = self.dma_reads.saturating_add(1);
        self.dma_bytes = self.dma_bytes.saturating_add(bytes as u64);
        self.samples = self.samples.saturating_add(samples as u64);
    }
}

/// A microphone DMA read is issued once the FIFO holds a read and its guard.
pub fn mic_read_ready(snapshot: FifoSnapshot) -> (b: bool)
    ensures
        b == (snapshot.depth_words >= MIC_FIFO_WORDS_PER_DMA + MIC_FIFO_GUARD_WORDS),
{
    snapshot.depth_words >= MIC_FIFO_WORDS_PER_DMA + MIC_FIFO_GUARD_WORDS
}

/// Big-endian signed 16-bit value of two bytes.
pub open spec fn s16_be(hi: u8, lo: u8) -> int {
    s16_le(lo, hi)
}

/// The signed microphone samples of a read, in network (big-endian) or
/// local (little-endian) byte order; an odd last byte is ignored.
pub fn mic_samples(bytes: &[u8], network_byte_order: bool) -> (out: Vec<i16>)
    ensures
        out@.len() == bytes@.len() / 2,
        forall|i: int| 0 <= i < out@.len() ==> out@[i] as int == (if network_byte_order {
            s16_be(#[trigger] bytes@[2 * i], bytes@[2 * i + 1])
        } else {
            s16_le(bytes@[2 * i], bytes@[2 * i + 1])
        }),
{
    let n = bytes.len() / 2;
    let mut out: Vec<i16> = Vec::new();
    let mut i: usize = 0;
    while i < n
        invariant
            i <= n,
            n == bytes@.len() / 2,
            out@.len() == i,
            forall|k: int| 0 <= k < i ==> out@[k] as int == (if network_byte_order {
                s16_be(#[trigger] bytes@[2 * k], bytes@[2 * k + 1])
            } else {
                s16_le(bytes@[2 * k], bytes@[2 * k + 1])
            }),
        decreases n - i,
    {
        proof {
            assert(2 * i + 1 < bytes@.len()) by (nonlinear_arith)
                requires
                    i < n,
                    n == bytes@.len() / 2,
            {
            }
            assert(bytes@.len() == bytes.len());
        }
        let a = bytes[2 * i];
        let b = bytes[2 * i + 1];
        let (lo, hi) = if network_byte_order {
            (b, a)
        } else {
            (a, b)
        };
        let u: u32 = lo as u32 + 256 * (hi as u32);
        let v: i16 = if u >= 32768 {
            (u as i32 - 65536) as i16
        } else {
            u as i16
        };
        out.push(v);
        i = i + 1;
    }
    out
}

/// A capture that read nothing fails the probe.
pub fn check_mic_capture(stats: &MicStats) -> (r: Result<(), XdmaError>)
    ensures
        r is Ok <==> stats.samples > 0,
        r matches Err(XdmaError::Incompatible(m)) ==> m@ == "direct XDMA microphone capture completed without samples"@,
        r is Err ==> r matches Err(XdmaError::Incompatible(_)),
{
    if stats.samples == 0 {
        Err(XdmaError::Incompatible(String::from_str("direct XDMA microphone capture completed without samples")))
    } else {
        Ok(())
    }
}

/// The speaker must stay muted while silence is written.
pub fn check_speaker_muted(rf_gpio: u32) -> (r: Result<(), XdmaError>)
    ensures
        r is Ok <==> rf_gpio & SPEAKER_MUTE_BIT != 0,
        r matches Err(XdmaError::Incompatible(m)) ==> m@ == "hardware speaker mute did not remain asserted"@,
        r is Err ==> r matches Err(XdmaError::Incompatible(_)),
{
    if rf_gpio & SPEAKER_MUTE_BIT == 0 {
        Err(XdmaError::Incompatible(String::from_str("hardware speaker mute did not remain asserted")))
    } else {
        Ok(())
    }
}

pub open spec fn occupancy_rise_text(before: nat, after: nat) -> Seq<char> {
    "speaker FIFO occupancy increased unexpectedly after silence write: "@ + dec(before) + " -> "@
        + dec(after)
}

/// After the silence write the speaker FIFO must hold data, and it must
/// not grow while it settles.
pub fn check_speaker_fifo(after_write: FifoSnapshot, after_settle: FifoSnapshot) -> (r: Result<(), XdmaError>)
    ensures
        after_write.depth_words == 0 ==> (r matches Err(XdmaError::Incompatible(m)) && m@
            == "speaker DMA write completed but FIFO occupancy did not increase"@),
        after_write.depth_words != 0 && after_settle.depth_words > after_write.depth_words ==> (
        r matches Err(XdmaError::Incompatible(m)) && m@ == occupancy_rise_text(
            after_write.depth_words as nat,
            after_settle.depth_words as nat,
        )),
        after_write.depth_words != 0 && after_settle.depth_words <= after_write.depth_words ==> r is Ok,
{
    if after_write.depth_words == 0 {
        return Err(XdmaError::Incompatible(String::from_str("speaker DMA write completed but FIFO occupancy did not increase")));
    }
    if after_settle.depth_words > after_write.depth_words {
        let mut m = String::new();
        push_str(&mut m, "speaker FIFO occupancy increased unexpectedly after silence write: ");
        push_dec(&mut m, after_write.depth_words as u64);
        push_str(&mut m, " -> ");
        push_dec(&mut m, after_settle.depth_words as u64);
        return Err(XdmaError::Incompatible(m));
    }
    Ok(())
}

/// Statistics of the speaker silence probe.
#[derive(Clone, Copy, Debug, PartialEq, Eq, Structural)]
pub struct SpeakerStats {
    pub dma_writes: u64,
    pub dma_bytes: u64,
    pub frames: u64,
    pub sample_pairs: u64,
    pub fifo_depth_after_write: usize,
    pub fifo_depth_after_settle: usize,
    pub fifo_overflows: u64,
    pub fifo_over_threshold: u64,
    pub fifo_underflows: u64,
    pub fifo_startup_underflow: bool,
    pub fifo_prefill_underflow: bool,
}

pub open spec fn flag_count(b: bool) -> u64 {
    if b {
        1
    } else {
        0
    }
}

/// The statistics of one silence write from its three FIFO readings.
pub fn speaker_stats(startup: FifoSnapshot, after_write: FifoSnapshot, after_settle: FifoSnapshot) -> (s: SpeakerStats)
    ensures
        s.dma_writes == 1,
        s.dma_bytes == SPEAKER_DMA_BYTES,
        s.frames == SPEAKER_DMA_BYTES / SPEAKER_FRAME_BYTES,
        s.sample_pairs == (SPEAKER_DMA_BYTES / SPEAKER_FRAME_BYTES) * SPEAKER_SAMPLE_PAIRS_PER_FRAME,
        s.fifo_depth_after_write == after_write.depth_words,
        s.fifo_depth_after_settle == after_settle.depth_words,
        s.fifo_overflows == flag_count(startup.overflow) + flag_count(after_write.overflow) + flag_count(after_settle.overflow),
        s.fifo_over_threshold == flag_count(startup.over_threshold) + flag_count(after_write.over_threshold)
            + flag_count(after_settle.over_threshold),
        s.fifo_underflows == flag_count(after_settle.underflow),
        s.fifo_startup_underflow == startup.underflow,
        s.fifo_prefill_underflow == after_write.underflow,
{
    let o1: u64 = if startup.overflow { 1 } else { 0 };
    let o2: u64 = if after_write.overflow { 1 } else { 0 };
    let o3: u64 = if after_settle.overflow { 1 } else { 0 };
    let t1: u64 = if startup.over_threshold { 1 } else { 0 };
    let t2: u64 = if after_write.over_threshold { 1 } else { 0 };
    let t3: u64 = if after_settle.over_threshold { 1 } else { 0 };
    let u3: u64 = if after_settle.underflow { 1 } else { 0 };
    let frames = (SPEAKER_DMA_BYTES / SPEAKER_FRAME_BYTES) as u64;
    SpeakerStats {
        dma_writes: 1,
        dma_bytes: SPEAKER_DMA_BYTES as u64,
        frames,
        sample_pairs: frames * (SPEAKER_SAMPLE_PAIRS_PER_FRAME as u64),
        fifo_depth_after_write: after_write.depth_words,
        fifo_depth_after_settle: after_settle.depth_words,
        fifo_overflows: o1 + o2 + o3,
        fifo_over_threshold: t1 + t2 + t3,
        fifo_underflows: u3,
        fifo_startup_underflow: startup.underflow,
        fifo_prefill_underflow: after_write.underflow,
    }
}

/// The RF GPIO with the hardware speaker mute asserted.
pub fn with_speaker_mute(rf_gpio: u32) -> (r: u32)
    ensures
        r == rf_gpio | SPEAKER_MUTE_BIT,
{
    rf_gpio | SPEAKER_MUTE_BIT
}

/// The FIFO reset register with `bit`'s reset asserted (the bit cleared).
pub fn fifo_reset_asserted(value: u32, bit: u32) -> (r: u32)
    ensures
        r == value & !bit,
{
    value & !bit
}

/// The FIFO reset register with `bit`'s reset released (the bit set).
pub fn fifo_reset_released(value: u32, bit: u32) -> (r: u32)
    ensures
        r == value | bit,
{
    value | bit
}

/// Whether the codec streams its samples in network byte order.
pub fn network_byte_order(rf_gpio: u32) -> (b: bool)
    ensures
        b == (rf_gpio & NETWORK_BYTE_ORDER_BIT != 0),
{
    rf_gpio & NETWORK_BYTE_ORDER_BIT != 0
}

/// Why the capture duration setting was refused.
#[derive(Clone, Copy, Debug, PartialEq, Eq, Structural)]
pub enum AudioDurationError {
    NotUnsigned,
    OutOfRange(u64),
}

/// The capture duration: the default when unset, else an unsigned integer
/// within `250..=10000` ms.
pub open spec fn capture_duration_spec(value: Option<Seq<char>>) -> Result<u64, AudioDurationError> {
    match setting_u64(value, DEFAULT_CAPTURE_DURATION_MS) {
        None => Err(AudioDurationError::NotUnsigned),
        Some(d) => if MIN_CAPTURE_DURATION_MS <= d <= MAX_CAPTURE_DURATION_MS {
            Ok(d as u64)
        } else {
            Err(AudioDurationError::OutOfRange(d as u64))
        },
    }
}

pub fn capture_duration_ms(value: Option<&str>) -> (r: Result<u64, AudioDurationError>)
    ensures
        r == capture_duration_spec(opt_view(value)),
{
    match setting_u64_exec(value, DEFAULT_CAPTURE_DURATION_MS) {
        None => Err(AudioDurationError::NotUnsigned),
        Some(d) => {
            if MIN_CAPTURE_DURATION_MS <= d && d <= MAX_CAPTURE_DURATION_MS {
                Ok(d)
            } else {
                Err(AudioDurationError::OutOfRange(d))
            }
        },
    }
}

} // verus!
