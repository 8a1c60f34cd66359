//! Transmit control: demodulation modes, the rules that gate RF keying, and
//! the PTT state machine that arms, keys and unkeys the radio while the
//! caller performs the DSP and network work each decision asks for.
use vstd::prelude::*;

use crate::text::{chars_of, eq_str, lower, lower_chars};

verus! {

/// Mic samples per WDSP TX DSP block.
pub const TX_MIC_SAMPLES_PER_DSP_BLOCK: usize = 512;
/// IQ pairs per DUC packet.
pub const DUC_IQ_SAMPLES_PER_PACKET: usize = 240;
/// TX IQ rate of the DUC.
pub const WDSP_TX_IQ_RATE_HZ: u32 = 192_000;
/// Mic audio rate.
pub const TX_MIC_RATE_HZ: u64 = 48_000;
/// Silence after which queued-audio underruns are filled with zeros.
pub const TX_SILENCE_GAP_NS: u64 = 250_000_000;
/// Live mic frames that end silence fill.
pub const TX_KEEPALIVE_RESUME_FRAMES: u8 = 3;
/// High-priority unkey packets sent when leaving the keyed state.
pub const TX_UNKEY_BURST_COUNT: usize = 12;
/// How long keyable mic audio keeps the mic gate open.
pub const TX_MIC_RECENCY_WINDOW_NS: u64 = 500_000_000;
/// DUC packets per TX display frame.
pub const TX_DISPLAY_DUC_PACKETS_PER_FRAME: usize = 4;
pub const DEFAULT_TX_WATCHDOG_SECS: u64 = 180;
pub const MIN_TX_WATCHDOG_SECS: u64 = 3;
pub const MAX_TX_WATCHDOG_SECS: u64 = 180;
/// DUC packets sent per loop pass at most.
pub const MAX_DUC_PACKETS_PER_LOOP: usize = 8;
/// Mic blocks clocked into the DSP per loop pass at most.
pub const MAX_MIC_BLOCKS_PER_LOOP: usize = 8;
/// Bound of the mic input queue; the oldest sample leaves first.
pub const TX_MIC_INPUT_QUEUE_MAX_SAMPLES: usize = 48_000;
pub const DEFAULT_TX_MIC_PREFILL_SAMPLES: usize = 2_048;
pub const MIN_TX_MIC_PREFILL_MS: u64 = 20;
pub const MAX_TX_MIC_PREFILL_MS: u64 = 250;
/// Duration of one mic DSP block: 512 samples at 48 kHz.
pub const MIC_BLOCK_PERIOD_NS: u64 = 10_666_666;
/// Duration of one DUC IQ packet: 240 pairs at 192 kHz.
pub const DUC_IQ_PACKET_PERIOD_NS: u64 = 1_250_000;
/// Oldest TX monitor frame still played.
pub const TX_MONITOR_MAX_AGE_NS: u64 = 30_000_000;

/// Demodulation mode of the radio.
#[derive(Clone, Copy, Debug, PartialEq, Eq, Structural)]
pub enum DemodMode {
    Usb,
    Lsb,
    DigU,
    DigL,
    Am,
    Sam,
    Fm,
    Cwu,
    Cwl,
    Wfm,
    Unknown,
}

impl DemodMode {
    /// The mode a TCI modulation name denotes, in any case.
    pub open spec fn from_tci_spec(name: Seq<char>) -> DemodMode {
        let n = lower(name);
        if n == "usb"@ {
            DemodMode::Usb
        } else if n == "lsb"@ {
            DemodMode::Lsb
        } else if n == "digu"@ {
            DemodMode::DigU
        } else if n == "digl"@ {
            DemodMode::DigL
        } else if n == "am"@ {
            DemodMode::Am
        } else if n == "sam"@ {
            DemodMode::Sam
        } else if n == "fm"@ || n == "nfm"@ {
            DemodMode::Fm
        } else if n == "cw"@ || n == "cwu"@ {
            DemodMode::Cwu
        } else if n == "cwl"@ {
            DemodMode::Cwl
        } else if n == "wfm"@ {
            DemodMode::Wfm
        } else {
            DemodMode::Unknown
        }
    }

    pub fn from_tci(name: &str) -> (m: DemodMode)
        ensures
            m == DemodMode::from_tci_spec(name@),
    {
        DemodMode::from_chars(&chars_of(name))
    }

    pub fn from_chars(name: &Vec<char>) -> (m: DemodMode)
        ensures
            m == DemodMode::from_tci_spec(name@),
    {
        let n = lower_chars(name);
        if eq_str(&n, "usb") {
            DemodMode::Usb
        } else if eq_str(&n, "lsb") {
            DemodMode::Lsb
        } else if eq_str(&n, "digu") {
            DemodMode::DigU
        } else if eq_str(&n, "digl") {
            DemodMode::DigL
        } else if eq_str(&n, "am") {
            DemodMode::Am
        } else if eq_str(&n, "sam") {
            DemodMode::Sam
        } else if eq_str(&n, "fm") || eq_str(&n, "nfm") {
            DemodMode::Fm
        } else if eq_str(&n, "cw") || eq_str(&n, "cwu") {
            DemodMode::Cwu
        } else if eq_str(&n, "cwl") {
            DemodMode::Cwl
        } else if eq_str(&n, "wfm") {
            DemodMode::Wfm
        } else {
            DemodMode::Unknown
        }
    }
}

/// Voice modes: sideband, digital sideband, AM, SAM and FM.
pub open spec fn is_voice_mode(mode: DemodMode) -> bool {
    mode == DemodMode::Usb || mode == DemodMode::Lsb || mode == DemodMode::DigU || mode
        == DemodMode::DigL || mode == DemodMode::Am || mode == DemodMode::Sam || mode
        == DemodMode::Fm
}

pub fn voice_mode(mode: DemodMode) -> (b: bool)
    ensures
        b == is_voice_mode(mode),
{
    match mode {
        DemodMode::Usb | DemodMode::Lsb | DemodMode::DigU | DemodMode::DigL | DemodMode::Am
        | DemodMode::Sam | DemodMode::Fm => true,
        _ => false,
    }
}

/// The local TX monitor plays while keyed in a voice mode, except during
/// the two-tone test.
pub fn monitor_keyed_voice(tx_enabled: bool, two_tone_enabled: bool, mode: DemodMode) -> (b: bool)
    ensures
        b == (tx_enabled && !two_tone_enabled && is_voice_mode(mode)),
{
    tx_enabled && !two_tone_enabled && voice_mode(mode)
}

/// Monitor audio is heard only while its gate is open, only for audio of the
/// gate's present epoch, at most 30 ms old and in a voice mode.
pub fn fresh_frame(
    gate: bool,
    generation: u64,
    frame_generation: u64,
    frame_age_ns: u64,
    mode: DemodMode,
) -> (b: bool)
    ensures
        b == (gate && frame_generation == generation && frame_age_ns <= TX_MONITOR_MAX_AGE_NS
            && is_voice_mode(mode)),
{
    gate && frame_generation == generation && frame_age_ns <= TX_MONITOR_MAX_AGE_NS && voice_mode(
        mode,
    )
}

/// The WDSP mode number of a demodulation mode.
pub open spec fn wdsp_mode_spec(mode: DemodMode) -> i32 {
    match mode {
        DemodMode::Lsb => 0,
        DemodMode::Usb => 1,
        DemodMode::Cwl => 3,
        DemodMode::Cwu => 4,
        DemodMode::Fm => 5,
        DemodMode::Am => 6,
        DemodMode::DigU => 7,
        DemodMode::DigL => 9,
        DemodMode::Sam => 10,
        DemodMode::Wfm => 1,
        DemodMode::Unknown => 1,
    }
}

pub fn wdsp_mode(mode: DemodMode) -> (n: i32)
    ensures
        n == wdsp_mode_spec(mode),
{
    match mode {
        DemodMode::Lsb => 0,
        DemodMode::Usb => 1,
        DemodMode::Cwl => 3,
        DemodMode::Cwu => 4,
        DemodMode::Fm => 5,
        DemodMode::Am => 6,
        DemodMode::DigU => 7,
        DemodMode::DigL => 9,
        DemodMode::Sam => 10,
        DemodMode::Wfm => 1,
        DemodMode::Unknown => 1,
    }
}

/// Audio rate of the receive DSP.
pub const WDSP_AUDIO_RATE_HZ: u32 = 48_000;

/// Why the receive DSP cannot be opened.
#[derive(Clone, Copy, Debug, PartialEq, Eq, Structural)]
pub enum WdspError {
    UnsupportedInputSampleRate(u32),
}

pub open spec fn is_pow2(n: nat) -> bool
    decreases n,
{
    if n == 0 {
        false
    } else if n == 1 {
        true
    } else {
        n % 2 == 0 && is_pow2(n / 2)
    }
}

/// The DSP takes input rates that are a power-of-two multiple of its audio rate.
pub open spec fn wdsp_input_ok(rate_hz: u32) -> bool {
    &&& rate_hz % WDSP_AUDIO_RATE_HZ == 0
    &&& is_pow2((rate_hz / WDSP_AUDIO_RATE_HZ) as nat)
}

/// The decimation from an input rate to the DSP's audio rate, or the error
/// for a rate the DSP cannot take.
pub fn wdsp_input_decimation(rate_hz: u32) -> (r: Result<u32, WdspError>)
    ensures
        wdsp_input_ok(rate_hz) ==> r == Ok::<u32, WdspError>(rate_hz / WDSP_AUDIO_RATE_HZ),
        !wdsp_input_ok(rate_hz) ==> r == Err::<u32, WdspError>(
            WdspError::UnsupportedInputSampleRate(rate_hz),
        ),
{
    let ratio = rate_hz / WDSP_AUDIO_RATE_HZ;
    if ratio == 0 || rate_hz % WDSP_AUDIO_RATE_HZ != 0 {
        return Err(WdspError::UnsupportedInputSampleRate(rate_hz));
    }
    let mut n: u32 = ratio;
    while n > 1 && n % 2 == 0
        invariant
            n >= 1,
            is_pow2(ratio as nat) == is_pow2(n as nat),
        decreases n,
    {
        n = n / 2;
    }
    if n == 1 {
        Ok(ratio)
    } else {
        Err(WdspError::UnsupportedInputSampleRate(rate_hz))
    }
}

/// The audio frame length in floats: limited to `256..=8192` and made even.
pub fn audio_frame_float_count(requested: usize) -> (n: usize)
    ensures
        n % 2 == 0,
        256 <= n <= 8192,
        n == (if requested < 256 {
            256
        } else if requested > 8192 {
            8192
        } else {
            requested - requested % 2
        }),
{
    let clamped: usize = if requested < 256 {
        256
    } else if requested > 8192 {
        8192
    } else {
        requested
    };
    clamped - clamped % 2
}

/// Lower-sideband modes mirror the two-tone test frequencies.
pub fn mode_inverts_two_tone(mode: DemodMode) -> (b: bool)
    ensures
        b == (mode == DemodMode::Lsb || mode == DemodMode::DigL || mode == DemodMode::Cwl),
{
    match mode {
        DemodMode::Lsb | DemodMode::DigL | DemodMode::Cwl => true,
        _ => false,
    }
}

/// PTT state of the transmitter.
#[derive(Clone, Copy, Debug, PartialEq, Eq, Structural)]
pub enum TxState {
    Idle,
    Armed,
    Keyed,
}

impl TxState {
    pub fn as_str(self) -> (s: &'static str)
        ensures
            s@ == (match self {
                TxState::Idle => "idle"@,
                TxState::Armed => "armed"@,
                TxState::Keyed => "keyed"@,
            }),
    {
        match self {
            TxState::Idle => "idle",
            TxState::Armed => "armed",
            TxState::Keyed => "keyed",
        }
    }
}

/// Nanoseconds of one DUC IQ packet: 240 pairs at 192 kHz.
pub fn duc_iq_packet_period_ns() -> (n: u64)
    ensures
        n == DUC_IQ_PACKET_PERIOD_NS,
        n * WDSP_TX_IQ_RATE_HZ == DUC_IQ_SAMPLES_PER_PACKET * 1_000_000_000,
{
    let n = (DUC_IQ_SAMPLES_PER_PACKET as u64) * 1_000_000_000 / (WDSP_TX_IQ_RATE_HZ as u64);
    assert(240_000_000_000u64 / 192_000u64 == 1_250_000u64);
    n
}

/// RF may be keyed for a DUC packet only with RF enabled, IQ above the keying
/// threshold, and either recent mic audio or the two-tone test running.
pub open spec fn can_key_rf_spec(rf_enabled: bool, iq_keyable: bool, mic_recent: bool, two_tone: bool) -> bool {
    rf_enabled && iq_keyable && (mic_recent || two_tone)
}

pub fn can_key_rf(rf_enabled: bool, iq_keyable: bool, mic_recent: bool, two_tone: bool) -> (b: bool)
    ensures
        b == can_key_rf_spec(rf_enabled, iq_keyable, mic_recent, two_tone),
{
    rf_enabled && iq_keyable && (mic_recent || two_tone)
}

/// The TX watchdog in seconds: the setting clamped to 3..=180, or 180 when
/// absent or not an unsigned integer.
pub open spec fn tx_watchdog_secs_spec(setting: Option<Seq<char>>) -> u64 {
    match setting {
        None => DEFAULT_TX_WATCHDOG_SECS,
        Some(v) => match crate::text::parse_unsigned(v, u64::MAX as nat) {
            None => DEFAULT_TX_WATCHDOG_SECS,
            Some(n) => if n < MIN_TX_WATCHDOG_SECS {
                MIN_TX_WATCHDOG_SECS
            } else if n > MAX_TX_WATCHDOG_SECS {
                MAX_TX_WATCHDOG_SECS
            } else {
                n as u64
            },
        },
    }
}

pub fn tx_watchdog_secs(setting: Option<&str>) -> (n: u64)
    ensures
        n == tx_watchdog_secs_spec(match setting {
            Some(s) => Some(s@),
            None => None,
        }),
{
    match setting {
        None => DEFAULT_TX_WATCHDOG_SECS,
        Some(s) => match crate::text::parse_unsigned_exact(&chars_of(s), u64::MAX) {
            None => DEFAULT_TX_WATCHDOG_SECS,
            Some(n) => if n < MIN_TX_WATCHDOG_SECS {
                MIN_TX_WATCHDOG_SECS
            } else if n > MAX_TX_WATCHDOG_SECS {
                MAX_TX_WATCHDOG_SECS
            } else {
                n
            },
        },
    }
}

/// Mic samples queued before clocking starts: the setting in ms clamped to
/// 20..=250 and converted at 48 kHz rounding up, or 2048 when unset.
pub open spec fn tx_mic_prefill_spec(prefill_ms: Option<u64>) -> nat {
    match prefill_ms {
        None => DEFAULT_TX_MIC_PREFILL_SAMPLES as nat,
        Some(ms) => {
            let c: nat = if ms < MIN_TX_MIC_PREFILL_MS {
                MIN_TX_MIC_PREFILL_MS as nat
            } else if ms > MAX_TX_MIC_PREFILL_MS {
                MAX_TX_MIC_PREFILL_MS as nat
            } else {
                ms as nat
            };
            (c * 48_000 + 999) / 1_000
        },
    }
}

pub fn tx_mic_prefill_samples_for_ms(prefill_ms: Option<u64>) -> (n: usize)
    ensures
        n as nat == tx_mic_prefill_spec(prefill_ms),
{
    match prefill_ms {
        None => DEFAULT_TX_MIC_PREFILL_SAMPLES,
        Some(ms) => {
            let c: u64 = if ms < MIN_TX_MIC_PREFILL_MS {
                MIN_TX_MIC_PREFILL_MS
            } else if ms > MAX_TX_MIC_PREFILL_MS {
                MAX_TX_MIC_PREFILL_MS
            } else {
                ms
            };
            ((c * 48_000 + 999) / 1_000) as usize
        },
    }
}

/// The first channel of each whole frame of interleaved samples; mono (or
/// fewer) channels pass through unchanged.
pub open spec fn mono_spec<T>(samples: Seq<T>, channels: nat) -> Seq<T> {
    if channels <= 1 {
        samples
    } else {
        Seq::new(samples.len() / channels, |k: int| samples[k * channels])
    }
}

pub fn mic_samples_to_mono<T: Copy>(samples: Vec<T>, channels: u32) -> (out: Vec<T>)
    ensures
        out@ == mono_spec(samples@, channels as nat),
{
    if channels <= 1 {
        return samples;
    }
    let count = channels as usize;
    let frames = samples.len() / count;
    let mut out: Vec<T> = Vec::new();
    let mut k: usize = 0;
    while k < frames
        invariant
            count == channels,
            count > 1,
            frames == samples@.len() / (count as nat),
            k <= frames,
            out@ == Seq::new(k as nat, |j: int| samples@[j * count]),
        decreases frames - k,
    {
        assert(k * count < samples.len()) by (nonlinear_arith)
            requires
                k < frames,
                frames == samples@.len() / (count as nat),
                count > 1,
        ;
        out.push(samples[k * count]);
        k = k + 1;
        assert(out@ =~= Seq::new(k as nat, |j: int| samples@[j * count]));
    }
    out
}

/// A TX display frame is published once it holds the target sample count.
pub fn should_publish_tx_iq_display(frame_float_count: usize, target_float_count: usize) -> (b: bool)
    ensures
        b == (frame_float_count >= target_float_count),
{
    frame_float_count >= target_float_count
}

/// Appends one DUC packet to the display buffer and hands back the finished
/// frame once it holds `target` samples (the buffer then starts over).
pub fn push_display_chunk<T: Copy>(buffer: &mut Vec<T>, chunk: &Vec<T>, target: usize) -> (frame:
    Option<Vec<T>>)
    requires
        old(buffer)@.len() + chunk@.len() <= usize::MAX,
    ensures
        old(buffer)@.len() + chunk@.len() >= target ==> (frame matches Some(f) && f@ == old(buffer)@ + chunk@ && final(buffer)@.len() == 0),
        old(buffer)@.len() + chunk@.len() < target ==> frame is None && final(buffer)@ == old(buffer)@ + chunk@,
{
    let ghost before = buffer@;
    let mut i: usize = 0;
    while i < chunk.len()
        invariant
            i <= chunk@.len(),
            buffer@ == before + chunk@.subrange(0, i as int),
            before.len() + chunk@.len() <= usize::MAX,
        decreases chunk@.len() - i,
    {
        buffer.push(chunk[i]);
        i = i + 1;
        assert(buffer@ =~= before + chunk@.subrange(0, i as int));
    }
    assert(chunk@.subrange(0, chunk@.len() as int) =~= chunk@);
    if should_publish_tx_iq_display(buffer.len(), target) {
        let mut frame: Vec<T> = Vec::new();
        std::mem::swap(&mut frame, buffer);
        Some(frame)
    } else {
        None
    }
}

/// `now - then` for monotonic times, zero when `then` lies ahead.
pub open spec fn since(now: u64, then: u64) -> nat {
    if now >= then {
        (now - then) as nat
    } else {
        0
    }
}

/// `t + d` saturating at `u64::MAX`.
pub open spec fn later(t: u64, d: u64) -> u64 {
    if t + d > u64::MAX {
        u64::MAX
    } else {
        (t + d) as u64
    }
}

/// What to do with one DUC IQ packet taken from the DSP output.
#[derive(Clone, Copy, Debug, PartialEq, Eq, Structural)]
pub enum DucPacketAction {
    /// Armed with RF disabled: show it on the TX display only.
    HoldRfDisabled,
    /// Armed, waiting for keyable IQ with recent mic audio (or two-tone):
    /// show it on the TX display only.
    HoldWaiting,
    /// Armed and now keyable: key the radio, then show and send it.
    KeyThenSend,
    /// Keyed: show and send it.
    Send,
}

/// The PTT state machine of the transmit loop. Times are monotonic
/// nanoseconds supplied by the caller.
#[derive(Clone, Copy, Debug, PartialEq, Eq, Structural)]
pub struct TxController {
    pub state: TxState,
    pub rf_enabled: bool,
    pub two_tone: bool,
    pub armed_at_ns: u64,
    pub last_mic_audio_at_ns: u64,
    pub last_keyable_mic_at_ns: Option<u64>,
    pub next_mic_dsp_at_ns: u64,
    pub next_duc_iq_at_ns: u64,
    pub mic_output_started: bool,
    pub mic_queue_underruns: u64,
    pub keepalive_active: bool,
    pub keepalive_resume_frames: u8,
    pub mic_frame_count: u64,
    pub duc_packet_count: u64,
    pub first_mic_audio_at_ns: Option<u64>,
    pub first_iq_at_ns: Option<u64>,
    pub first_keyable_iq_at_ns: Option<u64>,
    pub keyed_at_ns: Option<u64>,
}

impl TxController {
    /// The radio is keyed only with RF enabled, and an idle transmitter
    /// fills no silence.
    pub open spec fn inv(&self) -> bool {
        &&& self.state == TxState::Keyed ==> self.rf_enabled
        &&& self.state == TxState::Idle ==> !self.keepalive_active && !self.rf_enabled
    }

    /// Keyable mic audio arrived within the recency window.
    pub open spec fn mic_recent_spec(&self, now_ns: u64) -> bool {
        match self.last_keyable_mic_at_ns {
            Some(t) => since(now_ns, t) < TX_MIC_RECENCY_WINDOW_NS,
            None => false,
        }
    }

    pub fn new(now_ns: u64) -> (c: Self)
        ensures
            c.inv(),
            c.state == TxState::Idle,
            !c.two_tone,
    {
        TxController {
            state: TxState::Idle,
            rf_enabled: false,
            two_tone: false,
            armed_at_ns: now_ns,
            last_mic_audio_at_ns: now_ns,
            last_keyable_mic_at_ns: None,
            next_mic_dsp_at_ns: now_ns,
            next_duc_iq_at_ns: now_ns,
            mic_output_started: false,
            mic_queue_underruns: 0,
            keepalive_active: false,
            keepalive_resume_frames: 0,
            mic_frame_count: 0,
            duc_packet_count: 0,
            first_mic_audio_at_ns: None,
            first_iq_at_ns: None,
            first_keyable_iq_at_ns: None,
            keyed_at_ns: None,
        }
    }

    pub fn mic_recent(&self, now_ns: u64) -> (b: bool)
        ensures
            b == self.mic_recent_spec(now_ns),
    {
        match self.last_keyable_mic_at_ns {
            Some(t) => now_ns.saturating_sub(t) < TX_MIC_RECENCY_WINDOW_NS,
            None => false,
        }
    }

    /// PTT pressed. From idle it arms with a fresh episode (the caller then
    /// activates the DSP and sends the DUC configuration); otherwise nothing
    /// changes. Returns whether it armed.
    pub fn arm(&mut self, rf_enabled: bool, two_tone: bool, now_ns: u64) -> (armed: bool)
        requires
            old(self).inv(),
        ensures
            final(self).inv(),
            armed == (old(self).state == TxState::Idle),
            armed ==> *final(self) == (TxController {
                state: TxState::Armed,
                rf_enabled,
                two_tone,
                armed_at_ns: now_ns,
                last_mic_audio_at_ns: now_ns,
                last_keyable_mic_at_ns: None,
                next_mic_dsp_at_ns: now_ns,
                next_duc_iq_at_ns: now_ns,
                mic_output_started: false,
                mic_queue_underruns: 0,
                keepalive_active: false,
                keepalive_resume_frames: 0,
                mic_frame_count: 0,
                duc_packet_count: 0,
                first_mic_audio_at_ns: None,
                first_iq_at_ns: None,
                first_keyable_iq_at_ns: None,
                keyed_at_ns: None,
            }),
            !armed ==> *final(self) == *old(self),
    {
        if self.state != TxState::Idle {
            return false;
        }
        *self = TxController {
            state: TxState::Armed,
            rf_enabled,
            two_tone,
            armed_at_ns: now_ns,
            last_mic_audio_at_ns: now_ns,
            last_keyable_mic_at_ns: None,
            next_mic_dsp_at_ns: now_ns,
            next_duc_iq_at_ns: now_ns,
            mic_output_started: false,
            mic_queue_underruns: 0,
            keepalive_active: false,
            keepalive_resume_frames: 0,
            mic_frame_count: 0,
            duc_packet_count: 0,
            first_mic_audio_at_ns: None,
            first_iq_at_ns: None,
            first_keyable_iq_at_ns: None,
            keyed_at_ns: None,
        };
        true
    }

    /// Leaves any active state for idle with RF disabled, the two-tone
    /// test and silence fill off. Returns the state left (idle: nothing to
    /// unkey).
    pub fn deactivate(&mut self) -> (prev: TxState)
        requires
            old(self).inv(),
        ensures
            final(self).inv(),
            prev == old(self).state,
            final(self).state == TxState::Idle,
            !final(self).rf_enabled && !final(self).keepalive_active,
            prev != TxState::Idle ==> *final(self) == (TxController {
                state: TxState::Idle,
                rf_enabled: false,
                two_tone: false,
                keepalive_active: false,
                keepalive_resume_frames: 0,
                ..*old(self)
            }),
            prev == TxState::Idle ==> *final(self) == *old(self),
    {
        let prev = self.state;
        if prev != TxState::Idle {
            self.state = TxState::Idle;
            self.rf_enabled = false;
            self.two_tone = false;
            self.keepalive_active = false;
            self.keepalive_resume_frames = 0;
        }
        prev
    }

    /// The watchdog: an active transmitter whose arming is at least
    /// `watchdog_ns` old is deactivated. Returns the state left.
    pub fn check_watchdog(&mut self, now_ns: u64, watchdog_ns: u64) -> (prev: TxState)
        requires
            old(self).inv(),
        ensures
            final(self).inv(),
            (old(self).state != TxState::Idle && since(now_ns, old(self).armed_at_ns)
                >= watchdog_ns) ==> prev == old(self).state && final(self).state == TxState::Idle
                && !final(self).rf_enabled,
            !(old(self).state != TxState::Idle && since(now_ns, old(self).armed_at_ns)
                >= watchdog_ns) ==> prev == TxState::Idle && *final(self) == *old(self),
    {
        if self.state != TxState::Idle && now_ns.saturating_sub(self.armed_at_ns) >= watchdog_ns {
            self.deactivate()
        } else {
            TxState::Idle
        }
    }

    /// The DSP configuration changed; the two-tone test follows it.
    pub fn model_changed(&mut self, two_tone: bool)
        requires
            old(self).inv(),
        ensures
            final(self).inv(),
            *final(self) == (TxController { two_tone, ..*old(self) }),
    {
        self.two_tone = two_tone;
    }

    /// A mic frame arrived. Ignored while idle; otherwise counted, timed,
    /// marked keyable when its peak passed the mic threshold, and live
    /// audio for three frames ends silence fill. Returns whether the caller
    /// queues its samples.
    pub fn mic_audio(&mut self, keyable: bool, now_ns: u64) -> (accepted: bool)
        requires
            old(self).inv(),
        ensures
            final(self).inv(),
            accepted == (old(self).state != TxState::Idle),
            !accepted ==> *final(self) == *old(self),
            accepted ==> final(self).state == old(self).state && final(self).rf_enabled == old(self).rf_enabled && final(self).mic_frame_count == (if old(self).mic_frame_count
                == u64::MAX {
                u64::MAX
            } else {
                (old(self).mic_frame_count + 1) as u64
            }) && final(self).last_mic_audio_at_ns == now_ns && final(self).last_keyable_mic_at_ns == (if keyable {
                Some(now_ns)
            } else {
                old(self).last_keyable_mic_at_ns
            }) && final(self).first_mic_audio_at_ns == (match old(self).first_mic_audio_at_ns {
                Some(t) => Some(t),
                None => Some(now_ns),
            }),
            accepted && old(self).keepalive_active && old(self).keepalive_resume_frames + 1
                >= TX_KEEPALIVE_RESUME_FRAMES ==> !final(self).keepalive_active && final(self).keepalive_resume_frames == 0,
            accepted && old(self).keepalive_active && old(self).keepalive_resume_frames + 1
                < TX_KEEPALIVE_RESUME_FRAMES ==> final(self).keepalive_active && final(self).keepalive_resume_frames == old(self).keepalive_resume_frames + 1,
            accepted && !old(self).keepalive_active ==> !final(self).keepalive_active && final(self).keepalive_resume_frames == 0,
    {
        if self.state == TxState::Idle {
            return false;
        }
        if keyable {
            self.last_keyable_mic_at_ns = Some(now_ns);
        }
        self.mic_frame_count = self.mic_frame_count.saturating_add(1);
        self.last_mic_audio_at_ns = now_ns;
        if self.first_mic_audio_at_ns.is_none() {
            self.first_mic_audio_at_ns = Some(now_ns);
        }
        if self.keepalive_active {
            self.keepalive_resume_frames = self.keepalive_resume_frames.saturating_add(1);
            if self.keepalive_resume_frames >= TX_KEEPALIVE_RESUME_FRAMES {
                self.keepalive_active = false;
                self.keepalive_resume_frames = 0;
            }
        } else {
            self.keepalive_resume_frames = 0;
        }
        true
    }

    /// Starts the 48 kHz mic clock once the queue holds the prefill (the
    /// two-tone test needs no mic audio).
    pub fn start_mic_clock(&mut self, queued: usize, prefill: usize, now_ns: u64)
        requires
            old(self).inv(),
        ensures
            final(self).inv(),
            (old(self).state != TxState::Idle && !old(self).two_tone
                && !old(self).mic_output_started && queued >= prefill) ==> final(self).mic_output_started && final(self).next_mic_dsp_at_ns == now_ns
                && final(self).state == old(self).state,
            !(old(self).state != TxState::Idle && !old(self).two_tone
                && !old(self).mic_output_started && queued >= prefill) ==> *final(self) == *old(self),
    {
        if self.state != TxState::Idle && !self.two_tone && !self.mic_output_started && queued
            >= prefill {
            self.mic_output_started = true;
            self.next_mic_dsp_at_ns = now_ns;
        }
    }

    /// Another mic block is due in this pass.
    pub fn mic_block_due(&self, now_ns: u64, sent: usize) -> (b: bool)
        ensures
            b == (self.state != TxState::Idle && (self.two_tone || self.mic_output_started)
                && now_ns >= self.next_mic_dsp_at_ns && sent < MAX_MIC_BLOCKS_PER_LOOP),
    {
        self.state != TxState::Idle && (self.two_tone || self.mic_output_started) && now_ns
            >= self.next_mic_dsp_at_ns && sent < MAX_MIC_BLOCKS_PER_LOOP
    }

    /// One mic block went to the DSP; an underrun of queued mic audio is
    /// counted (not during the two-tone test).
    pub fn mic_block_sent(&mut self, underrun: bool)
        requires
            old(self).inv(),
        ensures
            final(self).inv(),
            final(self).next_mic_dsp_at_ns == later(old(self).next_mic_dsp_at_ns, MIC_BLOCK_PERIOD_NS),
            final(self).mic_queue_underruns == (if !old(self).two_tone && underrun {
                if old(self).mic_queue_underruns == u64::MAX {
                    u64::MAX
                } else {
                    (old(self).mic_queue_underruns + 1) as u64
                }
            } else {
                old(self).mic_queue_underruns
            }),
            final(self).state == old(self).state && final(self).rf_enabled == old(self).rf_enabled,
    {
        if !self.two_tone && underrun {
            self.mic_queue_underruns = self.mic_queue_underruns.saturating_add(1);
        }
        self.next_mic_dsp_at_ns = self.next_mic_dsp_at_ns.saturating_add(MIC_BLOCK_PERIOD_NS);
    }

    /// After the mic blocks of a pass: the two-tone test counts as live
    /// audio; a silence of at least 250 ms starts silence fill; a full pass
    /// that is still behind restarts the clock from now.
    pub fn finish_mic_pass(&mut self, sent: usize, now_ns: u64)
        requires
            old(self).inv(),
        ensures
            final(self).inv(),
            final(self).state == old(self).state && final(self).rf_enabled == old(self).rf_enabled,
            sent > 0 && old(self).two_tone ==> final(self).last_mic_audio_at_ns == now_ns
                && !final(self).keepalive_active,
            sent > 0 && !old(self).two_tone && since(now_ns, old(self).last_mic_audio_at_ns)
                >= TX_SILENCE_GAP_NS && !old(self).keepalive_active && old(self).state
                != TxState::Idle ==> final(self).keepalive_active && final(self).keepalive_resume_frames == 0,
            sent == MAX_MIC_BLOCKS_PER_LOOP && now_ns >= old(self).next_mic_dsp_at_ns ==> final(self).next_mic_dsp_at_ns == later(now_ns, MIC_BLOCK_PERIOD_NS),
            !(sent == MAX_MIC_BLOCKS_PER_LOOP && now_ns >= old(self).next_mic_dsp_at_ns) ==> final(self).next_mic_dsp_at_ns == old(self).next_mic_dsp_at_ns,
    {
        if sent > 0 {
            if self.two_tone {
                self.last_mic_audio_at_ns = now_ns;
                self.keepalive_active = false;
            } else if now_ns.saturating_sub(self.last_mic_audio_at_ns) >= TX_SILENCE_GAP_NS
                && !self.keepalive_active && self.state != TxState::Idle {
                self.keepalive_active = true;
                self.keepalive_resume_frames = 0;
            }
        }
        if sent == MAX_MIC_BLOCKS_PER_LOOP && now_ns >= self.next_mic_dsp_at_ns {
            self.next_mic_dsp_at_ns = now_ns.saturating_add(MIC_BLOCK_PERIOD_NS);
        }
    }

    /// Another DUC packet may leave in this pass.
    pub fn duc_packet_due(&self, pending_iq_floats: usize, now_ns: u64, sent: usize) -> (b: bool)
        ensures
            b == (self.state != TxState::Idle && pending_iq_floats >= DUC_IQ_SAMPLES_PER_PACKET * 2
                && now_ns >= self.next_duc_iq_at_ns && sent < MAX_DUC_PACKETS_PER_LOOP),
    {
        self.state != TxState::Idle && pending_iq_floats >= DUC_IQ_SAMPLES_PER_PACKET * 2 && now_ns
            >= self.next_duc_iq_at_ns && sent < MAX_DUC_PACKETS_PER_LOOP
    }

    /// Decides one DUC packet. `iq_above_threshold` tells whether its peak
    /// reached the keying threshold. While armed the radio is keyed by the
    /// first packet that is keyable with RF enabled and recent mic audio (or
    /// the two-tone test); until then packets are held back from the radio.
    pub fn on_duc_packet(&mut self, iq_above_threshold: bool, now_ns: u64) -> (action: DucPacketAction)
        requires
            old(self).inv(),
            old(self).state != TxState::Idle,
        ensures
            final(self).inv(),
            final(self).next_duc_iq_at_ns == later(old(self).next_duc_iq_at_ns, DUC_IQ_PACKET_PERIOD_NS),
            final(self).first_iq_at_ns == (match old(self).first_iq_at_ns {
                Some(t) => Some(t),
                None => Some(now_ns),
            }),
            final(self).first_keyable_iq_at_ns == (if old(self).rf_enabled && iq_above_threshold
                && old(self).first_keyable_iq_at_ns is None {
                Some(now_ns)
            } else {
                old(self).first_keyable_iq_at_ns
            }),
            final(self).rf_enabled == old(self).rf_enabled,
            old(self).state == TxState::Keyed ==> action == DucPacketAction::Send && final(self).state == TxState::Keyed,
            old(self).state == TxState::Armed && !old(self).rf_enabled ==> action
                == DucPacketAction::HoldRfDisabled && final(self).state == TxState::Armed,
            old(self).state == TxState::Armed && old(self).rf_enabled && !can_key_rf_spec(
                old(self).rf_enabled,
                iq_above_threshold,
                old(self).mic_recent_spec(now_ns),
                old(self).two_tone,
            ) ==> action == DucPacketAction::HoldWaiting && final(self).state == TxState::Armed,
            old(self).state == TxState::Armed && can_key_rf_spec(
                old(self).rf_enabled,
                iq_above_threshold,
                old(self).mic_recent_spec(now_ns),
                old(self).two_tone,
            ) ==> action == DucPacketAction::KeyThenSend && final(self).state == TxState::Keyed
                && final(self).keyed_at_ns == Some(now_ns),
    {
        self.next_duc_iq_at_ns = self.next_duc_iq_at_ns.saturating_add(DUC_IQ_PACKET_PERIOD_NS);
        if self.first_iq_at_ns.is_none() {
            self.first_iq_at_ns = Some(now_ns);
        }
        let iq_keyable = self.rf_enabled && iq_above_threshold;
        if iq_keyable && self.first_keyable_iq_at_ns.is_none() {
            self.first_keyable_iq_at_ns = Some(now_ns);
        }
        if self.state == TxState::Keyed {
            return DucPacketAction::Send;
        }
        if !self.rf_enabled {
            return DucPacketAction::HoldRfDisabled;
        }
        let mic_recent = self.mic_recent(now_ns);
        if !can_key_rf(self.rf_enabled, iq_above_threshold, mic_recent, self.two_tone) {
            return DucPacketAction::HoldWaiting;
        }
        self.state = TxState::Keyed;
        self.keyed_at_ns = Some(now_ns);
        DucPacketAction::KeyThenSend
    }

    /// A DUC packet reached the radio.
    pub fn duc_packet_sent(&mut self)
        requires
            old(self).inv(),
        ensures
            final(self).inv(),
            *final(self) == (TxController {
                duc_packet_count: if old(self).duc_packet_count == u64::MAX {
                    u64::MAX
                } else {
                    (old(self).duc_packet_count + 1) as u64
                },
                ..*old(self)
            }),
    {
        self.duc_packet_count = self.duc_packet_count.saturating_add(1);
    }
}

/// High-priority "TX off" packets sent when leaving `prev`: a burst from
/// keyed, one from armed, none from idle.
pub fn unkey_packet_count(prev: TxState) -> (n: usize)
    ensures
        n == (match prev {
            TxState::Keyed => TX_UNKEY_BURST_COUNT,
            TxState::Armed => 1usize,
            TxState::Idle => 0usize,
        }),
{
    match prev {
        TxState::Keyed => TX_UNKEY_BURST_COUNT,
        TxState::Armed => 1,
        TxState::Idle => 0,
    }
}

/// Queues one mic sample, dropping the oldest when the queue is full.
pub fn push_mic_sample<T>(queue: &mut std::collections::VecDeque<T>, sample: T)
    requires
        old(queue)@.len() <= TX_MIC_INPUT_QUEUE_MAX_SAMPLES,
    ensures
        old(queue)@.len() < TX_MIC_INPUT_QUEUE_MAX_SAMPLES ==> final(queue)@ == old(queue)@.push(
            sample,
        ),
        old(queue)@.len() == TX_MIC_INPUT_QUEUE_MAX_SAMPLES ==> final(queue)@ == old(queue)@.drop_first().push(sample),
        final(queue)@.len() <= TX_MIC_INPUT_QUEUE_MAX_SAMPLES,
{
    if queue.len() >= TX_MIC_INPUT_QUEUE_MAX_SAMPLES {
        let _ = queue.pop_front();
    }
    queue.push_back(sample);
}

/// One 512-sample mic block for the DSP. The two-tone test feeds zeros;
/// otherwise queued samples are taken in order, and once the queue runs dry
/// the last sample is held (within the silence gap) or zeros follow. Also
/// says whether the queue ran dry.
pub fn fill_mic_block<T: Copy>(
    queue: &mut std::collections::VecDeque<T>,
    two_tone: bool,
    zero: T,
    last: &mut T,
    within_silence_gap: bool,
) -> (r: (Vec<T>, bool))
    ensures
        r.0@.len() == TX_MIC_SAMPLES_PER_DSP_BLOCK,
        two_tone ==> r.0@ == Seq::new(TX_MIC_SAMPLES_PER_DSP_BLOCK as nat, |j: int| zero)
            && final(queue)@ == old(queue)@ && *final(last) == *old(last) && !r.1,
        !two_tone && old(queue)@.len() >= TX_MIC_SAMPLES_PER_DSP_BLOCK ==> r.0@ == old(queue)@.take(TX_MIC_SAMPLES_PER_DSP_BLOCK as int) && final(queue)@ == old(queue)@.skip(
            TX_MIC_SAMPLES_PER_DSP_BLOCK as int,
        ) && !r.1,
        !two_tone && old(queue)@.len() < TX_MIC_SAMPLES_PER_DSP_BLOCK ==> r.1 && final(queue)@.len() == 0 && r.0@.take(old(queue)@.len() as int) == old(queue)@ && (forall|j: int|
            old(queue)@.len() <= j < TX_MIC_SAMPLES_PER_DSP_BLOCK ==> r.0@[j] == (if within_silence_gap {
                if old(queue)@.len() > 0 {
                    old(queue)@.last()
                } else {
                    *old(last)
                }
            } else {
                zero
            })),
{
    let mut block: Vec<T> = Vec::new();
    let mut underrun = false;
    let ghost q0 = queue@;
    let ghost last0 = *last;
    let mut i: usize = 0;
    while i < TX_MIC_SAMPLES_PER_DSP_BLOCK
        invariant
            i <= TX_MIC_SAMPLES_PER_DSP_BLOCK,
            block@.len() == i,
            two_tone ==> block@ == Seq::new(i as nat, |j: int| zero) && queue@ == q0 && *last
                == last0 && !underrun,
            !two_tone && i <= q0.len() ==> block@ == q0.take(i as int) && queue@ == q0.skip(
                i as int,
            ) && !underrun && (i > 0 ==> *last == q0[i - 1]) && (i == 0 ==> *last == last0),
            !two_tone && i > q0.len() ==> underrun && queue@.len() == 0 && block@.take(
                q0.len() as int,
            ) == q0 && (forall|j: int| q0.len() <= j < i ==> block@[j] == (if within_silence_gap {
                if q0.len() > 0 {
                    q0.last()
                } else {
                    last0
                }
            } else {
                zero
            })) && *last == (if q0.len() > 0 {
                q0.last()
            } else {
                last0
            }),
        decreases TX_MIC_SAMPLES_PER_DSP_BLOCK - i,
    {
        let ghost before = block@;
        if two_tone {
            block.push(zero);
            assert(block@ =~= Seq::new((i + 1) as nat, |j: int| zero));
        } else {
            match queue.pop_front() {
                Some(sample) => {
                    *last = sample;
                    block.push(sample);
                    proof {
                        assert(block@ =~= q0.take(i + 1));
                        assert(queue@ =~= q0.skip(i + 1));
                    }
                },
                None => {
                    underrun = true;
                    let v = if within_silence_gap {
                        *last
                    } else {
                        zero
                    };
                    block.push(v);
                    proof {
                        if i == q0.len() && q0.len() > 0 {
                            assert(q0.last() == q0[i - 1]);
                        }
                        assert(block@.take(q0.len() as int) =~= before.take(q0.len() as int));
                        if i == q0.len() {
                            assert(before =~= q0.take(i as int));
                            assert(q0.take(i as int) =~= q0);
                        }
                    }
                },
            }
        }
        i = i + 1;
    }
    proof {
        if !two_tone && q0.len() >= TX_MIC_SAMPLES_PER_DSP_BLOCK {
            assert(block@ == q0.take(TX_MIC_SAMPLES_PER_DSP_BLOCK as int));
        }
    }
    (block, underrun)
}

} // verus!
