//! Decisions of the direct-XDMA radio backend: which receive work a loop pass
//! does, what a batch of commands dirties, when the backend reports ready, the
//! transmit request and its watchdog, and the limits it applies to settings.
use vstd::prelude::*;
use crate::commands::TciCommand;

verus! {

/// DMA reads the receive path must have completed before it reports ready.
pub const READY_DMA_READS: u64 = 4;

/// IQ pairs the receive path must have captured before it reports ready.
pub const READY_IQ_PAIRS: u64 = 1_024;

/// Commands handled per pass of the control loop.
pub const MAX_COMMANDS_PER_LOOP: usize = 8;

/// Highest transmit drive the direct backend accepts, in watts.
pub const DIRECT_TX_MAX_WATTS: u8 = 100;

/// Silence of the TCI microphone uplink after which a transmit request is dropped.
pub const TX_UPLINK_TIMEOUT_NS: u64 = 750_000_000;

/// Silence of the operator's control channel after which a transmit request is dropped.
pub const TX_CONTROL_TIMEOUT_NS: u64 = 1_500_000_000;

/// What a pass of the receive loop does with the IQ it drains.
#[derive(Clone, Copy, Debug, PartialEq, Eq, Structural)]
pub enum RxProcessingMode {
    Audio,
    IqOnly,
    MeterOnly,
    DrainOnly,
}

impl RxProcessingMode {
    pub open spec fn label_spec(self) -> Seq<char> {
        match self {
            RxProcessingMode::Audio => "audio"@,
            RxProcessingMode::IqOnly => "iq-only"@,
            RxProcessingMode::MeterOnly => "meter-only"@,
            RxProcessingMode::DrainOnly => "drain-only"@,
        }
    }

    pub fn label(self) -> (s: &'static str)
        ensures
            s@ == self.label_spec(),
    {
        match self {
            RxProcessingMode::Audio => "audio",
            RxProcessingMode::IqOnly => "iq-only",
            RxProcessingMode::MeterOnly => "meter-only",
            RxProcessingMode::DrainOnly => "drain-only",
        }
    }

    /// Every mode but draining decodes the IQ it reads.
    pub fn decodes_iq(self) -> (b: bool)
        ensures
            b == (self != RxProcessingMode::DrainOnly),
    {
        match self {
            RxProcessingMode::DrainOnly => false,
            _ => true,
        }
    }
}

/// Which media streams some client currently wants.
#[derive(Clone, Copy, Debug, Default, PartialEq, Eq, Structural)]
pub struct TciMediaDemand {
    pub iq_stream_enabled: bool,
    pub audio_stream_enabled: bool,
}

pub open spec fn processing_mode_spec(demand: TciMediaDemand, meter_due: bool) -> RxProcessingMode {
    if demand.audio_stream_enabled {
        RxProcessingMode::Audio
    } else if demand.iq_stream_enabled {
        RxProcessingMode::IqOnly
    } else if meter_due {
        RxProcessingMode::MeterOnly
    } else {
        RxProcessingMode::DrainOnly
    }
}

/// The DSP runs only for audio consumers; IQ consumers get the raw stream, and
/// with no consumer the loop only meters (when a meter update is due) or drains.
pub fn rx_processing_mode(demand: TciMediaDemand, meter_due: bool) -> (mode: RxProcessingMode)
    ensures
        mode == processing_mode_spec(demand, meter_due),
{
    if demand.audio_stream_enabled {
        RxProcessingMode::Audio
    } else if demand.iq_stream_enabled {
        RxProcessingMode::IqOnly
    } else if meter_due {
        RxProcessingMode::MeterOnly
    } else {
        RxProcessingMode::DrainOnly
    }
}

/// What a batch of commands requires the loop to resynchronise or publish.
#[derive(Clone, Copy, Debug, Default, PartialEq, Eq, Structural)]
pub struct CommandEffects {
    pub dsp_dirty: bool,
    pub tuning_dirty: bool,
    pub tx_state_dirty: bool,
    pub radio_state_dirty: bool,
}

impl CommandEffects {
    pub open spec fn any(self) -> bool {
        self.dsp_dirty || self.tuning_dirty || self.tx_state_dirty || self.radio_state_dirty
    }

    /// No effect at all: the start of a batch.
    pub fn none() -> (e: CommandEffects)
        ensures
            !e.dsp_dirty && !e.tuning_dirty && !e.tx_state_dirty && !e.radio_state_dirty,
    {
        CommandEffects {
            dsp_dirty: false,
            tuning_dirty: false,
            tx_state_dirty: false,
            radio_state_dirty: false,
        }
    }

    /// Accumulates another command's effects into this batch.
    pub fn merge(&mut self, other: CommandEffects)
        ensures
            final(self).dsp_dirty == (old(self).dsp_dirty || other.dsp_dirty),
            final(self).tuning_dirty == (old(self).tuning_dirty || other.tuning_dirty),
            final(self).tx_state_dirty == (old(self).tx_state_dirty || other.tx_state_dirty),
            final(self).radio_state_dirty == (old(self).radio_state_dirty
                || other.radio_state_dirty),
    {
        self.dsp_dirty = self.dsp_dirty || other.dsp_dirty;
        self.tuning_dirty = self.tuning_dirty || other.tuning_dirty;
        self.tx_state_dirty = self.tx_state_dirty || other.tx_state_dirty;
        self.radio_state_dirty = self.radio_state_dirty || other.radio_state_dirty;
    }
}

/// Commands that change a receive DSP setting.
pub open spec fn changes_dsp<M>(c: TciCommand<M>) -> bool {
    ||| c is SetMode
    ||| c is SetFilterBand
    ||| c is SetRxVolume
    ||| c is SetRxNoiseReductionMode
    ||| c is SetRxNoiseReductionEnabled
    ||| c is SetRxNoiseReductionLevel
    ||| c is SetRxNr2GainMethod
    ||| c is SetRxNr2NpeMethod
    ||| c is SetRxNr2PostFilterEnabled
    ||| c is SetRxWbfmDeemphasis
    ||| c is SetRxAnrVals
    ||| c is SetNoiseBlankerMode
    ||| c is SetNoiseBlankerThreshold
    ||| c is SetAnfEnabled
    ||| c is SetRxAnfVals
    ||| c is SetAgcMode
    ||| c is SetAgcGain
    ||| c is SetRxEqEnabled
    ||| c is SetRxEqBand
    ||| c is SetRxFftSize
    ||| c is SetRxLowLatency
}

/// Commands that retune the receiver.
pub open spec fn changes_tuning<M>(c: TciCommand<M>) -> bool {
    c is SetVfoA || c is SetVfoB || c is SetIqCenter
}

/// Commands that change the transmit state.
pub open spec fn changes_tx_state<M>(c: TciCommand<M>) -> bool {
    c is SetTxEnabled || c is ClientDisconnected
}

/// Microphone media and heartbeats are not model mutations; everything else is.
pub open spec fn changes_radio_state<M>(c: TciCommand<M>) -> bool {
    !(c is MicAudioFrame || c is SaturnPing)
}

pub open spec fn command_effects_spec<M>(c: TciCommand<M>) -> CommandEffects {
    CommandEffects {
        dsp_dirty: changes_dsp(c),
        tuning_dirty: changes_tuning(c),
        tx_state_dirty: changes_tx_state(c),
        radio_state_dirty: changes_radio_state(c),
    }
}

/// What one command requires of the loop once its batch is done.
pub fn command_effects<M>(command: &TciCommand<M>) -> (e: CommandEffects)
    ensures
        e == command_effects_spec(*command),
{
    let dsp_dirty = match command {
        TciCommand::SetMode(_) | TciCommand::SetFilterBand { .. } | TciCommand::SetRxVolume(_)
        | TciCommand::SetRxNoiseReductionMode(_) | TciCommand::SetRxNoiseReductionEnabled(_)
        | TciCommand::SetRxNoiseReductionLevel(_) | TciCommand::SetRxNr2GainMethod(_)
        | TciCommand::SetRxNr2NpeMethod(_) | TciCommand::SetRxNr2PostFilterEnabled(_)
        | TciCommand::SetRxWbfmDeemphasis(_) | TciCommand::SetRxAnrVals { .. }
        | TciCommand::SetNoiseBlankerMode(_) | TciCommand::SetNoiseBlankerThreshold(_)
        | TciCommand::SetAnfEnabled(_) | TciCommand::SetRxAnfVals { .. }
        | TciCommand::SetAgcMode(_) | TciCommand::SetAgcGain(_) | TciCommand::SetRxEqEnabled(_)
        | TciCommand::SetRxEqBand { .. } | TciCommand::SetRxFftSize(_)
        | TciCommand::SetRxLowLatency(_) => true,
        _ => false,
    };
    let tuning_dirty = match command {
        TciCommand::SetVfoA(_) | TciCommand::SetVfoB(_) | TciCommand::SetIqCenter(_) => true,
        _ => false,
    };
    let tx_state_dirty = match command {
        TciCommand::SetTxEnabled(_) | TciCommand::ClientDisconnected => true,
        _ => false,
    };
    let radio_state_dirty = match command {
        TciCommand::MicAudioFrame(_) | TciCommand::SaturnPing { .. } => false,
        _ => true,
    };
    CommandEffects { dsp_dirty, tuning_dirty, tx_state_dirty, radio_state_dirty }
}

/// RF transmit is enabled only when the operator asked for it and the firmware
/// is qualified for it.
pub fn effective_direct_tx_rf_enabled(requested: bool, firmware_qualified: bool) -> (enabled:
    bool)
    ensures
        enabled == (requested && firmware_qualified),
{
    requested && firmware_qualified
}

/// Readiness of the receive path as the backend reports it.
#[derive(Clone, Copy, Debug, PartialEq, Eq, Structural)]
pub enum DirectReadiness {
    Starting,
    Ready,
}

impl DirectReadiness {
    pub open spec fn label_spec(self) -> Seq<char> {
        match self {
            DirectReadiness::Starting => "starting"@,
            DirectReadiness::Ready => "ready"@,
        }
    }

    pub fn label(self) -> (s: &'static str)
        ensures
            s@ == self.label_spec(),
    {
        match self {
            DirectReadiness::Starting => "starting",
            DirectReadiness::Ready => "ready",
        }
    }
}

/// The receive path turns ready once both its DMA reads and its captured IQ
/// pairs reach their thresholds, and stays ready.
pub fn next_readiness(state: DirectReadiness, dma_reads: u64, iq_pairs: u64) -> (next:
    DirectReadiness)
    ensures
        next == (if state == DirectReadiness::Ready || (dma_reads >= READY_DMA_READS && iq_pairs
            >= READY_IQ_PAIRS) {
            DirectReadiness::Ready
        } else {
            DirectReadiness::Starting
        }),
{
    match state {
        DirectReadiness::Ready => DirectReadiness::Ready,
        DirectReadiness::Starting => {
            if dma_reads >= READY_DMA_READS && iq_pairs >= READY_IQ_PAIRS {
                DirectReadiness::Ready
            } else {
                DirectReadiness::Starting
            }
        },
    }
}

/// Transmit phase of the radio model.
#[derive(Clone, Copy, Debug, PartialEq, Eq, Structural)]
pub enum TxPhase {
    Rx,
    Armed,
    Keyed,
}

/// What the loop sends to the transmit worker after a transmit request.
#[derive(Clone, Copy, Debug, PartialEq, Eq, Structural)]
pub enum DirectTxAction {
    /// Nothing changes.
    Unchanged,
    /// Transmit was refused because the receiver is in wide FM.
    RefusedWhileWfm,
    /// Arm the worker; the loop also clears the split release window and
    /// raises transmit media priority.
    Arm { rf_enabled: bool },
    /// Disarm the worker; the loop also marks the split session released and
    /// lowers transmit media priority.
    Disarm,
}

/// Why the watchdog dropped a transmit request.
#[derive(Clone, Copy, Debug, PartialEq, Eq, Structural)]
pub struct DirectTxWatchdogTrip {
    pub mic_stale: bool,
    pub control_stale: bool,
}

/// The direct backend's transmit request together with the transmit fields of
/// the radio model that it owns.
pub struct DirectTxControl {
    pub requested: bool,
    pub last_mic_at_ns: Option<u64>,
    pub tx_enabled: bool,
    pub phase: TxPhase,
    pub drive: u8,
}

/// Whether `now` is more than `limit` after `last` (saturating at zero).
pub open spec fn elapsed_beyond(now: u64, last: u64, limit: u64) -> bool {
    now > last && now - last > limit
}

pub open spec fn mic_stale_spec(c: DirectTxControl, now_ns: u64, source_is_tci: bool) -> bool {
    source_is_tci && match c.last_mic_at_ns {
        Some(last) => elapsed_beyond(now_ns, last, TX_UPLINK_TIMEOUT_NS),
        None => false,
    }
}

pub open spec fn control_stale_spec(now_ns: u64, last_control_ns: Option<u64>) -> bool {
    match last_control_ns {
        Some(last) => elapsed_beyond(now_ns, last, TX_CONTROL_TIMEOUT_NS),
        None => false,
    }
}

/// `value` limited to `lo..=hi`.
pub open spec fn clamp_int(value: int, lo: int, hi: int) -> int {
    if value < lo {
        lo
    } else if value > hi {
        hi
    } else {
        value
    }
}

impl DirectTxControl {
    /// No microphone time is kept without a transmit request, and the drive
    /// never exceeds the direct backend's limit.
    pub open spec fn wf(&self) -> bool {
        &&& (!self.requested ==> self.last_mic_at_ns is None)
        &&& self.drive <= DIRECT_TX_MAX_WATTS
    }

    /// Receiving, not transmitting, nothing requested.
    pub open spec fn is_receiving(&self) -> bool {
        &&& !self.requested
        &&& self.last_mic_at_ns is None
        &&& !self.tx_enabled
        &&& self.phase == TxPhase::Rx
    }

    /// Startup state: receiving, with the configured drive capped.
    pub fn new(initial_drive: u8) -> (c: DirectTxControl)
        ensures
            c.wf(),
            c.is_receiving(),
            c.drive == (if initial_drive > DIRECT_TX_MAX_WATTS {
                DIRECT_TX_MAX_WATTS
            } else {
                initial_drive
            }),
    {
        let drive = if initial_drive > DIRECT_TX_MAX_WATTS {
            DIRECT_TX_MAX_WATTS
        } else {
            initial_drive
        };
        DirectTxControl {
            requested: false,
            last_mic_at_ns: None,
            tx_enabled: false,
            phase: TxPhase::Rx,
            drive,
        }
    }

    fn drop_request(&mut self)
        ensures
            final(self).is_receiving(),
            final(self).drive == old(self).drive,
    {
        self.requested = false;
        self.last_mic_at_ns = None;
        self.tx_enabled = false;
        self.phase = TxPhase::Rx;
    }

    /// A microphone frame: its arrival time is kept while transmit is
    /// requested, and it is forwarded to the transmit ingress only then and
    /// only when TCI is the microphone source.
    pub fn mic_frame(&mut self, received_at_ns: u64, source_is_tci: bool) -> (forward: bool)
        requires
            old(self).wf(),
        ensures
            final(self).wf(),
            forward == (old(self).requested && source_is_tci),
            final(self).last_mic_at_ns == (if old(self).requested {
                Some(received_at_ns)
            } else {
                old(self).last_mic_at_ns
            }),
            final(self).requested == old(self).requested,
            final(self).tx_enabled == old(self).tx_enabled,
            final(self).phase == old(self).phase,
            final(self).drive == old(self).drive,
    {
        if self.requested {
            self.last_mic_at_ns = Some(received_at_ns);
            source_is_tci
        } else {
            false
        }
    }

    /// The operator's `trx` request.
    pub fn set_tx_enabled(&mut self, enabled: bool, wfm_active: bool, rf_enabled: bool) -> (action:
        DirectTxAction)
        requires
            old(self).wf(),
        ensures
            final(self).wf(),
            enabled && wfm_active ==> {
                &&& action == DirectTxAction::RefusedWhileWfm
                &&& !final(self).tx_enabled
                &&& final(self).phase == TxPhase::Rx
                &&& final(self).requested == old(self).requested
                &&& final(self).last_mic_at_ns == old(self).last_mic_at_ns
                &&& final(self).drive == old(self).drive
            },
            enabled && !wfm_active && !old(self).requested ==> {
                &&& action == (DirectTxAction::Arm { rf_enabled })
                &&& final(self).requested
                &&& final(self).last_mic_at_ns is None
                &&& !final(self).tx_enabled
                &&& final(self).phase == TxPhase::Armed
                &&& final(self).drive == old(self).drive
            },
            enabled && !wfm_active && old(self).requested ==> {
                &&& action == DirectTxAction::Unchanged
                &&& *final(self) == *old(self)
            },
            !enabled && (old(self).requested || old(self).tx_enabled) ==> {
                &&& action == DirectTxAction::Disarm
                &&& final(self).is_receiving()
                &&& final(self).drive == old(self).drive
            },
            !enabled && !old(self).requested && !old(self).tx_enabled ==> {
                &&& action == DirectTxAction::Unchanged
                &&& *final(self) == *old(self)
            },
    {
        if enabled && wfm_active {
            self.tx_enabled = false;
            self.phase = TxPhase::Rx;
            DirectTxAction::RefusedWhileWfm
        } else if enabled && !self.requested {
            self.requested = true;
            self.last_mic_at_ns = None;
            self.tx_enabled = false;
            self.phase = TxPhase::Armed;
            DirectTxAction::Arm { rf_enabled }
        } else if !enabled && (self.requested || self.tx_enabled) {
            self.drop_request();
            DirectTxAction::Disarm
        } else {
            DirectTxAction::Unchanged
        }
    }

    /// A client went away: the request is dropped and the worker disarmed.
    pub fn client_disconnected(&mut self)
        requires
            old(self).wf(),
        ensures
            final(self).wf(),
            final(self).is_receiving(),
            final(self).drive == old(self).drive,
    {
        self.drop_request();
    }

    /// The worker reports that RF is keyed.
    pub fn tx_keyed(&mut self)
        requires
            old(self).wf(),
        ensures
            final(self).wf(),
            final(self).phase == TxPhase::Keyed,
            final(self).requested == old(self).requested,
            final(self).last_mic_at_ns == old(self).last_mic_at_ns,
            final(self).tx_enabled == old(self).tx_enabled,
            final(self).drive == old(self).drive,
    {
        self.phase = TxPhase::Keyed;
    }

    /// The worker reports that RF is unkeyed: back to receive.
    pub fn tx_unkeyed(&mut self)
        requires
            old(self).wf(),
        ensures
            final(self).wf(),
            final(self).is_receiving(),
            final(self).drive == old(self).drive,
    {
        self.drop_request();
    }

    /// While transmit is requested, a stale microphone uplink (TCI source
    /// only) or a silent operator control channel drops the request.
    pub fn watchdog(&mut self, now_ns: u64, source_is_tci: bool, last_control_ns: Option<u64>) -> (trip:
        Option<DirectTxWatchdogTrip>)
        requires
            old(self).wf(),
        ensures
            final(self).wf(),
            !old(self).requested ==> trip is None && *final(self) == *old(self),
            old(self).requested ==> {
                let mic = mic_stale_spec(*old(self), now_ns, source_is_tci);
                let control = control_stale_spec(now_ns, last_control_ns);
                if mic || control {
                    &&& trip == Some(DirectTxWatchdogTrip { mic_stale: mic, control_stale: control })
                    &&& final(self).is_receiving()
                    &&& final(self).drive == old(self).drive
                } else {
                    trip is None && *final(self) == *old(self)
                }
            },
    {
        if !self.requested {
            return None;
        }
        let mic_stale = source_is_tci && match self.last_mic_at_ns {
            Some(last) => now_ns > last && now_ns - last > TX_UPLINK_TIMEOUT_NS,
            None => false,
        };
        let control_stale = match last_control_ns {
            Some(last) => now_ns > last && now_ns - last > TX_CONTROL_TIMEOUT_NS,
            None => false,
        };
        if mic_stale || control_stale {
            self.drop_request();
            Some(DirectTxWatchdogTrip { mic_stale, control_stale })
        } else {
            None
        }
    }

    /// The operator's drive setting, limited to one watt up to the backend's maximum.
    pub fn set_tx_drive(&mut self, drive: u8)
        requires
            old(self).wf(),
        ensures
            final(self).wf(),
            final(self).drive == clamp_int(drive as int, 1, DIRECT_TX_MAX_WATTS as int),
            final(self).requested == old(self).requested,
            final(self).last_mic_at_ns == old(self).last_mic_at_ns,
            final(self).tx_enabled == old(self).tx_enabled,
            final(self).phase == old(self).phase,
    {
        self.drive = if drive < 1 {
            1
        } else if drive > DIRECT_TX_MAX_WATTS {
            DIRECT_TX_MAX_WATTS
        } else {
            drive
        };
    }

    /// Transmit media takes priority while transmit is requested or the model
    /// is out of receive.
    pub fn media_priority_active(&self) -> (b: bool)
        ensures
            b == (self.requested || self.phase != TxPhase::Rx),
    {
        self.requested || match self.phase {
            TxPhase::Rx => false,
            _ => true,
        }
    }
}

/// Production two-tone is refused while RF is enabled.
pub fn direct_two_tone_enabled(enabled: bool, rf_enabled: bool) -> (b: bool)
    ensures
        b == (enabled && !rf_enabled),
{
    enabled && !rf_enabled
}

/// `v` limited to `lo..=hi`.
pub open spec fn limit_i32(v: i32, lo: i32, hi: i32) -> i32 {
    if v < lo {
        lo
    } else if v > hi {
        hi
    } else {
        v
    }
}

/// `v` limited to `lo..=hi`.
pub open spec fn limit_u8(v: u8, lo: u8, hi: u8) -> u8 {
    if v < lo {
        lo
    } else if v > hi {
        hi
    } else {
        v
    }
}

/// The receive antenna, limited to the three inputs.
pub fn direct_rx_antenna(antenna: u8) -> (a: u8)
    ensures
        a == limit_u8(antenna, 1, 3),
{
    if antenna < 1 {
        1
    } else if antenna > 3 {
        3
    } else {
        antenna
    }
}

/// Adaptive filter taps, limited to `1..=128`.
pub fn adaptive_filter_taps(taps: i32) -> (t: i32)
    ensures
        t == limit_i32(taps, 1, 128),
{
    if taps < 1 {
        1
    } else if taps > 128 {
        128
    } else {
        taps
    }
}

/// Adaptive filter delay, limited to `0..=127`.
pub fn adaptive_filter_delay(delay: i32) -> (d: i32)
    ensures
        d == limit_i32(delay, 0, 127),
{
    if delay < 0 {
        0
    } else if delay > 127 {
        127
    } else {
        delay
    }
}

/// Equaliser band gain, limited to `-20..=20` dB.
pub fn eq_band_gain_db(gain_db: i32) -> (g: i32)
    ensures
        g == limit_i32(gain_db, -20i32, 20i32),
{
    if gain_db < -20 {
        -20
    } else if gain_db > 20 {
        20
    } else {
        gain_db
    }
}

/// Two-tone start delay, at most two seconds.
pub fn two_tone_delay_ms(delay_ms: u16) -> (d: u16)
    ensures
        d == (if delay_ms > 2000 { 2000 } else { delay_ms }),
{
    if delay_ms > 2000 {
        2000
    } else {
        delay_ms
    }
}

/// The slot of a one-based CFC band number, when it names one of `band_count` bands.
pub fn cfc_band_slot(band: usize, band_count: usize) -> (slot: Option<usize>)
    ensures
        slot == (if 1 <= band && band <= band_count {
            Some((band - 1) as usize)
        } else {
            None::<usize>
        }),
{
    if 1 <= band && band <= band_count {
        Some(band - 1)
    } else {
        None
    }
}

pub open spec fn is_power_of_two(n: nat) -> bool
    decreases n,
{
    if n == 0 {
        false
    } else if n == 1 {
        true
    } else {
        n % 2 == 0 && is_power_of_two(n / 2)
    }
}

/// The FFT size: the request limited to `1024..=262144`, rounded down to a power of two.
pub fn normalized_fft_size(size: u32) -> (n: u32)
    ensures
        is_power_of_two(n as nat),
        n <= clamp_int(size as int, 1024, 262_144) < 2 * n,
        1024 <= n <= 262_144,
{
    let clamped: u32 = if size < 1024 {
        1024
    } else if size > 262_144 {
        262_144
    } else {
        size
    };
    let mut n: u32 = 1024;
    proof {
        reveal_with_fuel(is_power_of_two, 12);
    }
    while n <= clamped / 2
        invariant
            1024 <= n <= clamped,
            1024 <= clamped <= 262_144,
            is_power_of_two(n as nat),
        decreases clamped - n,
    {
        proof {
            assert((2 * n) as nat / 2 == n as nat);
        }
        n = n * 2;
    }
    n
}

} // verus!
