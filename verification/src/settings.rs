//! What a radio-control command does to the desired radio settings, with
//! the limits the direct backend applies, and what the backend must do next
//! (retune, reroute, notify the transmit worker, or apply a real-valued
//! setting).
use vstd::prelude::*;
use crate::backend::{
    adaptive_filter_delay, adaptive_filter_taps, clamp_int, direct_rx_antenna, eq_band_gain_db,
    is_power_of_two, limit_i32, limit_u8, normalized_fft_size, two_tone_delay_ms,
    DIRECT_TX_MAX_WATTS,
};
use crate::commands::TciCommand;
use crate::snapshot::RadioSnapshot;
use crate::tx_control::DemodMode;

verus! {

/// What the backend does after a command changed the desired settings.
#[derive(Clone, Copy, Debug, PartialEq, Eq, Structural)]
pub enum RadioAction {
    /// Nothing beyond the settings change.
    Unchanged,
    /// Retune the receiver to this IQ centre.
    Retune { center_hz: u64 },
    /// A VFO moved: route the VFOs, retune to the routed centre and notify
    /// the transmit worker.
    VfoChanged,
    /// Demodulate in this mode (wide FM falls back to FM where the DSP lacks
    /// it) with the mode's default filter band.
    ModeChanged { mode: DemodMode },
    /// Switch the receive antenna input.
    SetAntenna { antenna: u8 },
    /// Only ADC1 receives; this other ADC was refused (the setting is ADC1).
    RefusedAdc { adc: u8 },
    /// The receive rate is fixed; this rate was refused.
    RefusedIqRate { rate_hz: u32 },
    /// Notify the transmit worker that its settings changed.
    WorkerModelChanged,
    /// Production two-tone is refused while RF transmit is enabled.
    TwoToneRefused,
    /// PureSignal is unavailable on this backend; it was switched off.
    PureSignalUnavailable,
    /// The command carries a real-valued setting, which the caller limits and
    /// stores (with a worker notification for transmit settings); any
    /// integer parts of it were applied here.
    RealSetting,
    /// Not a settings command: transmit, audio, heartbeat, session and
    /// microphone commands are handled by their own owners.
    NotASetting,
}

/// Wide FM where the DSP supports it, FM otherwise.
pub open spec fn effective_mode(mode: DemodMode, wbfm_supported: bool) -> DemodMode {
    if mode == DemodMode::Wfm && !wbfm_supported {
        DemodMode::Fm
    } else {
        mode
    }
}

/// `current`, or the limited `value` when one was given.
pub open spec fn limited_or(current: i64, value: Option<i32>, lo: i32, hi: i32) -> i64 {
    match value {
        Some(v) => limit_i32(v, lo, hi) as i64,
        None => current,
    }
}

/// `n` is the FFT size for a requested `size`: the largest power of two not
/// above `size` limited to `1024..=262144`.
pub open spec fn fft_size_for(size: u32, n: u64) -> bool {
    &&& is_power_of_two(n as nat)
    &&& n <= clamp_int(size as int, 1024, 262_144) < 2 * n
}

/// Equaliser bands are numbered from one and the tables hold eleven entries.
pub open spec fn radio_command_in_range<M>(c: TciCommand<M>) -> bool {
    match c {
        TciCommand::SetRxEqBand { band, .. } => band < 11,
        TciCommand::SetTxEqBand { band, .. } => band < 11,
        _ => true,
    }
}

/// The settings `n` and action `a` after command `c` on settings `o`; every
/// field a command does not name keeps its value.
/// The settings and action after one of the tuning, mode, filter, ADC, antenna and receive-rate commands.
#[verifier::opaque]
pub open spec fn tuning_command_post<M>(
    o: RadioSnapshot,
    c: TciCommand<M>,
    remote_tx_rf_enabled: bool,
    n: RadioSnapshot,
    a: RadioAction,
) -> bool {
    match c {
        TciCommand::SetVfoA(f) => n == (RadioSnapshot { vfo_a_hz: f as u64, ..o }) && a == RadioAction::VfoChanged,
        TciCommand::SetVfoB(f) => n == (RadioSnapshot { vfo_b_hz: f as u64, ..o }) && a == RadioAction::VfoChanged,
        TciCommand::SetIqCenter(f) => n == (RadioSnapshot { iq_center_hz: f as u64, ..o }) && a == (RadioAction::Retune { center_hz: f as u64 }),
        TciCommand::SetMode(m) => n == o && a == (RadioAction::ModeChanged { mode: effective_mode(m, o.rx_wbfm_supported) }),
        TciCommand::SetFilterBand { low_hz, high_hz } => n == (RadioSnapshot {
            filter_low_hz: low_hz as i64,
            filter_high_hz: high_hz as i64,
            ..o
        }) && a == RadioAction::Unchanged,
        TciCommand::SetRxAdc(adc) => n == (RadioSnapshot { ddc0_adc: 0, ..o }) && a == (if adc != 0 {
            RadioAction::RefusedAdc { adc }
        } else {
            RadioAction::Unchanged
        }),
        TciCommand::SetRxAntenna(x) => {
            let antenna = limit_u8(x, 1, 3);
            n == (RadioSnapshot { rx_antenna: antenna as u64, ..o }) && a == (RadioAction::SetAntenna { antenna })
        },
        TciCommand::SetIqSampleRate(r) => n == o && a == (if r as int != o.ddc0_sample_rate_khz as int * 1000 {
            RadioAction::RefusedIqRate { rate_hz: r }
        } else {
            RadioAction::Unchanged
        }),
        TciCommand::SetIqStreaming => n == o && a == RadioAction::Unchanged,
        TciCommand::RequestSmeter => n == o && a == RadioAction::Unchanged,
        _ => false,
    }
}

/// The settings and action after one of the receive DSP commands.
#[verifier::opaque]
pub open spec fn receive_dsp_command_post<M>(
    o: RadioSnapshot,
    c: TciCommand<M>,
    remote_tx_rf_enabled: bool,
    n: RadioSnapshot,
    a: RadioAction,
) -> bool {
    match c {
        TciCommand::SetRxNoiseReductionMode(t) => n == (RadioSnapshot { rx_noise_reduction_mode: t, ..o }) && a == RadioAction::Unchanged,
        TciCommand::SetRxNoiseReductionEnabled(e) => n == (RadioSnapshot { rx_noise_reduction_on: e, ..o }) && a == RadioAction::Unchanged,
        TciCommand::SetRxNr2GainMethod(t) => n == (RadioSnapshot { rx_nr2_gain_method: t, ..o }) && a == RadioAction::Unchanged,
        TciCommand::SetRxNr2NpeMethod(t) => n == (RadioSnapshot { rx_nr2_npe_method: t, ..o }) && a == RadioAction::Unchanged,
        TciCommand::SetRxNr2PostFilterEnabled(e) => n == (RadioSnapshot { rx_nr2_post_filter_enabled: e, ..o }) && a == RadioAction::Unchanged,
        TciCommand::SetRxWbfmDeemphasis(t) => n == (RadioSnapshot { rx_wbfm_deemphasis: t, ..o }) && a == RadioAction::Unchanged,
        TciCommand::SetRxAnrVals { taps, delay, gain, leakage } => n == (RadioSnapshot {
            rx_anr_taps: limited_or(o.rx_anr_taps, taps, 1, 128),
            rx_anr_delay: limited_or(o.rx_anr_delay, delay, 0, 127),
            ..o
        }) && a == (if gain is Some || leakage is Some { RadioAction::RealSetting } else { RadioAction::Unchanged }),
        TciCommand::SetRxAnfVals { taps, delay, gain, leakage } => n == (RadioSnapshot {
            rx_anf_taps: limited_or(o.rx_anf_taps, taps, 1, 128),
            rx_anf_delay: limited_or(o.rx_anf_delay, delay, 0, 127),
            ..o
        }) && a == (if gain is Some || leakage is Some { RadioAction::RealSetting } else { RadioAction::Unchanged }),
        TciCommand::SetNoiseBlankerMode(t) => n == (RadioSnapshot { nb_mode: t, ..o }) && a == RadioAction::Unchanged,
        TciCommand::SetAnfEnabled(e) => n == (RadioSnapshot { anf_enabled: e, ..o }) && a == RadioAction::Unchanged,
        TciCommand::SetAgcMode(t) => n == (RadioSnapshot { agc_mode: t, ..o }) && a == RadioAction::Unchanged,
        TciCommand::SetRxEqEnabled(e) => n == (RadioSnapshot { rx_eq_enabled: e, ..o }) && a == RadioAction::Unchanged,
        TciCommand::SetRxEqBand { band, gain_db } => {
            &&& n == (RadioSnapshot { rx_eq_bands: n.rx_eq_bands, ..o })
            &&& n.rx_eq_bands@ == o.rx_eq_bands@.update(band as int, limit_i32(gain_db, -20i32, 20i32) as i64)
            &&& a == RadioAction::Unchanged
        },
        TciCommand::SetRxFftSize(s) => {
            &&& n == (RadioSnapshot { rx_fft_size: n.rx_fft_size, ..o })
            &&& fft_size_for(s, n.rx_fft_size)
            &&& a == RadioAction::Unchanged
        },
        TciCommand::SetRxLowLatency(e) => n == (RadioSnapshot { rx_low_latency: e, ..o }) && a == RadioAction::Unchanged,
        _ => false,
    }
}

/// The settings and action after one of the transmit settings commands.
#[verifier::opaque]
pub open spec fn transmit_command_post<M>(
    o: RadioSnapshot,
    c: TciCommand<M>,
    remote_tx_rf_enabled: bool,
    n: RadioSnapshot,
    a: RadioAction,
) -> bool {
    match c {
        TciCommand::SetTxDrive(d) => n == (RadioSnapshot {
            tx_drive: limit_u8(d, 1, DIRECT_TX_MAX_WATTS) as u64,
            ..o
        }) && a == RadioAction::WorkerModelChanged,
        TciCommand::SetTxFilterBand { low_hz, high_hz } => n == (RadioSnapshot {
            tx_filter_low_hz: low_hz as i64,
            tx_filter_high_hz: high_hz as i64,
            ..o
        }) && a == RadioAction::WorkerModelChanged,
        TciCommand::SetTxEqEnabled(e) => n == (RadioSnapshot { tx_eq_enabled: e, ..o }) && a == RadioAction::WorkerModelChanged,
        TciCommand::SetTxEqBand { band, gain_db } => {
            &&& n == (RadioSnapshot { tx_eq_bands: n.tx_eq_bands, ..o })
            &&& n.tx_eq_bands@ == o.tx_eq_bands@.update(band as int, limit_i32(gain_db, -20i32, 20i32) as i64)
            &&& a == RadioAction::WorkerModelChanged
        },
        TciCommand::SetTxCfcEnabled(e) => n == (RadioSnapshot { cfc_enabled: e, ..o }) && a == RadioAction::WorkerModelChanged,
        TciCommand::SetTxPhaseRotatorEnabled(e) => n == (RadioSnapshot { tx_phase_rotator_enabled: e, ..o }) && a == RadioAction::WorkerModelChanged,
        TciCommand::SetTxPhaseRotatorAuto(e) => n == (RadioSnapshot { tx_phase_rotator_auto: e, ..o }) && a == RadioAction::WorkerModelChanged,
        TciCommand::SetPureSignalEnabled(_) => n == (RadioSnapshot { pure_signal_enabled: false, ..o }) && a == RadioAction::PureSignalUnavailable,
        TciCommand::SetPureSignalAutoAttenuate(_) => n == (RadioSnapshot { pure_signal_enabled: false, ..o }) && a == RadioAction::PureSignalUnavailable,
        TciCommand::SetPureSignalAttenuation(_) => n == (RadioSnapshot { pure_signal_enabled: false, ..o }) && a == RadioAction::PureSignalUnavailable,
        TciCommand::ResetPureSignal => n == (RadioSnapshot { pure_signal_enabled: false, ..o }) && a == RadioAction::PureSignalUnavailable,
        TciCommand::SetTxTwoToneTest(e) => if e && remote_tx_rf_enabled {
            n == (RadioSnapshot { two_tone_enabled: false, ..o }) && a == RadioAction::TwoToneRefused
        } else {
            n == (RadioSnapshot { two_tone_enabled: e, ..o }) && a == RadioAction::WorkerModelChanged
        },
        TciCommand::SetTxTwoToneInvertLsb(e) => n == (RadioSnapshot { tx_two_tone_invert_lsb: e, ..o }) && a == RadioAction::WorkerModelChanged,
        TciCommand::SetTxTwoToneDelayMs(d) => n == (RadioSnapshot {
            tx_two_tone_delay_ms: (if d > 2000 { 2000 } else { d }) as u64,
            ..o
        }) && a == RadioAction::WorkerModelChanged,
        TciCommand::SetTxNoiseGateEnabled(e) => n == (RadioSnapshot { tx_noise_gate_enabled: e, ..o }) && a == RadioAction::WorkerModelChanged,
        TciCommand::SetTxFftSize(s) => {
            &&& n == (RadioSnapshot { tx_fft_size: n.tx_fft_size, ..o })
            &&& fft_size_for(s, n.tx_fft_size)
            &&& a == RadioAction::WorkerModelChanged
        },
        TciCommand::SetTxLowLatency(e) => n == (RadioSnapshot { tx_low_latency: e, ..o }) && a == RadioAction::WorkerModelChanged,
        _ => false,
    }
}

/// The settings and action after one of the real-valued settings and commands that are not settings.
pub open spec fn other_command_post<M>(
    o: RadioSnapshot,
    c: TciCommand<M>,
    remote_tx_rf_enabled: bool,
    n: RadioSnapshot,
    a: RadioAction,
) -> bool {
    match c {
        TciCommand::SetRxVolume(_) => n == o && a == RadioAction::RealSetting,
        TciCommand::SetRxNoiseReductionLevel(_) => n == o && a == RadioAction::RealSetting,
        TciCommand::SetNoiseBlankerThreshold(_) => n == o && a == RadioAction::RealSetting,
        TciCommand::SetAgcGain(_) => n == o && a == RadioAction::RealSetting,
        TciCommand::SetTxMicGain(_) => n == o && a == RadioAction::RealSetting,
        TciCommand::SetTxCfcPrecomp(_) => n == o && a == RadioAction::RealSetting,
        TciCommand::SetTxCfcBand { .. } => n == o && a == RadioAction::RealSetting,
        TciCommand::SetTxPhaseRotatorCorner(_) => n == o && a == RadioAction::RealSetting,
        TciCommand::SetTxTwoToneFreq1(_) => n == o && a == RadioAction::RealSetting,
        TciCommand::SetTxTwoToneFreq2(_) => n == o && a == RadioAction::RealSetting,
        TciCommand::SetTxTwoToneLevelDb(_) => n == o && a == RadioAction::RealSetting,
        TciCommand::SetTxNoiseGateThreshold(_) => n == o && a == RadioAction::RealSetting,
        _ => n == o && a == RadioAction::NotASetting,

    }
}

pub open spec fn radio_command_post<M>(
    o: RadioSnapshot,
    c: TciCommand<M>,
    remote_tx_rf_enabled: bool,
    n: RadioSnapshot,
    a: RadioAction,
) -> bool {
    if is_tuning_command(c) {
        tuning_command_post(o, c, remote_tx_rf_enabled, n, a)
    } else if is_receive_dsp_command(c) {
        receive_dsp_command_post(o, c, remote_tx_rf_enabled, n, a)
    } else if is_transmit_command(c) {
        transmit_command_post(o, c, remote_tx_rf_enabled, n, a)
    } else {
        other_command_post(o, c, remote_tx_rf_enabled, n, a)
    }
}

/// `current`, or the adaptive-filter taps (`taps`) or delay limit of `value`.
fn limited_or_exec(current: i64, value: Option<i32>, taps: bool) -> (r: i64)
    ensures
        taps ==> r == limited_or(current, value, 1, 128),
        !taps ==> r == limited_or(current, value, 0, 127),
{
    match value {
        Some(v) => if taps {
            adaptive_filter_taps(v) as i64
        } else {
            adaptive_filter_delay(v) as i64
        },
        None => current,
    }
}

pub open spec fn is_tuning_command<M>(c: TciCommand<M>) -> bool {
    c is SetVfoA || c is SetVfoB || c is SetIqCenter || c is SetMode || c is SetFilterBand || c is SetRxAdc || c is SetRxAntenna || c is SetIqSampleRate || c is SetIqStreaming || c is RequestSmeter
}

pub open spec fn is_receive_dsp_command<M>(c: TciCommand<M>) -> bool {
    c is SetRxNoiseReductionMode || c is SetRxNoiseReductionEnabled || c is SetRxNr2GainMethod || c is SetRxNr2NpeMethod || c is SetRxNr2PostFilterEnabled || c is SetRxWbfmDeemphasis || c is SetRxAnrVals || c is SetRxAnfVals || c is SetNoiseBlankerMode || c is SetAnfEnabled || c is SetAgcMode || c is SetRxEqEnabled || c is SetRxEqBand || c is SetRxFftSize || c is SetRxLowLatency
}

pub open spec fn is_transmit_command<M>(c: TciCommand<M>) -> bool {
    c is SetTxDrive || c is SetTxFilterBand || c is SetTxEqEnabled || c is SetTxEqBand || c is SetTxCfcEnabled || c is SetTxPhaseRotatorEnabled || c is SetTxPhaseRotatorAuto || c is SetPureSignalEnabled || c is SetPureSignalAutoAttenuate || c is SetPureSignalAttenuation || c is ResetPureSignal || c is SetTxTwoToneTest || c is SetTxTwoToneInvertLsb || c is SetTxTwoToneDelayMs || c is SetTxNoiseGateEnabled || c is SetTxFftSize || c is SetTxLowLatency
}

#[verifier::rlimit(40)]
fn apply_set_vfo_a<M>(settings: &mut RadioSnapshot, command: &TciCommand<M>, remote_tx_rf_enabled: bool) -> (action: RadioAction)
    requires
        command is SetVfoA,
        radio_command_in_range(*command),
    ensures
        tuning_command_post(*old(settings), *command, remote_tx_rf_enabled, *final(settings), action),
{
    proof {
        reveal(tuning_command_post);
    }
    match command {
        TciCommand::SetVfoA(f) => {
            settings.vfo_a_hz = *f as u64;
            RadioAction::VfoChanged
        },
        _ => RadioAction::NotASetting,
    }
}

#[verifier::rlimit(40)]
fn apply_set_vfo_b<M>(settings: &mut RadioSnapshot, command: &TciCommand<M>, remote_tx_rf_enabled: bool) -> (action: RadioAction)
    requires
        command is SetVfoB,
        radio_command_in_range(*command),
    ensures
        tuning_command_post(*old(settings), *command, remote_tx_rf_enabled, *final(settings), action),
{
    proof {
        reveal(tuning_command_post);
    }
    match command {
        TciCommand::SetVfoB(f) => {
            settings.vfo_b_hz = *f as u64;
            RadioAction::VfoChanged
        },
        _ => RadioAction::NotASetting,
    }
}

#[verifier::rlimit(40)]
fn apply_set_iq_center<M>(settings: &mut RadioSnapshot, command: &TciCommand<M>, remote_tx_rf_enabled: bool) -> (action: RadioAction)
    requires
        command is SetIqCenter,
        radio_command_in_range(*command),
    ensures
        tuning_command_post(*old(settings), *command, remote_tx_rf_enabled, *final(settings), action),
{
    proof {
        reveal(tuning_command_post);
    }
    match command {
        TciCommand::SetIqCenter(f) => {
            settings.iq_center_hz = *f as u64;
            RadioAction::Retune { center_hz: *f as u64 }
        },
        _ => RadioAction::NotASetting,
    }
}

#[verifier::rlimit(40)]
fn apply_set_mode<M>(settings: &mut RadioSnapshot, command: &TciCommand<M>, remote_tx_rf_enabled: bool) -> (action: RadioAction)
    requires
        command is SetMode,
        radio_command_in_range(*command),
    ensures
        tuning_command_post(*old(settings), *command, remote_tx_rf_enabled, *final(settings), action),
{
    proof {
        reveal(tuning_command_post);
    }
    match command {
        TciCommand::SetMode(m) => {
            let mode = if *m == DemodMode::Wfm && !settings.rx_wbfm_supported {
                DemodMode::Fm
            } else {
                *m
            };
            RadioAction::ModeChanged { mode }
        },
        _ => RadioAction::NotASetting,
    }
}

#[verifier::rlimit(40)]
fn apply_set_filter_band<M>(settings: &mut RadioSnapshot, command: &TciCommand<M>, remote_tx_rf_enabled: bool) -> (action: RadioAction)
    requires
        command is SetFilterBand,
        radio_command_in_range(*command),
    ensures
        tuning_command_post(*old(settings), *command, remote_tx_rf_enabled, *final(settings), action),
{
    proof {
        reveal(tuning_command_post);
    }
    match command {
        TciCommand::SetFilterBand { low_hz, high_hz } => {
            settings.filter_low_hz = *low_hz as i64;
            settings.filter_high_hz = *high_hz as i64;
            RadioAction::Unchanged
        },
        _ => RadioAction::NotASetting,
    }
}

#[verifier::rlimit(40)]
fn apply_set_rx_adc<M>(settings: &mut RadioSnapshot, command: &TciCommand<M>, remote_tx_rf_enabled: bool) -> (action: RadioAction)
    requires
        command is SetRxAdc,
        radio_command_in_range(*command),
    ensures
        tuning_command_post(*old(settings), *command, remote_tx_rf_enabled, *final(settings), action),
{
    proof {
        reveal(tuning_command_post);
    }
    match command {
        TciCommand::SetRxAdc(adc) => {
            settings.ddc0_adc = 0;
            if *adc != 0 {
                RadioAction::RefusedAdc { adc: *adc }
            } else {
                RadioAction::Unchanged
            }
        },
        _ => RadioAction::NotASetting,
    }
}

#[verifier::rlimit(40)]
fn apply_set_rx_antenna<M>(settings: &mut RadioSnapshot, command: &TciCommand<M>, remote_tx_rf_enabled: bool) -> (action: RadioAction)
    requires
        command is SetRxAntenna,
        radio_command_in_range(*command),
    ensures
        tuning_command_post(*old(settings), *command, remote_tx_rf_enabled, *final(settings), action),
{
    proof {
        reveal(tuning_command_post);
    }
    match command {
        TciCommand::SetRxAntenna(x) => {
            let antenna = direct_rx_antenna(*x);
            settings.rx_antenna = antenna as u64;
            RadioAction::SetAntenna { antenna }
        },
        _ => RadioAction::NotASetting,
    }
}

#[verifier::rlimit(40)]
fn apply_set_iq_sample_rate<M>(settings: &mut RadioSnapshot, command: &TciCommand<M>, remote_tx_rf_enabled: bool) -> (action: RadioAction)
    requires
        command is SetIqSampleRate,
        radio_command_in_range(*command),
    ensures
        tuning_command_post(*old(settings), *command, remote_tx_rf_enabled, *final(settings), action),
{
    proof {
        reveal(tuning_command_post);
    }
    match command {
        TciCommand::SetIqSampleRate(r) => {
            if *r as u64 != settings.ddc0_sample_rate_khz as u64 * 1000 {
                RadioAction::RefusedIqRate { rate_hz: *r }
            } else {
                RadioAction::Unchanged
            }
        },
        _ => RadioAction::NotASetting,
    }
}

#[verifier::rlimit(40)]
fn apply_set_iq_streaming<M>(settings: &mut RadioSnapshot, command: &TciCommand<M>, remote_tx_rf_enabled: bool) -> (action: RadioAction)
    requires
        command is SetIqStreaming,
        radio_command_in_range(*command),
    ensures
        tuning_command_post(*old(settings), *command, remote_tx_rf_enabled, *final(settings), action),
{
    proof {
        reveal(tuning_command_post);
    }
    match command {
        TciCommand::SetIqStreaming => RadioAction::Unchanged,
        _ => RadioAction::NotASetting,
    }
}

#[verifier::rlimit(40)]
fn apply_request_smeter<M>(settings: &mut RadioSnapshot, command: &TciCommand<M>, remote_tx_rf_enabled: bool) -> (action: RadioAction)
    requires
        command is RequestSmeter,
        radio_command_in_range(*command),
    ensures
        tuning_command_post(*old(settings), *command, remote_tx_rf_enabled, *final(settings), action),
{
    proof {
        reveal(tuning_command_post);
    }
    match command {
        TciCommand::RequestSmeter => RadioAction::Unchanged,

        _ => RadioAction::NotASetting,
    }
}

#[verifier::rlimit(40)]
fn apply_set_rx_noise_reduction_mode<M>(settings: &mut RadioSnapshot, command: &TciCommand<M>, remote_tx_rf_enabled: bool) -> (action: RadioAction)
    requires
        command is SetRxNoiseReductionMode,
        radio_command_in_range(*command),
    ensures
        receive_dsp_command_post(*old(settings), *command, remote_tx_rf_enabled, *final(settings), action),
{
    proof {
        reveal(receive_dsp_command_post);
    }
    match command {
        TciCommand::SetRxNoiseReductionMode(t) => {
            settings.rx_noise_reduction_mode = t.clone();
            RadioAction::Unchanged
        },
        _ => RadioAction::NotASetting,
    }
}

#[verifier::rlimit(40)]
fn apply_set_rx_noise_reduction_enabled<M>(settings: &mut RadioSnapshot, command: &TciCommand<M>, remote_tx_rf_enabled: bool) -> (action: RadioAction)
    requires
        command is SetRxNoiseReductionEnabled,
        radio_command_in_range(*command),
    ensures
        receive_dsp_command_post(*old(settings), *command, remote_tx_rf_enabled, *final(settings), action),
{
    proof {
        reveal(receive_dsp_command_post);
    }
    match command {
        TciCommand::SetRxNoiseReductionEnabled(e) => {
            settings.rx_noise_reduction_on = *e;
            RadioAction::Unchanged
        },
        _ => RadioAction::NotASetting,
    }
}

#[verifier::rlimit(40)]
fn apply_set_rx_nr2_gain_method<M>(settings: &mut RadioSnapshot, command: &TciCommand<M>, remote_tx_rf_enabled: bool) -> (action: RadioAction)
    requires
        command is SetRxNr2GainMethod,
        radio_command_in_range(*command),
    ensures
        receive_dsp_command_post(*old(settings), *command, remote_tx_rf_enabled, *final(settings), action),
{
    proof {
        reveal(receive_dsp_command_post);
    }
    match command {
        TciCommand::SetRxNr2GainMethod(t) => {
            settings.rx_nr2_gain_method = t.clone();
            RadioAction::Unchanged
        },
        _ => RadioAction::NotASetting,
    }
}

#[verifier::rlimit(40)]
fn apply_set_rx_nr2_npe_method<M>(settings: &mut RadioSnapshot, command: &TciCommand<M>, remote_tx_rf_enabled: bool) -> (action: RadioAction)
    requires
        command is SetRxNr2NpeMethod,
        radio_command_in_range(*command),
    ensures
        receive_dsp_command_post(*old(settings), *command, remote_tx_rf_enabled, *final(settings), action),
{
    proof {
        reveal(receive_dsp_command_post);
    }
    match command {
        TciCommand::SetRxNr2NpeMethod(t) => {
            settings.rx_nr2_npe_method = t.clone();
            RadioAction::Unchanged
        },
        _ => RadioAction::NotASetting,
    }
}

#[verifier::rlimit(40)]
fn apply_set_rx_nr2_post_filter_enabled<M>(settings: &mut RadioSnapshot, command: &TciCommand<M>, remote_tx_rf_enabled: bool) -> (action: RadioAction)
    requires
        command is SetRxNr2PostFilterEnabled,
        radio_command_in_range(*command),
    ensures
        receive_dsp_command_post(*old(settings), *command, remote_tx_rf_enabled, *final(settings), action),
{
    proof {
        reveal(receive_dsp_command_post);
    }
    match command {
        TciCommand::SetRxNr2PostFilterEnabled(e) => {
            settings.rx_nr2_post_filter_enabled = *e;
            RadioAction::Unchanged
        },
        _ => RadioAction::NotASetting,
    }
}

#[verifier::rlimit(40)]
fn apply_set_rx_wbfm_deemphasis<M>(settings: &mut RadioSnapshot, command: &TciCommand<M>, remote_tx_rf_enabled: bool) -> (action: RadioAction)
    requires
        command is SetRxWbfmDeemphasis,
        radio_command_in_range(*command),
    ensures
        receive_dsp_command_post(*old(settings), *command, remote_tx_rf_enabled, *final(settings), action),
{
    proof {
        reveal(receive_dsp_command_post);
    }
    match command {
        TciCommand::SetRxWbfmDeemphasis(t) => {
            settings.rx_wbfm_deemphasis = t.clone();
            RadioAction::Unchanged
        },
        _ => RadioAction::NotASetting,
    }
}

#[verifier::rlimit(40)]
fn apply_set_rx_anr_vals<M>(settings: &mut RadioSnapshot, command: &TciCommand<M>, remote_tx_rf_enabled: bool) -> (action: RadioAction)
    requires
        command is SetRxAnrVals,
        radio_command_in_range(*command),
    ensures
        receive_dsp_command_post(*old(settings), *command, remote_tx_rf_enabled, *final(settings), action),
{
    proof {
        reveal(receive_dsp_command_post);
    }
    match command {
        TciCommand::SetRxAnrVals { taps, delay, gain, leakage } => {
            settings.rx_anr_taps = limited_or_exec(settings.rx_anr_taps, *taps, true);
            settings.rx_anr_delay = limited_or_exec(settings.rx_anr_delay, *delay, false);
            if gain.is_some() || leakage.is_some() {
                RadioAction::RealSetting
            } else {
                RadioAction::Unchanged
            }
        },
        _ => RadioAction::NotASetting,
    }
}

#[verifier::rlimit(40)]
fn apply_set_rx_anf_vals<M>(settings: &mut RadioSnapshot, command: &TciCommand<M>, remote_tx_rf_enabled: bool) -> (action: RadioAction)
    requires
        command is SetRxAnfVals,
        radio_command_in_range(*command),
    ensures
        receive_dsp_command_post(*old(settings), *command, remote_tx_rf_enabled, *final(settings), action),
{
    proof {
        reveal(receive_dsp_command_post);
    }
    match command {
        TciCommand::SetRxAnfVals { taps, delay, gain, leakage } => {
            settings.rx_anf_taps = limited_or_exec(settings.rx_anf_taps, *taps, true);
            settings.rx_anf_delay = limited_or_exec(settings.rx_anf_delay, *delay, false);
            if gain.is_some() || leakage.is_some() {
                RadioAction::RealSetting
            } else {
                RadioAction::Unchanged
            }
        },
        _ => RadioAction::NotASetting,
    }
}

#[verifier::rlimit(40)]
fn apply_set_noise_blanker_mode<M>(settings: &mut RadioSnapshot, command: &TciCommand<M>, remote_tx_rf_enabled: bool) -> (action: RadioAction)
    requires
        command is SetNoiseBlankerMode,
        radio_command_in_range(*command),
    ensures
        receive_dsp_command_post(*old(settings), *command, remote_tx_rf_enabled, *final(settings), action),
{
    proof {
        reveal(receive_dsp_command_post);
    }
    match command {
        TciCommand::SetNoiseBlankerMode(t) => {
            settings.nb_mode = t.clone();
            RadioAction::Unchanged
        },
        _ => RadioAction::NotASetting,
    }
}

#[verifier::rlimit(40)]
fn apply_set_anf_enabled<M>(settings: &mut RadioSnapshot, command: &TciCommand<M>, remote_tx_rf_enabled: bool) -> (action: RadioAction)
    requires
        command is SetAnfEnabled,
        radio_command_in_range(*command),
    ensures
        receive_dsp_command_post(*old(settings), *command, remote_tx_rf_enabled, *final(settings), action),
{
    proof {
        reveal(receive_dsp_command_post);
    }
    match command {
        TciCommand::SetAnfEnabled(e) => {
            settings.anf_enabled = *e;
            RadioAction::Unchanged
        },
        _ => RadioAction::NotASetting,
    }
}

#[verifier::rlimit(40)]
fn apply_set_agc_mode<M>(settings: &mut RadioSnapshot, command: &TciCommand<M>, remote_tx_rf_enabled: bool) -> (action: RadioAction)
    requires
        command is SetAgcMode,
        radio_command_in_range(*command),
    ensures
        receive_dsp_command_post(*old(settings), *command, remote_tx_rf_enabled, *final(settings), action),
{
    proof {
        reveal(receive_dsp_command_post);
    }
    match command {
        TciCommand::SetAgcMode(t) => {
            settings.agc_mode = t.clone();
            RadioAction::Unchanged
        },
        _ => RadioAction::NotASetting,
    }
}

#[verifier::rlimit(40)]
fn apply_set_rx_eq_enabled<M>(settings: &mut RadioSnapshot, command: &TciCommand<M>, remote_tx_rf_enabled: bool) -> (action: RadioAction)
    requires
        command is SetRxEqEnabled,
        radio_command_in_range(*command),
    ensures
        receive_dsp_command_post(*old(settings), *command, remote_tx_rf_enabled, *final(settings), action),
{
    proof {
        reveal(receive_dsp_command_post);
    }
    match command {
        TciCommand::SetRxEqEnabled(e) => {
            settings.rx_eq_enabled = *e;
            RadioAction::Unchanged
        },
        _ => RadioAction::NotASetting,
    }
}

#[verifier::rlimit(40)]
fn apply_set_rx_eq_band<M>(settings: &mut RadioSnapshot, command: &TciCommand<M>, remote_tx_rf_enabled: bool) -> (action: RadioAction)
    requires
        command is SetRxEqBand,
        radio_command_in_range(*command),
    ensures
        receive_dsp_command_post(*old(settings), *command, remote_tx_rf_enabled, *final(settings), action),
{
    proof {
        reveal(receive_dsp_command_post);
    }
    match command {
        TciCommand::SetRxEqBand { band, gain_db } => {
            settings.rx_eq_bands[*band] = eq_band_gain_db(*gain_db) as i64;
            RadioAction::Unchanged
        },
        _ => RadioAction::NotASetting,
    }
}

#[verifier::rlimit(40)]
fn apply_set_rx_fft_size<M>(settings: &mut RadioSnapshot, command: &TciCommand<M>, remote_tx_rf_enabled: bool) -> (action: RadioAction)
    requires
        command is SetRxFftSize,
        radio_command_in_range(*command),
    ensures
        receive_dsp_command_post(*old(settings), *command, remote_tx_rf_enabled, *final(settings), action),
{
    proof {
        reveal(receive_dsp_command_post);
    }
    match command {
        TciCommand::SetRxFftSize(s) => {
            settings.rx_fft_size = normalized_fft_size(*s) as u64;
            RadioAction::Unchanged
        },
        _ => RadioAction::NotASetting,
    }
}

#[verifier::rlimit(40)]
fn apply_set_rx_low_latency<M>(settings: &mut RadioSnapshot, command: &TciCommand<M>, remote_tx_rf_enabled: bool) -> (action: RadioAction)
    requires
        command is SetRxLowLatency,
        radio_command_in_range(*command),
    ensures
        receive_dsp_command_post(*old(settings), *command, remote_tx_rf_enabled, *final(settings), action),
{
    proof {
        reveal(receive_dsp_command_post);
    }
    match command {
        TciCommand::SetRxLowLatency(e) => {
            settings.rx_low_latency = *e;
            RadioAction::Unchanged
        },

        _ => RadioAction::NotASetting,
    }
}

#[verifier::rlimit(40)]
fn apply_set_tx_drive<M>(settings: &mut RadioSnapshot, command: &TciCommand<M>, remote_tx_rf_enabled: bool) -> (action: RadioAction)
    requires
        command is SetTxDrive,
        radio_command_in_range(*command),
    ensures
        transmit_command_post(*old(settings), *command, remote_tx_rf_enabled, *final(settings), action),
{
    proof {
        reveal(transmit_command_post);
    }
    match command {
        TciCommand::SetTxDrive(d) => {
            let drive: u8 = if *d < 1 {
                1
            } else if *d > DIRECT_TX_MAX_WATTS {
                DIRECT_TX_MAX_WATTS
            } else {
                *d
            };
            settings.tx_drive = drive as u64;
            RadioAction::WorkerModelChanged
        },
        _ => RadioAction::NotASetting,
    }
}

#[verifier::rlimit(40)]
fn apply_set_tx_filter_band<M>(settings: &mut RadioSnapshot, command: &TciCommand<M>, remote_tx_rf_enabled: bool) -> (action: RadioAction)
    requires
        command is SetTxFilterBand,
        radio_command_in_range(*command),
    ensures
        transmit_command_post(*old(settings), *command, remote_tx_rf_enabled, *final(settings), action),
{
    proof {
        reveal(transmit_command_post);
    }
    match command {
        TciCommand::SetTxFilterBand { low_hz, high_hz } => {
            settings.tx_filter_low_hz = *low_hz as i64;
            settings.tx_filter_high_hz = *high_hz as i64;
            RadioAction::WorkerModelChanged
        },
        _ => RadioAction::NotASetting,
    }
}

#[verifier::rlimit(40)]
fn apply_set_tx_eq_enabled<M>(settings: &mut RadioSnapshot, command: &TciCommand<M>, remote_tx_rf_enabled: bool) -> (action: RadioAction)
    requires
        command is SetTxEqEnabled,
        radio_command_in_range(*command),
    ensures
        transmit_command_post(*old(settings), *command, remote_tx_rf_enabled, *final(settings), action),
{
    proof {
        reveal(transmit_command_post);
    }
    match command {
        TciCommand::SetTxEqEnabled(e) => {
            settings.tx_eq_enabled = *e;
            RadioAction::WorkerModelChanged
        },
        _ => RadioAction::NotASetting,
    }
}

#[verifier::rlimit(40)]
fn apply_set_tx_eq_band<M>(settings: &mut RadioSnapshot, command: &TciCommand<M>, remote_tx_rf_enabled: bool) -> (action: RadioAction)
    requires
        command is SetTxEqBand,
        radio_command_in_range(*command),
    ensures
        transmit_command_post(*old(settings), *command, remote_tx_rf_enabled, *final(settings), action),
{
    proof {
        reveal(transmit_command_post);
    }
    match command {
        TciCommand::SetTxEqBand { band, gain_db } => {
            settings.tx_eq_bands[*band] = eq_band_gain_db(*gain_db) as i64;
            RadioAction::WorkerModelChanged
        },
        _ => RadioAction::NotASetting,
    }
}

#[verifier::rlimit(40)]
fn apply_set_tx_cfc_enabled<M>(settings: &mut RadioSnapshot, command: &TciCommand<M>, remote_tx_rf_enabled: bool) -> (action: RadioAction)
    requires
        command is SetTxCfcEnabled,
        radio_command_in_range(*command),
    ensures
        transmit_command_post(*old(settings), *command, remote_tx_rf_enabled, *final(settings), action),
{
    proof {
        reveal(transmit_command_post);
    }
    match command {
        TciCommand::SetTxCfcEnabled(e) => {
            settings.cfc_enabled = *e;
            RadioAction::WorkerModelChanged
        },
        _ => RadioAction::NotASetting,
    }
}

#[verifier::rlimit(40)]
fn apply_set_tx_phase_rotator_enabled<M>(settings: &mut RadioSnapshot, command: &TciCommand<M>, remote_tx_rf_enabled: bool) -> (action: RadioAction)
    requires
        command is SetTxPhaseRotatorEnabled,
        radio_command_in_range(*command),
    ensures
        transmit_command_post(*old(settings), *command, remote_tx_rf_enabled, *final(settings), action),
{
    proof {
        reveal(transmit_command_post);
    }
    match command {
        TciCommand::SetTxPhaseRotatorEnabled(e) => {
            settings.tx_phase_rotator_enabled = *e;
            RadioAction::WorkerModelChanged
        },
        _ => RadioAction::NotASetting,
    }
}

#[verifier::rlimit(40)]
fn apply_set_tx_phase_rotator_auto<M>(settings: &mut RadioSnapshot, command: &TciCommand<M>, remote_tx_rf_enabled: bool) -> (action: RadioAction)
    requires
        command is SetTxPhaseRotatorAuto,
        radio_command_in_range(*command),
    ensures
        transmit_command_post(*old(settings), *command, remote_tx_rf_enabled, *final(settings), action),
{
    proof {
        reveal(transmit_command_post);
    }
    match command {
        TciCommand::SetTxPhaseRotatorAuto(e) => {
            settings.tx_phase_rotator_auto = *e;
            RadioAction::WorkerModelChanged
        },
        _ => RadioAction::NotASetting,
    }
}

#[verifier::rlimit(40)]
fn apply_pure_signal<M>(settings: &mut RadioSnapshot, command: &TciCommand<M>, remote_tx_rf_enabled: bool) -> (action: RadioAction)
    requires
        command is SetPureSignalEnabled || command is SetPureSignalAutoAttenuate || command is SetPureSignalAttenuation || command is ResetPureSignal,
        radio_command_in_range(*command),
    ensures
        transmit_command_post(*old(settings), *command, remote_tx_rf_enabled, *final(settings), action),
{
    proof {
        reveal(transmit_command_post);
    }
    match command {
        TciCommand::SetPureSignalEnabled(_) | TciCommand::SetPureSignalAutoAttenuate(_)
        | TciCommand::SetPureSignalAttenuation(_) | TciCommand::ResetPureSignal => {
            settings.pure_signal_enabled = false;
            RadioAction::PureSignalUnavailable
        },
        _ => RadioAction::NotASetting,
    }
}

#[verifier::rlimit(40)]
fn apply_set_tx_two_tone_test<M>(settings: &mut RadioSnapshot, command: &TciCommand<M>, remote_tx_rf_enabled: bool) -> (action: RadioAction)
    requires
        command is SetTxTwoToneTest,
        radio_command_in_range(*command),
    ensures
        transmit_command_post(*old(settings), *command, remote_tx_rf_enabled, *final(settings), action),
{
    proof {
        reveal(transmit_command_post);
    }
    match command {
        TciCommand::SetTxTwoToneTest(e) => {
            if *e && remote_tx_rf_enabled {
                settings.two_tone_enabled = false;
                RadioAction::TwoToneRefused
            } else {
                settings.two_tone_enabled = *e;
                RadioAction::WorkerModelChanged
            }
        },
        _ => RadioAction::NotASetting,
    }
}

#[verifier::rlimit(40)]
fn apply_set_tx_two_tone_invert_lsb<M>(settings: &mut RadioSnapshot, command: &TciCommand<M>, remote_tx_rf_enabled: bool) -> (action: RadioAction)
    requires
        command is SetTxTwoToneInvertLsb,
        radio_command_in_range(*command),
    ensures
        transmit_command_post(*old(settings), *command, remote_tx_rf_enabled, *final(settings), action),
{
    proof {
        reveal(transmit_command_post);
    }
    match command {
        TciCommand::SetTxTwoToneInvertLsb(e) => {
            settings.tx_two_tone_invert_lsb = *e;
            RadioAction::WorkerModelChanged
        },
        _ => RadioAction::NotASetting,
    }
}

#[verifier::rlimit(40)]
fn apply_set_tx_two_tone_delay_ms<M>(settings: &mut RadioSnapshot, command: &TciCommand<M>, remote_tx_rf_enabled: bool) -> (action: RadioAction)
    requires
        command is SetTxTwoToneDelayMs,
        radio_command_in_range(*command),
    ensures
        transmit_command_post(*old(settings), *command, remote_tx_rf_enabled, *final(settings), action),
{
    proof {
        reveal(transmit_command_post);
    }
    match command {
        TciCommand::SetTxTwoToneDelayMs(d) => {
            settings.tx_two_tone_delay_ms = two_tone_delay_ms(*d) as u64;
            RadioAction::WorkerModelChanged
        },
        _ => RadioAction::NotASetting,
    }
}

#[verifier::rlimit(40)]
fn apply_set_tx_noise_gate_enabled<M>(settings: &mut RadioSnapshot, command: &TciCommand<M>, remote_tx_rf_enabled: bool) -> (action: RadioAction)
    requires
        command is SetTxNoiseGateEnabled,
        radio_command_in_range(*command),
    ensures
        transmit_command_post(*old(settings), *command, remote_tx_rf_enabled, *final(settings), action),
{
    proof {
        reveal(transmit_command_post);
    }
    match command {
        TciCommand::SetTxNoiseGateEnabled(e) => {
            settings.tx_noise_gate_enabled = *e;
            RadioAction::WorkerModelChanged
        },
        _ => RadioAction::NotASetting,
    }
}

#[verifier::rlimit(40)]
fn apply_set_tx_fft_size<M>(settings: &mut RadioSnapshot, command: &TciCommand<M>, remote_tx_rf_enabled: bool) -> (action: RadioAction)
    requires
        command is SetTxFftSize,
        radio_command_in_range(*command),
    ensures
        transmit_command_post(*old(settings), *command, remote_tx_rf_enabled, *final(settings), action),
{
    proof {
        reveal(transmit_command_post);
    }
    match command {
        TciCommand::SetTxFftSize(s) => {
            settings.tx_fft_size = normalized_fft_size(*s) as u64;
            RadioAction::WorkerModelChanged
        },
        _ => RadioAction::NotASetting,
    }
}

#[verifier::rlimit(40)]
fn apply_set_tx_low_latency<M>(settings: &mut RadioSnapshot, command: &TciCommand<M>, remote_tx_rf_enabled: bool) -> (action: RadioAction)
    requires
        command is SetTxLowLatency,
        radio_command_in_range(*command),
    ensures
        transmit_command_post(*old(settings), *command, remote_tx_rf_enabled, *final(settings), action),
{
    proof {
        reveal(transmit_command_post);
    }
    match command {
        TciCommand::SetTxLowLatency(e) => {
            settings.tx_low_latency = *e;
            RadioAction::WorkerModelChanged
        },

        _ => RadioAction::NotASetting,
    }
}
/// Tuning, mode, filter, ADC, antenna and receive-rate commands.
fn apply_tuning_command<M>(
    settings: &mut RadioSnapshot,
    command: &TciCommand<M>,
    remote_tx_rf_enabled: bool,
) -> (action: RadioAction)
    requires
        is_tuning_command(*command),
        radio_command_in_range(*command),
    ensures
        tuning_command_post(*old(settings), *command, remote_tx_rf_enabled, *final(settings), action),
{
    match command {
        TciCommand::SetVfoA(..) => apply_set_vfo_a(settings, command, remote_tx_rf_enabled),
        TciCommand::SetVfoB(..) => apply_set_vfo_b(settings, command, remote_tx_rf_enabled),
        TciCommand::SetIqCenter(..) => apply_set_iq_center(settings, command, remote_tx_rf_enabled),
        TciCommand::SetMode(..) => apply_set_mode(settings, command, remote_tx_rf_enabled),
        TciCommand::SetFilterBand { .. } => apply_set_filter_band(settings, command, remote_tx_rf_enabled),
        TciCommand::SetRxAdc(..) => apply_set_rx_adc(settings, command, remote_tx_rf_enabled),
        TciCommand::SetRxAntenna(..) => apply_set_rx_antenna(settings, command, remote_tx_rf_enabled),
        TciCommand::SetIqSampleRate(..) => apply_set_iq_sample_rate(settings, command, remote_tx_rf_enabled),
        TciCommand::SetIqStreaming => apply_set_iq_streaming(settings, command, remote_tx_rf_enabled),
        TciCommand::RequestSmeter => apply_request_smeter(settings, command, remote_tx_rf_enabled),
        _ => RadioAction::NotASetting,
    }
}

/// Receive DSP commands.
fn apply_receive_dsp_command<M>(
    settings: &mut RadioSnapshot,
    command: &TciCommand<M>,
    remote_tx_rf_enabled: bool,
) -> (action: RadioAction)
    requires
        is_receive_dsp_command(*command),
        radio_command_in_range(*command),
    ensures
        receive_dsp_command_post(*old(settings), *command, remote_tx_rf_enabled, *final(settings), action),
{
    match command {
        TciCommand::SetRxNoiseReductionMode(..) => apply_set_rx_noise_reduction_mode(settings, command, remote_tx_rf_enabled),
        TciCommand::SetRxNoiseReductionEnabled(..) => apply_set_rx_noise_reduction_enabled(settings, command, remote_tx_rf_enabled),
        TciCommand::SetRxNr2GainMethod(..) => apply_set_rx_nr2_gain_method(settings, command, remote_tx_rf_enabled),
        TciCommand::SetRxNr2NpeMethod(..) => apply_set_rx_nr2_npe_method(settings, command, remote_tx_rf_enabled),
        TciCommand::SetRxNr2PostFilterEnabled(..) => apply_set_rx_nr2_post_filter_enabled(settings, command, remote_tx_rf_enabled),
        TciCommand::SetRxWbfmDeemphasis(..) => apply_set_rx_wbfm_deemphasis(settings, command, remote_tx_rf_enabled),
        TciCommand::SetRxAnrVals { .. } => apply_set_rx_anr_vals(settings, command, remote_tx_rf_enabled),
        TciCommand::SetRxAnfVals { .. } => apply_set_rx_anf_vals(settings, command, remote_tx_rf_enabled),
        TciCommand::SetNoiseBlankerMode(..) => apply_set_noise_blanker_mode(settings, command, remote_tx_rf_enabled),
        TciCommand::SetAnfEnabled(..) => apply_set_anf_enabled(settings, command, remote_tx_rf_enabled),
        TciCommand::SetAgcMode(..) => apply_set_agc_mode(settings, command, remote_tx_rf_enabled),
        TciCommand::SetRxEqEnabled(..) => apply_set_rx_eq_enabled(settings, command, remote_tx_rf_enabled),
        TciCommand::SetRxEqBand { .. } => apply_set_rx_eq_band(settings, command, remote_tx_rf_enabled),
        TciCommand::SetRxFftSize(..) => apply_set_rx_fft_size(settings, command, remote_tx_rf_enabled),
        TciCommand::SetRxLowLatency(..) => apply_set_rx_low_latency(settings, command, remote_tx_rf_enabled),
        _ => RadioAction::NotASetting,
    }
}

/// Transmit settings commands.
fn apply_transmit_command<M>(
    settings: &mut RadioSnapshot,
    command: &TciCommand<M>,
    remote_tx_rf_enabled: bool,
) -> (action: RadioAction)
    requires
        is_transmit_command(*command),
        radio_command_in_range(*command),
    ensures
        transmit_command_post(*old(settings), *command, remote_tx_rf_enabled, *final(settings), action),
{
    match command {
        TciCommand::SetTxDrive(..) => apply_set_tx_drive(settings, command, remote_tx_rf_enabled),
        TciCommand::SetTxFilterBand { .. } => apply_set_tx_filter_band(settings, command, remote_tx_rf_enabled),
        TciCommand::SetTxEqEnabled(..) => apply_set_tx_eq_enabled(settings, command, remote_tx_rf_enabled),
        TciCommand::SetTxEqBand { .. } => apply_set_tx_eq_band(settings, command, remote_tx_rf_enabled),
        TciCommand::SetTxCfcEnabled(..) => apply_set_tx_cfc_enabled(settings, command, remote_tx_rf_enabled),
        TciCommand::SetTxPhaseRotatorEnabled(..) => apply_set_tx_phase_rotator_enabled(settings, command, remote_tx_rf_enabled),
        TciCommand::SetTxPhaseRotatorAuto(..) => apply_set_tx_phase_rotator_auto(settings, command, remote_tx_rf_enabled),
        TciCommand::SetPureSignalEnabled(..) => apply_pure_signal(settings, command, remote_tx_rf_enabled),
        TciCommand::SetPureSignalAutoAttenuate(..) => apply_pure_signal(settings, command, remote_tx_rf_enabled),
        TciCommand::SetPureSignalAttenuation(..) => apply_pure_signal(settings, command, remote_tx_rf_enabled),
        TciCommand::ResetPureSignal => apply_pure_signal(settings, command, remote_tx_rf_enabled),
        TciCommand::SetTxTwoToneTest(..) => apply_set_tx_two_tone_test(settings, command, remote_tx_rf_enabled),
        TciCommand::SetTxTwoToneInvertLsb(..) => apply_set_tx_two_tone_invert_lsb(settings, command, remote_tx_rf_enabled),
        TciCommand::SetTxTwoToneDelayMs(..) => apply_set_tx_two_tone_delay_ms(settings, command, remote_tx_rf_enabled),
        TciCommand::SetTxNoiseGateEnabled(..) => apply_set_tx_noise_gate_enabled(settings, command, remote_tx_rf_enabled),
        TciCommand::SetTxFftSize(..) => apply_set_tx_fft_size(settings, command, remote_tx_rf_enabled),
        TciCommand::SetTxLowLatency(..) => apply_set_tx_low_latency(settings, command, remote_tx_rf_enabled),
        _ => RadioAction::NotASetting,
    }
}

/// Real-valued settings and commands that are not settings.
#[verifier::rlimit(100)]
fn apply_other_command<M>(
    settings: &mut RadioSnapshot,
    command: &TciCommand<M>,
    remote_tx_rf_enabled: bool,
) -> (action: RadioAction)
    requires
        !is_tuning_command(*command) && !is_receive_dsp_command(*command) && !is_transmit_command(*command),
        radio_command_in_range(*command),
    ensures
        other_command_post(*old(settings), *command, remote_tx_rf_enabled, *final(settings), action),
{
    match command {
        TciCommand::SetRxVolume(_) | TciCommand::SetRxNoiseReductionLevel(_)
        | TciCommand::SetNoiseBlankerThreshold(_) | TciCommand::SetAgcGain(_)
        | TciCommand::SetTxMicGain(_) | TciCommand::SetTxCfcPrecomp(_)
        | TciCommand::SetTxCfcBand { .. } | TciCommand::SetTxPhaseRotatorCorner(_)
        | TciCommand::SetTxTwoToneFreq1(_) | TciCommand::SetTxTwoToneFreq2(_)
        | TciCommand::SetTxTwoToneLevelDb(_) | TciCommand::SetTxNoiseGateThreshold(_) => {
            RadioAction::RealSetting
        },
        _ => RadioAction::NotASetting,

    }
}

fn is_tuning<M>(command: &TciCommand<M>) -> (b: bool)
    ensures
        b == is_tuning_command(*command),
{
    matches!(command, TciCommand::SetVfoA(..) | TciCommand::SetVfoB(..) | TciCommand::SetIqCenter(..) | TciCommand::SetMode(..) | TciCommand::SetFilterBand { .. } | TciCommand::SetRxAdc(..) | TciCommand::SetRxAntenna(..) | TciCommand::SetIqSampleRate(..) | TciCommand::SetIqStreaming | TciCommand::RequestSmeter)
}

fn is_receive_dsp<M>(command: &TciCommand<M>) -> (b: bool)
    ensures
        b == is_receive_dsp_command(*command),
{
    matches!(command, TciCommand::SetRxNoiseReductionMode(..) | TciCommand::SetRxNoiseReductionEnabled(..) | TciCommand::SetRxNr2GainMethod(..) | TciCommand::SetRxNr2NpeMethod(..) | TciCommand::SetRxNr2PostFilterEnabled(..) | TciCommand::SetRxWbfmDeemphasis(..) | TciCommand::SetRxAnrVals { .. } | TciCommand::SetRxAnfVals { .. } | TciCommand::SetNoiseBlankerMode(..) | TciCommand::SetAnfEnabled(..) | TciCommand::SetAgcMode(..) | TciCommand::SetRxEqEnabled(..) | TciCommand::SetRxEqBand { .. } | TciCommand::SetRxFftSize(..) | TciCommand::SetRxLowLatency(..))
}

fn is_transmit<M>(command: &TciCommand<M>) -> (b: bool)
    ensures
        b == is_transmit_command(*command),
{
    matches!(command, TciCommand::SetTxDrive(..) | TciCommand::SetTxFilterBand { .. } | TciCommand::SetTxEqEnabled(..) | TciCommand::SetTxEqBand { .. } | TciCommand::SetTxCfcEnabled(..) | TciCommand::SetTxPhaseRotatorEnabled(..) | TciCommand::SetTxPhaseRotatorAuto(..) | TciCommand::SetPureSignalEnabled(..) | TciCommand::SetPureSignalAutoAttenuate(..) | TciCommand::SetPureSignalAttenuation(..) | TciCommand::ResetPureSignal | TciCommand::SetTxTwoToneTest(..) | TciCommand::SetTxTwoToneInvertLsb(..) | TciCommand::SetTxTwoToneDelayMs(..) | TciCommand::SetTxNoiseGateEnabled(..) | TciCommand::SetTxFftSize(..) | TciCommand::SetTxLowLatency(..))
}

/// Applies a radio-control command to the desired settings, with the
/// backend's limits, and says what the backend must do next.
pub fn apply_radio_command<M>(
    settings: &mut RadioSnapshot,
    command: &TciCommand<M>,
    remote_tx_rf_enabled: bool,
) -> (action: RadioAction)
    requires
        radio_command_in_range(*command),
    ensures
        radio_command_post(*old(settings), *command, remote_tx_rf_enabled, *final(settings), action),
{
    if is_tuning(command) {
        apply_tuning_command(settings, command, remote_tx_rf_enabled)
    } else if is_receive_dsp(command) {
        apply_receive_dsp_command(settings, command, remote_tx_rf_enabled)
    } else if is_transmit(command) {
        apply_transmit_command(settings, command, remote_tx_rf_enabled)
    } else {
        apply_other_command(settings, command, remote_tx_rf_enabled)
    }
}

} // verus!
