//! TCI text commands: the commands the frontend hands to the radio loop,
//! and the classification of a command name and its arguments into the
//! request it makes.
use vstd::prelude::*;

use crate::codec::{caps_from_args, parse_tx_codec_caps_args, TxCodecCaps};
use crate::protocol::{parse_tci_bool_chars, tci_bool};
use crate::session::{SplitSocketKind, TciClientRole};
use crate::text::{
    eq_str, float_literal, float_literal_exec, parse_signed, parse_signed_exec, parse_unsigned,
    parse_unsigned_exec, sanitize_chars, sanitized, string_of, trim, trim_chars, views,
};
use crate::tx_control::DemodMode;

verus! {

/// A microphone frame decoded from a client's binary message.
#[derive(Debug)]
pub struct TciMicFrame<M> {
    pub sample_rate_hz: u32,
    pub channels: u32,
    pub sequence: u32,
    pub received_at_ns: u64,
    pub samples: M,
}

/// What a mic frame says apart from its samples.
pub ghost struct MicFrameView {
    pub sample_rate_hz: u32,
    pub channels: u32,
    pub sequence: u32,
    pub received_at_ns: u64,
}

/// A command the TCI frontend hands to the radio loop. Decimal arguments
/// and mode names stay text (a decimal as `str::parse::<f64>` accepts it).
#[derive(Debug)]
pub enum TciCommand<M> {
    SetVfoA(u32),
    SetVfoB(u32),
    SetIqCenter(u32),
    SetMode(DemodMode),
    SetFilterBand { low_hz: i32, high_hz: i32 },
    SetRxAdc(u8),
    SetRxAntenna(u8),
    SetRxVolume(String),
    SetRxNoiseReductionMode(String),
    SetRxNoiseReductionEnabled(bool),
    SetRxNoiseReductionLevel(String),
    SetRxNr2GainMethod(String),
    SetRxNr2NpeMethod(String),
    SetRxNr2PostFilterEnabled(bool),
    SetRxWbfmDeemphasis(String),
    SetRxAnrVals { taps: Option<i32>, delay: Option<i32>, gain: Option<String>, leakage: Option<String> },
    SetIqSampleRate(u32),
    SetIqStreaming,
    RequestSmeter,
    SaturnPing { client_id: u64, nonce: String, sent_at: String },
    SplitSessionOpen { client_id: u64, session_id: String, role: TciClientRole },
    SplitSessionLane { client_id: u64, session_id: String, lane: SplitSocketKind },
    SetAudioStreaming(bool),
    SetAudioSampleRate(u32),
    SetAudioFrameSamples(u32),
    SetAudioChannels(u32),
    SetTxEnabled(bool),
    SetNoiseBlankerMode(String),
    SetNoiseBlankerThreshold(String),
    SetAnfEnabled(bool),
    SetRxAnfVals { taps: Option<i32>, delay: Option<i32>, gain: Option<String>, leakage: Option<String> },
    SetAgcMode(String),
    SetAgcGain(String),
    SetTxDrive(u8),
    SetTxMicGain(String),
    SetTxFilterBand { low_hz: i32, high_hz: i32 },
    SetRxEqEnabled(bool),
    SetRxEqBand { band: usize, gain_db: i32 },
    SetTxEqEnabled(bool),
    SetTxEqBand { band: usize, gain_db: i32 },
    SetTxCfcEnabled(bool),
    SetTxCfcPrecomp(String),
    SetTxCfcBand { band: usize, gain_db: String },
    SetTxPhaseRotatorEnabled(bool),
    SetTxPhaseRotatorAuto(bool),
    SetTxPhaseRotatorCorner(String),
    SetPureSignalEnabled(bool),
    SetPureSignalAutoAttenuate(bool),
    SetPureSignalAttenuation(u8),
    ResetPureSignal,
    SetTxTwoToneTest(bool),
    SetTxTwoToneFreq1(String),
    SetTxTwoToneFreq2(String),
    SetTxTwoToneLevelDb(String),
    SetTxTwoToneInvertLsb(bool),
    SetTxTwoToneDelayMs(u16),
    SetTxNoiseGateEnabled(bool),
    SetTxNoiseGateThreshold(String),
    SetRxFftSize(u32),
    SetRxLowLatency(bool),
    SetTxFftSize(u32),
    SetTxLowLatency(bool),
    MicAudioFrame(TciMicFrame<M>),
    ClientConnected,
    ClientDisconnected,
}

/// What a command says, with text as character sequences.
pub ghost enum TciCommandView {
    SetVfoA(u32),
    SetVfoB(u32),
    SetIqCenter(u32),
    SetMode(DemodMode),
    SetFilterBand { low_hz: i32, high_hz: i32 },
    SetRxAdc(u8),
    SetRxAntenna(u8),
    SetRxVolume(Seq<char>),
    SetRxNoiseReductionMode(Seq<char>),
    SetRxNoiseReductionEnabled(bool),
    SetRxNoiseReductionLevel(Seq<char>),
    SetRxNr2GainMethod(Seq<char>),
    SetRxNr2NpeMethod(Seq<char>),
    SetRxNr2PostFilterEnabled(bool),
    SetRxWbfmDeemphasis(Seq<char>),
    SetRxAnrVals { taps: Option<i32>, delay: Option<i32>, gain: Option<Seq<char>>, leakage: Option<Seq<char>> },
    SetIqSampleRate(u32),
    SetIqStreaming,
    RequestSmeter,
    SaturnPing { client_id: u64, nonce: Seq<char>, sent_at: Seq<char> },
    SplitSessionOpen { client_id: u64, session_id: Seq<char>, role: TciClientRole },
    SplitSessionLane { client_id: u64, session_id: Seq<char>, lane: SplitSocketKind },
    SetAudioStreaming(bool),
    SetAudioSampleRate(u32),
    SetAudioFrameSamples(u32),
    SetAudioChannels(u32),
    SetTxEnabled(bool),
    SetNoiseBlankerMode(Seq<char>),
    SetNoiseBlankerThreshold(Seq<char>),
    SetAnfEnabled(bool),
    SetRxAnfVals { taps: Option<i32>, delay: Option<i32>, gain: Option<Seq<char>>, leakage: Option<Seq<char>> },
    SetAgcMode(Seq<char>),
    SetAgcGain(Seq<char>),
    SetTxDrive(u8),
    SetTxMicGain(Seq<char>),
    SetTxFilterBand { low_hz: i32, high_hz: i32 },
    SetRxEqEnabled(bool),
    SetRxEqBand { band: usize, gain_db: i32 },
    SetTxEqEnabled(bool),
    SetTxEqBand { band: usize, gain_db: i32 },
    SetTxCfcEnabled(bool),
    SetTxCfcPrecomp(Seq<char>),
    SetTxCfcBand { band: usize, gain_db: Seq<char> },
    SetTxPhaseRotatorEnabled(bool),
    SetTxPhaseRotatorAuto(bool),
    SetTxPhaseRotatorCorner(Seq<char>),
    SetPureSignalEnabled(bool),
    SetPureSignalAutoAttenuate(bool),
    SetPureSignalAttenuation(u8),
    ResetPureSignal,
    SetTxTwoToneTest(bool),
    SetTxTwoToneFreq1(Seq<char>),
    SetTxTwoToneFreq2(Seq<char>),
    SetTxTwoToneLevelDb(Seq<char>),
    SetTxTwoToneInvertLsb(bool),
    SetTxTwoToneDelayMs(u16),
    SetTxNoiseGateEnabled(bool),
    SetTxNoiseGateThreshold(Seq<char>),
    SetRxFftSize(u32),
    SetRxLowLatency(bool),
    SetTxFftSize(u32),
    SetTxLowLatency(bool),
    MicAudioFrame(MicFrameView),
    ClientConnected,
    ClientDisconnected,
}

impl<M> TciCommand<M> {
    pub open spec fn view(&self) -> TciCommandView {
        match *self {
            TciCommand::SetVfoA(x0) => TciCommandView::SetVfoA(x0),
            TciCommand::SetVfoB(x0) => TciCommandView::SetVfoB(x0),
            TciCommand::SetIqCenter(x0) => TciCommandView::SetIqCenter(x0),
            TciCommand::SetMode(x0) => TciCommandView::SetMode(x0),
            TciCommand::SetFilterBand { low_hz, high_hz } => TciCommandView::SetFilterBand { low_hz: low_hz, high_hz: high_hz },
            TciCommand::SetRxAdc(x0) => TciCommandView::SetRxAdc(x0),
            TciCommand::SetRxAntenna(x0) => TciCommandView::SetRxAntenna(x0),
            TciCommand::SetRxVolume(x0) => TciCommandView::SetRxVolume(x0@),
            TciCommand::SetRxNoiseReductionMode(x0) => TciCommandView::SetRxNoiseReductionMode(x0@),
            TciCommand::SetRxNoiseReductionEnabled(x0) => TciCommandView::SetRxNoiseReductionEnabled(x0),
            TciCommand::SetRxNoiseReductionLevel(x0) => TciCommandView::SetRxNoiseReductionLevel(x0@),
            TciCommand::SetRxNr2GainMethod(x0) => TciCommandView::SetRxNr2GainMethod(x0@),
            TciCommand::SetRxNr2NpeMethod(x0) => TciCommandView::SetRxNr2NpeMethod(x0@),
            TciCommand::SetRxNr2PostFilterEnabled(x0) => TciCommandView::SetRxNr2PostFilterEnabled(x0),
            TciCommand::SetRxWbfmDeemphasis(x0) => TciCommandView::SetRxWbfmDeemphasis(x0@),
            TciCommand::SetRxAnrVals { taps, delay, gain, leakage } => TciCommandView::SetRxAnrVals { taps: taps, delay: delay, gain: match gain { Some(s) => Some(s@), None => None }, leakage: match leakage { Some(s) => Some(s@), None => None } },
            TciCommand::SetIqSampleRate(x0) => TciCommandView::SetIqSampleRate(x0),
            TciCommand::SetIqStreaming => TciCommandView::SetIqStreaming,
            TciCommand::RequestSmeter => TciCommandView::RequestSmeter,
            TciCommand::SaturnPing { client_id, nonce, sent_at } => TciCommandView::SaturnPing { client_id: client_id, nonce: nonce@, sent_at: sent_at@ },
            TciCommand::SplitSessionOpen { client_id, session_id, role } => TciCommandView::SplitSessionOpen { client_id: client_id, session_id: session_id@, role: role },
            TciCommand::SplitSessionLane { client_id, session_id, lane } => TciCommandView::SplitSessionLane { client_id: client_id, session_id: session_id@, lane: lane },
            TciCommand::SetAudioStreaming(x0) => TciCommandView::SetAudioStreaming(x0),
            TciCommand::SetAudioSampleRate(x0) => TciCommandView::SetAudioSampleRate(x0),
            TciCommand::SetAudioFrameSamples(x0) => TciCommandView::SetAudioFrameSamples(x0),
            TciCommand::SetAudioChannels(x0) => TciCommandView::SetAudioChannels(x0),
            TciCommand::SetTxEnabled(x0) => TciCommandView::SetTxEnabled(x0),
            TciCommand::SetNoiseBlankerMode(x0) => TciCommandView::SetNoiseBlankerMode(x0@),
            TciCommand::SetNoiseBlankerThreshold(x0) => TciCommandView::SetNoiseBlankerThreshold(x0@),
            TciCommand::SetAnfEnabled(x0) => TciCommandView::SetAnfEnabled(x0),
            TciCommand::SetRxAnfVals { taps, delay, gain, leakage } => TciCommandView::SetRxAnfVals { taps: taps, delay: delay, gain: match gain { Some(s) => Some(s@), None => None }, leakage: match leakage { Some(s) => Some(s@), None => None } },
            TciCommand::SetAgcMode(x0) => TciCommandView::SetAgcMode(x0@),
            TciCommand::SetAgcGain(x0) => TciCommandView::SetAgcGain(x0@),
            TciCommand::SetTxDrive(x0) => TciCommandView::SetTxDrive(x0),
            TciCommand::SetTxMicGain(x0) => TciCommandView::SetTxMicGain(x0@),
            TciCommand::SetTxFilterBand { low_hz, high_hz } => TciCommandView::SetTxFilterBand { low_hz: low_hz, high_hz: high_hz },
            TciCommand::SetRxEqEnabled(x0) => TciCommandView::SetRxEqEnabled(x0),
            TciCommand::SetRxEqBand { band, gain_db } => TciCommandView::SetRxEqBand { band: band, gain_db: gain_db },
            TciCommand::SetTxEqEnabled(x0) => TciCommandView::SetTxEqEnabled(x0),
            TciCommand::SetTxEqBand { band, gain_db } => TciCommandView::SetTxEqBand { band: band, gain_db: gain_db },
            TciCommand::SetTxCfcEnabled(x0) => TciCommandView::SetTxCfcEnabled(x0),
            TciCommand::SetTxCfcPrecomp(x0) => TciCommandView::SetTxCfcPrecomp(x0@),
            TciCommand::SetTxCfcBand { band, gain_db } => TciCommandView::SetTxCfcBand { band: band, gain_db: gain_db@ },
            TciCommand::SetTxPhaseRotatorEnabled(x0) => TciCommandView::SetTxPhaseRotatorEnabled(x0),
            TciCommand::SetTxPhaseRotatorAuto(x0) => TciCommandView::SetTxPhaseRotatorAuto(x0),
            TciCommand::SetTxPhaseRotatorCorner(x0) => TciCommandView::SetTxPhaseRotatorCorner(x0@),
            TciCommand::SetPureSignalEnabled(x0) => TciCommandView::SetPureSignalEnabled(x0),
            TciCommand::SetPureSignalAutoAttenuate(x0) => TciCommandView::SetPureSignalAutoAttenuate(x0),
            TciCommand::SetPureSignalAttenuation(x0) => TciCommandView::SetPureSignalAttenuation(x0),
            TciCommand::ResetPureSignal => TciCommandView::ResetPureSignal,
            TciCommand::SetTxTwoToneTest(x0) => TciCommandView::SetTxTwoToneTest(x0),
            TciCommand::SetTxTwoToneFreq1(x0) => TciCommandView::SetTxTwoToneFreq1(x0@),
            TciCommand::SetTxTwoToneFreq2(x0) => TciCommandView::SetTxTwoToneFreq2(x0@),
            TciCommand::SetTxTwoToneLevelDb(x0) => TciCommandView::SetTxTwoToneLevelDb(x0@),
            TciCommand::SetTxTwoToneInvertLsb(x0) => TciCommandView::SetTxTwoToneInvertLsb(x0),
            TciCommand::SetTxTwoToneDelayMs(x0) => TciCommandView::SetTxTwoToneDelayMs(x0),
            TciCommand::SetTxNoiseGateEnabled(x0) => TciCommandView::SetTxNoiseGateEnabled(x0),
            TciCommand::SetTxNoiseGateThreshold(x0) => TciCommandView::SetTxNoiseGateThreshold(x0@),
            TciCommand::SetRxFftSize(x0) => TciCommandView::SetRxFftSize(x0),
            TciCommand::SetRxLowLatency(x0) => TciCommandView::SetRxLowLatency(x0),
            TciCommand::SetTxFftSize(x0) => TciCommandView::SetTxFftSize(x0),
            TciCommand::SetTxLowLatency(x0) => TciCommandView::SetTxLowLatency(x0),
            TciCommand::MicAudioFrame(x0) => TciCommandView::MicAudioFrame(MicFrameView { sample_rate_hz: x0.sample_rate_hz, channels: x0.channels, sequence: x0.sequence, received_at_ns: x0.received_at_ns }),
            TciCommand::ClientConnected => TciCommandView::ClientConnected,
            TciCommand::ClientDisconnected => TciCommandView::ClientDisconnected,
        }
    }
}

/// What a TCI command asks of the frontend: a command for the radio loop,
/// or a change to the client's own stream or uplink state.
pub enum TciRequest<M> {
    Command(TciCommand<M>),
    IqStream(bool),
    AudioStream(bool),
    AudioSampleRate(u32),
    AudioFrameSamples(u32),
    AudioChannels(u32),
    AudioSeqGaps(u64),
    UplinkStats { degraded: bool, last_seq: u32, dropped: u64, buffered: u64, high_watermark: u64 },
    CodecCaps(TxCodecCaps),
    Trx(bool),
    Nothing,
}

pub ghost enum TciRequestView {
    Command(TciCommandView),
    IqStream(bool),
    AudioStream(bool),
    AudioSampleRate(u32),
    AudioFrameSamples(u32),
    AudioChannels(u32),
    AudioSeqGaps(u64),
    UplinkStats { degraded: bool, last_seq: u32, dropped: u64, buffered: u64, high_watermark: u64 },
    CodecCaps(TxCodecCaps),
    Trx(bool),
    Nothing,
}

impl<M> TciRequest<M> {
    pub open spec fn view(&self) -> TciRequestView {
        match self {
            TciRequest::Command(c) => TciRequestView::Command(c.view()),
            TciRequest::IqStream(b) => TciRequestView::IqStream(*b),
            TciRequest::AudioStream(b) => TciRequestView::AudioStream(*b),
            TciRequest::AudioSampleRate(v) => TciRequestView::AudioSampleRate(*v),
            TciRequest::AudioFrameSamples(v) => TciRequestView::AudioFrameSamples(*v),
            TciRequest::AudioChannels(v) => TciRequestView::AudioChannels(*v),
            TciRequest::AudioSeqGaps(v) => TciRequestView::AudioSeqGaps(*v),
            TciRequest::UplinkStats { degraded, last_seq, dropped, buffered, high_watermark } =>
                TciRequestView::UplinkStats {
                degraded: *degraded,
                last_seq: *last_seq,
                dropped: *dropped,
                buffered: *buffered,
                high_watermark: *high_watermark,
            },
            TciRequest::CodecCaps(c) => TciRequestView::CodecCaps(*c),
            TciRequest::Trx(b) => TciRequestView::Trx(*b),
            TciRequest::Nothing => TciRequestView::Nothing,
        }
    }
}

/// The argument most commands read: the second, else the first.
pub open spec fn pick(args: Seq<Seq<char>>) -> Seq<char> {
    if args.len() >= 2 {
        args[1]
    } else if args.len() >= 1 {
        args[0]
    } else {
        Seq::empty()
    }
}

pub fn pick_index(len: usize) -> (i: usize)
    requires
        len >= 1,
    ensures
        i == (if len >= 2 { 1usize } else { 0usize }),
        i < len,
{
    if len >= 2 {
        1
    } else {
        0
    }
}

/// A decimal argument: its trimmed text when `str::parse::<f64>` accepts it.
pub open spec fn decimal(t: Seq<char>) -> Option<Seq<char>> {
    if float_literal(trim(t)) {
        Some(trim(t))
    } else {
        None
    }
}

pub fn decimal_exec(t: &Vec<char>) -> (r: Option<String>)
    ensures
        r matches Some(s) ==> decimal(t@) == Some(s@),
        r is None ==> decimal(t@) is None,
{
    let tt = trim_chars(t);
    if float_literal_exec(&tt) {
        Some(string_of(&tt))
    } else {
        None
    }
}

/// An `i32` argument, trimmed.
pub open spec fn int32(t: Seq<char>) -> Option<i32> {
    match parse_signed(trim(t), 2147483648, 2147483647) {
        Some(v) => Some(v as i32),
        None => None,
    }
}

pub fn int32_exec(t: &Vec<char>) -> (r: Option<i32>)
    ensures
        r == int32(t@),
{
    match parse_signed_exec(t, 2147483648, 2147483647) {
        Some((neg, v)) => {
            if neg {
                Some((-(v as i64)) as i32)
            } else {
                Some(v as i32)
            }
        },
        None => None,
    }
}

/// Argument `i`, if present.
pub open spec fn arg_opt(args: Seq<Seq<char>>, i: int) -> Option<Seq<char>> {
    if 0 <= i < args.len() {
        Some(args[i])
    } else {
        None
    }
}

pub open spec fn u_or(a: Option<Seq<char>>, max: nat, default: nat) -> nat {
    match a {
        Some(t) => match parse_unsigned(trim(t), max) {
            Some(v) => v,
            None => default,
        },
        None => default,
    }
}

/// `tx_uplink_stats:[rx,]degraded,last_seq,dropped,buffered,high_watermark`;
/// a missing or malformed field counts as false or zero (the high-water
/// mark as the buffered bytes).
pub open spec fn uplink_stats_view(args: Seq<Seq<char>>) -> TciRequestView {
    let off: int = if args.len() >= 6 { 1 } else { 0 };
    let buffered = u_or(arg_opt(args, off + 3), u64::MAX as nat, 0);
    TciRequestView::UplinkStats {
        degraded: match arg_opt(args, off) {
            Some(t) => match tci_bool(t) {
                Some(b) => b,
                None => false,
            },
            None => false,
        },
        last_seq: u_or(arg_opt(args, off + 1), u32::MAX as nat, 0) as u32,
        dropped: u_or(arg_opt(args, off + 2), u64::MAX as nat, 0) as u64,
        buffered: buffered as u64,
        high_watermark: u_or(arg_opt(args, off + 4), u64::MAX as nat, buffered) as u64,
    }
}

fn u_or_exec(args: &Vec<Vec<char>>, i: usize, max: u64, default: u64) -> (r: u64)
    requires
        default <= max,
    ensures
        r as nat == u_or(arg_opt(views(args@), i as int), max as nat, default as nat),
{
    if i < args.len() {
        match parse_unsigned_exec(&args[i], max) {
            Some(v) => v,
            None => default,
        }
    } else {
        default
    }
}

pub fn uplink_stats_exec<M>(args: &Vec<Vec<char>>) -> (r: TciRequest<M>)
    ensures
        r.view() == uplink_stats_view(views(args@)),
{
    let off: usize = if args.len() >= 6 {
        1
    } else {
        0
    };
    let degraded = if off < args.len() {
        match parse_tci_bool_chars(&args[off]) {
            Some(b) => b,
            None => false,
        }
    } else {
        false
    };
    let last_seq = u_or_exec(args, off + 1, u32::MAX as u64, 0);
    let dropped = u_or_exec(args, off + 2, u64::MAX, 0);
    let buffered = u_or_exec(args, off + 3, u64::MAX, 0);
    let high = u_or_exec(args, off + 4, u64::MAX, buffered);
    TciRequest::UplinkStats {
        degraded,
        last_seq: last_seq as u32,
        dropped,
        buffered,
        high_watermark: high,
    }
}

/// Requests named in rule group 0.
pub open spec fn request_group_0(name: Seq<char>, args: Seq<Seq<char>>, client_id: u64) -> Option<TciRequestView> {
    if name == "vfo"@ {
        Some(if args.len() >= 3 { match parse_unsigned(trim(args[2]), 4294967295nat) { Some(f) => if trim(args[1]) == "0"@ { TciRequestView::Command(TciCommandView::SetVfoA(f as u32)) } else if trim(args[1]) == "1"@ { TciRequestView::Command(TciCommandView::SetVfoB(f as u32)) } else { TciRequestView::Nothing }, None => TciRequestView::Nothing } } else { TciRequestView::Nothing })
    } else if name == "dds"@ {
        Some(if args.len() >= 2 { match parse_unsigned(trim(args[1]), 4294967295nat) { Some(f) => TciRequestView::Command(TciCommandView::SetIqCenter(f as u32)), None => TciRequestView::Nothing } } else { TciRequestView::Nothing })
    } else if name == "saturn_ping"@ {
        Some(if args.len() >= 2 && sanitized(args[0], 32).len() > 0 && sanitized(args[1], 32).len() > 0 { TciRequestView::Command(TciCommandView::SaturnPing { client_id, nonce: sanitized(args[0], 32), sent_at: sanitized(args[1], 32) }) } else { TciRequestView::Nothing })
    } else if name == "modulation"@ {
        Some(if args.len() >= 2 { TciRequestView::Command(TciCommandView::SetMode(DemodMode::from_tci_spec(args[1]))) } else { TciRequestView::Nothing })
    } else if name == "rx_filter_band"@ {
        Some(if args.len() >= 3 { match (int32(args[1]), int32(args[2])) { (Some(l), Some(h)) => TciRequestView::Command(TciCommandView::SetFilterBand { low_hz: l, high_hz: h }), _ => TciRequestView::Nothing } } else { TciRequestView::Nothing })
    } else if name == "rx_volume"@ {
        Some(match decimal(if args.len() >= 3 { args[2] } else { pick(args) }) { Some(t) => TciRequestView::Command(TciCommandView::SetRxVolume(t)), None => TciRequestView::Nothing })
    } else if name == "rx_nr_mode"@ || name == "nr_mode"@ {
        Some(TciRequestView::Command(TciCommandView::SetRxNoiseReductionMode(pick(args))))
    } else if name == "rx_nr"@ || name == "nr"@ {
        Some(match tci_bool(pick(args)) { Some(b) => TciRequestView::Command(TciCommandView::SetRxNoiseReductionEnabled(b)), None => TciRequestView::Nothing })
    } else if name == "rx_nr_level"@ || name == "nr_level"@ {
        Some(match decimal(pick(args)) { Some(t) => TciRequestView::Command(TciCommandView::SetRxNoiseReductionLevel(t)), None => TciRequestView::Nothing })
    } else if name == "rx_nr2_gain_method"@ {
        Some(TciRequestView::Command(TciCommandView::SetRxNr2GainMethod(pick(args))))
    } else if name == "rx_nr2_npe_method"@ {
        Some(TciRequestView::Command(TciCommandView::SetRxNr2NpeMethod(pick(args))))
    } else if name == "rx_nr2_post_filter"@ {
        Some(match tci_bool(pick(args)) { Some(b) => TciRequestView::Command(TciCommandView::SetRxNr2PostFilterEnabled(b)), None => TciRequestView::Nothing })
    } else {
        None
    }
}

/// Requests named in rule group 1.
pub open spec fn request_group_1(name: Seq<char>, args: Seq<Seq<char>>, client_id: u64) -> Option<TciRequestView> {
    if name == "rx_wbfm_deemphasis"@ {
        Some(TciRequestView::Command(TciCommandView::SetRxWbfmDeemphasis(pick(args))))
    } else if name == "rx_anr_taps"@ {
        Some(match int32(pick(args)) { Some(v) => TciRequestView::Command(TciCommandView::SetRxAnrVals { taps: Some(v), delay: None, gain: None, leakage: None }), None => TciRequestView::Nothing })
    } else if name == "rx_anr_delay"@ {
        Some(match int32(pick(args)) { Some(v) => TciRequestView::Command(TciCommandView::SetRxAnrVals { taps: None, delay: Some(v), gain: None, leakage: None }), None => TciRequestView::Nothing })
    } else if name == "rx_anr_gain"@ {
        Some(match decimal(pick(args)) { Some(t) => TciRequestView::Command(TciCommandView::SetRxAnrVals { taps: None, delay: None, gain: Some(t), leakage: None }), None => TciRequestView::Nothing })
    } else if name == "rx_anr_leakage"@ {
        Some(match decimal(pick(args)) { Some(t) => TciRequestView::Command(TciCommandView::SetRxAnrVals { taps: None, delay: None, gain: None, leakage: Some(t) }), None => TciRequestView::Nothing })
    } else if name == "rx_adc"@ {
        Some(match parse_unsigned(trim(pick(args)), 255nat) { Some(v) => TciRequestView::Command(TciCommandView::SetRxAdc((if v > 2 { 2 } else { v }) as u8)), None => TciRequestView::Nothing })
    } else if name == "rx_antenna"@ {
        Some(match parse_unsigned(trim(pick(args)), 255nat) { Some(v) => TciRequestView::Command(TciCommandView::SetRxAntenna((if v < 1 { 1 } else if v > 3 { 3 } else { v }) as u8)), None => TciRequestView::Nothing })
    } else if name == "iq_samplerate"@ {
        Some(match parse_unsigned(trim(args[0]), 4294967295nat) { Some(v) => TciRequestView::Command(TciCommandView::SetIqSampleRate(v as u32)), None => TciRequestView::Nothing })
    } else if name == "iq_start"@ {
        Some(TciRequestView::IqStream(true))
    } else if name == "iq_stop"@ {
        Some(TciRequestView::IqStream(false))
    } else if name == "audio_start"@ {
        Some(TciRequestView::AudioStream(true))
    } else if name == "audio_stop"@ {
        Some(TciRequestView::AudioStream(false))
    } else {
        None
    }
}

/// Requests named in rule group 2.
pub open spec fn request_group_2(name: Seq<char>, args: Seq<Seq<char>>, client_id: u64) -> Option<TciRequestView> {
    if name == "audio_samplerate"@ {
        Some(match parse_unsigned(trim(args[0]), 4294967295nat) { Some(v) => TciRequestView::AudioSampleRate(v as u32), None => TciRequestView::Nothing })
    } else if name == "audio_stream_samples"@ {
        Some(match parse_unsigned(trim(args[0]), 4294967295nat) { Some(v) => TciRequestView::AudioFrameSamples(v as u32), None => TciRequestView::Nothing })
    } else if name == "audio_stream_channels"@ {
        Some(match parse_unsigned(trim(args[0]), 4294967295nat) { Some(v) => TciRequestView::AudioChannels(v as u32), None => TciRequestView::Nothing })
    } else if name == "audio_seq_gap_count"@ {
        Some(match parse_unsigned(trim(pick(args)), 18446744073709551615nat) { Some(v) => TciRequestView::AudioSeqGaps(v as u64), None => TciRequestView::Nothing })
    } else if name == "tx_uplink_stats"@ {
        Some(uplink_stats_view(args))
    } else if name == "tx_codec_caps"@ {
        Some(TciRequestView::CodecCaps(caps_from_args(args)))
    } else if name == "remote_tx_media_priority"@ || name == "audio_stream_sample_type"@ {
        Some(TciRequestView::Nothing)
    } else if name == "rx_smeter"@ || name == "s_meter"@ || name == "smeter"@ {
        Some(TciRequestView::Command(TciCommandView::RequestSmeter))
    } else if name == "trx"@ {
        Some(match tci_bool(pick(args)) { Some(b) => TciRequestView::Trx(b), None => TciRequestView::Nothing })
    } else if name == "rx_nb"@ {
        Some(TciRequestView::Command(TciCommandView::SetNoiseBlankerMode(pick(args))))
    } else if name == "rx_nb_threshold"@ {
        Some(match decimal(pick(args)) { Some(t) => TciRequestView::Command(TciCommandView::SetNoiseBlankerThreshold(t)), None => TciRequestView::Nothing })
    } else if name == "rx_anf"@ {
        Some(match tci_bool(pick(args)) { Some(b) => TciRequestView::Command(TciCommandView::SetAnfEnabled(b)), None => TciRequestView::Nothing })
    } else {
        None
    }
}

/// Requests named in rule group 3.
pub open spec fn request_group_3(name: Seq<char>, args: Seq<Seq<char>>, client_id: u64) -> Option<TciRequestView> {
    if name == "rx_anf_taps"@ {
        Some(match int32(pick(args)) { Some(v) => TciRequestView::Command(TciCommandView::SetRxAnfVals { taps: Some(v), delay: None, gain: None, leakage: None }), None => TciRequestView::Nothing })
    } else if name == "rx_anf_delay"@ {
        Some(match int32(pick(args)) { Some(v) => TciRequestView::Command(TciCommandView::SetRxAnfVals { taps: None, delay: Some(v), gain: None, leakage: None }), None => TciRequestView::Nothing })
    } else if name == "rx_anf_gain"@ {
        Some(match decimal(pick(args)) { Some(t) => TciRequestView::Command(TciCommandView::SetRxAnfVals { taps: None, delay: None, gain: Some(t), leakage: None }), None => TciRequestView::Nothing })
    } else if name == "rx_anf_leakage"@ {
        Some(match decimal(pick(args)) { Some(t) => TciRequestView::Command(TciCommandView::SetRxAnfVals { taps: None, delay: None, gain: None, leakage: Some(t) }), None => TciRequestView::Nothing })
    } else if name == "rx_agc"@ {
        Some(TciRequestView::Command(TciCommandView::SetAgcMode(pick(args))))
    } else if name == "rx_agc_gain"@ {
        Some(match decimal(pick(args)) { Some(t) => TciRequestView::Command(TciCommandView::SetAgcGain(t)), None => TciRequestView::Nothing })
    } else if name == "tx_drive"@ {
        Some(match parse_unsigned(trim(pick(args)), 255nat) { Some(v) => TciRequestView::Command(TciCommandView::SetTxDrive((v) as u8)), None => TciRequestView::Nothing })
    } else if name == "tx_mic_gain"@ {
        Some(match decimal(pick(args)) { Some(t) => TciRequestView::Command(TciCommandView::SetTxMicGain(t)), None => TciRequestView::Nothing })
    } else if name == "tx_filter_band"@ {
        Some(if args.len() >= 3 { match (int32(args[1]), int32(args[2])) { (Some(l), Some(h)) => TciRequestView::Command(TciCommandView::SetTxFilterBand { low_hz: l, high_hz: h }), _ => TciRequestView::Nothing } } else { TciRequestView::Nothing })
    } else if name == "rx_eq_enable"@ {
        Some(match tci_bool(pick(args)) { Some(b) => TciRequestView::Command(TciCommandView::SetRxEqEnabled(b)), None => TciRequestView::Nothing })
    } else if name == "tx_eq_enable"@ {
        Some(match tci_bool(pick(args)) { Some(b) => TciRequestView::Command(TciCommandView::SetTxEqEnabled(b)), None => TciRequestView::Nothing })
    } else if name == "rx_eq_band"@ {
        Some(if args.len() >= 3 { match (parse_unsigned(trim(args[1]), usize::MAX as nat), int32(args[2])) { (Some(b), Some(g)) => if 1 <= b <= 10 { TciRequestView::Command(TciCommandView::SetRxEqBand { band: b as usize, gain_db: g }) } else { TciRequestView::Nothing }, _ => TciRequestView::Nothing } } else { TciRequestView::Nothing })
    } else {
        None
    }
}

/// Requests named in rule group 4.
pub open spec fn request_group_4(name: Seq<char>, args: Seq<Seq<char>>, client_id: u64) -> Option<TciRequestView> {
    if name == "tx_eq_band"@ {
        Some(if args.len() >= 3 { match (parse_unsigned(trim(args[1]), usize::MAX as nat), int32(args[2])) { (Some(b), Some(g)) => if 1 <= b <= 10 { TciRequestView::Command(TciCommandView::SetTxEqBand { band: b as usize, gain_db: g }) } else { TciRequestView::Nothing }, _ => TciRequestView::Nothing } } else { TciRequestView::Nothing })
    } else if name == "tx_cfc_enable"@ {
        Some(match tci_bool(pick(args)) { Some(b) => TciRequestView::Command(TciCommandView::SetTxCfcEnabled(b)), None => TciRequestView::Nothing })
    } else if name == "tx_cfc_precomp"@ {
        Some(match decimal(pick(args)) { Some(t) => TciRequestView::Command(TciCommandView::SetTxCfcPrecomp(t)), None => TciRequestView::Nothing })
    } else if name == "tx_cfc_band"@ {
        Some(if args.len() >= 3 { match (parse_unsigned(trim(args[1]), usize::MAX as nat), decimal(args[2])) { (Some(b), Some(g)) => if 1 <= b <= 10 { TciRequestView::Command(TciCommandView::SetTxCfcBand { band: b as usize, gain_db: g }) } else { TciRequestView::Nothing }, _ => TciRequestView::Nothing } } else { TciRequestView::Nothing })
    } else if name == "tx_phase_rotator"@ {
        Some(match tci_bool(pick(args)) { Some(b) => TciRequestView::Command(TciCommandView::SetTxPhaseRotatorEnabled(b)), None => TciRequestView::Nothing })
    } else if name == "tx_phase_rotator_auto"@ {
        Some(match tci_bool(pick(args)) { Some(b) => TciRequestView::Command(TciCommandView::SetTxPhaseRotatorAuto(b)), None => TciRequestView::Nothing })
    } else if name == "tx_phase_rotator_corner"@ {
        Some(match decimal(pick(args)) { Some(t) => TciRequestView::Command(TciCommandView::SetTxPhaseRotatorCorner(t)), None => TciRequestView::Nothing })
    } else if name == "tx_puresignal"@ {
        Some(match tci_bool(pick(args)) { Some(b) => TciRequestView::Command(TciCommandView::SetPureSignalEnabled(b)), None => TciRequestView::Nothing })
    } else if name == "tx_puresignal_auto_attenuate"@ {
        Some(match tci_bool(pick(args)) { Some(b) => TciRequestView::Command(TciCommandView::SetPureSignalAutoAttenuate(b)), None => TciRequestView::Nothing })
    } else if name == "tx_puresignal_attenuation"@ {
        Some(match parse_unsigned(trim(pick(args)), 255nat) { Some(v) => TciRequestView::Command(TciCommandView::SetPureSignalAttenuation((if v > 31 { 31 } else { v }) as u8)), None => TciRequestView::Nothing })
    } else if name == "tx_puresignal_reset"@ {
        Some(TciRequestView::Command(TciCommandView::ResetPureSignal))
    } else if name == "tx_two_tone"@ {
        Some(match tci_bool(pick(args)) { Some(b) => TciRequestView::Command(TciCommandView::SetTxTwoToneTest(b)), None => TciRequestView::Nothing })
    } else {
        None
    }
}

/// Requests named in rule group 5.
pub open spec fn request_group_5(name: Seq<char>, args: Seq<Seq<char>>, client_id: u64) -> Option<TciRequestView> {
    if name == "tx_two_tone_freq1"@ {
        Some(match decimal(pick(args)) { Some(t) => TciRequestView::Command(TciCommandView::SetTxTwoToneFreq1(t)), None => TciRequestView::Nothing })
    } else if name == "tx_two_tone_freq2"@ {
        Some(match decimal(pick(args)) { Some(t) => TciRequestView::Command(TciCommandView::SetTxTwoToneFreq2(t)), None => TciRequestView::Nothing })
    } else if name == "tx_two_tone_level_db"@ {
        Some(match decimal(pick(args)) { Some(t) => TciRequestView::Command(TciCommandView::SetTxTwoToneLevelDb(t)), None => TciRequestView::Nothing })
    } else if name == "tx_two_tone_invert_lsb"@ {
        Some(match tci_bool(pick(args)) { Some(b) => TciRequestView::Command(TciCommandView::SetTxTwoToneInvertLsb(b)), None => TciRequestView::Nothing })
    } else if name == "tx_two_tone_delay_ms"@ {
        Some(match parse_unsigned(trim(pick(args)), 65535nat) { Some(v) => TciRequestView::Command(TciCommandView::SetTxTwoToneDelayMs((v) as u16)), None => TciRequestView::Nothing })
    } else if name == "tx_noise_gate"@ {
        Some(match tci_bool(pick(args)) { Some(b) => TciRequestView::Command(TciCommandView::SetTxNoiseGateEnabled(b)), None => TciRequestView::Nothing })
    } else if name == "tx_noise_gate_threshold"@ {
        Some(match decimal(pick(args)) { Some(t) => TciRequestView::Command(TciCommandView::SetTxNoiseGateThreshold(t)), None => TciRequestView::Nothing })
    } else if name == "rx_fft_size"@ {
        Some(match parse_unsigned(trim(pick(args)), 4294967295nat) { Some(v) => TciRequestView::Command(TciCommandView::SetRxFftSize((v) as u32)), None => TciRequestView::Nothing })
    } else if name == "rx_low_latency"@ {
        Some(match tci_bool(pick(args)) { Some(b) => TciRequestView::Command(TciCommandView::SetRxLowLatency(b)), None => TciRequestView::Nothing })
    } else if name == "tx_fft_size"@ {
        Some(match parse_unsigned(trim(pick(args)), 4294967295nat) { Some(v) => TciRequestView::Command(TciCommandView::SetTxFftSize((v) as u32)), None => TciRequestView::Nothing })
    } else if name == "tx_low_latency"@ {
        Some(match tci_bool(pick(args)) { Some(b) => TciRequestView::Command(TciCommandView::SetTxLowLatency(b)), None => TciRequestView::Nothing })
    } else {
        None
    }
}

/// The request a command name and its arguments make (nothing for an unknown name).
pub open spec fn request_of(name: Seq<char>, args: Seq<Seq<char>>, client_id: u64) -> TciRequestView {
    if let Some(r) = request_group_0(name, args, client_id) {
        r
    } else if let Some(r) = request_group_1(name, args, client_id) {
        r
    } else if let Some(r) = request_group_2(name, args, client_id) {
        r
    } else if let Some(r) = request_group_3(name, args, client_id) {
        r
    } else if let Some(r) = request_group_4(name, args, client_id) {
        r
    } else if let Some(r) = request_group_5(name, args, client_id) {
        r
    } else {
        TciRequestView::Nothing
    }
}

fn classify_group_0<M>(name: &Vec<char>, args: &Vec<Vec<char>>, client_id: u64) -> (r: Option<TciRequest<M>>)
    requires
        args@.len() >= 1,
    ensures
        match (r, request_group_0(name@, views(args@), client_id)) {
            (Some(x), Some(y)) => x.view() == y,
            (None, None) => true,
            _ => false,
        },
{
    if eq_str(name, "vfo") {
        Some(if args.len() >= 3 { match parse_unsigned_exec(&args[2], 4294967295) { Some(f) => { let which = trim_chars(&args[1]); if eq_str(&which, "0") { TciRequest::Command(TciCommand::SetVfoA(f as u32)) } else if eq_str(&which, "1") { TciRequest::Command(TciCommand::SetVfoB(f as u32)) } else { TciRequest::Nothing } }, None => TciRequest::Nothing } } else { TciRequest::Nothing })
    } else if eq_str(name, "dds") {
        Some(if args.len() >= 2 { match parse_unsigned_exec(&args[1], 4294967295) { Some(f) => TciRequest::Command(TciCommand::SetIqCenter(f as u32)), None => TciRequest::Nothing } } else { TciRequest::Nothing })
    } else if eq_str(name, "saturn_ping") {
        Some(if args.len() >= 2 { let nonce = sanitize_chars(&args[0], 32); let sent_at = sanitize_chars(&args[1], 32); if nonce.len() > 0 && sent_at.len() > 0 { TciRequest::Command(TciCommand::SaturnPing { client_id, nonce: string_of(&nonce), sent_at: string_of(&sent_at) }) } else { TciRequest::Nothing } } else { TciRequest::Nothing })
    } else if eq_str(name, "modulation") {
        Some(if args.len() >= 2 { TciRequest::Command(TciCommand::SetMode(DemodMode::from_chars(&args[1]))) } else { TciRequest::Nothing })
    } else if eq_str(name, "rx_filter_band") {
        Some(if args.len() >= 3 { match (int32_exec(&args[1]), int32_exec(&args[2])) { (Some(l), Some(h)) => TciRequest::Command(TciCommand::SetFilterBand { low_hz: l, high_hz: h }), _ => TciRequest::Nothing } } else { TciRequest::Nothing })
    } else if eq_str(name, "rx_volume") {
        Some(match decimal_exec(&args[if args.len() >= 3 { 2 } else { pick_index(args.len()) }]) { Some(t) => TciRequest::Command(TciCommand::SetRxVolume(t)), None => TciRequest::Nothing })
    } else if eq_str(name, "rx_nr_mode") || eq_str(name, "nr_mode") {
        Some(TciRequest::Command(TciCommand::SetRxNoiseReductionMode(string_of(&args[pick_index(args.len())]))))
    } else if eq_str(name, "rx_nr") || eq_str(name, "nr") {
        Some(match parse_tci_bool_chars(&args[pick_index(args.len())]) { Some(b) => TciRequest::Command(TciCommand::SetRxNoiseReductionEnabled(b)), None => TciRequest::Nothing })
    } else if eq_str(name, "rx_nr_level") || eq_str(name, "nr_level") {
        Some(match decimal_exec(&args[pick_index(args.len())]) { Some(t) => TciRequest::Command(TciCommand::SetRxNoiseReductionLevel(t)), None => TciRequest::Nothing })
    } else if eq_str(name, "rx_nr2_gain_method") {
        Some(TciRequest::Command(TciCommand::SetRxNr2GainMethod(string_of(&args[pick_index(args.len())]))))
    } else if eq_str(name, "rx_nr2_npe_method") {
        Some(TciRequest::Command(TciCommand::SetRxNr2NpeMethod(string_of(&args[pick_index(args.len())]))))
    } else if eq_str(name, "rx_nr2_post_filter") {
        Some(match parse_tci_bool_chars(&args[pick_index(args.len())]) { Some(b) => TciRequest::Command(TciCommand::SetRxNr2PostFilterEnabled(b)), None => TciRequest::Nothing })
    } else {
        None
    }
}

fn classify_group_1<M>(name: &Vec<char>, args: &Vec<Vec<char>>, client_id: u64) -> (r: Option<TciRequest<M>>)
    requires
        args@.len() >= 1,
    ensures
        match (r, request_group_1(name@, views(args@), client_id)) {
            (Some(x), Some(y)) => x.view() == y,
            (None, None) => true,
            _ => false,
        },
{
    if eq_str(name, "rx_wbfm_deemphasis") {
        Some(TciRequest::Command(TciCommand::SetRxWbfmDeemphasis(string_of(&args[pick_index(args.len())]))))
    } else if eq_str(name, "rx_anr_taps") {
        Some(match int32_exec(&args[pick_index(args.len())]) { Some(v) => TciRequest::Command(TciCommand::SetRxAnrVals { taps: Some(v), delay: None, gain: None, leakage: None }), None => TciRequest::Nothing })
    } else if eq_str(name, "rx_anr_delay") {
        Some(match int32_exec(&args[pick_index(args.len())]) { Some(v) => TciRequest::Command(TciCommand::SetRxAnrVals { taps: None, delay: Some(v), gain: None, leakage: None }), None => TciRequest::Nothing })
    } else if eq_str(name, "rx_anr_gain") {
        Some(match decimal_exec(&args[pick_index(args.len())]) { Some(t) => TciRequest::Command(TciCommand::SetRxAnrVals { taps: None, delay: None, gain: Some(t), leakage: None }), None => TciRequest::Nothing })
    } else if eq_str(name, "rx_anr_leakage") {
        Some(match decimal_exec(&args[pick_index(args.len())]) { Some(t) => TciRequest::Command(TciCommand::SetRxAnrVals { taps: None, delay: None, gain: None, leakage: Some(t) }), None => TciRequest::Nothing })
    } else if eq_str(name, "rx_adc") {
        Some(match parse_unsigned_exec(&args[pick_index(args.len())], 255) { Some(v) => TciRequest::Command(TciCommand::SetRxAdc((if v > 2 { 2 } else { v }) as u8)), None => TciRequest::Nothing })
    } else if eq_str(name, "rx_antenna") {
        Some(match parse_unsigned_exec(&args[pick_index(args.len())], 255) { Some(v) => TciRequest::Command(TciCommand::SetRxAntenna((if v < 1 { 1 } else if v > 3 { 3 } else { v }) as u8)), None => TciRequest::Nothing })
    } else if eq_str(name, "iq_samplerate") {
        Some(match parse_unsigned_exec(&args[0], 4294967295) { Some(v) => TciRequest::Command(TciCommand::SetIqSampleRate(v as u32)), None => TciRequest::Nothing })
    } else if eq_str(name, "iq_start") {
        Some(TciRequest::IqStream(true))
    } else if eq_str(name, "iq_stop") {
        Some(TciRequest::IqStream(false))
    } else if eq_str(name, "audio_start") {
        Some(TciRequest::AudioStream(true))
    } else if eq_str(name, "audio_stop") {
        Some(TciRequest::AudioStream(false))
    } else {
        None
    }
}

fn classify_group_2<M>(name: &Vec<char>, args: &Vec<Vec<char>>, client_id: u64) -> (r: Option<TciRequest<M>>)
    requires
        args@.len() >= 1,
    ensures
        match (r, request_group_2(name@, views(args@), client_id)) {
            (Some(x), Some(y)) => x.view() == y,
            (None, None) => true,
            _ => false,
        },
{
    if eq_str(name, "audio_samplerate") {
        Some(match parse_unsigned_exec(&args[0], 4294967295) { Some(v) => TciRequest::AudioSampleRate(v as u32), None => TciRequest::Nothing })
    } else if eq_str(name, "audio_stream_samples") {
        Some(match parse_unsigned_exec(&args[0], 4294967295) { Some(v) => TciRequest::AudioFrameSamples(v as u32), None => TciRequest::Nothing })
    } else if eq_str(name, "audio_stream_channels") {
        Some(match parse_unsigned_exec(&args[0], 4294967295) { Some(v) => TciRequest::AudioChannels(v as u32), None => TciRequest::Nothing })
    } else if eq_str(name, "audio_seq_gap_count") {
        Some(match parse_unsigned_exec(&args[pick_index(args.len())], 18446744073709551615) { Some(v) => TciRequest::AudioSeqGaps(v), None => TciRequest::Nothing })
    } else if eq_str(name, "tx_uplink_stats") {
        Some(uplink_stats_exec(args))
    } else if eq_str(name, "tx_codec_caps") {
        Some(TciRequest::CodecCaps(parse_tx_codec_caps_args(args)))
    } else if eq_str(name, "remote_tx_media_priority") || eq_str(name, "audio_stream_sample_type") {
        Some(TciRequest::Nothing)
    } else if eq_str(name, "rx_smeter") || eq_str(name, "s_meter") || eq_str(name, "smeter") {
        Some(TciRequest::Command(TciCommand::RequestSmeter))
    } else if eq_str(name, "trx") {
        Some(match parse_tci_bool_chars(&args[pick_index(args.len())]) { Some(b) => TciRequest::Trx(b), None => TciRequest::Nothing })
    } else if eq_str(name, "rx_nb") {
        Some(TciRequest::Command(TciCommand::SetNoiseBlankerMode(string_of(&args[pick_index(args.len())]))))
    } else if eq_str(name, "rx_nb_threshold") {
        Some(match decimal_exec(&args[pick_index(args.len())]) { Some(t) => TciRequest::Command(TciCommand::SetNoiseBlankerThreshold(t)), None => TciRequest::Nothing })
    } else if eq_str(name, "rx_anf") {
        Some(match parse_tci_bool_chars(&args[pick_index(args.len())]) { Some(b) => TciRequest::Command(TciCommand::SetAnfEnabled(b)), None => TciRequest::Nothing })
    } else {
        None
    }
}

fn classify_group_3<M>(name: &Vec<char>, args: &Vec<Vec<char>>, client_id: u64) -> (r: Option<TciRequest<M>>)
    requires
        args@.len() >= 1,
    ensures
        match (r, request_group_3(name@, views(args@), client_id)) {
            (Some(x), Some(y)) => x.view() == y,
            (None, None) => true,
            _ => false,
        },
{
    if eq_str(name, "rx_anf_taps") {
        Some(match int32_exec(&args[pick_index(args.len())]) { Some(v) => TciRequest::Command(TciCommand::SetRxAnfVals { taps: Some(v), delay: None, gain: None, leakage: None }), None => TciRequest::Nothing })
    } else if eq_str(name, "rx_anf_delay") {
        Some(match int32_exec(&args[pick_index(args.len())]) { Some(v) => TciRequest::Command(TciCommand::SetRxAnfVals { taps: None, delay: Some(v), gain: None, leakage: None }), None => TciRequest::Nothing })
    } else if eq_str(name, "rx_anf_gain") {
        Some(match decimal_exec(&args[pick_index(args.len())]) { Some(t) => TciRequest::Command(TciCommand::SetRxAnfVals { taps: None, delay: None, gain: Some(t), leakage: None }), None => TciRequest::Nothing })
    } else if eq_str(name, "rx_anf_leakage") {
        Some(match decimal_exec(&args[pick_index(args.len())]) { Some(t) => TciRequest::Command(TciCommand::SetRxAnfVals { taps: None, delay: None, gain: None, leakage: Some(t) }), None => TciRequest::Nothing })
    } else if eq_str(name, "rx_agc") {
        Some(TciRequest::Command(TciCommand::SetAgcMode(string_of(&args[pick_index(args.len())]))))
    } else if eq_str(name, "rx_agc_gain") {
        Some(match decimal_exec(&args[pick_index(args.len())]) { Some(t) => TciRequest::Command(TciCommand::SetAgcGain(t)), None => TciRequest::Nothing })
    } else if eq_str(name, "tx_drive") {
        Some(match parse_unsigned_exec(&args[pick_index(args.len())], 255) { Some(v) => TciRequest::Command(TciCommand::SetTxDrive((v) as u8)), None => TciRequest::Nothing })
    } else if eq_str(name, "tx_mic_gain") {
        Some(match decimal_exec(&args[pick_index(args.len())]) { Some(t) => TciRequest::Command(TciCommand::SetTxMicGain(t)), None => TciRequest::Nothing })
    } else if eq_str(name, "tx_filter_band") {
        Some(if args.len() >= 3 { match (int32_exec(&args[1]), int32_exec(&args[2])) { (Some(l), Some(h)) => TciRequest::Command(TciCommand::SetTxFilterBand { low_hz: l, high_hz: h }), _ => TciRequest::Nothing } } else { TciRequest::Nothing })
    } else if eq_str(name, "rx_eq_enable") {
        Some(match parse_tci_bool_chars(&args[pick_index(args.len())]) { Some(b) => TciRequest::Command(TciCommand::SetRxEqEnabled(b)), None => TciRequest::Nothing })
    } else if eq_str(name, "tx_eq_enable") {
        Some(match parse_tci_bool_chars(&args[pick_index(args.len())]) { Some(b) => TciRequest::Command(TciCommand::SetTxEqEnabled(b)), None => TciRequest::Nothing })
    } else if eq_str(name, "rx_eq_band") {
        Some(if args.len() >= 3 { match (parse_unsigned_exec(&args[1], usize::MAX as u64), int32_exec(&args[2])) { (Some(b), Some(g)) => if 1 <= b && b <= 10 { TciRequest::Command(TciCommand::SetRxEqBand { band: b as usize, gain_db: g }) } else { TciRequest::Nothing }, _ => TciRequest::Nothing } } else { TciRequest::Nothing })
    } else {
        None
    }
}

fn classify_group_4<M>(name: &Vec<char>, args: &Vec<Vec<char>>, client_id: u64) -> (r: Option<TciRequest<M>>)
    requires
        args@.len() >= 1,
    ensures
        match (r, request_group_4(name@, views(args@), client_id)) {
            (Some(x), Some(y)) => x.view() == y,
            (None, None) => true,
            _ => false,
        },
{
    if eq_str(name, "tx_eq_band") {
        Some(if args.len() >= 3 { match (parse_unsigned_exec(&args[1], usize::MAX as u64), int32_exec(&args[2])) { (Some(b), Some(g)) => if 1 <= b && b <= 10 { TciRequest::Command(TciCommand::SetTxEqBand { band: b as usize, gain_db: g }) } else { TciRequest::Nothing }, _ => TciRequest::Nothing } } else { TciRequest::Nothing })
    } else if eq_str(name, "tx_cfc_enable") {
        Some(match parse_tci_bool_chars(&args[pick_index(args.len())]) { Some(b) => TciRequest::Command(TciCommand::SetTxCfcEnabled(b)), None => TciRequest::Nothing })
    } else if eq_str(name, "tx_cfc_precomp") {
        Some(match decimal_exec(&args[pick_index(args.len())]) { Some(t) => TciRequest::Command(TciCommand::SetTxCfcPrecomp(t)), None => TciRequest::Nothing })
    } else if eq_str(name, "tx_cfc_band") {
        Some(if args.len() >= 3 { match (parse_unsigned_exec(&args[1], usize::MAX as u64), decimal_exec(&args[2])) { (Some(b), Some(g)) => if 1 <= b && b <= 10 { TciRequest::Command(TciCommand::SetTxCfcBand { band: b as usize, gain_db: g }) } else { TciRequest::Nothing }, _ => TciRequest::Nothing } } else { TciRequest::Nothing })
    } else if eq_str(name, "tx_phase_rotator") {
        Some(match parse_tci_bool_chars(&args[pick_index(args.len())]) { Some(b) => TciRequest::Command(TciCommand::SetTxPhaseRotatorEnabled(b)), None => TciRequest::Nothing })
    } else if eq_str(name, "tx_phase_rotator_auto") {
        Some(match parse_tci_bool_chars(&args[pick_index(args.len())]) { Some(b) => TciRequest::Command(TciCommand::SetTxPhaseRotatorAuto(b)), None => TciRequest::Nothing })
    } else if eq_str(name, "tx_phase_rotator_corner") {
        Some(match decimal_exec(&args[pick_index(args.len())]) { Some(t) => TciRequest::Command(TciCommand::SetTxPhaseRotatorCorner(t)), None => TciRequest::Nothing })
    } else if eq_str(name, "tx_puresignal") {
        Some(match parse_tci_bool_chars(&args[pick_index(args.len())]) { Some(b) => TciRequest::Command(TciCommand::SetPureSignalEnabled(b)), None => TciRequest::Nothing })
    } else if eq_str(name, "tx_puresignal_auto_attenuate") {
        Some(match parse_tci_bool_chars(&args[pick_index(args.len())]) { Some(b) => TciRequest::Command(TciCommand::SetPureSignalAutoAttenuate(b)), None => TciRequest::Nothing })
    } else if eq_str(name, "tx_puresignal_attenuation") {
        Some(match parse_unsigned_exec(&args[pick_index(args.len())], 255) { Some(v) => TciRequest::Command(TciCommand::SetPureSignalAttenuation((if v > 31 { 31 } else { v }) as u8)), None => TciRequest::Nothing })
    } else if eq_str(name, "tx_puresignal_reset") {
        Some(TciRequest::Command(TciCommand::ResetPureSignal))
    } else if eq_str(name, "tx_two_tone") {
        Some(match parse_tci_bool_chars(&args[pick_index(args.len())]) { Some(b) => TciRequest::Command(TciCommand::SetTxTwoToneTest(b)), None => TciRequest::Nothing })
    } else {
        None
    }
}

fn classify_group_5<M>(name: &Vec<char>, args: &Vec<Vec<char>>, client_id: u64) -> (r: Option<TciRequest<M>>)
    requires
        args@.len() >= 1,
    ensures
        match (r, request_group_5(name@, views(args@), client_id)) {
            (Some(x), Some(y)) => x.view() == y,
            (None, None) => true,
            _ => false,
        },
{
    if eq_str(name, "tx_two_tone_freq1") {
        Some(match decimal_exec(&args[pick_index(args.len())]) { Some(t) => TciRequest::Command(TciCommand::SetTxTwoToneFreq1(t)), None => TciRequest::Nothing })
    } else if eq_str(name, "tx_two_tone_freq2") {
        Some(match decimal_exec(&args[pick_index(args.len())]) { Some(t) => TciRequest::Command(TciCommand::SetTxTwoToneFreq2(t)), None => TciRequest::Nothing })
    } else if eq_str(name, "tx_two_tone_level_db") {
        Some(match decimal_exec(&args[pick_index(args.len())]) { Some(t) => TciRequest::Command(TciCommand::SetTxTwoToneLevelDb(t)), None => TciRequest::Nothing })
    } else if eq_str(name, "tx_two_tone_invert_lsb") {
        Some(match parse_tci_bool_chars(&args[pick_index(args.len())]) { Some(b) => TciRequest::Command(TciCommand::SetTxTwoToneInvertLsb(b)), None => TciRequest::Nothing })
    } else if eq_str(name, "tx_two_tone_delay_ms") {
        Some(match parse_unsigned_exec(&args[pick_index(args.len())], 65535) { Some(v) => TciRequest::Command(TciCommand::SetTxTwoToneDelayMs((v) as u16)), None => TciRequest::Nothing })
    } else if eq_str(name, "tx_noise_gate") {
        Some(match parse_tci_bool_chars(&args[pick_index(args.len())]) { Some(b) => TciRequest::Command(TciCommand::SetTxNoiseGateEnabled(b)), None => TciRequest::Nothing })
    } else if eq_str(name, "tx_noise_gate_threshold") {
        Some(match decimal_exec(&args[pick_index(args.len())]) { Some(t) => TciRequest::Command(TciCommand::SetTxNoiseGateThreshold(t)), None => TciRequest::Nothing })
    } else if eq_str(name, "rx_fft_size") {
        Some(match parse_unsigned_exec(&args[pick_index(args.len())], 4294967295) { Some(v) => TciRequest::Command(TciCommand::SetRxFftSize((v) as u32)), None => TciRequest::Nothing })
    } else if eq_str(name, "rx_low_latency") {
        Some(match parse_tci_bool_chars(&args[pick_index(args.len())]) { Some(b) => TciRequest::Command(TciCommand::SetRxLowLatency(b)), None => TciRequest::Nothing })
    } else if eq_str(name, "tx_fft_size") {
        Some(match parse_unsigned_exec(&args[pick_index(args.len())], 4294967295) { Some(v) => TciRequest::Command(TciCommand::SetTxFftSize((v) as u32)), None => TciRequest::Nothing })
    } else if eq_str(name, "tx_low_latency") {
        Some(match parse_tci_bool_chars(&args[pick_index(args.len())]) { Some(b) => TciRequest::Command(TciCommand::SetTxLowLatency(b)), None => TciRequest::Nothing })
    } else {
        None
    }
}

/// The request a command name and its arguments make.
pub fn classify<M>(name: &Vec<char>, args: &Vec<Vec<char>>, client_id: u64) -> (r: TciRequest<M>)
    requires
        args@.len() >= 1,
    ensures
        r.view() == request_of(name@, views(args@), client_id),
{
    if let Some(r) = classify_group_0(name, args, client_id) {
        return r;
    }
    if let Some(r) = classify_group_1(name, args, client_id) {
        return r;
    }
    if let Some(r) = classify_group_2(name, args, client_id) {
        return r;
    }
    if let Some(r) = classify_group_3(name, args, client_id) {
        return r;
    }
    if let Some(r) = classify_group_4(name, args, client_id) {
        return r;
    }
    if let Some(r) = classify_group_5(name, args, client_id) {
        return r;
    }
    TciRequest::Nothing
}

} // verus!
