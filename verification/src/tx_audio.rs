//! The transmit audio ingress: a bounded first-in first-out queue of
//! microphone frames and flushes from TCI or SATP, with its counters, and the
//! sinks that feed it.
use vstd::prelude::*;
use vstd::wrapping::u64_specs;
use std::collections::VecDeque;
use crate::text::{chars_of, eq_str, lower, lower_chars, trim, trim_chars};

verus! {

/// Messages the ingress holds before the transmit worker takes them.
pub const TX_AUDIO_INGRESS_CAPACITY: usize = 256;

/// Samples in one SATP microphone packet.
pub const SATP_PACKET_SAMPLES: usize = 128;

/// Sample rate of SATP microphone packets.
pub const SATP_SAMPLE_RATE_HZ: u32 = 48_000;

/// Where transmit microphone audio comes from.
#[derive(Clone, Copy, Debug, PartialEq, Eq, Structural)]
pub enum TxAudioSource {
    Tci,
    Satp,
}

impl TxAudioSource {
    /// A setting names a source case-insensitively, surrounding white space ignored.
    pub open spec fn parse_spec(value: Seq<char>) -> Option<TxAudioSource> {
        let name = lower(trim(value));
        if name == "tci"@ {
            Some(TxAudioSource::Tci)
        } else if name == "satp"@ {
            Some(TxAudioSource::Satp)
        } else {
            None
        }
    }

    pub fn parse(value: &str) -> (source: Option<TxAudioSource>)
        ensures
            source == TxAudioSource::parse_spec(value@),
    {
        let name = lower_chars(&trim_chars(&chars_of(value)));
        if eq_str(&name, "tci") {
            Some(TxAudioSource::Tci)
        } else if eq_str(&name, "satp") {
            Some(TxAudioSource::Satp)
        } else {
            None
        }
    }

    pub open spec fn as_str_spec(self) -> Seq<char> {
        match self {
            TxAudioSource::Tci => "tci"@,
            TxAudioSource::Satp => "satp"@,
        }
    }

    pub fn as_str(self) -> (s: &'static str)
        ensures
            s@ == self.as_str_spec(),
    {
        match self {
            TxAudioSource::Tci => "tci",
            TxAudioSource::Satp => "satp",
        }
    }
}

/// Samples of one frame: a frame of any length, or one SATP packet.
pub enum TxAudioSamples<S> {
    Dynamic(Vec<S>),
    Satp([S; 128]),
}

impl<S> TxAudioSamples<S> {
    pub open spec fn view(&self) -> Seq<S> {
        match self {
            TxAudioSamples::Dynamic(samples) => samples@,
            TxAudioSamples::Satp(samples) => samples@,
        }
    }

    pub fn as_slice(&self) -> (s: &[S])
        ensures
            s@ == self.view(),
    {
        match self {
            TxAudioSamples::Dynamic(samples) => samples.as_slice(),
            TxAudioSamples::Satp(samples) => samples.as_slice(),
        }
    }

    pub fn len(&self) -> (n: usize)
        ensures
            n == self.view().len(),
    {
        match self {
            TxAudioSamples::Dynamic(samples) => samples.len(),
            TxAudioSamples::Satp(samples) => samples.len(),
        }
    }
}

/// One frame of transmit microphone audio.
pub struct TxAudioFrame<S> {
    pub source: TxAudioSource,
    pub samples: TxAudioSamples<S>,
    pub channels: u32,
    pub sample_rate_hz: u32,
}

/// What the ingress carries to the transmit worker.
pub enum TxAudioMessage<S> {
    Frames(TxAudioFrame<S>),
    Flush(TxAudioSource),
}

/// Why the ingress refused a message.
#[derive(Clone, Copy, Debug, PartialEq, Eq, Structural)]
pub enum TxAudioIngressError {
    /// The queue holds its capacity of messages.
    QueueFull,
    /// The transmit worker no longer receives.
    Disconnected,
}

/// What the transmit pipeline reports of itself.
#[derive(Clone, Copy, Debug, PartialEq, Eq, Structural)]
pub enum TxPipelineState {
    Idle,
    Armed,
    Keyed,
}

impl TxPipelineState {
    /// "armed" and "keyed" name their states; anything else is idle.
    pub open spec fn from_label_spec(label: Seq<char>) -> TxPipelineState {
        if label == "armed"@ {
            TxPipelineState::Armed
        } else if label == "keyed"@ {
            TxPipelineState::Keyed
        } else {
            TxPipelineState::Idle
        }
    }

    pub fn from_label(label: &str) -> (state: TxPipelineState)
        ensures
            state == TxPipelineState::from_label_spec(label@),
    {
        let l = chars_of(label);
        if eq_str(&l, "armed") {
            TxPipelineState::Armed
        } else if eq_str(&l, "keyed") {
            TxPipelineState::Keyed
        } else {
            TxPipelineState::Idle
        }
    }

    pub open spec fn as_str_spec(self) -> Seq<char> {
        match self {
            TxPipelineState::Idle => "idle"@,
            TxPipelineState::Armed => "armed"@,
            TxPipelineState::Keyed => "keyed"@,
        }
    }

    pub fn as_str(self) -> (s: &'static str)
        ensures
            s@ == self.as_str_spec(),
    {
        match self {
            TxPipelineState::Idle => "idle",
            TxPipelineState::Armed => "armed",
            TxPipelineState::Keyed => "keyed",
        }
    }
}

/// Counters of one audio source.
#[derive(Clone, Copy, Debug, Default, PartialEq, Eq, Structural)]
pub struct TxSourceCounters {
    pub frames_enqueued: u64,
    pub samples_enqueued: u64,
    pub frames_queue_full: u64,
    pub samples_queue_full: u64,
    pub frames_accepted: u64,
    pub samples_accepted: u64,
    pub frames_rejected_idle: u64,
    pub frames_rejected_source: u64,
}

/// A copy of the ingress counters and of the pipeline's last report.
#[derive(Clone, Copy, Debug)]
pub struct TxAudioIngressSnapshot {
    pub queue_depth: usize,
    pub queue_high_water: usize,
    pub satp_frames_enqueued: u64,
    pub satp_samples_enqueued: u64,
    pub satp_frames_queue_full: u64,
    pub satp_samples_queue_full: u64,
    pub satp_frames_accepted: u64,
    pub satp_samples_accepted: u64,
    pub satp_frames_rejected_idle: u64,
    pub satp_frames_rejected_source: u64,
    pub tci_frames_enqueued: u64,
    pub tci_samples_enqueued: u64,
    pub tci_frames_queue_full: u64,
    pub tci_samples_queue_full: u64,
    pub tci_frames_accepted: u64,
    pub tci_samples_accepted: u64,
    pub tci_frames_rejected_idle: u64,
    pub tci_frames_rejected_source: u64,
    pub flushes_enqueued: u64,
    pub flushes_processed: u64,
    pub pipeline_state: &'static str,
    pub pipeline_rf_enabled: bool,
    pub pipeline_mic_frames: u64,
    pub pipeline_duc_packets: u64,
    pub pipeline_wdsp_input_samples: u64,
    pub pipeline_wdsp_output_pairs: u64,
    pub pipeline_pending_mic_floats: usize,
    pub pipeline_pending_iq_floats: usize,
    pub pipeline_rmatch_enabled: bool,
    pub pipeline_rmatch_underflows: i32,
    pub pipeline_rmatch_overflows: i32,
    /// Bit pattern of the resampler ratio; the bits of 1.0 while no ratio
    /// was reported (stored bits zero).
    pub pipeline_rmatch_ratio_bits: u64,
}

/// The IEEE-754 bit pattern of the ratio 1.0.
pub const UNIT_RATIO_BITS: u64 = 0x3FF0_0000_0000_0000u64;

/// The ratio that a snapshot shows for stored bits: zero means that no
/// ratio was reported, which reads as 1.0.
pub open spec fn shown_ratio_bits(stored: u64) -> u64 {
    if stored == 0 { UNIT_RATIO_BITS } else { stored }
}

/// What the pipeline reports through `update_pipeline`.
#[derive(Clone, Copy, Debug, PartialEq, Eq, Structural)]
pub struct TxPipelineReport {
    pub mic_frames: u64,
    pub duc_packets: u64,
    pub wdsp_input_samples: u64,
    pub wdsp_output_pairs: u64,
    pub pending_mic_floats: usize,
    pub pending_iq_floats: usize,
    pub rmatch_enabled: bool,
    pub rmatch_underflows: i32,
    pub rmatch_overflows: i32,
    pub rmatch_ratio_bits: u64,
}

/// Counters of the ingress. Event counters wrap like the atomic counters of a
/// long-running process; the queue depth saturates at zero.
pub struct TxAudioIngressStats {
    pub queue_depth: usize,
    pub queue_high_water: usize,
    pub tci: TxSourceCounters,
    pub satp: TxSourceCounters,
    pub flushes_enqueued: u64,
    pub flushes_processed: u64,
    pub pipeline_state: TxPipelineState,
    pub pipeline_rf_enabled: bool,
    pub pipeline: TxPipelineReport,
}

pub open spec fn add_samples(counter: u64, samples: usize) -> u64 {
    u64_specs::wrapping_add(counter, samples as u64)
}

pub open spec fn add_one(counter: u64) -> u64 {
    u64_specs::wrapping_add(counter, 1)
}

impl TxAudioIngressStats {
    pub open spec fn source(&self, source: TxAudioSource) -> TxSourceCounters {
        match source {
            TxAudioSource::Tci => self.tci,
            TxAudioSource::Satp => self.satp,
        }
    }

    /// Everything but `source`'s counters is as in `old`.
    pub open spec fn only_source_changed(&self, old: &TxAudioIngressStats, source: TxAudioSource) -> bool {
        &&& self.queue_depth == old.queue_depth
        &&& self.queue_high_water == old.queue_high_water
        &&& self.flushes_enqueued == old.flushes_enqueued
        &&& self.flushes_processed == old.flushes_processed
        &&& self.pipeline_state == old.pipeline_state
        &&& self.pipeline_rf_enabled == old.pipeline_rf_enabled
        &&& self.pipeline == old.pipeline
        &&& (source == TxAudioSource::Tci ==> self.satp == old.satp)
        &&& (source == TxAudioSource::Satp ==> self.tci == old.tci)
    }

    pub open spec fn new_spec() -> TxAudioIngressStats {
        TxAudioIngressStats {
            queue_depth: 0,
            queue_high_water: 0,
            tci: TxSourceCounters::default_spec(),
            satp: TxSourceCounters::default_spec(),
            flushes_enqueued: 0,
            flushes_processed: 0,
            pipeline_state: TxPipelineState::Idle,
            pipeline_rf_enabled: false,
            pipeline: TxPipelineReport::zero_spec(),
        }
    }

    pub fn new() -> (s: TxAudioIngressStats)
        ensures
            s == TxAudioIngressStats::new_spec(),
    {
        TxAudioIngressStats {
            queue_depth: 0,
            queue_high_water: 0,
            tci: TxSourceCounters::zero(),
            satp: TxSourceCounters::zero(),
            flushes_enqueued: 0,
            flushes_processed: 0,
            pipeline_state: TxPipelineState::Idle,
            pipeline_rf_enabled: false,
            pipeline: TxPipelineReport::zero(),
        }
    }

    fn counters_mut_update(&mut self, source: TxAudioSource, c: TxSourceCounters)
        ensures
            final(self).source(source) == c,
            final(self).only_source_changed(old(self), source),
    {
        match source {
            TxAudioSource::Tci => self.tci = c,
            TxAudioSource::Satp => self.satp = c,
        }
    }

    fn on_enqueued(&mut self, source: TxAudioSource, samples: usize)
        ensures
            final(self).source(source) == (TxSourceCounters {
                frames_enqueued: add_one(old(self).source(source).frames_enqueued),
                samples_enqueued: add_samples(old(self).source(source).samples_enqueued, samples),
                ..old(self).source(source)
            }),
            final(self).only_source_changed(old(self), source),
    {
        let mut c = self.source_counters(source);
        c.frames_enqueued = c.frames_enqueued.wrapping_add(1);
        c.samples_enqueued = c.samples_enqueued.wrapping_add(samples as u64);
        self.counters_mut_update(source, c);
    }

    fn on_queue_full(&mut self, source: TxAudioSource, samples: usize)
        ensures
            final(self).source(source) == (TxSourceCounters {
                frames_queue_full: add_one(old(self).source(source).frames_queue_full),
                samples_queue_full: add_samples(old(self).source(source).samples_queue_full, samples),
                ..old(self).source(source)
            }),
            final(self).only_source_changed(old(self), source),
    {
        let mut c = self.source_counters(source);
        c.frames_queue_full = c.frames_queue_full.wrapping_add(1);
        c.samples_queue_full = c.samples_queue_full.wrapping_add(samples as u64);
        self.counters_mut_update(source, c);
    }

    /// The counters of one source.
    pub fn source_counters(&self, source: TxAudioSource) -> (c: TxSourceCounters)
        ensures
            c == self.source(source),
    {
        match source {
            TxAudioSource::Tci => self.tci,
            TxAudioSource::Satp => self.satp,
        }
    }

    /// The consumer took a message off the queue.
    pub fn on_dequeued(&mut self)
        ensures
            final(self).queue_depth == (if old(self).queue_depth == 0 {
                0
            } else {
                (old(self).queue_depth - 1) as usize
            }),
            final(self).queue_high_water == old(self).queue_high_water,
            final(self).tci == old(self).tci && final(self).satp == old(self).satp,
            final(self).flushes_enqueued == old(self).flushes_enqueued,
            final(self).flushes_processed == old(self).flushes_processed,
            final(self).pipeline_state == old(self).pipeline_state,
            final(self).pipeline_rf_enabled == old(self).pipeline_rf_enabled,
            final(self).pipeline == old(self).pipeline,
    {
        self.queue_depth = self.queue_depth.saturating_sub(1);
    }

    /// The pipeline accepted a frame of `samples` samples.
    pub fn on_accepted(&mut self, source: TxAudioSource, samples: usize)
        ensures
            final(self).source(source) == (TxSourceCounters {
                frames_accepted: add_one(old(self).source(source).frames_accepted),
                samples_accepted: add_samples(old(self).source(source).samples_accepted, samples),
                ..old(self).source(source)
            }),
            final(self).only_source_changed(old(self), source),
    {
        let mut c = self.source_counters(source);
        c.frames_accepted = c.frames_accepted.wrapping_add(1);
        c.samples_accepted = c.samples_accepted.wrapping_add(samples as u64);
        self.counters_mut_update(source, c);
    }

    /// The pipeline rejected a frame because it was idle.
    pub fn on_rejected_idle(&mut self, source: TxAudioSource)
        ensures
            final(self).source(source) == (TxSourceCounters {
                frames_rejected_idle: add_one(old(self).source(source).frames_rejected_idle),
                ..old(self).source(source)
            }),
            final(self).only_source_changed(old(self), source),
    {
        let mut c = self.source_counters(source);
        c.frames_rejected_idle = c.frames_rejected_idle.wrapping_add(1);
        self.counters_mut_update(source, c);
    }

    /// The pipeline rejected a frame from a source it was not configured for.
    pub fn on_rejected_source(&mut self, source: TxAudioSource)
        ensures
            final(self).source(source) == (TxSourceCounters {
                frames_rejected_source: add_one(old(self).source(source).frames_rejected_source),
                ..old(self).source(source)
            }),
            final(self).only_source_changed(old(self), source),
    {
        let mut c = self.source_counters(source);
        c.frames_rejected_source = c.frames_rejected_source.wrapping_add(1);
        self.counters_mut_update(source, c);
    }

    /// The pipeline processed a flush.
    pub fn on_flush_processed(&mut self)
        ensures
            final(self).flushes_processed == add_one(old(self).flushes_processed),
            final(self).queue_depth == old(self).queue_depth,
            final(self).queue_high_water == old(self).queue_high_water,
            final(self).tci == old(self).tci && final(self).satp == old(self).satp,
            final(self).flushes_enqueued == old(self).flushes_enqueued,
            final(self).pipeline_state == old(self).pipeline_state,
            final(self).pipeline_rf_enabled == old(self).pipeline_rf_enabled,
            final(self).pipeline == old(self).pipeline,
    {
        self.flushes_processed = self.flushes_processed.wrapping_add(1);
    }

    /// The pipeline's periodic report; `state` is its label.
    pub fn update_pipeline(&mut self, state: &str, rf_enabled: bool, report: TxPipelineReport)
        ensures
            final(self).pipeline_state == TxPipelineState::from_label_spec(state@),
            final(self).pipeline_rf_enabled == rf_enabled,
            final(self).pipeline == report,
            final(self).queue_depth == old(self).queue_depth,
            final(self).queue_high_water == old(self).queue_high_water,
            final(self).tci == old(self).tci && final(self).satp == old(self).satp,
            final(self).flushes_enqueued == old(self).flushes_enqueued,
            final(self).flushes_processed == old(self).flushes_processed,
    {
        self.pipeline_state = TxPipelineState::from_label(state);
        self.pipeline_rf_enabled = rf_enabled;
        self.pipeline = report;
    }

    /// The pipeline went idle: audio is no longer accepted.
    pub fn mark_pipeline_idle(&mut self)
        ensures
            final(self).pipeline_state == TxPipelineState::Idle,
            !final(self).pipeline_rf_enabled,
            final(self).pipeline == old(self).pipeline,
            final(self).queue_depth == old(self).queue_depth,
            final(self).queue_high_water == old(self).queue_high_water,
            final(self).tci == old(self).tci && final(self).satp == old(self).satp,
            final(self).flushes_enqueued == old(self).flushes_enqueued,
            final(self).flushes_processed == old(self).flushes_processed,
    {
        self.pipeline_state = TxPipelineState::Idle;
        self.pipeline_rf_enabled = false;
    }

    /// The pipeline armed: audio is accepted.
    pub fn mark_pipeline_armed(&mut self, rf_enabled: bool)
        ensures
            final(self).pipeline_state == TxPipelineState::Armed,
            final(self).pipeline_rf_enabled == rf_enabled,
            final(self).pipeline == old(self).pipeline,
            final(self).queue_depth == old(self).queue_depth,
            final(self).queue_high_water == old(self).queue_high_water,
            final(self).tci == old(self).tci && final(self).satp == old(self).satp,
            final(self).flushes_enqueued == old(self).flushes_enqueued,
            final(self).flushes_processed == old(self).flushes_processed,
    {
        self.pipeline_rf_enabled = rf_enabled;
        self.pipeline_state = TxPipelineState::Armed;
    }

    /// Whether the pipeline currently takes audio: armed or keyed.
    pub fn pipeline_accepting_audio(&self) -> (b: bool)
        ensures
            b == (self.pipeline_state != TxPipelineState::Idle),
    {
        match self.pipeline_state {
            TxPipelineState::Idle => false,
            _ => true,
        }
    }

    pub fn snapshot(&self) -> (s: TxAudioIngressSnapshot)
        ensures
            s.queue_depth == self.queue_depth,
            s.queue_high_water == self.queue_high_water,
            s.tci_frames_enqueued == self.tci.frames_enqueued,
            s.tci_samples_enqueued == self.tci.samples_enqueued,
            s.tci_frames_queue_full == self.tci.frames_queue_full,
            s.tci_samples_queue_full == self.tci.samples_queue_full,
            s.tci_frames_accepted == self.tci.frames_accepted,
            s.tci_samples_accepted == self.tci.samples_accepted,
            s.tci_frames_rejected_idle == self.tci.frames_rejected_idle,
            s.tci_frames_rejected_source == self.tci.frames_rejected_source,
            s.satp_frames_enqueued == self.satp.frames_enqueued,
            s.satp_samples_enqueued == self.satp.samples_enqueued,
            s.satp_frames_queue_full == self.satp.frames_queue_full,
            s.satp_samples_queue_full == self.satp.samples_queue_full,
            s.satp_frames_accepted == self.satp.frames_accepted,
            s.satp_samples_accepted == self.satp.samples_accepted,
            s.satp_frames_rejected_idle == self.satp.frames_rejected_idle,
            s.satp_frames_rejected_source == self.satp.frames_rejected_source,
            s.flushes_enqueued == self.flushes_enqueued,
            s.flushes_processed == self.flushes_processed,
            s.pipeline_state@ == self.pipeline_state.as_str_spec(),
            s.pipeline_rf_enabled == self.pipeline_rf_enabled,
            s.pipeline_mic_frames == self.pipeline.mic_frames,
            s.pipeline_duc_packets == self.pipeline.duc_packets,
            s.pipeline_wdsp_input_samples == self.pipeline.wdsp_input_samples,
            s.pipeline_wdsp_output_pairs == self.pipeline.wdsp_output_pairs,
            s.pipeline_pending_mic_floats == self.pipeline.pending_mic_floats,
            s.pipeline_pending_iq_floats == self.pipeline.pending_iq_floats,
            s.pipeline_rmatch_enabled == self.pipeline.rmatch_enabled,
            s.pipeline_rmatch_underflows == self.pipeline.rmatch_underflows,
            s.pipeline_rmatch_overflows == self.pipeline.rmatch_overflows,
            s.pipeline_rmatch_ratio_bits == shown_ratio_bits(self.pipeline.rmatch_ratio_bits),
    {
        let ratio_bits: u64 = if self.pipeline.rmatch_ratio_bits == 0 {
            UNIT_RATIO_BITS
        } else {
            self.pipeline.rmatch_ratio_bits
        };
        TxAudioIngressSnapshot {
            queue_depth: self.queue_depth,
            queue_high_water: self.queue_high_water,
            satp_frames_enqueued: self.satp.frames_enqueued,
            satp_samples_enqueued: self.satp.samples_enqueued,
            satp_frames_queue_full: self.satp.frames_queue_full,
            satp_samples_queue_full: self.satp.samples_queue_full,
            satp_frames_accepted: self.satp.frames_accepted,
            satp_samples_accepted: self.satp.samples_accepted,
            satp_frames_rejected_idle: self.satp.frames_rejected_idle,
            satp_frames_rejected_source: self.satp.frames_rejected_source,
            tci_frames_enqueued: self.tci.frames_enqueued,
            tci_samples_enqueued: self.tci.samples_enqueued,
            tci_frames_queue_full: self.tci.frames_queue_full,
            tci_samples_queue_full: self.tci.samples_queue_full,
            tci_frames_accepted: self.tci.frames_accepted,
            tci_samples_accepted: self.tci.samples_accepted,
            tci_frames_rejected_idle: self.tci.frames_rejected_idle,
            tci_frames_rejected_source: self.tci.frames_rejected_source,
            flushes_enqueued: self.flushes_enqueued,
            flushes_processed: self.flushes_processed,
            pipeline_state: self.pipeline_state.as_str(),
            pipeline_rf_enabled: self.pipeline_rf_enabled,
            pipeline_mic_frames: self.pipeline.mic_frames,
            pipeline_duc_packets: self.pipeline.duc_packets,
            pipeline_wdsp_input_samples: self.pipeline.wdsp_input_samples,
            pipeline_wdsp_output_pairs: self.pipeline.wdsp_output_pairs,
            pipeline_pending_mic_floats: self.pipeline.pending_mic_floats,
            pipeline_pending_iq_floats: self.pipeline.pending_iq_floats,
            pipeline_rmatch_enabled: self.pipeline.rmatch_enabled,
            pipeline_rmatch_underflows: self.pipeline.rmatch_underflows,
            pipeline_rmatch_overflows: self.pipeline.rmatch_overflows,
            pipeline_rmatch_ratio_bits: ratio_bits,
        }
    }
}

impl TxSourceCounters {
    pub open spec fn default_spec() -> TxSourceCounters {
        TxSourceCounters {
            frames_enqueued: 0,
            samples_enqueued: 0,
            frames_queue_full: 0,
            samples_queue_full: 0,
            frames_accepted: 0,
            samples_accepted: 0,
            frames_rejected_idle: 0,
            frames_rejected_source: 0,
        }
    }

    pub fn zero() -> (c: TxSourceCounters)
        ensures
            c == TxSourceCounters::default_spec(),
    {
        TxSourceCounters {
            frames_enqueued: 0,
            samples_enqueued: 0,
            frames_queue_full: 0,
            samples_queue_full: 0,
            frames_accepted: 0,
            samples_accepted: 0,
            frames_rejected_idle: 0,
            frames_rejected_source: 0,
        }
    }
}

impl TxPipelineReport {
    pub open spec fn zero_spec() -> TxPipelineReport {
        TxPipelineReport {
            mic_frames: 0,
            duc_packets: 0,
            wdsp_input_samples: 0,
            wdsp_output_pairs: 0,
            pending_mic_floats: 0,
            pending_iq_floats: 0,
            rmatch_enabled: false,
            rmatch_underflows: 0,
            rmatch_overflows: 0,
            rmatch_ratio_bits: 0,
        }
    }

    pub fn zero() -> (r: TxPipelineReport)
        ensures
            r == TxPipelineReport::zero_spec(),
    {
        TxPipelineReport {
            mic_frames: 0,
            duc_packets: 0,
            wdsp_input_samples: 0,
            wdsp_output_pairs: 0,
            pending_mic_floats: 0,
            pending_iq_floats: 0,
            rmatch_enabled: false,
            rmatch_underflows: 0,
            rmatch_overflows: 0,
            rmatch_ratio_bits: 0,
        }
    }
}

/// The bounded queue between the audio producers (TCI, SATP) and the transmit
/// worker, with its counters.
pub struct TxAudioIngress<S> {
    pub queue: VecDeque<TxAudioMessage<S>>,
    pub receiver_open: bool,
    pub stats: TxAudioIngressStats,
}

impl<S> TxAudioIngress<S> {
    /// The messages waiting, oldest first.
    pub open spec fn messages(&self) -> Seq<TxAudioMessage<S>> {
        self.queue@
    }

    /// Whether the transmit worker still receives.
    pub open spec fn open(&self) -> bool {
        self.receiver_open
    }

    pub open spec fn wf(&self) -> bool {
        self.queue@.len() <= TX_AUDIO_INGRESS_CAPACITY
    }

    /// What a successful offer does to the depth counters.
    pub open spec fn offered(old: TxAudioIngressStats, new: TxAudioIngressStats) -> bool {
        &&& new.queue_depth == old.queue_depth + 1
        &&& new.queue_high_water == (if old.queue_high_water > old.queue_depth + 1 {
            old.queue_high_water as int
        } else {
            old.queue_depth + 1
        })
    }

    /// An empty queue with a receiving worker and zeroed counters.
    pub fn bounded() -> (ingress: TxAudioIngress<S>)
        ensures
            ingress.wf(),
            ingress.messages() == Seq::<TxAudioMessage<S>>::empty(),
            ingress.open(),
            ingress.stats == TxAudioIngressStats::new_spec(),
    {
        let stats = TxAudioIngressStats::new();
        TxAudioIngress { queue: VecDeque::new(), receiver_open: true, stats }
    }

    /// Queues `message` when there is room and a receiver: the depth counter
    /// rises first and falls back when the message is refused.
    fn offer(&mut self, message: TxAudioMessage<S>) -> (r: Result<(), TxAudioIngressError>)
        requires
            old(self).wf(),
            old(self).stats.queue_depth < usize::MAX,
        ensures
            final(self).wf(),
            final(self).open() == old(self).open(),
            r == (if !old(self).open() {
                Err::<(), TxAudioIngressError>(TxAudioIngressError::Disconnected)
            } else if old(self).messages().len() >= TX_AUDIO_INGRESS_CAPACITY {
                Err(TxAudioIngressError::QueueFull)
            } else {
                Ok(())
            }),
            r is Ok ==> final(self).messages() == old(self).messages().push(message)
                && Self::offered(old(self).stats, final(self).stats),
            r is Err ==> final(self).messages() == old(self).messages()
                && final(self).stats.queue_depth == old(self).stats.queue_depth
                && final(self).stats.queue_high_water == old(self).stats.queue_high_water,
            final(self).stats.tci == old(self).stats.tci,
            final(self).stats.satp == old(self).stats.satp,
            final(self).stats.flushes_enqueued == old(self).stats.flushes_enqueued,
            final(self).stats.flushes_processed == old(self).stats.flushes_processed,
            final(self).stats.pipeline_state == old(self).stats.pipeline_state,
            final(self).stats.pipeline_rf_enabled == old(self).stats.pipeline_rf_enabled,
            final(self).stats.pipeline == old(self).stats.pipeline,
    {
        let depth = self.stats.queue_depth + 1;
        self.stats.queue_depth = depth;
        if !self.receiver_open {
            self.stats.on_dequeued();
            return Err(TxAudioIngressError::Disconnected);
        }
        if self.queue.len() >= TX_AUDIO_INGRESS_CAPACITY {
            self.stats.on_dequeued();
            return Err(TxAudioIngressError::QueueFull);
        }
        self.queue.push_back(message);
        if depth > self.stats.queue_high_water {
            self.stats.queue_high_water = depth;
        }
        Ok(())
    }

    /// Offers a frame of any length; on success it is counted as enqueued for
    /// its source, on a full queue as dropped.
    pub fn write_frame(&mut self, source: TxAudioSource, samples: Vec<S>, channels: u32, sample_rate_hz: u32) -> (r: Result<(), TxAudioIngressError>)
        requires
            old(self).wf(),
            old(self).stats.queue_depth < usize::MAX,
        ensures
            final(self).wf(),
            final(self).open() == old(self).open(),
            r == (if !old(self).open() {
                Err::<(), TxAudioIngressError>(TxAudioIngressError::Disconnected)
            } else if old(self).messages().len() >= TX_AUDIO_INGRESS_CAPACITY {
                Err(TxAudioIngressError::QueueFull)
            } else {
                Ok(())
            }),
            r is Ok ==> {
                &&& final(self).messages() == old(self).messages().push(TxAudioMessage::Frames(TxAudioFrame {
                    source,
                    samples: TxAudioSamples::Dynamic(samples),
                    channels,
                    sample_rate_hz,
                }))
                &&& Self::offered(old(self).stats, final(self).stats)
                &&& final(self).stats.source(source) == (TxSourceCounters {
                    frames_enqueued: add_one(old(self).stats.source(source).frames_enqueued),
                    samples_enqueued: add_samples(old(self).stats.source(source).samples_enqueued, samples@.len() as usize),
                    ..old(self).stats.source(source)
                })
            },
            r == Err::<(), TxAudioIngressError>(TxAudioIngressError::QueueFull) ==> {
                &&& final(self).messages() == old(self).messages()
                &&& final(self).stats.queue_depth == old(self).stats.queue_depth
                &&& final(self).stats.queue_high_water == old(self).stats.queue_high_water
                &&& final(self).stats.source(source) == (TxSourceCounters {
                    frames_queue_full: add_one(old(self).stats.source(source).frames_queue_full),
                    samples_queue_full: add_samples(old(self).stats.source(source).samples_queue_full, samples@.len() as usize),
                    ..old(self).stats.source(source)
                })
            },
            r == Err::<(), TxAudioIngressError>(TxAudioIngressError::Disconnected) ==> {
                &&& final(self).messages() == old(self).messages()
                &&& final(self).stats.queue_depth == old(self).stats.queue_depth
                &&& final(self).stats.queue_high_water == old(self).stats.queue_high_water
                &&& final(self).stats.source(source) == old(self).stats.source(source)
            },
            source == TxAudioSource::Tci ==> final(self).stats.satp == old(self).stats.satp,
            source == TxAudioSource::Satp ==> final(self).stats.tci == old(self).stats.tci,
            final(self).stats.flushes_enqueued == old(self).stats.flushes_enqueued,
            final(self).stats.flushes_processed == old(self).stats.flushes_processed,
            final(self).stats.pipeline_state == old(self).stats.pipeline_state,
            final(self).stats.pipeline_rf_enabled == old(self).stats.pipeline_rf_enabled,
            final(self).stats.pipeline == old(self).stats.pipeline,
    {
        let sample_count = samples.len();
        let r = self.offer(TxAudioMessage::Frames(TxAudioFrame {
            source,
            samples: TxAudioSamples::Dynamic(samples),
            channels,
            sample_rate_hz,
        }));
        match r {
            Ok(()) => self.stats.on_enqueued(source, sample_count),
            Err(TxAudioIngressError::QueueFull) => self.stats.on_queue_full(source, sample_count),
            Err(TxAudioIngressError::Disconnected) => {},
        }
        r
    }

    /// Offers one SATP packet (mono, 48 kHz) under the rules of `write_frame`.
    pub fn write_satp_packet(&mut self, samples: [S; 128]) -> (r: Result<(), TxAudioIngressError>)
        requires
            old(self).wf(),
            old(self).stats.queue_depth < usize::MAX,
        ensures
            final(self).wf(),
            final(self).open() == old(self).open(),
            r == (if !old(self).open() {
                Err::<(), TxAudioIngressError>(TxAudioIngressError::Disconnected)
            } else if old(self).messages().len() >= TX_AUDIO_INGRESS_CAPACITY {
                Err(TxAudioIngressError::QueueFull)
            } else {
                Ok(())
            }),
            r is Ok ==> {
                &&& final(self).messages() == old(self).messages().push(TxAudioMessage::Frames(TxAudioFrame {
                    source: TxAudioSource::Satp,
                    samples: TxAudioSamples::Satp(samples),
                    channels: 1,
                    sample_rate_hz: SATP_SAMPLE_RATE_HZ,
                }))
                &&& Self::offered(old(self).stats, final(self).stats)
                &&& final(self).stats.satp == (TxSourceCounters {
                    frames_enqueued: add_one(old(self).stats.satp.frames_enqueued),
                    samples_enqueued: add_samples(old(self).stats.satp.samples_enqueued, SATP_PACKET_SAMPLES),
                    ..old(self).stats.satp
                })
            },
            r == Err::<(), TxAudioIngressError>(TxAudioIngressError::QueueFull) ==> {
                &&& final(self).messages() == old(self).messages()
                &&& final(self).stats.queue_depth == old(self).stats.queue_depth
                &&& final(self).stats.queue_high_water == old(self).stats.queue_high_water
                &&& final(self).stats.satp == (TxSourceCounters {
                    frames_queue_full: add_one(old(self).stats.satp.frames_queue_full),
                    samples_queue_full: add_samples(old(self).stats.satp.samples_queue_full, SATP_PACKET_SAMPLES),
                    ..old(self).stats.satp
                })
            },
            r == Err::<(), TxAudioIngressError>(TxAudioIngressError::Disconnected) ==> {
                &&& final(self).messages() == old(self).messages()
                &&& final(self).stats.queue_depth == old(self).stats.queue_depth
                &&& final(self).stats.queue_high_water == old(self).stats.queue_high_water
                &&& final(self).stats.satp == old(self).stats.satp
            },
            final(self).stats.tci == old(self).stats.tci,
            final(self).stats.flushes_enqueued == old(self).stats.flushes_enqueued,
            final(self).stats.flushes_processed == old(self).stats.flushes_processed,
            final(self).stats.pipeline_state == old(self).stats.pipeline_state,
            final(self).stats.pipeline_rf_enabled == old(self).stats.pipeline_rf_enabled,
            final(self).stats.pipeline == old(self).stats.pipeline,
    {
        let source = TxAudioSource::Satp;
        let sample_count = samples.len();
        let r = self.offer(TxAudioMessage::Frames(TxAudioFrame {
            source,
            samples: TxAudioSamples::Satp(samples),
            channels: 1,
            sample_rate_hz: SATP_SAMPLE_RATE_HZ,
        }));
        match r {
            Ok(()) => self.stats.on_enqueued(source, sample_count),
            Err(TxAudioIngressError::QueueFull) => self.stats.on_queue_full(source, sample_count),
            Err(TxAudioIngressError::Disconnected) => {},
        }
        r
    }

    /// Offers a flush of `source`'s audio; a queued flush is counted.
    pub fn flush(&mut self, source: TxAudioSource) -> (r: Result<(), TxAudioIngressError>)
        requires
            old(self).wf(),
            old(self).stats.queue_depth < usize::MAX,
        ensures
            final(self).wf(),
            final(self).open() == old(self).open(),
            r == (if !old(self).open() {
                Err::<(), TxAudioIngressError>(TxAudioIngressError::Disconnected)
            } else if old(self).messages().len() >= TX_AUDIO_INGRESS_CAPACITY {
                Err(TxAudioIngressError::QueueFull)
            } else {
                Ok(())
            }),
            r is Ok ==> final(self).messages() == old(self).messages().push(TxAudioMessage::Flush(source))
                && Self::offered(old(self).stats, final(self).stats)
                && final(self).stats.flushes_enqueued == add_one(old(self).stats.flushes_enqueued),
            r is Err ==> final(self).messages() == old(self).messages()
                && final(self).stats.queue_depth == old(self).stats.queue_depth
                && final(self).stats.queue_high_water == old(self).stats.queue_high_water
                && final(self).stats.flushes_enqueued == old(self).stats.flushes_enqueued,
            final(self).stats.tci == old(self).stats.tci,
            final(self).stats.satp == old(self).stats.satp,
            final(self).stats.flushes_processed == old(self).stats.flushes_processed,
            final(self).stats.pipeline_state == old(self).stats.pipeline_state,
            final(self).stats.pipeline_rf_enabled == old(self).stats.pipeline_rf_enabled,
            final(self).stats.pipeline == old(self).stats.pipeline,
    {
        let r = self.offer(TxAudioMessage::Flush(source));
        if r.is_ok() {
            self.stats.flushes_enqueued = self.stats.flushes_enqueued.wrapping_add(1);
        }
        r
    }

    /// The worker takes the oldest message, if any.
    pub fn try_recv(&mut self) -> (m: Option<TxAudioMessage<S>>)
        requires
            old(self).wf(),
        ensures
            final(self).wf(),
            final(self).open() == old(self).open(),
            final(self).stats == old(self).stats,
            old(self).messages().len() == 0 ==> m is None && final(self).messages() == old(self).messages(),
            old(self).messages().len() > 0 ==> m == Some(old(self).messages()[0])
                && final(self).messages() == old(self).messages().drop_first(),
    {
        self.queue.pop_front()
    }

    /// The worker stopped receiving: what was queued is dropped and later
    /// offers are refused.
    pub fn close_receiver(&mut self)
        requires
            old(self).wf(),
        ensures
            final(self).wf(),
            !final(self).open(),
            final(self).messages() == Seq::<TxAudioMessage<S>>::empty(),
            final(self).stats == old(self).stats,
    {
        self.receiver_open = false;
        self.queue.clear();
    }

    /// Messages waiting.
    pub fn len(&self) -> (n: usize)
        ensures
            n == self.messages().len(),
    {
        self.queue.len()
    }

    pub fn snapshot(&self) -> (s: TxAudioIngressSnapshot)
        ensures
            s.queue_depth == self.stats.queue_depth,
            s.queue_high_water == self.stats.queue_high_water,
            s.satp_frames_enqueued == self.stats.satp.frames_enqueued,
            s.satp_samples_enqueued == self.stats.satp.samples_enqueued,
            s.satp_frames_queue_full == self.stats.satp.frames_queue_full,
            s.satp_samples_queue_full == self.stats.satp.samples_queue_full,
            s.tci_frames_enqueued == self.stats.tci.frames_enqueued,
            s.tci_samples_enqueued == self.stats.tci.samples_enqueued,
            s.tci_frames_queue_full == self.stats.tci.frames_queue_full,
            s.tci_samples_queue_full == self.stats.tci.samples_queue_full,
            s.flushes_enqueued == self.stats.flushes_enqueued,
            s.pipeline_state@ == self.stats.pipeline_state.as_str_spec(),
    {
        self.stats.snapshot()
    }

    /// Whether the pipeline currently takes audio.
    pub fn pipeline_accepting_audio(&self) -> (b: bool)
        ensures
            b == (self.stats.pipeline_state != TxPipelineState::Idle),
    {
        self.stats.pipeline_accepting_audio()
    }
}

/// A sink that only counts what it is given.
pub struct NullTxAudioSink {
    frames: u64,
    flushes: u64,
}

impl NullTxAudioSink {
    pub fn new() -> (s: NullTxAudioSink)
        ensures
            s.frames_spec() == 0 && s.flushes_spec() == 0,
    {
        NullTxAudioSink { frames: 0, flushes: 0 }
    }

    pub closed spec fn frames_spec(&self) -> u64 {
        self.frames
    }

    pub closed spec fn flushes_spec(&self) -> u64 {
        self.flushes
    }

    /// Samples counted so far.
    pub fn frames(&self) -> (n: u64)
        ensures
            n == self.frames_spec(),
    {
        self.frames
    }

    /// Flushes counted so far.
    pub fn flushes(&self) -> (n: u64)
        ensures
            n == self.flushes_spec(),
    {
        self.flushes
    }

    /// Counts the packet's samples, saturating.
    pub fn write_frames<S>(&mut self, samples: [S; 128]) -> (r: Result<(), TxAudioIngressError>)
        ensures
            r is Ok,
            final(self).frames_spec() == (if old(self).frames_spec() + 128 > u64::MAX {
                u64::MAX as int
            } else {
                old(self).frames_spec() + 128
            }),
            final(self).flushes_spec() == old(self).flushes_spec(),
    {
        self.frames = self.frames.saturating_add(samples.len() as u64);
        Ok(())
    }

    /// Counts the flush, saturating.
    pub fn flush(&mut self) -> (r: Result<(), TxAudioIngressError>)
        ensures
            r is Ok,
            final(self).flushes_spec() == (if old(self).flushes_spec() == u64::MAX {
                u64::MAX as int
            } else {
                old(self).flushes_spec() + 1
            }),
            final(self).frames_spec() == old(self).frames_spec(),
    {
        self.flushes = self.flushes.saturating_add(1);
        Ok(())
    }

    pub fn name(&self) -> (s: &'static str)
        ensures
            s@ == "null"@,
    {
        "null"
    }
}

/// The sink that hands SATP packets and flushes to the transmit worker's ingress.
pub struct TxThreadAudioSink<S> {
    pub ingress: TxAudioIngress<S>,
}

impl<S> TxThreadAudioSink<S> {
    pub fn new(ingress: TxAudioIngress<S>) -> (s: TxThreadAudioSink<S>)
        ensures
            s.ingress == ingress,
    {
        TxThreadAudioSink { ingress }
    }

    /// Hands an SATP packet to the ingress.
    pub fn write_frames(&mut self, samples: [S; 128]) -> (r: Result<(), TxAudioIngressError>)
        requires
            old(self).ingress.wf(),
            old(self).ingress.stats.queue_depth < usize::MAX,
        ensures
            final(self).ingress.wf(),
            r == (if !old(self).ingress.open() {
                Err::<(), TxAudioIngressError>(TxAudioIngressError::Disconnected)
            } else if old(self).ingress.messages().len() >= TX_AUDIO_INGRESS_CAPACITY {
                Err(TxAudioIngressError::QueueFull)
            } else {
                Ok(())
            }),
            r is Ok ==> final(self).ingress.messages() == old(self).ingress.messages().push(
                TxAudioMessage::Frames(TxAudioFrame {
                    source: TxAudioSource::Satp,
                    samples: TxAudioSamples::Satp(samples),
                    channels: 1,
                    sample_rate_hz: SATP_SAMPLE_RATE_HZ,
                }),
            ),
            r is Err ==> final(self).ingress.messages() == old(self).ingress.messages(),
    {
        self.ingress.write_satp_packet(samples)
    }

    /// Hands a flush of SATP audio to the ingress.
    pub fn flush(&mut self) -> (r: Result<(), TxAudioIngressError>)
        requires
            old(self).ingress.wf(),
            old(self).ingress.stats.queue_depth < usize::MAX,
        ensures
            final(self).ingress.wf(),
            r is Ok ==> final(self).ingress.messages() == old(self).ingress.messages().push(
                TxAudioMessage::Flush(TxAudioSource::Satp),
            ),
            r is Err ==> final(self).ingress.messages() == old(self).ingress.messages(),
            r is Ok <==> (old(self).ingress.open() && old(self).ingress.messages().len()
                < TX_AUDIO_INGRESS_CAPACITY),
    {
        self.ingress.flush(TxAudioSource::Satp)
    }

    pub fn name(&self) -> (s: &'static str)
        ensures
            s@ == "tx_thread"@,
    {
        "tx_thread"
    }
}

} // verus!
