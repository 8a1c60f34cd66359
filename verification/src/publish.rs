//! What the radio loop publishes to every client: the radio state, the
//! PureSignal status, the meters with the outbound drop count, and the
//! scheduler and uplink telemetry lines.
use vstd::prelude::*;

use crate::frontend::{clamp, frontend_broadcast, TciClientSnapshot, TciFrontend};
use crate::registry::any_audio;
use crate::outbound::OutboundMessage;
use crate::snapshot::{
    bool_text, line_bool, line_text, message_views, puresignal_messages, puresignal_messages_spec,
    radio_state_messages, radio_state_messages_spec, RadioSnapshot,
};
use crate::text::{dec, push_dec, push_str};

verus! {

/// Meter readings, rendered by the radio loop with the precision each
/// message uses: the S-meter in dBm with one decimal; forward power in watts
/// with one decimal and the SWR with two.
pub struct TelemetryReadings {
    pub rx_wbfm_stereo_detected: bool,
    /// Present once the receiver has a meter reading.
    pub smeter_dbm: Option<String>,
    /// Forward power and SWR, present once a status packet has arrived.
    pub tx_power: Option<(String, String)>,
}

/// `n` is `o` after the text `t` was broadcast.
pub open spec fn text_broadcast_step<P: Clone>(o: TciFrontend<P>, n: TciFrontend<P>, t: Seq<char>, now_ns: u64) -> bool {
    exists|s: String| s@ == t && #[trigger] frontend_broadcast(o, n, OutboundMessage::Text(s), now_ns)
        && n.last_display_frame_at_ns == o.last_display_frame_at_ns
}

/// `trace[k + 1]` is `trace[k]` after the `k`-th text was broadcast.
pub open spec fn texts_broadcast<P: Clone>(trace: Seq<TciFrontend<P>>, texts: Seq<Seq<char>>, now_ns: u64) -> bool {
    &&& trace.len() == texts.len() + 1
    &&& forall|k: int| #![trigger texts[k]] 0 <= k < texts.len() ==> text_broadcast_step(trace[k], trace[k + 1], texts[k], now_ns)
}

/// `n` is `o` after `texts` were broadcast in order.
pub open spec fn broadcast_in_order<P: Clone>(o: TciFrontend<P>, n: TciFrontend<P>, texts: Seq<Seq<char>>, now_ns: u64) -> bool {
    exists|trace: Seq<TciFrontend<P>>| #[trigger] texts_broadcast(trace, texts, now_ns) && trace[0] == o && trace.last() == n
}

/// The meter messages: stereo detection, then the S-meter and the power
/// pair when present.
pub open spec fn telemetry_texts(r: TelemetryReadings) -> Seq<Seq<char>> {
    seq!["rx_wbfm_stereo:0,"@ + bool_text(r.rx_wbfm_stereo_detected) + ";"@] + (match r.smeter_dbm {
        Some(s) => seq!["rx_smeter:0,0,"@ + s@ + ";"@],
        None => Seq::empty(),
    }) + (match r.tx_power {
        Some((p, w)) => seq!["tx_power:0,"@ + p@ + ";"@, "swr:0,"@ + w@ + ";"@],
        None => Seq::empty(),
    })
}

/// The outbound drop report.
pub open spec fn drops_text(drops: u64) -> Seq<char> {
    "rx_drops:"@ + dec(drops as nat) + ";"@
}

/// After the meter messages the drop counter is reported, when nonzero,
/// and restarts from zero.
pub open spec fn telemetry_post<P: Clone>(o: TciFrontend<P>, n: TciFrontend<P>, r: TelemetryReadings, now_ns: u64) -> bool {
    exists|mid: TciFrontend<P>| {
        &&& #[trigger] broadcast_in_order(o, mid, telemetry_texts(r), now_ns)
        &&& if mid.drop_count > 0 {
            text_broadcast_step((TciFrontend { drop_count: 0, ..mid }), n, drops_text(mid.drop_count), now_ns)
        } else {
            n == mid
        }
    }
}

/// `remote_backpressure:0,` and the scheduler figures of a client snapshot.
pub open spec fn scheduler_telemetry_text(s: TciClientSnapshot) -> Seq<char> {
    "remote_backpressure:0,"@ + dec(s.safety_enqueue_to_write_p50_us as nat) + ","@ + dec(
        s.safety_enqueue_to_write_p95_us as nat,
    ) + ","@ + dec(s.safety_enqueue_to_write_p99_us as nat) + ","@ + dec(s.control_enqueue_to_write_p50_us as nat)
        + ","@ + dec(s.control_enqueue_to_write_p95_us as nat) + ","@ + dec(s.control_enqueue_to_write_p99_us as nat)
        + ","@ + dec(s.display_replaced_per_sec as nat) + ","@ + dec(s.display_dropped_per_sec as nat) + ","@
        + dec(s.audio_dropped_per_sec as nat) + ","@ + dec(s.audio_seq_gap_count as nat) + ","@ + dec(
        s.audio_panic_drain_count as nat,
    ) + ","@ + dec(s.send_blocked_ms as nat) + ","@ + dec(s.outbound_high_watermark_bytes as nat) + ","@ + dec(
        s.safety_queue_depth_overflow_count as nat,
    ) + ","@ + dec(s.tcp_outq_high_watermark_bytes as nat) + ","@ + dec(s.display_rate_limited_per_sec as nat)
        + ","@ + dec(s.outbound_queued_bytes as nat) + ";"@
}

/// `remote_tx_uplink:0,` and the uplink figures of a client snapshot; the
/// degraded flag is `1` or `0`.
pub open spec fn uplink_telemetry_text(s: TciClientSnapshot) -> Seq<char> {
    "remote_tx_uplink:0,"@ + (if s.tx_uplink_degraded {
        "1"@
    } else {
        "0"@
    }) + ","@ + dec(s.tx_mic_browser_dropped_count as nat) + ","@ + dec(s.tx_uplink_buffered_bytes as nat) + ","@
        + dec(s.tx_uplink_buffered_high_watermark_bytes as nat) + ","@ + dec(s.tx_mic_last_arrived_seq as nat) + ","@
        + dec(s.tx_mic_seq_gap_count as nat) + ","@ + dec(s.tx_mic_age_ms as nat) + ","@ + dec(
        s.tx_codec_decode_error_count as nat,
    ) + ","@ + dec(s.tx_codec_stale_drop_count as nat) + ","@ + dec(s.tx_codec_release_flush_count as nat) + ";"@
}

fn push_field(out: &mut String, v: u64)
    ensures
        final(out)@ == old(out)@ + ","@ + dec(v as nat),
{
    push_str(out, ",");
    push_dec(out, v);
    proof {
        assert(final(out)@ =~= old(out)@ + ","@ + dec(v as nat));
    }
}

/// The scheduler telemetry line of a client snapshot.
pub fn scheduler_telemetry_message(s: &TciClientSnapshot) -> (m: String)
    ensures
        m@ == scheduler_telemetry_text(*s),
{
    let mut m = String::new();
    push_str(&mut m, "remote_backpressure:0,");
    push_dec(&mut m, s.safety_enqueue_to_write_p50_us);
    push_field(&mut m, s.safety_enqueue_to_write_p95_us);
    push_field(&mut m, s.safety_enqueue_to_write_p99_us);
    push_field(&mut m, s.control_enqueue_to_write_p50_us);
    push_field(&mut m, s.control_enqueue_to_write_p95_us);
    push_field(&mut m, s.control_enqueue_to_write_p99_us);
    push_field(&mut m, s.display_replaced_per_sec);
    push_field(&mut m, s.display_dropped_per_sec);
    push_field(&mut m, s.audio_dropped_per_sec);
    push_field(&mut m, s.audio_seq_gap_count);
    push_field(&mut m, s.audio_panic_drain_count);
    push_field(&mut m, s.send_blocked_ms);
    push_field(&mut m, s.outbound_high_watermark_bytes);
    push_field(&mut m, s.safety_queue_depth_overflow_count);
    push_field(&mut m, s.tcp_outq_high_watermark_bytes);
    push_field(&mut m, s.display_rate_limited_per_sec);
    push_field(&mut m, s.outbound_queued_bytes);
    push_str(&mut m, ";");
    proof {
        assert(m@ =~= scheduler_telemetry_text(*s));
    }
    m
}

/// The uplink telemetry line of a client snapshot.
pub fn uplink_telemetry_message(s: &TciClientSnapshot) -> (m: String)
    ensures
        m@ == uplink_telemetry_text(*s),
{
    let mut m = String::new();
    push_str(&mut m, "remote_tx_uplink:0,");
    if s.tx_uplink_degraded {
        push_str(&mut m, "1");
    } else {
        push_str(&mut m, "0");
    }
    push_field(&mut m, s.tx_mic_browser_dropped_count);
    push_field(&mut m, s.tx_uplink_buffered_bytes);
    push_field(&mut m, s.tx_uplink_buffered_high_watermark_bytes);
    push_field(&mut m, s.tx_mic_last_arrived_seq as u64);
    push_field(&mut m, s.tx_mic_seq_gap_count);
    push_field(&mut m, s.tx_mic_age_ms);
    push_field(&mut m, s.tx_codec_decode_error_count);
    push_field(&mut m, s.tx_codec_stale_drop_count);
    push_field(&mut m, s.tx_codec_release_flush_count);
    push_str(&mut m, ";");
    proof {
        assert(m@ =~= uplink_telemetry_text(*s));
    }
    m
}

/// The meter messages of a set of readings.
pub fn telemetry_messages(r: &TelemetryReadings) -> (v: Vec<String>)
    ensures
        message_views(v@) == telemetry_texts(*r),
{
    let mut v: Vec<String> = Vec::new();
    v.push(line_bool("rx_wbfm_stereo:0,", r.rx_wbfm_stereo_detected));
    match &r.smeter_dbm {
        Some(s) => {
            v.push(line_text("rx_smeter:0,0,", s));
        },
        None => {},
    }
    match &r.tx_power {
        Some((p, w)) => {
            v.push(line_text("tx_power:0,", p));
            v.push(line_text("swr:0,", w));
        },
        None => {},
    }
    proof {
        assert(message_views(v@) =~= telemetry_texts(*r));
    }
    v
}

/// How a block of RX audio is reshaped for transport: no frames, the block
/// as it is, or this many interpolated frames.
#[derive(Clone, Copy, Debug, PartialEq, Eq, Structural)]
pub enum AudioShape {
    Empty,
    Unchanged,
    Resampled { frames: usize },
}

/// The transport form of a block of RX audio: the rate and channel count
/// sent, the source rate and channel count the samples are read with, and
/// the shape.
#[derive(Clone, Copy, Debug, PartialEq, Eq, Structural)]
pub struct AudioTransportShape {
    pub rate_hz: u32,
    pub channels: u32,
    pub source_rate_hz: u32,
    pub source_channels: u32,
    pub shape: AudioShape,
}

/// Source and target channels are taken within one and two; the source rate
/// within 8..=48 kHz and the target rate within 8 kHz..=the source rate.
/// Whole source frames are kept; with a different rate or channel count the
/// frame count scales with the rate (at least one frame).
pub open spec fn audio_transport_shape_spec(
    sample_count: nat,
    source_rate_hz: u32,
    source_channels: u32,
    target_rate_hz: u32,
    target_channels: u32,
) -> (nat, nat, nat, nat, AudioShape) {
    let sc = clamp(source_channels as nat, 1, 2);
    let tc = clamp(target_channels as nat, 1, 2);
    let sr = clamp(source_rate_hz as nat, 8_000, 48_000);
    let tr = clamp(target_rate_hz as nat, 8_000, sr);
    let frames = sample_count / sc;
    let shape = if frames == 0 {
        AudioShape::Empty
    } else if sr == tr && sc == tc {
        AudioShape::Unchanged
    } else {
        let scaled = frames * tr / sr;
        AudioShape::Resampled { frames: (if scaled == 0 { 1 } else { scaled }) as usize }
    };
    (tr, tc, sr, sc, shape)
}

/// Plans the transport form of `sample_count` interleaved RX audio samples.
pub fn rx_audio_transport_shape(
    sample_count: usize,
    source_rate_hz: u32,
    source_channels: u32,
    target_rate_hz: u32,
    target_channels: u32,
) -> (r: AudioTransportShape)
    ensures
        (r.rate_hz as nat, r.channels as nat, r.source_rate_hz as nat, r.source_channels as nat, r.shape)
            == audio_transport_shape_spec(
            sample_count as nat,
            source_rate_hz,
            source_channels,
            target_rate_hz,
            target_channels,
        ),
        r.shape matches AudioShape::Resampled { frames } ==> 1 <= frames <= sample_count,
{
    let sc: u32 = if source_channels < 1 {
        1
    } else if source_channels > 2 {
        2
    } else {
        source_channels
    };
    let tc: u32 = if target_channels < 1 {
        1
    } else if target_channels > 2 {
        2
    } else {
        target_channels
    };
    let sr: u32 = if source_rate_hz < 8_000 {
        8_000
    } else if source_rate_hz > 48_000 {
        48_000
    } else {
        source_rate_hz
    };
    let tr: u32 = if target_rate_hz < 8_000 {
        8_000
    } else if target_rate_hz > sr {
        sr
    } else {
        target_rate_hz
    };
    let frames = sample_count / (sc as usize);
    let shape = if frames == 0 {
        AudioShape::Empty
    } else if sr == tr && sc == tc {
        AudioShape::Unchanged
    } else {
        assert((frames as int) * (tr as int) <= u128::MAX) by (nonlinear_arith)
            requires
                frames <= usize::MAX,
                tr <= 48_000,
        ;
        let prod: u128 = (frames as u128) * (tr as u128);
        let scaled: u128 = prod / (sr as u128);
        assert(scaled <= frames) by (nonlinear_arith)
            requires
                prod == (frames as int) * (tr as int),
                scaled as int == (prod as int) / (sr as int),
                tr <= sr,
                sr > 0,
        ;
        AudioShape::Resampled { frames: if scaled == 0 { 1 } else { scaled as usize } }
    };
    AudioTransportShape { rate_hz: tr, channels: tc, source_rate_hz: sr, source_channels: sc, shape }
}

/// The two source frames that output frame `frame` interpolates between,
/// and its position past `lo` as the fraction `frac_num / rate_hz`: the
/// position is `frame * source_rate_hz / rate_hz` source frames, `lo` its
/// whole part held within the source, `hi` the next frame within it.
#[derive(Clone, Copy, Debug, PartialEq, Eq, Structural)]
pub struct ResampleTap {
    pub lo: usize,
    pub hi: usize,
    pub frac_num: u128,
}

pub open spec fn resample_tap_spec(frame: nat, source_frames: nat, source_rate_hz: nat, rate_hz: nat) -> (nat, nat, int) {
    let whole = frame * source_rate_hz / rate_hz;
    let lo = if whole < source_frames - 1 { whole } else { (source_frames - 1) as nat };
    let hi = if lo + 1 < source_frames - 1 { lo + 1 } else { (source_frames - 1) as nat };
    (lo, hi, frame * source_rate_hz - lo * rate_hz)
}

pub fn resample_tap(frame: usize, source_frames: usize, source_rate_hz: u32, rate_hz: u32) -> (t: ResampleTap)
    requires
        source_frames >= 1,
        rate_hz >= 1,
    ensures
        (t.lo as nat, t.hi as nat, t.frac_num as int) == resample_tap_spec(
            frame as nat,
            source_frames as nat,
            source_rate_hz as nat,
            rate_hz as nat,
        ),
        t.lo < source_frames && t.hi < source_frames,
{
    assert((frame as int) * (source_rate_hz as int) <= u128::MAX) by (nonlinear_arith)
        requires
            frame <= usize::MAX,
            source_rate_hz <= u32::MAX,
    ;
    let position: u128 = (frame as u128) * (source_rate_hz as u128);
    let whole: u128 = position / (rate_hz as u128);
    let last: usize = source_frames - 1;
    let lo: usize = if whole < last as u128 { whole as usize } else { last };
    let hi: usize = if lo < last { lo + 1 } else { last };
    assert((lo as int) * (rate_hz as int) <= position) by (nonlinear_arith)
        requires
            lo <= whole,
            whole as int == (position as int) / (rate_hz as int),
            rate_hz >= 1,
    ;
    let base: u128 = (lo as u128) * (rate_hz as u128);
    ResampleTap { lo, hi, frac_num: position - base }
}

impl<P: Clone> TciFrontend<P> {
    /// Broadcasts each text in turn.
    fn send_texts(&mut self, texts: &Vec<String>, now_ns: u64)
        requires
            old(self).wf(),
        ensures
            final(self).wf(),
            broadcast_in_order(*old(self), *final(self), message_views(texts@), now_ns),
    {
        let ghost msgs = message_views(texts@);
        let ghost mut trace: Seq<TciFrontend<P>> = seq![*self];
        let mut i: usize = 0;
        while i < texts.len()
            invariant
                i <= texts.len(),
                msgs == message_views(texts@),
                self.wf(),
                trace.len() == i + 1,
                trace[0] == *old(self),
                trace.last() == *self,
                forall|k: int| #![trigger msgs[k]] 0 <= k < i ==> text_broadcast_step(trace[k], trace[k + 1], msgs[k], now_ns),
            decreases texts.len() - i,
        {
            let t = texts[i].clone();
            let ghost tg = t;
            let ghost before = *self;
            self.send_text(t, now_ns);
            proof {
                assert(tg@ == msgs[i as int]);
                assert(text_broadcast_step(before, *self, msgs[i as int], now_ns));
                let t0 = trace;
                trace = trace.push(*self);
                assert forall|k: int| #![trigger msgs[k]] 0 <= k < i + 1 implies text_broadcast_step(
                    trace[k],
                    trace[k + 1],
                    msgs[k],
                    now_ns,
                ) by {
                    if k < i {
                        assert(trace[k] == t0[k]);
                        assert(trace[k + 1] == t0[k + 1]);
                    }
                }
            }
            i = i + 1;
        }
        proof {
            assert(texts_broadcast(trace, msgs, now_ns));
        }
    }

    /// Broadcasts the PureSignal settings and status.
    pub fn publish_puresignal_status(&mut self, m: &RadioSnapshot, now_ns: u64)
        requires
            old(self).wf(),
        ensures
            final(self).wf(),
            broadcast_in_order(*old(self), *final(self), puresignal_messages_spec(*m), now_ns),
    {
        let texts = puresignal_messages(m);
        self.send_texts(&texts, now_ns);
    }

    /// Broadcasts the meters, then the outbound drops counted since the last
    /// report (when there are any), restarting that count.
    pub fn publish_telemetry(&mut self, readings: &TelemetryReadings, now_ns: u64)
        requires
            old(self).wf(),
        ensures
            final(self).wf(),
            telemetry_post(*old(self), *final(self), *readings, now_ns),
    {
        let texts = telemetry_messages(readings);
        self.send_texts(&texts, now_ns);
        let ghost mid = *self;
        let drops = self.drop_count;
        self.drop_count = 0;
        if drops > 0 {
            let mut t = String::new();
            push_str(&mut t, "rx_drops:");
            push_dec(&mut t, drops);
            push_str(&mut t, ";");
            proof {
                assert(t@ =~= drops_text(drops));
            }
            let ghost zeroed = *self;
            self.send_text(t, now_ns);
            proof {
                assert(zeroed == (TciFrontend { drop_count: 0, ..mid }));
                assert(text_broadcast_step(zeroed, *self, drops_text(mid.drop_count), now_ns));
            }
        } else {
            proof {
                assert(*self == mid);
            }
        }
        proof {
            assert(broadcast_in_order(*old(self), mid, telemetry_texts(*readings), now_ns));
        }
    }

    /// Broadcasts every radio setting clients mirror, then the telemetry.
    pub fn publish_radio_state(&mut self, m: &RadioSnapshot, readings: &TelemetryReadings, now_ns: u64)
        requires
            old(self).wf(),
        ensures
            final(self).wf(),
            exists|mid: TciFrontend<P>| #[trigger]
                broadcast_in_order(
                    *old(self),
                    mid,
                    radio_state_messages_spec(*m, old(self).remote_tx_rf_enabled),
                    now_ns,
                ) && telemetry_post(mid, *final(self), *readings, now_ns),
    {
        let texts = radio_state_messages(m, self.remote_tx_rf_enabled);
        self.send_texts(&texts, now_ns);
        let ghost mid = *self;
        self.publish_telemetry(readings, now_ns);
        proof {
            assert(broadcast_in_order(*old(self), mid, radio_state_messages_spec(*m, old(self).remote_tx_rf_enabled), now_ns));
        }
    }

    /// Broadcasts a block of RX audio already in its transport form, when
    /// some client streams audio.
    pub fn publish_audio_frame(&mut self, sample_rate_hz: u32, channels: u32, samples: P, sample_len: usize, now_ns: u64)
        requires
            old(self).wf(),
        ensures
            final(self).wf(),
            !any_audio(old(self).clients.entries@) ==> *final(self) == *old(self),
            any_audio(old(self).clients.entries@) ==> frontend_broadcast(
                *old(self),
                *final(self),
                OutboundMessage::AudioFrame {
                    receiver: 0,
                    sample_rate: sample_rate_hz,
                    channels,
                    samples,
                    sample_len,
                    sequence: 0,
                },
                now_ns,
            ) && final(self).last_display_frame_at_ns == old(self).last_display_frame_at_ns,
    {
        if !self.clients.is_audio_stream_enabled() {
            return;
        }
        self.send_message(
            OutboundMessage::AudioFrame { receiver: 0, sample_rate: sample_rate_hz, channels, samples, sample_len, sequence: 0 },
            now_ns,
        );
    }

    /// Broadcasts the scheduler telemetry line of a client snapshot.
    pub fn publish_scheduler_telemetry(&mut self, snapshot: &TciClientSnapshot, now_ns: u64)
        requires
            old(self).wf(),
        ensures
            final(self).wf(),
            text_broadcast_step(*old(self), *final(self), scheduler_telemetry_text(*snapshot), now_ns),
    {
        let m = scheduler_telemetry_message(snapshot);
        self.send_text(m, now_ns);
    }

    /// Broadcasts the uplink telemetry line of a client snapshot.
    pub fn publish_tx_uplink_telemetry(&mut self, snapshot: &TciClientSnapshot, now_ns: u64)
        requires
            old(self).wf(),
        ensures
            final(self).wf(),
            text_broadcast_step(*old(self), *final(self), uplink_telemetry_text(*snapshot), now_ns),
    {
        let m = uplink_telemetry_message(snapshot);
        self.send_text(m, now_ns);
    }
}

} // verus!
