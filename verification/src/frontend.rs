//! The TCI frontend: broadcasting to the clients that want each message,
//! display-frame rate limiting, the RX audio transport profile and the
//! periodic client snapshot of scheduler and uplink statistics.
use vstd::prelude::*;

use crate::outbound::{
    enqueue_post, lemma_sat_sum, sat, within_limits, ClientSchedulerStats, OutboundMessage,
    BULK_TCP_OUTQ_LIMIT_BYTES,
};
use crate::registry::{
    any_audio, any_iq, lane_count, paired_sessions, ClientEntry, ClientRegistry, StateOp, wants,
    client_wants_outbound_message, applied_to, lookup, has_id, media_ignore_post,
};
use crate::session::{SplitSocketKind, SPLIT_RELEASE_IGNORE_WINDOW_NS};
use crate::text::{dec, push_dec, push_str};

verus! {

/// Ascending order on latencies.
pub open spec fn leq_u64() -> spec_fn(u64, u64) -> bool {
    |x: u64, y: u64| x <= y
}

/// Index of a percentile (clamped to 100) in `len` sorted samples:
/// `ceil((len - 1) * p / 100)`.
pub open spec fn percentile_index(len: nat, percentile: nat) -> int {
    let p = if percentile > 100 {
        100
    } else {
        percentile
    };
    (((len - 1) * p + 99) / 100) as int
}

/// The percentile of a sample sequence: zero when empty, else the sample at
/// `percentile_index` of the sorted samples.
pub open spec fn percentile_of(s: Seq<u64>, percentile: nat) -> u64 {
    if s.len() == 0 {
        0
    } else {
        s.sort_by(leq_u64())[percentile_index(s.len(), percentile)]
    }
}

proof fn lemma_leq_total()
    ensures
        vstd::relations::total_ordering(leq_u64()),
{
}

/// Sorts `samples` ascending and returns the sample at the percentile (0
/// when there is none).
pub fn percentile_us(samples: &mut Vec<u64>, percentile: usize) -> (r: u64)
    ensures
        final(samples)@ == old(samples)@.sort_by(leq_u64()),
        r == percentile_of(old(samples)@, percentile as nat),
{
    broadcast use vstd::seq_lib::group_to_multiset_ensures;

    let ghost orig = samples@;
    let mut out: Vec<u64> = Vec::new();
    let mut i: usize = 0;
    while i < samples.len()
        invariant
            samples@ == orig,
            i <= orig.len(),
            vstd::relations::sorted_by(out@, leq_u64()),
            out@.to_multiset() == orig.subrange(0, i as int).to_multiset(),
            out@.len() == i,
        decreases orig.len() - i,
    {
        let x = samples[i];
        let mut k: usize = 0;
        while k < out.len() && out[k] <= x
            invariant
                k <= out@.len(),
                forall|j: int| 0 <= j < k ==> out@[j] <= x,
            decreases out@.len() - k,
        {
            k = k + 1;
        }
        let ghost before = out@;
        out.insert(k, x);
        proof {
            assert(orig.subrange(0, i + 1) =~= orig.subrange(0, i as int).push(x));
            vstd::seq_lib::to_multiset_insert(before, k as int, x);
            vstd::seq_lib::to_multiset_build(orig.subrange(0, i as int), x);
            assert(vstd::relations::sorted_by(out@, leq_u64())) by {
                assert forall|a: int, b: int| 0 <= a < b < out@.len() implies (leq_u64())(out@[a], out@[b]) by {
                    if b < k {
                        assert(out@[a] == before[a] && out@[b] == before[b]);
                        assert((leq_u64())(before[a], before[b]));
                    } else if b == k {
                        assert(out@[a] == before[a]);
                    } else if a < k {
                        assert(out@[b] == before[b - 1]);
                        if a < b - 1 {
                            assert((leq_u64())(before[a], before[b - 1]));
                        }
                        if k < b - 1 {
                            assert((leq_u64())(before[k as int], before[b - 1]));
                        }
                    } else if a == k {
                        assert(out@[b] == before[b - 1]);
                        assert(!(before[k as int] <= x));
                        if k < b - 1 {
                            assert((leq_u64())(before[k as int], before[b - 1]));
                        }
                    } else {
                        assert(out@[a] == before[a - 1] && out@[b] == before[b - 1]);
                        assert((leq_u64())(before[a - 1], before[b - 1]));
                    }
                }
            }
        }
        i = i + 1;
    }
    proof {
        assert(orig.subrange(0, orig.len() as int) =~= orig);
        lemma_leq_total();
        orig.lemma_sort_by_ensures(leq_u64());
        vstd::seq_lib::lemma_sorted_unique(out@, orig.sort_by(leq_u64()), leq_u64());
    }
    *samples = out;
    if samples.len() == 0 {
        return 0;
    }
    let p: u128 = if percentile > 100 {
        100
    } else {
        percentile as u128
    };
    let n: u128 = samples.len() as u128;
    assert((n - 1) * p <= 100 * 0xffff_ffff_ffff_ffffu128) by (nonlinear_arith)
        requires
            p <= 100,
            1 <= n <= 0xffff_ffff_ffff_ffffu128,
    ;
    let scaled: u128 = (n - 1) * p;
    let index128: u128 = (scaled + 99) / 100;
    assert(index128 < n) by (nonlinear_arith)
        requires
            p <= 100,
            n >= 1,
            scaled == (n - 1) * p,
            index128 == (scaled + 99) / 100,
    ;
    let index = index128 as usize;
    samples[index]
}

/// Nanoseconds between display frames for a rate limit in Hz; zero disables the limit.
pub fn display_frame_interval_for_limit(limit_hz: u16) -> (ns: u64)
    ensures
        ns == (if limit_hz == 0 {
            0nat
        } else {
            1_000_000_000nat / (limit_hz as nat)
        }),
{
    if limit_hz == 0 {
        0
    } else {
        1_000_000_000u64 / (limit_hz as u64)
    }
}

/// Bulk (audio and display) traffic is written only while the socket's
/// send queue holds less than 64 KiB.
pub fn bulk_allowed_for_tcp_outq(tcp_outq_bytes: usize) -> (b: bool)
    ensures
        b == (tcp_outq_bytes < BULK_TCP_OUTQ_LIMIT_BYTES),
{
    tcp_outq_bytes < BULK_TCP_OUTQ_LIMIT_BYTES
}

/// `v` clamped to `lo..=hi` (for `lo <= hi`).
pub open spec fn clamp(v: nat, lo: nat, hi: nat) -> nat {
    if v < lo {
        lo
    } else if v > hi {
        hi
    } else {
        v
    }
}

/// The RX audio rate sent to clients: the configured rate clamped to
/// 8 kHz..=the source rate (itself taken within 8..=48 kHz).
pub open spec fn transport_rate(configured_hz: u32, source_rate_hz: u32) -> nat {
    clamp(configured_hz as nat, 8_000, clamp(source_rate_hz as nat, 8_000, 48_000))
}

pub fn audio_transport_sample_rate(configured_hz: u32, source_rate_hz: u32) -> (r: u32)
    ensures
        r as nat == transport_rate(configured_hz, source_rate_hz),
{
    let cap = if source_rate_hz < 8_000 {
        8_000
    } else if source_rate_hz > 48_000 {
        48_000
    } else {
        source_rate_hz
    };
    if configured_hz < 8_000 {
        8_000
    } else if configured_hz > cap {
        cap
    } else {
        configured_hz
    }
}

/// The audio rate and channel count a client receives: its request, capped
/// by the service's transport profile (whose rate is capped by the source),
/// with 8 kHz and one channel as floors and two channels at most.
pub open spec fn rx_audio_profile(
    requested_rate_hz: u32,
    requested_channels: u32,
    source_rate_hz: u32,
    service_rate_hz: u32,
    service_channels: u32,
) -> (nat, nat) {
    let service_rate = transport_rate(service_rate_hz, source_rate_hz);
    let service_ch = clamp(service_channels as nat, 1, 2);
    (clamp(requested_rate_hz as nat, 8_000, service_rate), clamp(requested_channels as nat, 1, service_ch))
}

pub fn effective_rx_audio_transport_profile(
    requested_rate_hz: u32,
    requested_channels: u32,
    source_rate_hz: u32,
    service_rate_hz: u32,
    service_channels: u32,
) -> (r: (u32, u32))
    ensures
        (r.0 as nat, r.1 as nat) == rx_audio_profile(
            requested_rate_hz,
            requested_channels,
            source_rate_hz,
            service_rate_hz,
            service_channels,
        ),
{
    let service_rate = audio_transport_sample_rate(service_rate_hz, source_rate_hz);
    let service_ch: u32 = if service_channels < 1 {
        1
    } else if service_channels > 2 {
        2
    } else {
        service_channels
    };
    let rate = if requested_rate_hz < 8_000 {
        8_000
    } else if requested_rate_hz > service_rate {
        service_rate
    } else {
        requested_rate_hz
    };
    let channels = if requested_channels < 1 {
        1
    } else if requested_channels > service_ch {
        service_ch
    } else {
        requested_channels
    };
    (rate, channels)
}

/// `c` is a copy of `m`: the same variant and fields, text with the same
/// characters, samples as their `clone` gives them.
pub open spec fn clone_of<P: Clone>(m: OutboundMessage<P>, c: OutboundMessage<P>) -> bool {
    match (m, c) {
        (OutboundMessage::Text(a), OutboundMessage::Text(b)) => a@ == b@,
        (OutboundMessage::SafetyText(a), OutboundMessage::SafetyText(b)) => a@ == b@,
        (OutboundMessage::Close, OutboundMessage::Close) => true,
        (
            OutboundMessage::IqFrame { receiver: r1, sample_rate: s1, samples: p1, sample_len: l1 },
            OutboundMessage::IqFrame { receiver: r2, sample_rate: s2, samples: p2, sample_len: l2 },
        ) => r1 == r2 && s1 == s2 && l1 == l2 && vstd::pervasive::cloned(p1, p2),
        (
            OutboundMessage::TxIqFrame { receiver: r1, sample_rate: s1, samples: p1, sample_len: l1 },
            OutboundMessage::TxIqFrame { receiver: r2, sample_rate: s2, samples: p2, sample_len: l2 },
        ) => r1 == r2 && s1 == s2 && l1 == l2 && vstd::pervasive::cloned(p1, p2),
        (
            OutboundMessage::AudioFrame {
                receiver: r1,
                sample_rate: s1,
                channels: c1,
                samples: p1,
                sample_len: l1,
                sequence: q1,
            },
            OutboundMessage::AudioFrame {
                receiver: r2,
                sample_rate: s2,
                channels: c2,
                samples: p2,
                sample_len: l2,
                sequence: q2,
            },
        ) => r1 == r2 && s1 == s2 && c1 == c2 && l1 == l2 && q1 == q2 && vstd::pervasive::cloned(p1, p2),
        _ => false,
    }
}

pub fn clone_message<P: Clone>(m: &OutboundMessage<P>) -> (c: OutboundMessage<P>)
    ensures
        clone_of(*m, c),
{
    match m {
        OutboundMessage::Text(t) => OutboundMessage::Text(t.clone()),
        OutboundMessage::SafetyText(t) => OutboundMessage::SafetyText(t.clone()),
        OutboundMessage::Close => OutboundMessage::Close,
        OutboundMessage::IqFrame { receiver, sample_rate, samples, sample_len } => OutboundMessage::IqFrame {
            receiver: *receiver,
            sample_rate: *sample_rate,
            samples: samples.clone(),
            sample_len: *sample_len,
        },
        OutboundMessage::TxIqFrame { receiver, sample_rate, samples, sample_len } => OutboundMessage::TxIqFrame {
            receiver: *receiver,
            sample_rate: *sample_rate,
            samples: samples.clone(),
            sample_len: *sample_len,
        },
        OutboundMessage::AudioFrame { receiver, sample_rate, channels, samples, sample_len, sequence } =>
            OutboundMessage::AudioFrame {
            receiver: *receiver,
            sample_rate: *sample_rate,
            channels: *channels,
            samples: samples.clone(),
            sample_len: *sample_len,
            sequence: *sequence,
        },
    }
}

/// The client at position `j` received a copy of `message` (when it wants
/// it and its counters can take it); its state is unchanged.
pub open spec fn broadcast_at<P: Clone>(
    o: ClientEntry<P>,
    n: ClientEntry<P>,
    message: OutboundMessage<P>,
    priority: bool,
    now_ns: u64,
) -> bool {
    &&& n.id == o.id && n.conn.state == o.conn.state
    &&& if wants(o.conn.state, message, priority) {
        exists|c: OutboundMessage<P>| #![trigger clone_of(message, c)]
            clone_of(message, c) && (if within_limits(o.conn.outbound.queues, c) {
                exists|d: u64| enqueue_post(o.conn.outbound.queues, n.conn.outbound.queues, c, now_ns, d)
            } else {
                n.conn.outbound.queues == o.conn.outbound.queues
            })
    } else {
        n.conn.outbound.queues == o.conn.outbound.queues
    }
}

/// Every client received `message` under `broadcast_at`.
pub open spec fn broadcast_all<P: Clone>(
    o: Seq<ClientEntry<P>>,
    n: Seq<ClientEntry<P>>,
    message: OutboundMessage<P>,
    priority: bool,
    now_ns: u64,
) -> bool {
    &&& n.len() == o.len()
    &&& forall|j: int| 0 <= j < o.len() ==> broadcast_at(#[trigger] o[j], n[j], message, priority, now_ns)
}

/// What enqueuing `message` for one client dropped: nothing when the client
/// does not want it or the copy would not fit the queue limits.
pub open spec fn dropped_at<P: Clone>(
    o: ClientEntry<P>,
    n: ClientEntry<P>,
    message: OutboundMessage<P>,
    priority: bool,
    now_ns: u64,
    d: u64,
) -> bool {
    if wants(o.conn.state, message, priority) {
        exists|c: OutboundMessage<P>| #![trigger clone_of(message, c)]
            clone_of(message, c) && (if within_limits(o.conn.outbound.queues, c) {
                enqueue_post(o.conn.outbound.queues, n.conn.outbound.queues, c, now_ns, d)
            } else {
                d == 0
            })
    } else {
        d == 0
    }
}

/// `start` with each count of `ds` added in turn, wrapping at `u64::MAX`.
pub open spec fn wrapping_total(start: u64, ds: Seq<u64>) -> u64
    decreases ds.len(),
{
    if ds.len() == 0 {
        start
    } else {
        vstd::wrapping::u64_specs::wrapping_add(wrapping_total(start, ds.drop_last()), ds.last())
    }
}

/// The drop counter went from `start` to `end` by what the broadcast from
/// `o` to `n` dropped at each client.
pub open spec fn broadcast_drops<P: Clone>(
    o: Seq<ClientEntry<P>>,
    n: Seq<ClientEntry<P>>,
    message: OutboundMessage<P>,
    priority: bool,
    now_ns: u64,
    start: u64,
    end: u64,
) -> bool {
    exists|ds: Seq<u64>| #![trigger wrapping_total(start, ds)]
        {
            &&& ds.len() == o.len()
            &&& forall|j: int| 0 <= j < o.len() ==> dropped_at(#[trigger] o[j], n[j], message, priority, now_ns, ds[j])
            &&& end == wrapping_total(start, ds)
        }
}

/// The frontend `n` is `o` after `message` was broadcast: every client got
/// it under `broadcast_all`, the drop counter grew by what that dropped, and
/// every other field but the display timestamp is unchanged.
pub open spec fn frontend_broadcast<P: Clone>(o: TciFrontend<P>, n: TciFrontend<P>, message: OutboundMessage<P>, now_ns: u64) -> bool {
    &&& broadcast_all(o.clients.entries@, n.clients.entries@, message, o.tx_media_priority_active, now_ns)
    &&& broadcast_drops(
        o.clients.entries@,
        n.clients.entries@,
        message,
        o.tx_media_priority_active,
        now_ns,
        o.drop_count,
        n.drop_count,
    )
    &&& n.clients.operator_client_id == o.clients.operator_client_id
    &&& n.tx_media_priority_active == o.tx_media_priority_active
    &&& n.operator_control_at_ns == o.operator_control_at_ns
    &&& n.display_rate_limited_count == o.display_rate_limited_count
    &&& n.remote_tx_rf_enabled == o.remote_tx_rf_enabled
    &&& n.display_frame_interval_ns == o.display_frame_interval_ns
    &&& n.rx_audio_transport_rate_hz == o.rx_audio_transport_rate_hz
    &&& n.rx_audio_transport_channels == o.rx_audio_transport_channels
}

/// Every field but the client registry, the drop and rate-limit counters
/// and the display timestamp is unchanged.
pub open spec fn frontend_fields_kept_but_counters<P>(o: TciFrontend<P>, n: TciFrontend<P>) -> bool {
    &&& n.tx_media_priority_active == o.tx_media_priority_active
    &&& n.operator_control_at_ns == o.operator_control_at_ns
    &&& n.remote_tx_rf_enabled == o.remote_tx_rf_enabled
    &&& n.display_frame_interval_ns == o.display_frame_interval_ns
    &&& n.rx_audio_transport_rate_hz == o.rx_audio_transport_rate_hz
    &&& n.rx_audio_transport_channels == o.rx_audio_transport_channels
}

/// A display frame is due at `now` under the limit.
pub open spec fn display_due(interval_ns: u64, last_ns: Option<u64>, now_ns: u64) -> bool {
    interval_ns == 0 || match last_ns {
        Some(t) => (if now_ns >= t { now_ns - t } else { 0 }) >= interval_ns,
        None => true,
    }
}

/// Aggregated client statistics for the periodic status report.
#[derive(Clone, Copy, Debug, PartialEq, Eq, Structural)]
pub struct TciClientSnapshot {
    pub active: bool,
    pub iq_stream_enabled: bool,
    pub audio_stream_enabled: bool,
    pub outbound_drops: u64,
    pub safety_enqueue_to_write_p50_us: u64,
    pub safety_enqueue_to_write_p95_us: u64,
    pub safety_enqueue_to_write_p99_us: u64,
    pub control_enqueue_to_write_p50_us: u64,
    pub control_enqueue_to_write_p95_us: u64,
    pub control_enqueue_to_write_p99_us: u64,
    pub display_replaced_per_sec: u64,
    pub display_dropped_per_sec: u64,
    pub audio_dropped_per_sec: u64,
    pub audio_seq_gap_count: u64,
    pub audio_panic_drain_count: u64,
    pub send_blocked_ms: u64,
    pub outbound_high_watermark_bytes: u64,
    pub outbound_queued_bytes: u64,
    pub tcp_outq_high_watermark_bytes: u64,
    pub display_rate_limited_per_sec: u64,
    pub safety_queue_depth_overflow_count: u64,
    pub split_control_clients: u64,
    pub split_media_clients: u64,
    pub split_paired_sessions: u64,
    pub tx_uplink_degraded: bool,
    pub tx_mic_browser_dropped_count: u64,
    pub tx_uplink_buffered_bytes: u64,
    pub tx_uplink_buffered_high_watermark_bytes: u64,
    pub tx_mic_last_arrived_seq: u32,
    pub tx_mic_seq_gap_count: u64,
    pub tx_mic_age_ms: u64,
    pub tx_media_priority_active: bool,
    pub tx_codec_decode_error_count: u64,
    pub tx_codec_stale_drop_count: u64,
    pub tx_codec_release_flush_count: u64,
}

/// The sum over the first `n` clients of a per-client count.
pub open spec fn total<P>(s: Seq<ClientEntry<P>>, n: int, f: spec_fn(ClientEntry<P>) -> nat) -> nat
    decreases n,
{
    if n <= 0 {
        0
    } else {
        total(s, n - 1, f) + f(s[n - 1])
    }
}

/// The largest per-client value over the first `n` clients (zero if none).
pub open spec fn largest<P>(s: Seq<ClientEntry<P>>, n: int, f: spec_fn(ClientEntry<P>) -> nat) -> nat
    decreases n,
{
    if n <= 0 {
        0
    } else {
        let m = largest(s, n - 1, f);
        if f(s[n - 1]) > m {
            f(s[n - 1])
        } else {
            m
        }
    }
}

/// The per-client sequences of the first `n` clients, concatenated in id order.
pub open spec fn concat<P>(s: Seq<ClientEntry<P>>, n: int, f: spec_fn(ClientEntry<P>) -> Seq<u64>) -> Seq<u64>
    decreases n,
{
    if n <= 0 {
        Seq::empty()
    } else {
        concat(s, n - 1, f) + f(s[n - 1])
    }
}

/// `x` capped at `u64::MAX`.
pub open spec fn cap(x: nat) -> u64 {
    if x > u64::MAX {
        u64::MAX
    } else {
        x as u64
    }
}

/// Milliseconds since a client's last mic frame (zero when none arrived).
pub open spec fn mic_age_ms(at: Option<u64>, now_ns: u64) -> nat {
    match at {
        Some(t) => if now_ns >= t {
            ((now_ns - t) / 1_000_000) as nat
        } else {
            0
        },
        None => 0,
    }
}

/// `n` is `o` after the operator's release flush was counted (unchanged
/// without an operator).
pub open spec fn release_flushed<P>(o: Seq<ClientEntry<P>>, n: Seq<ClientEntry<P>>, op: u64) -> bool {
    if op != 0 && has_id(o, op) {
        applied_to(o, n, op, None, StateOp::ReleaseFlush)
    } else {
        n == o
    }
}

/// Saturating `u64` addition.
pub open spec fn sat_add_u64(a: u64, b: u64) -> u64 {
    if a + b > u64::MAX {
        u64::MAX
    } else {
        (a + b) as u64
    }
}

/// The frontend fields a client-state update leaves as they were.
pub open spec fn frontend_fields_kept<P>(o: TciFrontend<P>, n: TciFrontend<P>) -> bool {
    &&& n.operator_control_at_ns == o.operator_control_at_ns
    &&& n.drop_count == o.drop_count
    &&& n.display_rate_limited_count == o.display_rate_limited_count
    &&& n.remote_tx_rf_enabled == o.remote_tx_rf_enabled
    &&& n.display_frame_interval_ns == o.display_frame_interval_ns
    &&& n.last_display_frame_at_ns == o.last_display_frame_at_ns
    &&& n.rx_audio_transport_rate_hz == o.rx_audio_transport_rate_hz
    &&& n.rx_audio_transport_channels == o.rx_audio_transport_channels
}

/// The frontend state the client threads and the radio loop share.
pub struct TciFrontend<P> {
    pub clients: ClientRegistry<P>,
    pub operator_control_at_ns: Option<u64>,
    pub drop_count: u64,
    pub display_rate_limited_count: u64,
    pub tx_media_priority_active: bool,
    pub remote_tx_rf_enabled: bool,
    pub display_frame_interval_ns: u64,
    pub last_display_frame_at_ns: Option<u64>,
    pub rx_audio_transport_rate_hz: u32,
    pub rx_audio_transport_channels: u32,
}

impl<P: Clone> TciFrontend<P> {
    pub open spec fn wf(&self) -> bool {
        self.clients.wf()
    }

    /// A frontend without clients; the display limit is in Hz (zero: none)
    /// and the RX audio channel count is kept within one and two.
    pub fn new(
        remote_tx_rf_enabled: bool,
        display_frame_limit_hz: u16,
        rx_audio_transport_rate_hz: u32,
        rx_audio_transport_channels: u32,
    ) -> (f: Self)
        ensures
            f.wf(),
            f.clients.entries@.len() == 0 && f.clients.operator_client_id == 0,
            f.drop_count == 0 && f.display_rate_limited_count == 0 && !f.tx_media_priority_active,
            f.remote_tx_rf_enabled == remote_tx_rf_enabled,
            f.display_frame_interval_ns == (if display_frame_limit_hz == 0 {
                0nat
            } else {
                1_000_000_000nat / (display_frame_limit_hz as nat)
            }),
            f.last_display_frame_at_ns is None && f.operator_control_at_ns is None,
            f.rx_audio_transport_rate_hz == rx_audio_transport_rate_hz,
            f.rx_audio_transport_channels as nat == clamp(rx_audio_transport_channels as nat, 1, 2),
    {
        TciFrontend {
            clients: ClientRegistry::new(),
            operator_control_at_ns: None,
            drop_count: 0,
            display_rate_limited_count: 0,
            tx_media_priority_active: false,
            remote_tx_rf_enabled,
            display_frame_interval_ns: display_frame_interval_for_limit(display_frame_limit_hz),
            last_display_frame_at_ns: None,
            rx_audio_transport_rate_hz,
            rx_audio_transport_channels: if rx_audio_transport_channels < 1 {
                1
            } else if rx_audio_transport_channels > 2 {
                2
            } else {
                rx_audio_transport_channels
            },
        }
    }

    /// Display frames are limited to one per interval (no limit at zero).
    pub fn should_publish_display_frame(&mut self, now_ns: u64) -> (b: bool)
        ensures
            b == (old(self).display_frame_interval_ns == 0 || match old(self).last_display_frame_at_ns {
                Some(t) => (if now_ns >= t { now_ns - t } else { 0 }) >= old(self).display_frame_interval_ns,
                None => true,
            }),
            (b && old(self).display_frame_interval_ns != 0) ==> final(self).last_display_frame_at_ns == Some(now_ns),
            !(b && old(self).display_frame_interval_ns != 0) ==> final(self).last_display_frame_at_ns == old(self).last_display_frame_at_ns,
            final(self).clients == old(self).clients,
            final(self).display_rate_limited_count == old(self).display_rate_limited_count,
            final(self).drop_count == old(self).drop_count,
            final(self).tx_media_priority_active == old(self).tx_media_priority_active,
            final(self).remote_tx_rf_enabled == old(self).remote_tx_rf_enabled,
            final(self).display_frame_interval_ns == old(self).display_frame_interval_ns,
            final(self).operator_control_at_ns == old(self).operator_control_at_ns,
            final(self).rx_audio_transport_rate_hz == old(self).rx_audio_transport_rate_hz,
            final(self).rx_audio_transport_channels == old(self).rx_audio_transport_channels,
    {
        if self.display_frame_interval_ns == 0 {
            return true;
        }
        let due = match self.last_display_frame_at_ns {
            Some(t) => now_ns.saturating_sub(t) >= self.display_frame_interval_ns,
            None => true,
        };
        if due {
            self.last_display_frame_at_ns = Some(now_ns);
        }
        due
    }

    /// Enqueues a copy of `message` for every client that wants it.
    pub fn send_message(&mut self, message: OutboundMessage<P>, now_ns: u64)
        requires
            old(self).wf(),
        ensures
            final(self).wf(),
            frontend_broadcast(*old(self), *final(self), message, now_ns),
            final(self).last_display_frame_at_ns == old(self).last_display_frame_at_ns,
    {
        let priority = self.tx_media_priority_active;
        let ghost a = self.clients.entries@;
        let ghost mut ds: Seq<u64> = Seq::empty();
        let mut i: usize = 0;
        while i < self.clients.entries.len()
            invariant
                i <= a.len(),
                self.clients.entries@.len() == a.len(),
                self.tx_media_priority_active == priority,
                self.clients.operator_client_id == old(self).clients.operator_client_id,
                self.display_rate_limited_count == old(self).display_rate_limited_count,
                self.last_display_frame_at_ns == old(self).last_display_frame_at_ns,
                self.remote_tx_rf_enabled == old(self).remote_tx_rf_enabled,
                self.display_frame_interval_ns == old(self).display_frame_interval_ns,
                self.operator_control_at_ns == old(self).operator_control_at_ns,
                self.rx_audio_transport_rate_hz == old(self).rx_audio_transport_rate_hz,
                self.rx_audio_transport_channels == old(self).rx_audio_transport_channels,
                priority == old(self).tx_media_priority_active,
                a == old(self).clients.entries@,
                crate::registry::ids_ascending(a),
                forall|j: int| 0 <= j < a.len() ==> (#[trigger] self.clients.entries@[j]).conn.outbound.queues.wf(),
                forall|j: int| i <= j < a.len() ==> self.clients.entries@[j] == a[j],
                forall|j: int| 0 <= j < i ==> broadcast_at(#[trigger] a[j], self.clients.entries@[j], message, priority, now_ns),
                ds.len() == i,
                forall|j: int| 0 <= j < i ==> dropped_at(#[trigger] a[j], self.clients.entries@[j], message, priority, now_ns, ds[j]),
                self.drop_count == wrapping_total(old(self).drop_count, ds),
            decreases a.len() - i,
        {
            let ghost before = ds;
            let e = &mut self.clients.entries[i];
            if client_wants_outbound_message(&e.conn, &message, priority) {
                let c = clone_message(&message);
                let ghost cg = c;
                let r = e.conn.outbound.enqueue_within_limits(c, now_ns);
                match r {
                    Some(d) => {
                        self.drop_count = self.drop_count.wrapping_add(d);
                        proof {
                            ds = ds.push(d);
                        }
                    },
                    None => {
                        proof {
                            ds = ds.push(0);
                        }
                    },
                }
                proof {
                    assert(clone_of(message, cg));
                    if within_limits(a[i as int].conn.outbound.queues, cg) {
                        let d = r.unwrap();
                        assert(enqueue_post(a[i as int].conn.outbound.queues, self.clients.entries@[i as int].conn.outbound.queues, cg, now_ns, d));
                    }
                    assert(dropped_at(a[i as int], self.clients.entries@[i as int], message, priority, now_ns, ds[i as int]));
                }
            } else {
                proof {
                    ds = ds.push(0);
                }
            }
            proof {
                assert(ds.drop_last() =~= before);
                assert(self.drop_count == wrapping_total(old(self).drop_count, ds));
            }
            i = i + 1;
        }
        proof {
            assert(crate::registry::ids_ascending(self.clients.entries@)) by {
                assert forall|x: int, y: int| 0 <= x < y < self.clients.entries@.len() implies self.clients.entries@[x].id < self.clients.entries@[y].id by {
                    assert(broadcast_at(a[x], self.clients.entries@[x], message, priority, now_ns));
                    assert(broadcast_at(a[y], self.clients.entries@[y], message, priority, now_ns));
                }
            }
            assert(broadcast_drops(a, self.clients.entries@, message, priority, now_ns, old(self).drop_count, self.drop_count));
        }
    }

    pub fn send_text(&mut self, text: String, now_ns: u64)
        requires
            old(self).wf(),
        ensures
            final(self).wf(),
            frontend_broadcast(*old(self), *final(self), OutboundMessage::Text(text), now_ns),
            final(self).last_display_frame_at_ns == old(self).last_display_frame_at_ns,
    {
        self.send_message(OutboundMessage::Text(text), now_ns);
    }

    pub fn send_safety_text(&mut self, text: String, now_ns: u64)
        requires
            old(self).wf(),
        ensures
            final(self).wf(),
            frontend_broadcast(*old(self), *final(self), OutboundMessage::SafetyText(text), now_ns),
            final(self).last_display_frame_at_ns == old(self).last_display_frame_at_ns,
    {
        self.send_message(OutboundMessage::SafetyText(text), now_ns);
    }

    /// Publishes an RX IQ frame when some client streams IQ and the display
    /// limit allows it (otherwise counts it as rate limited).
    pub fn publish_iq_frame(&mut self, sample_rate_hz: u32, samples: P, sample_len: usize, now_ns: u64)
        requires
            old(self).wf(),
        ensures
            final(self).wf(),
            !any_iq(old(self).clients.entries@) ==> *final(self) == *old(self),
            any_iq(old(self).clients.entries@) && !display_due(old(self).display_frame_interval_ns, old(self).last_display_frame_at_ns, now_ns)
                ==> final(self).clients == old(self).clients
                && final(self).display_rate_limited_count == vstd::wrapping::u64_specs::wrapping_add(old(self).display_rate_limited_count, 1)
                && final(self).drop_count == old(self).drop_count
                && final(self).last_display_frame_at_ns == old(self).last_display_frame_at_ns
                && frontend_fields_kept_but_counters(*old(self), *final(self)),
            any_iq(old(self).clients.entries@) && display_due(old(self).display_frame_interval_ns, old(self).last_display_frame_at_ns, now_ns)
                ==> final(self).last_display_frame_at_ns == (if old(self).display_frame_interval_ns == 0 {
                    old(self).last_display_frame_at_ns
                } else {
                    Some(now_ns)
                })
                && frontend_broadcast(*old(self), *final(self),
                    OutboundMessage::IqFrame { receiver: 0, sample_rate: sample_rate_hz, samples, sample_len }, now_ns),
    {
        if !self.clients.is_iq_stream_enabled() {
            return;
        }
        if !self.should_publish_display_frame(now_ns) {
            self.display_rate_limited_count = self.display_rate_limited_count.wrapping_add(1);
            return;
        }
        let ghost entries = self.clients.entries@;
        let message = OutboundMessage::IqFrame { receiver: 0, sample_rate: sample_rate_hz, samples, sample_len };
        let ghost mg = message;
        self.send_message(message, now_ns);
        proof {
            assert(entries == old(self).clients.entries@);
            assert(broadcast_all(entries, self.clients.entries@, mg, old(self).tx_media_priority_active, now_ns));
        }
    }

    /// Publishes a TX IQ frame under the same rules as RX IQ frames.
    pub fn publish_tx_iq_frame(&mut self, sample_rate_hz: u32, samples: P, sample_len: usize, now_ns: u64)
        requires
            old(self).wf(),
        ensures
            final(self).wf(),
            !any_iq(old(self).clients.entries@) ==> *final(self) == *old(self),
            any_iq(old(self).clients.entries@) && !display_due(old(self).display_frame_interval_ns, old(self).last_display_frame_at_ns, now_ns)
                ==> final(self).clients == old(self).clients
                && final(self).display_rate_limited_count == vstd::wrapping::u64_specs::wrapping_add(old(self).display_rate_limited_count, 1)
                && final(self).drop_count == old(self).drop_count
                && final(self).last_display_frame_at_ns == old(self).last_display_frame_at_ns
                && frontend_fields_kept_but_counters(*old(self), *final(self)),
            any_iq(old(self).clients.entries@) && display_due(old(self).display_frame_interval_ns, old(self).last_display_frame_at_ns, now_ns)
                ==> final(self).last_display_frame_at_ns == (if old(self).display_frame_interval_ns == 0 {
                    old(self).last_display_frame_at_ns
                } else {
                    Some(now_ns)
                })
                && frontend_broadcast(*old(self), *final(self),
                    OutboundMessage::TxIqFrame { receiver: 0, sample_rate: sample_rate_hz, samples, sample_len }, now_ns),
    {
        if !self.clients.is_iq_stream_enabled() {
            return;
        }
        if !self.should_publish_display_frame(now_ns) {
            self.display_rate_limited_count = self.display_rate_limited_count.wrapping_add(1);
            return;
        }
        let ghost entries = self.clients.entries@;
        let message = OutboundMessage::TxIqFrame { receiver: 0, sample_rate: sample_rate_hz, samples, sample_len };
        let ghost mg = message;
        self.send_message(message, now_ns);
        proof {
            assert(entries == old(self).clients.entries@);
            assert(broadcast_all(entries, self.clients.entries@, mg, old(self).tx_media_priority_active, now_ns));
        }
    }

    /// The RX audio rate clients receive for a source rate.
    pub fn audio_transport_sample_rate(&self, source_rate_hz: u32) -> (r: u32)
        ensures
            r as nat == transport_rate(self.rx_audio_transport_rate_hz, source_rate_hz),
    {
        audio_transport_sample_rate(self.rx_audio_transport_rate_hz, source_rate_hz)
    }

    /// Sends `audio_start:0;` then `audio_samplerate:<transport rate>;` to every text client.
    pub fn publish_audio_started(&mut self, sample_rate_hz: u32, now_ns: u64)
        requires
            old(self).wf(),
        ensures
            final(self).wf(),
            final(self).last_display_frame_at_ns == old(self).last_display_frame_at_ns,
            exists|mid: TciFrontend<P>, a: String, b: String| {
                &&& a@ == "audio_start:0;"@
                &&& b@ == "audio_samplerate:"@ + dec(transport_rate(old(self).rx_audio_transport_rate_hz, sample_rate_hz)) + ";"@
                &&& #[trigger] frontend_broadcast(*old(self), mid, OutboundMessage::Text(a), now_ns)
                &&& #[trigger] frontend_broadcast(mid, *final(self), OutboundMessage::Text(b), now_ns)
            },
    {
        let mut start = String::new();
        push_str(&mut start, "audio_start:0;");
        let ghost a = start;
        self.send_text(start, now_ns);
        let ghost mid = self.clients.entries@;
        let mut rate = String::new();
        push_str(&mut rate, "audio_samplerate:");
        let r = self.audio_transport_sample_rate(sample_rate_hz);
        push_dec(&mut rate, r as u64);
        push_str(&mut rate, ";");
        let ghost b = rate;
        self.send_text(rate, now_ns);
        proof {
            assert(a@ =~= "audio_start:0;"@);
            assert(b@ =~= "audio_samplerate:"@ + dec(transport_rate(old(self).rx_audio_transport_rate_hz, sample_rate_hz)) + ";"@);
            assert(broadcast_all(old(self).clients.entries@, mid, OutboundMessage::Text(a), old(self).tx_media_priority_active, now_ns));
            assert(broadcast_all(mid, self.clients.entries@, OutboundMessage::Text(b), old(self).tx_media_priority_active, now_ns));
        }
    }

    /// Sends `audio_stop:0;` to every text client.
    pub fn publish_audio_stopped(&mut self, now_ns: u64)
        requires
            old(self).wf(),
        ensures
            final(self).wf(),
            final(self).last_display_frame_at_ns == old(self).last_display_frame_at_ns,
            exists|m: String| m@ == "audio_stop:0;"@ && #[trigger] frontend_broadcast(*old(self), *final(self), OutboundMessage::Text(m), now_ns),
    {
        let mut stop = String::new();
        push_str(&mut stop, "audio_stop:0;");
        let ghost m = stop;
        self.send_text(stop, now_ns);
        proof {
            assert(m@ =~= "audio_stop:0;"@);
            assert(broadcast_all(old(self).clients.entries@, self.clients.entries@, OutboundMessage::Text(m), old(self).tx_media_priority_active, now_ns));
        }
    }

    /// Answers a heartbeat: `saturn_pong:<nonce>,<sent_at>;` to its client.
    pub fn publish_saturn_pong(&mut self, client_id: u64, nonce: &str, sent_at: &str, now_ns: u64)
        requires
            old(self).wf(),
        ensures
            final(self).wf(),
            exists|m: String, d: u64| m@ == "saturn_pong:"@ + nonce@ + ","@ + sent_at@ + ";"@
                && crate::registry::enqueued_to(old(self).clients.entries@, final(self).clients.entries@, client_id, OutboundMessage::Text(m), now_ns)
                && #[trigger] crate::registry::sent_drop(old(self).clients.entries@, final(self).clients.entries@, client_id, OutboundMessage::Text(m), now_ns, d)
                && final(self).drop_count == vstd::wrapping::u64_specs::wrapping_add(old(self).drop_count, d),
            final(self).clients.operator_client_id == old(self).clients.operator_client_id,
            final(self).last_display_frame_at_ns == old(self).last_display_frame_at_ns,
            final(self).display_rate_limited_count == old(self).display_rate_limited_count,
            frontend_fields_kept_but_counters(*old(self), *final(self)),
    {
        let mut m = String::new();
        push_str(&mut m, "saturn_pong:");
        push_str(&mut m, nonce);
        push_str(&mut m, ",");
        push_str(&mut m, sent_at);
        push_str(&mut m, ";");
        let ghost mg = m;
        let d = self.clients.send_text_to_client(client_id, m, now_ns);
        self.drop_count = self.drop_count.wrapping_add(d);
        proof {
            assert(mg@ =~= "saturn_pong:"@ + nonce@ + ","@ + sent_at@ + ";"@);
            assert(crate::registry::enqueued_to(old(self).clients.entries@, self.clients.entries@, client_id, OutboundMessage::Text(mg), now_ns));
        }
    }

    /// Broadcasts `tx_fault:0,power_trip,<forward>,<limit>;` (watts to one
    /// decimal, given in tenths) as a safety message.
    pub fn publish_tx_power_trip(&mut self, forward_deciwatts: u64, limit_deciwatts: u64, now_ns: u64)
        requires
            old(self).wf(),
        ensures
            final(self).wf(),
            final(self).last_display_frame_at_ns == old(self).last_display_frame_at_ns,
            exists|m: String| m@ == "tx_fault:0,power_trip,"@ + crate::protocol::tenths_text(forward_deciwatts as nat) + ","@
                + crate::protocol::tenths_text(limit_deciwatts as nat) + ";"@
                && #[trigger] frontend_broadcast(*old(self), *final(self), OutboundMessage::SafetyText(m), now_ns),
    {
        let m = crate::protocol::tx_power_trip_fault_message(forward_deciwatts, limit_deciwatts);
        let ghost mg = m;
        self.send_safety_text(m, now_ns);
        proof {
            assert(frontend_broadcast(*old(self), *self, OutboundMessage::SafetyText(mg), now_ns));
        }
    }

    /// The last time the operator sent a control message.
    pub fn last_operator_control_at(&self) -> (t: Option<u64>)
        ensures
            t == self.operator_control_at_ns,
    {
        self.operator_control_at_ns
    }

    /// Broadcasts `tx_fault:0,uplink_late,<age>,<limit>;` as a safety message.
    pub fn publish_tx_uplink_late(&mut self, age_ms: u64, limit_ms: u64, now_ns: u64)
        requires
            old(self).wf(),
        ensures
            final(self).wf(),
            final(self).last_display_frame_at_ns == old(self).last_display_frame_at_ns,
            exists|m: String| m@ == "tx_fault:0,uplink_late,"@ + dec(age_ms as nat) + ","@ + dec(limit_ms as nat) + ";"@
                && #[trigger] frontend_broadcast(*old(self), *final(self), OutboundMessage::SafetyText(m), now_ns),
    {
        let m = crate::protocol::tx_uplink_late_fault_message(age_ms, limit_ms);
        let ghost mg = m;
        self.send_safety_text(m, now_ns);
        proof {
            assert(broadcast_all(old(self).clients.entries@, self.clients.entries@, OutboundMessage::SafetyText(mg), old(self).tx_media_priority_active, now_ns));
        }
    }

    /// Broadcasts `tx_fault:0,control_watchdog,<silence>,<limit>;` as a safety message.
    pub fn publish_tx_control_watchdog(&mut self, silence_ms: u64, limit_ms: u64, now_ns: u64)
        requires
            old(self).wf(),
        ensures
            final(self).wf(),
            final(self).last_display_frame_at_ns == old(self).last_display_frame_at_ns,
            exists|m: String| m@ == "tx_fault:0,control_watchdog,"@ + dec(silence_ms as nat) + ","@ + dec(limit_ms as nat) + ";"@
                && #[trigger] frontend_broadcast(*old(self), *final(self), OutboundMessage::SafetyText(m), now_ns),
    {
        let m = crate::protocol::tx_control_watchdog_fault_message(silence_ms, limit_ms);
        let ghost mg = m;
        self.send_safety_text(m, now_ns);
        proof {
            assert(broadcast_all(old(self).clients.entries@, self.clients.entries@, OutboundMessage::SafetyText(mg), old(self).tx_media_priority_active, now_ns));
        }
    }

    pub fn set_tx_media_priority_active(&mut self, active: bool)
        ensures
            final(self).tx_media_priority_active == active,
            final(self).clients == old(self).clients,
    {
        self.tx_media_priority_active = active;
    }

    /// Whether media-lane receive frames are currently held back for the uplink.
    pub fn tx_media_priority_active(&self) -> (b: bool)
        ensures
            b == self.tx_media_priority_active,
    {
        self.tx_media_priority_active
    }

    pub fn has_split_paired_session(&self) -> (b: bool)
        ensures
            b == (paired_sessions(self.clients.entries@, self.clients.entries@.len() as int) > 0),
    {
        self.clients.split_paired_session_count() > 0
    }

    /// Records an operator control message.
    pub fn note_operator_control(&mut self, now_ns: u64)
        ensures
            final(self).operator_control_at_ns == Some(now_ns),
            final(self).clients == old(self).clients,
    {
        self.operator_control_at_ns = Some(now_ns);
    }

    /// Ends the media ignore window of the operator's session.
    pub fn clear_split_release_window(&mut self)
        requires
            old(self).wf(),
        ensures
            final(self).wf(),
            final(self).clients.operator_client_id == old(self).clients.operator_client_id,
            media_ignore_post(old(self).clients.entries@, final(self).clients.entries@, old(self).clients.operator_client_id, None),
            frontend_fields_kept(*old(self), *final(self)),
            final(self).tx_media_priority_active == old(self).tx_media_priority_active,
    {
        let _ = self.clients.set_split_media_ignore_until(None);
    }

    /// PTT released: counts a decode-queue flush for the operator, makes the
    /// operator's media clients ignore mic frames for the release window,
    /// and ends transmit media priority.
    pub fn mark_split_released(&mut self, now_ns: u64)
        requires
            old(self).wf(),
        ensures
            final(self).wf(),
            !final(self).tx_media_priority_active,
            final(self).clients.operator_client_id == old(self).clients.operator_client_id,
            exists|flushed: Seq<ClientEntry<P>>| {
                &&& #[trigger] release_flushed(old(self).clients.entries@, flushed, old(self).clients.operator_client_id)
                &&& media_ignore_post(
                    flushed,
                    final(self).clients.entries@,
                    old(self).clients.operator_client_id,
                    Some(sat_add_u64(now_ns, SPLIT_RELEASE_IGNORE_WINDOW_NS)),
                )
            },
            frontend_fields_kept(*old(self), *final(self)),
    {
        let op = self.clients.operator_client_id;
        let _ = self.clients.flush_client_tx_codec_decode_queue(op);
        let ghost flushed = self.clients.entries@;
        let until = now_ns.saturating_add(SPLIT_RELEASE_IGNORE_WINDOW_NS);
        assert(until == sat_add_u64(now_ns, SPLIT_RELEASE_IGNORE_WINDOW_NS));
        let _ = self.clients.set_split_media_ignore_until(Some(until));
        self.tx_media_priority_active = false;
        assert(release_flushed(old(self).clients.entries@, flushed, op));
    }
}

/// Per-client quantities the snapshot aggregates.
pub open spec fn st_audio_seq_gap_count<P>() -> spec_fn(ClientEntry<P>) -> nat {
    |e: ClientEntry<P>| e.conn.state.audio_seq_gap_count as nat
}

pub open spec fn st_tx_mic_browser_dropped_count<P>() -> spec_fn(ClientEntry<P>) -> nat {
    |e: ClientEntry<P>| e.conn.state.tx_mic_browser_dropped_count as nat
}

pub open spec fn st_tx_mic_seq_gap_count<P>() -> spec_fn(ClientEntry<P>) -> nat {
    |e: ClientEntry<P>| e.conn.state.tx_mic_seq_gap_count as nat
}

pub open spec fn st_tx_codec_decode_error_count<P>() -> spec_fn(ClientEntry<P>) -> nat {
    |e: ClientEntry<P>| e.conn.state.tx_codec_decode_error_count as nat
}

pub open spec fn st_tx_codec_stale_drop_count<P>() -> spec_fn(ClientEntry<P>) -> nat {
    |e: ClientEntry<P>| e.conn.state.tx_codec_stale_drop_count as nat
}

pub open spec fn st_tx_codec_release_flush_count<P>() -> spec_fn(ClientEntry<P>) -> nat {
    |e: ClientEntry<P>| e.conn.state.tx_codec_release_flush_count as nat
}

pub open spec fn st_tx_uplink_buffered_bytes<P>() -> spec_fn(ClientEntry<P>) -> nat {
    |e: ClientEntry<P>| e.conn.state.tx_uplink_buffered_bytes as nat
}

pub open spec fn st_tx_uplink_buffered_high_watermark_bytes<P>() -> spec_fn(ClientEntry<P>) -> nat {
    |e: ClientEntry<P>| e.conn.state.tx_uplink_buffered_high_watermark_bytes as nat
}

pub open spec fn sc_display_replaced<P>() -> spec_fn(ClientEntry<P>) -> nat {
    |e: ClientEntry<P>| e.conn.outbound.stats.display_replaced as nat
}

pub open spec fn sc_display_dropped<P>() -> spec_fn(ClientEntry<P>) -> nat {
    |e: ClientEntry<P>| e.conn.outbound.stats.display_dropped as nat
}

pub open spec fn sc_audio_dropped<P>() -> spec_fn(ClientEntry<P>) -> nat {
    |e: ClientEntry<P>| e.conn.outbound.stats.audio_dropped as nat
}

pub open spec fn sc_audio_panic_drain<P>() -> spec_fn(ClientEntry<P>) -> nat {
    |e: ClientEntry<P>| e.conn.outbound.stats.audio_panic_drain as nat
}

pub open spec fn sc_send_blocked_ms<P>() -> spec_fn(ClientEntry<P>) -> nat {
    |e: ClientEntry<P>| e.conn.outbound.stats.send_blocked_ms as nat
}

pub open spec fn sc_safety_queue_depth_overflow<P>() -> spec_fn(ClientEntry<P>) -> nat {
    |e: ClientEntry<P>| e.conn.outbound.stats.safety_queue_depth_overflow as nat
}

pub open spec fn sc_outbound_high_watermark_bytes<P>() -> spec_fn(ClientEntry<P>) -> nat {
    |e: ClientEntry<P>| e.conn.outbound.stats.outbound_high_watermark_bytes as nat
}

pub open spec fn sc_tcp_outq_high_watermark_bytes<P>() -> spec_fn(ClientEntry<P>) -> nat {
    |e: ClientEntry<P>| e.conn.outbound.stats.tcp_outq_high_watermark_bytes as nat
}

pub open spec fn st_last_seq<P>() -> spec_fn(ClientEntry<P>) -> nat {
    |e: ClientEntry<P>| e.conn.state.tx_mic_last_arrived_seq as nat
}

pub open spec fn st_mic_age<P>(now_ns: u64) -> spec_fn(ClientEntry<P>) -> nat {
    |e: ClientEntry<P>| mic_age_ms(e.conn.state.tx_mic_last_arrived_at_ns, now_ns)
}

pub open spec fn st_degraded<P>() -> spec_fn(ClientEntry<P>) -> nat {
    |e: ClientEntry<P>| if e.conn.state.tx_uplink_degraded { 1nat } else { 0nat }
}

pub open spec fn q_bytes<P>() -> spec_fn(ClientEntry<P>) -> nat {
    |e: ClientEntry<P>| e.conn.outbound.queues.queued_bytes as nat
}

pub open spec fn sc_safety_lat<P>() -> spec_fn(ClientEntry<P>) -> Seq<u64> {
    |e: ClientEntry<P>| e.conn.outbound.stats.safety_latencies_us@
}

pub open spec fn sc_control_lat<P>() -> spec_fn(ClientEntry<P>) -> Seq<u64> {
    |e: ClientEntry<P>| e.conn.outbound.stats.control_latencies_us@
}

/// The state-based part of the snapshot.
pub struct StateTotals {
    pub audio_seq_gap_count: u64,
    pub tx_mic_browser_dropped_count: u64,
    pub tx_mic_seq_gap_count: u64,
    pub tx_codec_decode_error_count: u64,
    pub tx_codec_stale_drop_count: u64,
    pub tx_codec_release_flush_count: u64,
    pub tx_uplink_buffered_bytes: u64,
    pub tx_uplink_buffered_high_watermark_bytes: u64,
    pub tx_mic_last_arrived_seq: u32,
    pub tx_mic_age_ms: u64,
    pub tx_uplink_degraded: bool,
}

/// Totals (saturating) and maxima of the clients' states.
pub open spec fn state_totals_spec<P>(s: Seq<ClientEntry<P>>, now_ns: u64, t: StateTotals) -> bool {
    let n = s.len() as int;

    &&& t.audio_seq_gap_count == cap(total(s, n, st_audio_seq_gap_count::<P>()))
    &&& t.tx_mic_browser_dropped_count == cap(total(s, n, st_tx_mic_browser_dropped_count::<P>()))
    &&& t.tx_mic_seq_gap_count == cap(total(s, n, st_tx_mic_seq_gap_count::<P>()))
    &&& t.tx_codec_decode_error_count == cap(total(s, n, st_tx_codec_decode_error_count::<P>()))
    &&& t.tx_codec_stale_drop_count == cap(total(s, n, st_tx_codec_stale_drop_count::<P>()))
    &&& t.tx_codec_release_flush_count == cap(total(s, n, st_tx_codec_release_flush_count::<P>()))
    &&& t.tx_uplink_buffered_bytes as nat == largest(s, n, st_tx_uplink_buffered_bytes::<P>())
    &&& t.tx_uplink_buffered_high_watermark_bytes as nat == largest(s, n, st_tx_uplink_buffered_high_watermark_bytes::<P>())
    &&& t.tx_mic_last_arrived_seq as nat == largest(s, n, st_last_seq::<P>())
    &&& t.tx_mic_age_ms == cap(largest(s, n, st_mic_age::<P>(now_ns)))
    &&& t.tx_uplink_degraded == (largest(s, n, st_degraded::<P>()) > 0)
}

proof fn lemma_largest_bounded<P>(s: Seq<ClientEntry<P>>, n: int, f: spec_fn(ClientEntry<P>) -> nat, b: nat)
    requires
        forall|j: int| 0 <= j < n ==> f(#[trigger] s[j]) <= b,
    ensures
        largest(s, n, f) <= b,
    decreases n,
{
    if n > 0 {
        lemma_largest_bounded(s, n - 1, f, b);
    }
}

pub fn state_totals<P>(clients: &ClientRegistry<P>, now_ns: u64) -> (t: StateTotals)
    ensures
        state_totals_spec(clients.entries@, now_ns, t),
{
    let ghost s = clients.entries@;

    let mut audio_seq_gap_count: u64 = 0;
    let mut tx_mic_browser_dropped_count: u64 = 0;
    let mut tx_mic_seq_gap_count: u64 = 0;
    let mut tx_codec_decode_error_count: u64 = 0;
    let mut tx_codec_stale_drop_count: u64 = 0;
    let mut tx_codec_release_flush_count: u64 = 0;
    let mut tx_uplink_buffered_bytes: u64 = 0;
    let mut tx_uplink_buffered_high_watermark_bytes: u64 = 0;
    let mut tx_mic_last_arrived_seq: u32 = 0;
    let mut tx_mic_age_ms: u64 = 0;
    let mut tx_uplink_degraded = false;
    let mut i: usize = 0;
    while i < clients.entries.len()
        invariant
            s == clients.entries@,
            i <= s.len(),

            audio_seq_gap_count == sat(0, total(s, i as int, st_audio_seq_gap_count::<P>())),
            tx_mic_browser_dropped_count == sat(0, total(s, i as int, st_tx_mic_browser_dropped_count::<P>())),
            tx_mic_seq_gap_count == sat(0, total(s, i as int, st_tx_mic_seq_gap_count::<P>())),
            tx_codec_decode_error_count == sat(0, total(s, i as int, st_tx_codec_decode_error_count::<P>())),
            tx_codec_stale_drop_count == sat(0, total(s, i as int, st_tx_codec_stale_drop_count::<P>())),
            tx_codec_release_flush_count == sat(0, total(s, i as int, st_tx_codec_release_flush_count::<P>())),
            tx_uplink_buffered_bytes as nat == largest(s, i as int, st_tx_uplink_buffered_bytes::<P>()),
            tx_uplink_buffered_high_watermark_bytes as nat == largest(s, i as int, st_tx_uplink_buffered_high_watermark_bytes::<P>()),
            tx_mic_last_arrived_seq as nat == largest(s, i as int, st_last_seq::<P>()),
            tx_mic_age_ms == sat(0, largest(s, i as int, st_mic_age::<P>(now_ns))),
            tx_uplink_degraded == (largest(s, i as int, st_degraded::<P>()) > 0),
        decreases s.len() - i,
    {
        let st = &clients.entries[i].conn.state;

        proof {
            lemma_sat_sum(0, total(s, i as int, st_audio_seq_gap_count::<P>()), st.audio_seq_gap_count as nat);
        }
        audio_seq_gap_count = audio_seq_gap_count.saturating_add(st.audio_seq_gap_count);
        proof {
            lemma_sat_sum(0, total(s, i as int, st_tx_mic_browser_dropped_count::<P>()), st.tx_mic_browser_dropped_count as nat);
        }
        tx_mic_browser_dropped_count = tx_mic_browser_dropped_count.saturating_add(st.tx_mic_browser_dropped_count);
        proof {
            lemma_sat_sum(0, total(s, i as int, st_tx_mic_seq_gap_count::<P>()), st.tx_mic_seq_gap_count as nat);
        }
        tx_mic_seq_gap_count = tx_mic_seq_gap_count.saturating_add(st.tx_mic_seq_gap_count);
        proof {
            lemma_sat_sum(0, total(s, i as int, st_tx_codec_decode_error_count::<P>()), st.tx_codec_decode_error_count as nat);
        }
        tx_codec_decode_error_count = tx_codec_decode_error_count.saturating_add(st.tx_codec_decode_error_count);
        proof {
            lemma_sat_sum(0, total(s, i as int, st_tx_codec_stale_drop_count::<P>()), st.tx_codec_stale_drop_count as nat);
        }
        tx_codec_stale_drop_count = tx_codec_stale_drop_count.saturating_add(st.tx_codec_stale_drop_count);
        proof {
            lemma_sat_sum(0, total(s, i as int, st_tx_codec_release_flush_count::<P>()), st.tx_codec_release_flush_count as nat);
        }
        tx_codec_release_flush_count = tx_codec_release_flush_count.saturating_add(st.tx_codec_release_flush_count);
        if st.tx_uplink_buffered_bytes > tx_uplink_buffered_bytes {
            tx_uplink_buffered_bytes = st.tx_uplink_buffered_bytes;
        }
        if st.tx_uplink_buffered_high_watermark_bytes > tx_uplink_buffered_high_watermark_bytes {
            tx_uplink_buffered_high_watermark_bytes = st.tx_uplink_buffered_high_watermark_bytes;
        }
        if st.tx_mic_last_arrived_seq > tx_mic_last_arrived_seq {
            tx_mic_last_arrived_seq = st.tx_mic_last_arrived_seq;
        }
        let age: u64 = match st.tx_mic_last_arrived_at_ns {
            Some(t) => now_ns.saturating_sub(t) / 1_000_000,
            None => 0,
        };
        if age > tx_mic_age_ms {
            tx_mic_age_ms = age;
        }
        if st.tx_uplink_degraded {
            tx_uplink_degraded = true;
        }
        proof {
            assert(age as nat == mic_age_ms(st.tx_mic_last_arrived_at_ns, now_ns));
        }
        i = i + 1;
    }
    StateTotals {

        audio_seq_gap_count,
        tx_mic_browser_dropped_count,
        tx_mic_seq_gap_count,
        tx_codec_decode_error_count,
        tx_codec_stale_drop_count,
        tx_codec_release_flush_count,
        tx_uplink_buffered_bytes,
        tx_uplink_buffered_high_watermark_bytes,
        tx_mic_last_arrived_seq,
        tx_mic_age_ms,
        tx_uplink_degraded,
    }
}

/// The scheduler-statistics part of the snapshot.
pub struct StatsTotals {
    pub safety_latencies_us: Vec<u64>,
    pub control_latencies_us: Vec<u64>,

    pub display_replaced: u64,
    pub display_dropped: u64,
    pub audio_dropped: u64,
    pub audio_panic_drain: u64,
    pub send_blocked_ms: u64,
    pub safety_queue_depth_overflow: u64,
    pub outbound_high_watermark_bytes: u64,
    pub tcp_outq_high_watermark_bytes: u64,
    pub outbound_queued_bytes: u64,
}

/// Totals (saturating) and maxima of the clients' drained statistics; the
/// latencies concatenated in id order.
pub open spec fn stats_totals_spec<P>(s: Seq<ClientEntry<P>>, t: StatsTotals) -> bool {
    let n = s.len() as int;
    &&& t.safety_latencies_us@ == concat(s, n, sc_safety_lat::<P>())
    &&& t.control_latencies_us@ == concat(s, n, sc_control_lat::<P>())

    &&& t.display_replaced == cap(total(s, n, sc_display_replaced::<P>()))
    &&& t.display_dropped == cap(total(s, n, sc_display_dropped::<P>()))
    &&& t.audio_dropped == cap(total(s, n, sc_audio_dropped::<P>()))
    &&& t.audio_panic_drain == cap(total(s, n, sc_audio_panic_drain::<P>()))
    &&& t.send_blocked_ms == cap(total(s, n, sc_send_blocked_ms::<P>()))
    &&& t.safety_queue_depth_overflow == cap(total(s, n, sc_safety_queue_depth_overflow::<P>()))
    &&& t.outbound_high_watermark_bytes as nat == largest(s, n, sc_outbound_high_watermark_bytes::<P>())
    &&& t.tcp_outq_high_watermark_bytes as nat == largest(s, n, sc_tcp_outq_high_watermark_bytes::<P>())
    &&& t.outbound_queued_bytes == cap(largest(s, n, q_bytes::<P>()))
}

/// Drained statistics: all counters zero, no latencies.
pub open spec fn drained(st: ClientSchedulerStats) -> bool {
    &&& st.safety_latencies_us@.len() == 0 && st.control_latencies_us@.len() == 0
    &&& st.display_replaced == 0 && st.display_dropped == 0 && st.control_replaced == 0
    &&& st.control_dropped == 0 && st.audio_dropped == 0 && st.audio_panic_drain == 0
    &&& st.send_blocked_ms == 0 && st.outbound_high_watermark_bytes == 0
    &&& st.tcp_outq_high_watermark_bytes == 0 && st.safety_queue_depth_overflow == 0
    &&& st.control_queue_high_watermark == 0
}

fn append_all(out: &mut Vec<u64>, extra: &Vec<u64>)
    ensures
        final(out)@ == old(out)@ + extra@,
{
    let ghost start = out@;
    let mut i: usize = 0;
    while i < extra.len()
        invariant
            i <= extra@.len(),
            out@ == start + extra@.subrange(0, i as int),
        decreases extra@.len() - i,
    {
        out.push(extra[i]);
        i = i + 1;
        assert(out@ =~= start + extra@.subrange(0, i as int));
    }
    assert(extra@.subrange(0, extra@.len() as int) =~= extra@);
}

/// Drains every client's scheduler statistics and totals them.
pub fn drain_stats_totals<P>(clients: &mut ClientRegistry<P>) -> (t: StatsTotals)
    requires
        old(clients).wf(),
    ensures
        final(clients).wf(),
        final(clients).operator_client_id == old(clients).operator_client_id,
        final(clients).entries@.len() == old(clients).entries@.len(),
        forall|j: int| 0 <= j < old(clients).entries@.len() ==> {
            let o = #[trigger] old(clients).entries@[j];
            let n = final(clients).entries@[j];
            &&& n.id == o.id && n.conn.state == o.conn.state
            &&& n.conn.outbound.queues == o.conn.outbound.queues
            &&& drained(n.conn.outbound.stats)
        },
        stats_totals_spec(old(clients).entries@, t),
{
    let ghost s = clients.entries@;
    let mut safety_latencies_us: Vec<u64> = Vec::new();
    let mut control_latencies_us: Vec<u64> = Vec::new();

    let mut display_replaced: u64 = 0;
    let mut display_dropped: u64 = 0;
    let mut audio_dropped: u64 = 0;
    let mut audio_panic_drain: u64 = 0;
    let mut send_blocked_ms: u64 = 0;
    let mut safety_queue_depth_overflow: u64 = 0;
    let mut outbound_high_watermark_bytes: u64 = 0;
    let mut tcp_outq_high_watermark_bytes: u64 = 0;
    let mut outbound_queued_bytes: u64 = 0;
    let mut i: usize = 0;
    while i < clients.entries.len()
        invariant
            i <= s.len(),
            clients.entries@.len() == s.len(),
            clients.operator_client_id == old(clients).operator_client_id,
            s == old(clients).entries@,
            crate::registry::ids_ascending(s),
            forall|j: int| 0 <= j < s.len() ==> (#[trigger] s[j]).conn.outbound.queues.wf(),
            forall|j: int| i <= j < s.len() ==> clients.entries@[j] == s[j],
            forall|j: int| 0 <= j < i ==> {
                let o = #[trigger] s[j];
                let n = clients.entries@[j];
                &&& n.id == o.id && n.conn.state == o.conn.state
                &&& n.conn.outbound.queues == o.conn.outbound.queues
                &&& drained(n.conn.outbound.stats)
            },
            safety_latencies_us@ == concat(s, i as int, sc_safety_lat::<P>()),
            control_latencies_us@ == concat(s, i as int, sc_control_lat::<P>()),

            display_replaced == sat(0, total(s, i as int, sc_display_replaced::<P>())),
            display_dropped == sat(0, total(s, i as int, sc_display_dropped::<P>())),
            audio_dropped == sat(0, total(s, i as int, sc_audio_dropped::<P>())),
            audio_panic_drain == sat(0, total(s, i as int, sc_audio_panic_drain::<P>())),
            send_blocked_ms == sat(0, total(s, i as int, sc_send_blocked_ms::<P>())),
            safety_queue_depth_overflow == sat(0, total(s, i as int, sc_safety_queue_depth_overflow::<P>())),
            outbound_high_watermark_bytes as nat == largest(s, i as int, sc_outbound_high_watermark_bytes::<P>()),
            tcp_outq_high_watermark_bytes as nat == largest(s, i as int, sc_tcp_outq_high_watermark_bytes::<P>()),
            outbound_queued_bytes == sat(0, largest(s, i as int, q_bytes::<P>())),
        decreases s.len() - i,
    {
        let e = &mut clients.entries[i];
        let q = e.conn.outbound.queued_bytes();
        let delta = e.conn.outbound.stats.drain();
        append_all(&mut safety_latencies_us, &delta.safety_latencies_us);
        append_all(&mut control_latencies_us, &delta.control_latencies_us);

        proof {
            lemma_sat_sum(0, total(s, i as int, sc_display_replaced::<P>()), delta.display_replaced as nat);
        }
        display_replaced = display_replaced.saturating_add(delta.display_replaced);
        proof {
            lemma_sat_sum(0, total(s, i as int, sc_display_dropped::<P>()), delta.display_dropped as nat);
        }
        display_dropped = display_dropped.saturating_add(delta.display_dropped);
        proof {
            lemma_sat_sum(0, total(s, i as int, sc_audio_dropped::<P>()), delta.audio_dropped as nat);
        }
        audio_dropped = audio_dropped.saturating_add(delta.audio_dropped);
        proof {
            lemma_sat_sum(0, total(s, i as int, sc_audio_panic_drain::<P>()), delta.audio_panic_drain as nat);
        }
        audio_panic_drain = audio_panic_drain.saturating_add(delta.audio_panic_drain);
        proof {
            lemma_sat_sum(0, total(s, i as int, sc_send_blocked_ms::<P>()), delta.send_blocked_ms as nat);
        }
        send_blocked_ms = send_blocked_ms.saturating_add(delta.send_blocked_ms);
        proof {
            lemma_sat_sum(0, total(s, i as int, sc_safety_queue_depth_overflow::<P>()), delta.safety_queue_depth_overflow as nat);
        }
        safety_queue_depth_overflow = safety_queue_depth_overflow.saturating_add(delta.safety_queue_depth_overflow);
        if delta.outbound_high_watermark_bytes > outbound_high_watermark_bytes {
            outbound_high_watermark_bytes = delta.outbound_high_watermark_bytes;
        }
        if delta.tcp_outq_high_watermark_bytes > tcp_outq_high_watermark_bytes {
            tcp_outq_high_watermark_bytes = delta.tcp_outq_high_watermark_bytes;
        }
        if q > outbound_queued_bytes {
            outbound_queued_bytes = q;
        }
        i = i + 1;
    }
    proof {
        assert(crate::registry::ids_ascending(clients.entries@)) by {
            assert forall|x: int, y: int| 0 <= x < y < clients.entries@.len() implies clients.entries@[x].id < clients.entries@[y].id by {
                assert(clients.entries@[x].id == s[x].id);
                assert(clients.entries@[y].id == s[y].id);
            }
        }
        assert forall|j: int| 0 <= j < clients.entries@.len() implies (#[trigger] clients.entries@[j]).conn.outbound.queues.wf() by {
            assert(clients.entries@[j].conn.outbound.queues == s[j].conn.outbound.queues);
        }
    }
    StatsTotals {
        safety_latencies_us,
        control_latencies_us,

        display_replaced,
        display_dropped,
        audio_dropped,
        audio_panic_drain,
        send_blocked_ms,
        safety_queue_depth_overflow,
        outbound_high_watermark_bytes,
        tcp_outq_high_watermark_bytes,
        outbound_queued_bytes,
    }
}

/// What a snapshot reports of the clients `s` (before draining).
pub open spec fn snapshot_spec<P>(
    s: Seq<ClientEntry<P>>,
    now_ns: u64,
    drop_count: u64,
    rate_limited: u64,
    priority: bool,
    snap: TciClientSnapshot,
) -> bool {
    let n = s.len() as int;
    let safety = concat(s, n, sc_safety_lat::<P>());
    let control = concat(s, n, sc_control_lat::<P>());
    &&& snap.active == (s.len() > 0)
    &&& snap.iq_stream_enabled == any_iq(s)
    &&& snap.audio_stream_enabled == any_audio(s)
    &&& snap.outbound_drops == drop_count
    &&& snap.safety_enqueue_to_write_p50_us == percentile_of(safety, 50)
    &&& snap.safety_enqueue_to_write_p95_us == percentile_of(safety, 95)
    &&& snap.safety_enqueue_to_write_p99_us == percentile_of(safety, 99)
    &&& snap.control_enqueue_to_write_p50_us == percentile_of(control, 50)
    &&& snap.control_enqueue_to_write_p95_us == percentile_of(control, 95)
    &&& snap.control_enqueue_to_write_p99_us == percentile_of(control, 99)
    &&& snap.display_replaced_per_sec == cap(total(s, n, sc_display_replaced::<P>()))
    &&& snap.display_dropped_per_sec == cap(total(s, n, sc_display_dropped::<P>()))
    &&& snap.audio_dropped_per_sec == cap(total(s, n, sc_audio_dropped::<P>()))
    &&& snap.audio_panic_drain_count == cap(total(s, n, sc_audio_panic_drain::<P>()))
    &&& snap.send_blocked_ms == cap(total(s, n, sc_send_blocked_ms::<P>()))
    &&& snap.safety_queue_depth_overflow_count == cap(total(s, n, sc_safety_queue_depth_overflow::<P>()))
    &&& snap.outbound_high_watermark_bytes as nat == largest(s, n, sc_outbound_high_watermark_bytes::<P>())
    &&& snap.tcp_outq_high_watermark_bytes as nat == largest(s, n, sc_tcp_outq_high_watermark_bytes::<P>())
    &&& snap.outbound_queued_bytes == cap(largest(s, n, q_bytes::<P>()))
    &&& snap.display_rate_limited_per_sec == rate_limited
    &&& snap.split_control_clients as nat == lane_count(s, SplitSocketKind::Control)
    &&& snap.split_media_clients as nat == lane_count(s, SplitSocketKind::Media)
    &&& snap.split_paired_sessions as nat == paired_sessions(s, n)
    &&& snap.tx_media_priority_active == priority
    &&& snap.audio_seq_gap_count == cap(total(s, n, st_audio_seq_gap_count::<P>()))
    &&& snap.tx_mic_browser_dropped_count == cap(total(s, n, st_tx_mic_browser_dropped_count::<P>()))
    &&& snap.tx_mic_seq_gap_count == cap(total(s, n, st_tx_mic_seq_gap_count::<P>()))
    &&& snap.tx_codec_decode_error_count == cap(total(s, n, st_tx_codec_decode_error_count::<P>()))
    &&& snap.tx_codec_stale_drop_count == cap(total(s, n, st_tx_codec_stale_drop_count::<P>()))
    &&& snap.tx_codec_release_flush_count == cap(total(s, n, st_tx_codec_release_flush_count::<P>()))
    &&& snap.tx_uplink_buffered_bytes as nat == largest(s, n, st_tx_uplink_buffered_bytes::<P>())
    &&& snap.tx_uplink_buffered_high_watermark_bytes as nat == largest(s, n, st_tx_uplink_buffered_high_watermark_bytes::<P>())
    &&& snap.tx_mic_last_arrived_seq as nat == largest(s, n, st_last_seq::<P>())
    &&& snap.tx_mic_age_ms == cap(largest(s, n, st_mic_age::<P>(now_ns)))
    &&& snap.tx_uplink_degraded == (largest(s, n, st_degraded::<P>()) > 0)
}

impl<P: Clone> TciFrontend<P> {
    /// Drains every client's statistics into one snapshot (and the display
    /// rate-limit counter with it).
    pub fn client_snapshot(&mut self, now_ns: u64) -> (snap: TciClientSnapshot)
        requires
            old(self).wf(),
        ensures
            final(self).wf(),
            final(self).display_rate_limited_count == 0,
            final(self).clients.entries@.len() == old(self).clients.entries@.len(),
            final(self).clients.operator_client_id == old(self).clients.operator_client_id,
            forall|j: int| 0 <= j < old(self).clients.entries@.len() ==> {
                let o = #[trigger] old(self).clients.entries@[j];
                let n = final(self).clients.entries@[j];
                &&& n.id == o.id && n.conn.state == o.conn.state
                &&& n.conn.outbound.queues == o.conn.outbound.queues
                &&& drained(n.conn.outbound.stats)
            },
            snapshot_spec(old(self).clients.entries@, now_ns, old(self).drop_count, old(self).display_rate_limited_count, old(self).tx_media_priority_active, snap),
    {
        let st = state_totals(&self.clients, now_ns);
        let active = self.clients.entries.len() > 0;
        let iq = self.clients.is_iq_stream_enabled();
        let audio = self.clients.is_audio_stream_enabled();
        let control_clients = self.clients.split_lane_client_count(SplitSocketKind::Control);
        let media_clients = self.clients.split_lane_client_count(SplitSocketKind::Media);
        let paired = self.clients.split_paired_session_count();
        let mut t = drain_stats_totals(&mut self.clients);
        let rate_limited = self.display_rate_limited_count;
        self.display_rate_limited_count = 0;
        let s50 = percentile_us(&mut t.safety_latencies_us, 50);
        let s95 = percentile_us(&mut t.safety_latencies_us, 95);
        let s99 = percentile_us(&mut t.safety_latencies_us, 99);
        let c50 = percentile_us(&mut t.control_latencies_us, 50);
        let c95 = percentile_us(&mut t.control_latencies_us, 95);
        let c99 = percentile_us(&mut t.control_latencies_us, 99);
        proof {
            let sl = old(self).clients.entries@;
            assert(state_totals_spec(sl, now_ns, st));
            let safety = concat(sl, sl.len() as int, sc_safety_lat::<P>());
            lemma_leq_total();
            safety.lemma_sort_by_ensures(leq_u64());
            safety.sort_by(leq_u64()).lemma_sort_by_ensures(leq_u64());
            vstd::seq_lib::lemma_sorted_unique(safety.sort_by(leq_u64()), safety.sort_by(leq_u64()).sort_by(leq_u64()), leq_u64());
            vstd::seq_lib::to_multiset_len(safety);
            vstd::seq_lib::to_multiset_len(safety.sort_by(leq_u64()));
            let control = concat(sl, sl.len() as int, sc_control_lat::<P>());
            control.lemma_sort_by_ensures(leq_u64());
            control.sort_by(leq_u64()).lemma_sort_by_ensures(leq_u64());
            vstd::seq_lib::lemma_sorted_unique(control.sort_by(leq_u64()), control.sort_by(leq_u64()).sort_by(leq_u64()), leq_u64());
            vstd::seq_lib::to_multiset_len(control);
            vstd::seq_lib::to_multiset_len(control.sort_by(leq_u64()));
        }
        let snap = TciClientSnapshot {
            active,
            iq_stream_enabled: iq,
            audio_stream_enabled: audio,
            outbound_drops: self.drop_count,
            safety_enqueue_to_write_p50_us: s50,
            safety_enqueue_to_write_p95_us: s95,
            safety_enqueue_to_write_p99_us: s99,
            control_enqueue_to_write_p50_us: c50,
            control_enqueue_to_write_p95_us: c95,
            control_enqueue_to_write_p99_us: c99,
            display_replaced_per_sec: t.display_replaced,
            display_dropped_per_sec: t.display_dropped,
            audio_dropped_per_sec: t.audio_dropped,
            audio_seq_gap_count: st.audio_seq_gap_count,
            audio_panic_drain_count: t.audio_panic_drain,
            send_blocked_ms: t.send_blocked_ms,
            outbound_high_watermark_bytes: t.outbound_high_watermark_bytes,
            outbound_queued_bytes: t.outbound_queued_bytes,
            tcp_outq_high_watermark_bytes: t.tcp_outq_high_watermark_bytes,
            display_rate_limited_per_sec: rate_limited,
            safety_queue_depth_overflow_count: t.safety_queue_depth_overflow,
            split_control_clients: control_clients,
            split_media_clients: media_clients,
            split_paired_sessions: paired,
            tx_uplink_degraded: st.tx_uplink_degraded,
            tx_mic_browser_dropped_count: st.tx_mic_browser_dropped_count,
            tx_uplink_buffered_bytes: st.tx_uplink_buffered_bytes,
            tx_uplink_buffered_high_watermark_bytes: st.tx_uplink_buffered_high_watermark_bytes,
            tx_mic_last_arrived_seq: st.tx_mic_last_arrived_seq,
            tx_mic_seq_gap_count: st.tx_mic_seq_gap_count,
            tx_mic_age_ms: st.tx_mic_age_ms,
            tx_media_priority_active: self.tx_media_priority_active,
            tx_codec_decode_error_count: st.tx_codec_decode_error_count,
            tx_codec_stale_drop_count: st.tx_codec_stale_drop_count,
            tx_codec_release_flush_count: st.tx_codec_release_flush_count,
        };
        snap
    }
}

} // verus!
