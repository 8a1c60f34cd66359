//! Per-client outbound scheduler. Messages are queued by class: safety text
//! is never dropped by the scheduler and coalesces by key, control text
//! coalesces by key and is bounded in count and bytes, audio is bounded in
//! queued frames, and display frames keep only the newest. The writer takes
//! safety first, then control, then (when bulk traffic is allowed) audio and
//! display. The sample payload of a frame is opaque here (`P`).
use vstd::prelude::*;

use crate::protocol::{coalesce_key, tci_text_coalesce_key};
use crate::session::SplitSocketKind;

verus! {

pub const MAX_SAFETY_QUEUE_MESSAGES: usize = 16;
pub const MAX_CONTROL_QUEUE_MESSAGES: usize = 256;
pub const MAX_CONTROL_QUEUE_BYTES: usize = 262_144;
pub const BULK_TCP_OUTQ_LIMIT_BYTES: usize = 65_536;
pub const BULK_BACKPRESSURE_PAUSE_MS: u64 = 10;

#[derive(Clone, Copy, Debug, PartialEq, Eq, Structural)]
pub enum OutboundClass {
    Safety,
    Control,
    Audio,
    Display,
}

impl OutboundClass {
    /// Enqueue-to-write latency is recorded for safety and control messages.
    pub fn records_enqueue_to_write_latency(self) -> (b: bool)
        ensures
            b == (self == OutboundClass::Safety || self == OutboundClass::Control),
    {
        match self {
            OutboundClass::Safety | OutboundClass::Control => true,
            _ => false,
        }
    }

    /// Only safety messages are never dropped.
    pub fn is_never_drop(self) -> (b: bool)
        ensures
            b == (self == OutboundClass::Safety),
    {
        match self {
            OutboundClass::Safety => true,
            _ => false,
        }
    }
}

/// A message for one client; `samples` holds `sample_len` samples.
#[derive(Clone, Debug)]
pub enum OutboundMessage<P> {
    Text(String),
    SafetyText(String),
    Close,
    IqFrame { receiver: u32, sample_rate: u32, samples: P, sample_len: usize },
    TxIqFrame { receiver: u32, sample_rate: u32, samples: P, sample_len: usize },
    AudioFrame {
        receiver: u32,
        sample_rate: u32,
        channels: u32,
        samples: P,
        sample_len: usize,
        sequence: u32,
    },
}

pub open spec fn class_of<P>(m: OutboundMessage<P>) -> OutboundClass {
    match m {
        OutboundMessage::Close => OutboundClass::Safety,
        OutboundMessage::SafetyText(_) => OutboundClass::Safety,
        OutboundMessage::Text(_) => OutboundClass::Control,
        OutboundMessage::AudioFrame { .. } => OutboundClass::Audio,
        _ => OutboundClass::Display,
    }
}

/// Bytes of UTF-8 text, as `str::len` reports them.
pub open spec fn byte_len(s: Seq<char>) -> usize {
    vstd::utf8::encode_utf8(s).len() as usize
}

/// A frame's sample count leaves room for its byte estimate.
pub open spec fn msg_wf<P>(m: OutboundMessage<P>) -> bool {
    match m {
        OutboundMessage::IqFrame { sample_len, .. } => 64 + 4 * sample_len <= usize::MAX,
        OutboundMessage::TxIqFrame { sample_len, .. } => 64 + 4 * sample_len <= usize::MAX,
        OutboundMessage::AudioFrame { sample_len, .. } => 64 + 4 * sample_len <= usize::MAX,
        _ => true,
    }
}

/// Estimated wire bytes: the text length, or the 64-byte header plus four bytes per sample.
pub open spec fn est_bytes<P>(m: OutboundMessage<P>) -> nat {
    match m {
        OutboundMessage::Close => 0,
        OutboundMessage::Text(t) => byte_len(t@) as nat,
        OutboundMessage::SafetyText(t) => byte_len(t@) as nat,
        OutboundMessage::IqFrame { sample_len, .. } => (64 + 4 * sample_len) as nat,
        OutboundMessage::TxIqFrame { sample_len, .. } => (64 + 4 * sample_len) as nat,
        OutboundMessage::AudioFrame { sample_len, .. } => (64 + 4 * sample_len) as nat,
    }
}

/// Audio frames of a message: samples per channel, at least one channel.
pub open spec fn frames_in<P>(m: OutboundMessage<P>) -> nat {
    match m {
        OutboundMessage::AudioFrame { sample_len, channels, .. } => sample_len as nat / (if channels
            == 0 {
            1nat
        } else {
            channels as nat
        }),
        _ => 0,
    }
}

pub open spec fn sample_rate_of<P>(m: OutboundMessage<P>) -> u32 {
    match m {
        OutboundMessage::AudioFrame { sample_rate, .. } => sample_rate,
        _ => 0,
    }
}

pub open spec fn with_sequence<P>(m: OutboundMessage<P>, seq: u32) -> OutboundMessage<P> {
    match m {
        OutboundMessage::AudioFrame { receiver, sample_rate, channels, samples, sample_len, .. } =>
            OutboundMessage::AudioFrame {
            receiver,
            sample_rate,
            channels,
            samples,
            sample_len,
            sequence: seq,
        },
        _ => m,
    }
}

impl<P> OutboundMessage<P> {
    pub fn class(&self) -> (c: OutboundClass)
        ensures
            c == class_of(*self),
    {
        match self {
            OutboundMessage::Close => OutboundClass::Safety,
            OutboundMessage::SafetyText(_) => OutboundClass::Safety,
            OutboundMessage::Text(_) => OutboundClass::Control,
            OutboundMessage::AudioFrame { .. } => OutboundClass::Audio,
            OutboundMessage::IqFrame { .. } => OutboundClass::Display,
            OutboundMessage::TxIqFrame { .. } => OutboundClass::Display,
        }
    }

    pub fn estimated_bytes(&self) -> (n: usize)
        requires
            msg_wf(*self),
        ensures
            n as nat == est_bytes(*self),
    {
        match self {
            OutboundMessage::Close => 0,
            OutboundMessage::Text(t) => t.as_str().len(),
            OutboundMessage::SafetyText(t) => t.as_str().len(),
            OutboundMessage::IqFrame { sample_len, .. } => 64 + 4 * *sample_len,
            OutboundMessage::TxIqFrame { sample_len, .. } => 64 + 4 * *sample_len,
            OutboundMessage::AudioFrame { sample_len, .. } => 64 + 4 * *sample_len,
        }
    }

    pub fn audio_frame_count(&self) -> (n: usize)
        ensures
            n as nat == frames_in(*self),
    {
        match self {
            OutboundMessage::AudioFrame { sample_len, channels, .. } => {
                let c: usize = if *channels == 0 {
                    1
                } else {
                    *channels as usize
                };
                *sample_len / c
            },
            _ => 0,
        }
    }

    pub fn audio_sample_rate(&self) -> (r: u32)
        ensures
            r == sample_rate_of(*self),
    {
        match self {
            OutboundMessage::AudioFrame { sample_rate, .. } => *sample_rate,
            _ => 0,
        }
    }

    pub fn with_audio_sequence(self, sequence: u32) -> (m: Self)
        ensures
            m == with_sequence(self, sequence),
    {
        match self {
            OutboundMessage::AudioFrame { receiver, sample_rate, channels, samples, sample_len, .. } =>
                OutboundMessage::AudioFrame {
                receiver,
                sample_rate,
                channels,
                samples,
                sample_len,
                sequence,
            },
            other => other,
        }
    }
}

/// A queued message with what the scheduler reads of it.
pub struct QueuedOutbound<P> {
    pub message: OutboundMessage<P>,
    pub class: OutboundClass,
    pub enqueued_at_ns: u64,
    pub estimated_bytes: usize,
    pub audio_frames: usize,
}

pub open spec fn item_wf<P>(q: QueuedOutbound<P>) -> bool {
    &&& q.class == class_of(q.message)
    &&& q.estimated_bytes as nat == est_bytes(q.message)
    &&& q.audio_frames as nat == frames_in(q.message)
}

impl<P> QueuedOutbound<P> {
    pub fn new(message: OutboundMessage<P>, now_ns: u64) -> (q: Self)
        requires
            msg_wf(message),
        ensures
            q.message == message,
            q.enqueued_at_ns == now_ns,
            item_wf(q),
    {
        let class = message.class();
        let estimated_bytes = message.estimated_bytes();
        let audio_frames = message.audio_frame_count();
        QueuedOutbound { message, class, enqueued_at_ns: now_ns, estimated_bytes, audio_frames }
    }
}

/// Sum of estimated bytes of a queue.
pub open spec fn bytes_of<P>(q: Seq<QueuedOutbound<P>>) -> nat
    decreases q.len(),
{
    if q.len() == 0 {
        0
    } else {
        bytes_of(q.drop_last()) + q.last().estimated_bytes as nat
    }
}

/// Sum of audio frames of a queue.
pub open spec fn frames_of<P>(q: Seq<QueuedOutbound<P>>) -> nat
    decreases q.len(),
{
    if q.len() == 0 {
        0
    } else {
        frames_of(q.drop_last()) + q.last().audio_frames as nat
    }
}

pub proof fn lemma_sums_push<P>(q: Seq<QueuedOutbound<P>>, x: QueuedOutbound<P>)
    ensures
        bytes_of(q.push(x)) == bytes_of(q) + x.estimated_bytes,
        frames_of(q.push(x)) == frames_of(q) + x.audio_frames,
{
    assert(q.push(x).drop_last() =~= q);
}

pub proof fn lemma_sums_front<P>(q: Seq<QueuedOutbound<P>>)
    requires
        q.len() > 0,
    ensures
        bytes_of(q) == q[0].estimated_bytes + bytes_of(q.subrange(1, q.len() as int)),
        frames_of(q) == q[0].audio_frames + frames_of(q.subrange(1, q.len() as int)),
    decreases q.len(),
{
    if q.len() > 1 {
        let d = q.drop_last();
        lemma_sums_front(d);
        assert(d.subrange(1, d.len() as int) =~= q.subrange(1, q.len() as int).drop_last());
    } else {
        assert(q.drop_last() =~= Seq::<QueuedOutbound<P>>::empty());
        assert(q.subrange(1, q.len() as int) =~= Seq::<QueuedOutbound<P>>::empty());
    }
}

pub proof fn lemma_sums_elem<P>(q: Seq<QueuedOutbound<P>>, i: int)
    requires
        0 <= i < q.len(),
    ensures
        bytes_of(q) >= q[i].estimated_bytes,
        frames_of(q) >= q[i].audio_frames,
    decreases q.len(),
{
    if i < q.len() - 1 {
        lemma_sums_elem(q.drop_last(), i);
    }
}

pub proof fn lemma_sums_prepend<P>(x: QueuedOutbound<P>, q: Seq<QueuedOutbound<P>>)
    ensures
        bytes_of(seq![x] + q) == x.estimated_bytes + bytes_of(q),
        frames_of(seq![x] + q) == x.audio_frames + frames_of(q),
{
    let s = seq![x] + q;
    lemma_sums_front(s);
    assert(s.subrange(1, s.len() as int) =~= q);
}

pub proof fn lemma_sums_update<P>(q: Seq<QueuedOutbound<P>>, i: int, x: QueuedOutbound<P>)
    requires
        0 <= i < q.len(),
    ensures
        bytes_of(q.update(i, x)) + q[i].estimated_bytes == bytes_of(q) + x.estimated_bytes,
        frames_of(q.update(i, x)) + q[i].audio_frames == frames_of(q) + x.audio_frames,
    decreases q.len(),
{
    if i == q.len() - 1 {
        assert(q.update(i, x).drop_last() =~= q.drop_last());
    } else {
        lemma_sums_update(q.drop_last(), i, x);
        assert(q.update(i, x).drop_last() =~= q.drop_last().update(i, x));
    }
}

/// Coalescing key of a safety message: `close` for Close, the text key otherwise.
pub open spec fn safety_key<P>(m: OutboundMessage<P>) -> Option<Seq<char>> {
    match m {
        OutboundMessage::Close => Some("close"@),
        OutboundMessage::SafetyText(t) => coalesce_key(t@),
        _ => None,
    }
}

/// Coalescing key of a control message.
pub open spec fn control_key<P>(m: OutboundMessage<P>) -> Option<Seq<char>> {
    match m {
        OutboundMessage::Text(t) => coalesce_key(t@),
        _ => None,
    }
}

pub open spec fn key_of<P>(m: OutboundMessage<P>, safety: bool) -> Option<Seq<char>> {
    if safety {
        safety_key(m)
    } else {
        control_key(m)
    }
}

/// Index of the first queued message whose key is `k`.
pub open spec fn first_with_key<P>(q: Seq<QueuedOutbound<P>>, k: Seq<char>, safety: bool) -> Option<int>
    decreases q.len(),
{
    if q.len() == 0 {
        None
    } else if key_of(q[0].message, safety) == Some(k) {
        Some(0)
    } else {
        match first_with_key(q.drop_first(), k, safety) {
            Some(i) => Some(i + 1),
            None => None,
        }
    }
}

pub proof fn lemma_first_with_key<P>(q: Seq<QueuedOutbound<P>>, k: Seq<char>, safety: bool)
    ensures
        first_with_key(q, k, safety) is None <==> (forall|j: int|
            0 <= j < q.len() ==> key_of(#[trigger] q[j].message, safety) != Some(k)),
        first_with_key(q, k, safety) matches Some(i) ==> 0 <= i < q.len() && key_of(
            q[i].message,
            safety,
        ) == Some(k) && (forall|j: int| 0 <= j < i ==> key_of(#[trigger] q[j].message, safety) != Some(k)),
    decreases q.len(),
{
    if q.len() > 0 {
        let d = q.drop_first();
        lemma_first_with_key(d, k, safety);
        assert forall|j: int| 0 < j < q.len() implies q[j] == d[j - 1] by {}
        if key_of(q[0].message, safety) != Some(k) {
            if forall|j: int| 0 <= j < q.len() ==> key_of(#[trigger] q[j].message, safety) != Some(k) {
                assert forall|j: int| 0 <= j < d.len() implies key_of(#[trigger] d[j].message, safety) != Some(k) by {
                    assert(d[j] == q[j + 1]);
                }
            }
        }
    }
}

proof fn lemma_first_with_key_at<P>(q: Seq<QueuedOutbound<P>>, k: Seq<char>, safety: bool, i: int)
    requires
        0 <= i < q.len(),
        key_of(q[i].message, safety) == Some(k),
        forall|j: int| 0 <= j < i ==> key_of(#[trigger] q[j].message, safety) != Some(k),
    ensures
        first_with_key(q, k, safety) == Some(i),
{
    lemma_first_with_key(q, k, safety);
    match first_with_key(q, k, safety) {
        Some(m) => {
            if m < i {
                assert(key_of(q[m].message, safety) != Some(k));
            } else if m > i {
                assert(key_of(q[i].message, safety) != Some(k));
            }
        },
        None => {
            assert(key_of(q[i].message, safety) != Some(k));
        },
    }
}

/// The new item replaces a queued safety item with its key.
pub open spec fn safety_replaces<P>(q: Seq<QueuedOutbound<P>>, item: QueuedOutbound<P>) -> bool {
    safety_key(item.message) matches Some(k) && first_with_key(q, k, true) is Some
}

/// The safety queue after a new item: it replaces the first item with its
/// key, or joins the back with the oldest item dropped when 16 are queued.
pub open spec fn safety_after<P>(q: Seq<QueuedOutbound<P>>, item: QueuedOutbound<P>) -> Seq<QueuedOutbound<P>> {
    let pushed = if q.len() >= MAX_SAFETY_QUEUE_MESSAGES {
        q.subrange(1, q.len() as int).push(item)
    } else {
        q.push(item)
    };
    match safety_key(item.message) {
        Some(k) => match first_with_key(q, k, true) {
            Some(i) => q.update(i, item),
            None => pushed,
        },
        None => pushed,
    }
}

/// Control items dropped from the front while the control queue holds more
/// than 256 items or all queues together more than 256 KiB (`bytes`).
pub open spec fn control_trim<P>(q: Seq<QueuedOutbound<P>>, bytes: nat) -> (Seq<QueuedOutbound<P>>, nat)
    decreases q.len(),
{
    if q.len() > 0 && (q.len() > MAX_CONTROL_QUEUE_MESSAGES || bytes > MAX_CONTROL_QUEUE_BYTES) {
        let (r, d) = control_trim(q.subrange(1, q.len() as int), (bytes - q[0].estimated_bytes) as nat);
        (r, d + 1)
    } else {
        (q, 0)
    }
}

/// Audio items dropped from the front while the queued frames plus the new
/// item's frames exceed the limit.
pub open spec fn audio_trim<P>(q: Seq<QueuedOutbound<P>>, add: nat, max: nat) -> (Seq<QueuedOutbound<P>>, nat)
    decreases q.len(),
{
    if q.len() > 0 && frames_of(q) + add > max {
        let (r, d) = audio_trim(q.subrange(1, q.len() as int), add, max);
        (r, d + 1)
    } else {
        (q, 0)
    }
}

/// Queued audio frames allowed: a quarter second at the frame's rate (8 kHz at least).
pub open spec fn max_audio_frames(sample_rate_hz: u32) -> nat {
    (if sample_rate_hz < 8000 { 8000nat } else { sample_rate_hz as nat }) / 4
}

pub fn max_audio_queued_frames(sample_rate_hz: u32) -> (n: usize)
    ensures
        n as nat == max_audio_frames(sample_rate_hz),
{
    let rate: usize = if sample_rate_hz < 8000 {
        8000
    } else {
        sample_rate_hz as usize
    };
    rate / 4
}

/// Counters of one client's scheduler since they were last drained.
pub struct ClientSchedulerStats {
    pub safety_latencies_us: Vec<u64>,
    pub control_latencies_us: Vec<u64>,
    pub display_replaced: u64,
    pub display_dropped: u64,
    pub control_replaced: u64,
    pub control_dropped: u64,
    pub audio_dropped: u64,
    pub audio_panic_drain: u64,
    pub send_blocked_ms: u64,
    pub outbound_high_watermark_bytes: u64,
    pub tcp_outq_high_watermark_bytes: u64,
    pub safety_queue_depth_overflow: u64,
    pub control_queue_high_watermark: u64,
}

pub open spec fn sat(a: u64, b: nat) -> u64 {
    if a + b > u64::MAX {
        u64::MAX
    } else {
        (a + b) as u64
    }
}

pub proof fn lemma_sat_sum(a: u64, x: nat, y: nat)
    ensures
        sat(sat(a, x), y) == sat(a, x + y),
{
}

pub open spec fn max_u64(a: u64, b: nat) -> u64 {
    if b > a {
        if b > u64::MAX { u64::MAX } else { b as u64 }
    } else {
        a
    }
}

impl ClientSchedulerStats {
    pub fn new() -> (s: Self)
        ensures
            s.safety_latencies_us@.len() == 0,
            s.control_latencies_us@.len() == 0,
            s.display_replaced == 0 && s.display_dropped == 0 && s.control_replaced == 0,
            s.control_dropped == 0 && s.audio_dropped == 0 && s.audio_panic_drain == 0,
            s.send_blocked_ms == 0 && s.outbound_high_watermark_bytes == 0,
            s.tcp_outq_high_watermark_bytes == 0 && s.safety_queue_depth_overflow == 0,
            s.control_queue_high_watermark == 0,
    {
        ClientSchedulerStats {
            safety_latencies_us: Vec::new(),
            control_latencies_us: Vec::new(),
            display_replaced: 0,
            display_dropped: 0,
            control_replaced: 0,
            control_dropped: 0,
            audio_dropped: 0,
            audio_panic_drain: 0,
            send_blocked_ms: 0,
            outbound_high_watermark_bytes: 0,
            tcp_outq_high_watermark_bytes: 0,
            safety_queue_depth_overflow: 0,
            control_queue_high_watermark: 0,
        }
    }

    /// Records a write's enqueue-to-write latency for safety and control messages.
    pub fn record_write(&mut self, class: OutboundClass, latency_us: u64)
        ensures
            final(self).safety_latencies_us@ == (if class == OutboundClass::Safety {
                old(self).safety_latencies_us@.push(latency_us)
            } else {
                old(self).safety_latencies_us@
            }),
            final(self).control_latencies_us@ == (if class == OutboundClass::Control {
                old(self).control_latencies_us@.push(latency_us)
            } else {
                old(self).control_latencies_us@
            }),
            final(self).display_replaced == old(self).display_replaced,
            final(self).control_dropped == old(self).control_dropped,
            final(self).audio_dropped == old(self).audio_dropped,
    {
        if !class.records_enqueue_to_write_latency() {
            return;
        }
        match class {
            OutboundClass::Safety => self.safety_latencies_us.push(latency_us),
            OutboundClass::Control => self.control_latencies_us.push(latency_us),
            _ => {},
        }
    }

    pub fn record_display_replaced(&mut self)
        ensures
            *final(self) == (ClientSchedulerStats { display_replaced: sat(old(self).display_replaced, 1), ..*old(self) }),
    {
        self.display_replaced = self.display_replaced.saturating_add(1);
    }

    pub fn record_display_dropped(&mut self)
        ensures
            *final(self) == (ClientSchedulerStats { display_dropped: sat(old(self).display_dropped, 1), ..*old(self) }),
    {
        self.display_dropped = self.display_dropped.saturating_add(1);
    }

    pub fn record_control_replaced(&mut self)
        ensures
            *final(self) == (ClientSchedulerStats { control_replaced: sat(old(self).control_replaced, 1), ..*old(self) }),
    {
        self.control_replaced = self.control_replaced.saturating_add(1);
    }

    pub fn record_control_dropped(&mut self)
        ensures
            *final(self) == (ClientSchedulerStats { control_dropped: sat(old(self).control_dropped, 1), ..*old(self) }),
    {
        self.control_dropped = self.control_dropped.saturating_add(1);
    }

    pub fn record_audio_dropped(&mut self, count: u64)
        ensures
            *final(self) == (ClientSchedulerStats { audio_dropped: sat(old(self).audio_dropped, count as nat), ..*old(self) }),
    {
        self.audio_dropped = self.audio_dropped.saturating_add(count);
    }

    pub fn record_audio_panic_drain(&mut self)
        ensures
            *final(self) == (ClientSchedulerStats { audio_panic_drain: sat(old(self).audio_panic_drain, 1), ..*old(self) }),
    {
        self.audio_panic_drain = self.audio_panic_drain.saturating_add(1);
    }

    /// A blocked send counts at least one millisecond.
    pub fn record_send_blocked(&mut self, duration_ms: u64)
        ensures
            *final(self) == (ClientSchedulerStats {
                send_blocked_ms: sat(
                    old(self).send_blocked_ms,
                    if duration_ms == 0 { 1 } else { duration_ms as nat },
                ),
                ..*old(self)
            }),
    {
        let ms = if duration_ms == 0 {
            1
        } else {
            duration_ms
        };
        self.send_blocked_ms = self.send_blocked_ms.saturating_add(ms);
    }

    pub fn record_high_watermark(&mut self, bytes: usize)
        ensures
            *final(self) == (ClientSchedulerStats {
                outbound_high_watermark_bytes: max_u64(old(self).outbound_high_watermark_bytes, bytes as nat),
                ..*old(self)
            }),
    {
        let b = bytes as u64;
        if b > self.outbound_high_watermark_bytes {
            self.outbound_high_watermark_bytes = b;
        }
    }

    pub fn record_tcp_outq_high_watermark(&mut self, bytes: usize)
        ensures
            *final(self) == (ClientSchedulerStats {
                tcp_outq_high_watermark_bytes: max_u64(old(self).tcp_outq_high_watermark_bytes, bytes as nat),
                ..*old(self)
            }),
    {
        let b = bytes as u64;
        if b > self.tcp_outq_high_watermark_bytes {
            self.tcp_outq_high_watermark_bytes = b;
        }
    }

    pub fn record_safety_queue_depth_overflow(&mut self)
        ensures
            *final(self) == (ClientSchedulerStats { safety_queue_depth_overflow: sat(old(self).safety_queue_depth_overflow, 1), ..*old(self) }),
    {
        self.safety_queue_depth_overflow = self.safety_queue_depth_overflow.saturating_add(1);
    }

    pub fn record_control_queue_high_watermark(&mut self, depth: usize)
        ensures
            *final(self) == (ClientSchedulerStats {
                control_queue_high_watermark: max_u64(old(self).control_queue_high_watermark, depth as nat),
                ..*old(self)
            }),
    {
        let d = depth as u64;
        if d > self.control_queue_high_watermark {
            self.control_queue_high_watermark = d;
        }
    }

    /// Hands out the counters and resets them.
    pub fn drain(&mut self) -> (delta: ClientSchedulerStats)
        ensures
            delta == *old(self),
            final(self).safety_latencies_us@.len() == 0,
            final(self).control_latencies_us@.len() == 0,
            final(self).display_replaced == 0 && final(self).display_dropped == 0,
            final(self).control_replaced == 0 && final(self).control_dropped == 0,
            final(self).audio_dropped == 0 && final(self).audio_panic_drain == 0,
            final(self).send_blocked_ms == 0 && final(self).outbound_high_watermark_bytes == 0,
            final(self).tcp_outq_high_watermark_bytes == 0,
            final(self).safety_queue_depth_overflow == 0,
            final(self).control_queue_high_watermark == 0,
    {
        let mut fresh = ClientSchedulerStats::new();
        std::mem::swap(self, &mut fresh);
        fresh
    }
}

/// The four queues of one client.
pub struct OutboundQueues<P> {
    pub safety: std::collections::VecDeque<QueuedOutbound<P>>,
    pub control: std::collections::VecDeque<QueuedOutbound<P>>,
    pub audio: std::collections::VecDeque<QueuedOutbound<P>>,
    pub display: Option<QueuedOutbound<P>>,
    pub queued_bytes: usize,
    pub audio_queued_frames: usize,
    pub audio_sequence: u32,
    pub writer_started: bool,
}

pub open spec fn opt_bytes<P>(d: Option<QueuedOutbound<P>>) -> nat {
    match d {
        Some(x) => x.estimated_bytes as nat,
        None => 0,
    }
}

/// Every item of `q` is well formed and of class `c`.
pub open spec fn queue_of_class<P>(q: Seq<QueuedOutbound<P>>, c: OutboundClass) -> bool {
    forall|i: int| 0 <= i < q.len() ==> item_wf(#[trigger] q[i]) && q[i].class == c
}

impl<P> OutboundQueues<P> {
    pub open spec fn total_bytes(&self) -> nat {
        bytes_of(self.safety@) + bytes_of(self.control@) + bytes_of(self.audio@) + opt_bytes(
            self.display,
        )
    }

    /// The byte and frame counters equal the sums over the queued items, and
    /// each queue holds only its class.
    pub open spec fn wf(&self) -> bool {
        &&& self.queued_bytes as nat == self.total_bytes()
        &&& self.audio_queued_frames as nat == frames_of(self.audio@)
        &&& queue_of_class(self.safety@, OutboundClass::Safety)
        &&& queue_of_class(self.control@, OutboundClass::Control)
        &&& queue_of_class(self.audio@, OutboundClass::Audio)
        &&& (self.display matches Some(d) ==> item_wf(d) && d.class == OutboundClass::Display)
    }
}

/// One client's outbound queues and their counters.
pub struct ClientOutbound<P> {
    pub queues: OutboundQueues<P>,
    pub stats: ClientSchedulerStats,
}

/// The next audio sequence number: never zero, wrapping after `u32::MAX`.
pub open spec fn next_sequence(s: u32) -> u32 {
    if s == u32::MAX || s + 1 == 0 {
        1
    } else {
        (s + 1) as u32
    }
}

/// The coalescing key of a safety message.
pub fn safety_coalesce_key<P>(message: &OutboundMessage<P>) -> (r: Option<String>)
    ensures
        r matches Some(k) ==> safety_key(*message) == Some(k@),
        r is None ==> safety_key(*message) is None,
{
    match message {
        OutboundMessage::Close => Some(String::from_str("close")),
        OutboundMessage::SafetyText(t) => tci_text_coalesce_key(t.as_str()),
        _ => None,
    }
}

/// The coalescing key of a control message.
pub fn control_coalesce_key<P>(message: &OutboundMessage<P>) -> (r: Option<String>)
    ensures
        r matches Some(k) ==> control_key(*message) == Some(k@),
        r is None ==> control_key(*message) is None,
{
    match message {
        OutboundMessage::Text(t) => tci_text_coalesce_key(t.as_str()),
        _ => None,
    }
}

fn key_of_exec<P>(message: &OutboundMessage<P>, safety: bool) -> (r: Option<String>)
    ensures
        r matches Some(k) ==> key_of(*message, safety) == Some(k@),
        r is None ==> key_of(*message, safety) is None,
{
    if safety {
        safety_coalesce_key(message)
    } else {
        control_coalesce_key(message)
    }
}

fn find_first_with_key<P>(q: &std::collections::VecDeque<QueuedOutbound<P>>, k: &String, safety: bool) -> (r: Option<usize>)
    ensures
        r matches Some(i) ==> first_with_key(q@, k@, safety) == Some(i as int),
        r is None ==> first_with_key(q@, k@, safety) is None,
{
    let mut i: usize = 0;
    while i < q.len()
        invariant
            i <= q@.len(),
            forall|j: int| 0 <= j < i ==> key_of(#[trigger] q@[j].message, safety) != Some(k@),
        decreases q@.len() - i,
    {
        let key = key_of_exec(&q[i].message, safety);
        let hit = match &key {
            Some(qk) => *qk == *k,
            None => false,
        };
        if hit {
            proof {
                lemma_first_with_key_at(q@, k@, safety, i as int);
            }
            return Some(i);
        }
        i = i + 1;
    }
    proof {
        lemma_first_with_key(q@, k@, safety);
    }
    None
}

/// The message as queued: an audio frame takes the next sequence number.
pub open spec fn sequenced<P>(m: OutboundMessage<P>, seq: u32) -> OutboundMessage<P> {
    if class_of(m) == OutboundClass::Audio {
        with_sequence(m, next_sequence(seq))
    } else {
        m
    }
}

pub proof fn lemma_with_sequence_keeps<P>(m: OutboundMessage<P>, seq: u32)
    ensures
        class_of(with_sequence(m, seq)) == class_of(m),
        est_bytes(with_sequence(m, seq)) == est_bytes(m),
        frames_in(with_sequence(m, seq)) == frames_in(m),
        sample_rate_of(with_sequence(m, seq)) == sample_rate_of(m),
        msg_wf(with_sequence(m, seq)) == msg_wf(m),
{
}

/// What an enqueue does to the queues: the class's queue takes the item
/// (coalescing, trimming or replacing as its class rules), the others keep
/// theirs, and `dropped` counts what left.
pub open spec fn enqueue_post<P>(
    old_q: OutboundQueues<P>,
    new_q: OutboundQueues<P>,
    message: OutboundMessage<P>,
    now_ns: u64,
    dropped: u64,
) -> bool {
    let item = queued_item(message, old_q.audio_sequence, now_ns);
    let c = class_of(message);
    &&& c == OutboundClass::Safety ==> {
        &&& new_q.safety@ == safety_after(old_q.safety@, item)
        &&& dropped == (if !safety_replaces(old_q.safety@, item)
            && old_q.safety@.len() >= MAX_SAFETY_QUEUE_MESSAGES {
            1u64
        } else {
            0u64
        })
    }
    &&& c == OutboundClass::Control ==> {
        let (q, d) = control_after(old_q.control@, item, old_q.total_bytes());
        &&& new_q.control@ == q
        &&& dropped as nat == d
    }
    &&& c == OutboundClass::Audio ==> {
        let (q, d) = audio_after(old_q.audio@, old_q.audio_queued_frames as nat, item);
        &&& new_q.audio@ == q
        &&& dropped as nat == d
    }
    &&& c == OutboundClass::Display ==> {
        &&& new_q.display == Some(item)
        &&& dropped == (if old_q.display is Some { 1u64 } else { 0u64 })
    }
    &&& c != OutboundClass::Safety ==> new_q.safety@ == old_q.safety@
    &&& c != OutboundClass::Control ==> new_q.control@ == old_q.control@
    &&& c != OutboundClass::Audio ==> new_q.audio@ == old_q.audio@
    &&& c != OutboundClass::Display ==> new_q.display == old_q.display
    &&& new_q.audio_sequence == (if c == OutboundClass::Audio {
        next_sequence(old_q.audio_sequence)
    } else {
        old_q.audio_sequence
    })
}

/// The queue counters can take `message`: its byte estimate fits, and the
/// byte and frame totals stay within `usize`.
pub open spec fn within_limits<P>(q: OutboundQueues<P>, message: OutboundMessage<P>) -> bool {
    &&& msg_wf(message)
    &&& q.total_bytes() + est_bytes(message) <= usize::MAX
    &&& q.audio_queued_frames + frames_in(message) <= usize::MAX
}

impl<P> ClientOutbound<P> {
    pub fn new() -> (c: Self)
        ensures
            c.queues.wf(),
            c.queues.safety@.len() == 0 && c.queues.control@.len() == 0,
            c.queues.audio@.len() == 0 && c.queues.display is None,
            c.queues.queued_bytes == 0 && c.queues.audio_sequence == 0,
            !c.queues.writer_started,
            queue_lengths_bounded(c.queues),
    {
        ClientOutbound {
            queues: OutboundQueues {
                safety: std::collections::VecDeque::new(),
                control: std::collections::VecDeque::new(),
                audio: std::collections::VecDeque::new(),
                display: None,
                queued_bytes: 0,
                audio_queued_frames: 0,
                audio_sequence: 0,
                writer_started: false,
            },
            stats: ClientSchedulerStats::new(),
        }
    }

    pub fn mark_writer_started(&mut self)
        ensures
            final(self).queues.writer_started,
            final(self).queues.safety@ == old(self).queues.safety@,
            final(self).queues.control@ == old(self).queues.control@,
            final(self).queues.audio@ == old(self).queues.audio@,
            final(self).queues.display == old(self).queues.display,
            final(self).queues.queued_bytes == old(self).queues.queued_bytes,
            final(self).queues.audio_queued_frames == old(self).queues.audio_queued_frames,
            final(self).queues.audio_sequence == old(self).queues.audio_sequence,
            final(self).stats == old(self).stats,
    {
        self.queues.writer_started = true;
    }

    fn enqueue_safety(&mut self, item: QueuedOutbound<P>) -> (dropped: u64)
        requires
            old(self).queues.wf(),
            item_wf(item),
            item.class == OutboundClass::Safety,
            old(self).queues.total_bytes() + item.estimated_bytes <= usize::MAX,
        ensures
            final(self).queues.wf(),
            final(self).queues.safety@ == safety_after(old(self).queues.safety@, item),
            final(self).queues.control@ == old(self).queues.control@,
            final(self).queues.audio@ == old(self).queues.audio@,
            final(self).queues.display == old(self).queues.display,
            final(self).queues.audio_sequence == old(self).queues.audio_sequence,
            final(self).queues.writer_started == old(self).queues.writer_started,
            dropped == (if !safety_replaces(old(self).queues.safety@, item)
                && old(self).queues.safety@.len() >= MAX_SAFETY_QUEUE_MESSAGES {
                1u64
            } else {
                0u64
            }),
            final(self).stats.outbound_high_watermark_bytes == max_u64(
                old(self).stats.outbound_high_watermark_bytes,
                final(self).queues.queued_bytes as nat,
            ),
            final(self).stats.control_replaced == old(self).stats.control_replaced,
            final(self).stats.control_dropped == old(self).stats.control_dropped,
            final(self).stats.audio_dropped == old(self).stats.audio_dropped,
            enqueue_quiet_kept(old(self).stats, final(self).stats),
            final(self).stats.display_replaced == old(self).stats.display_replaced,
            final(self).stats.audio_panic_drain == old(self).stats.audio_panic_drain,
            final(self).stats.control_queue_high_watermark == old(self).stats.control_queue_high_watermark,
            ({
                let appended = !safety_replaces(old(self).queues.safety@, item);
                let ov = if appended && old(self).queues.safety@.len() >= MAX_SAFETY_QUEUE_MESSAGES {
                    sat(old(self).stats.safety_queue_depth_overflow, 1)
                } else {
                    old(self).stats.safety_queue_depth_overflow
                };
                final(self).stats.safety_queue_depth_overflow == (if appended
                    && old(self).queues.writer_started && final(self).queues.safety@.len() > 1 {
                    sat(ov, 1)
                } else {
                    ov
                })
            }),
    {
        let ghost old_q = self.queues.safety@;
        let key = safety_coalesce_key(&item.message);
        if let Some(k) = &key {
            if let Some(position) = find_first_with_key(&self.queues.safety, k, true) {
                proof {
                    lemma_first_with_key(old_q, k@, true);
                    lemma_sums_update(old_q, position as int, item);
                    lemma_sums_elem(old_q, position as int);
                }
                let old_item = self.queues.safety.remove(position).unwrap();
                let new_bytes = item.estimated_bytes;
                self.queues.safety.insert(position, item);
                proof {
                    assert(self.queues.safety@ =~= old_q.update(position as int, item));
                }
                self.queues.queued_bytes = self.queues.queued_bytes - old_item.estimated_bytes
                    + new_bytes;
                self.stats.record_high_watermark(self.queues.queued_bytes);
                return 0;
            }
        }
        let mut dropped: u64 = 0;
        if self.queues.safety.len() >= MAX_SAFETY_QUEUE_MESSAGES {
            proof {
                lemma_sums_front(old_q);
            }
            let old_item = self.queues.safety.pop_front().unwrap();
            self.queues.queued_bytes = self.queues.queued_bytes - old_item.estimated_bytes;
            dropped = 1;
            self.stats.record_safety_queue_depth_overflow();
        }
        let ghost mid = self.queues.safety@;
        proof {
            lemma_sums_push(mid, item);
        }
        self.queues.queued_bytes = self.queues.queued_bytes + item.estimated_bytes;
        self.queues.safety.push_back(item);
        if self.queues.writer_started && self.queues.safety.len() > 1 {
            self.stats.record_safety_queue_depth_overflow();
        }
        self.stats.record_high_watermark(self.queues.queued_bytes);
        dropped
    }

    fn enqueue_control(&mut self, item: QueuedOutbound<P>) -> (dropped: u64)
        requires
            old(self).queues.wf(),
            item_wf(item),
            item.class == OutboundClass::Control,
            old(self).queues.total_bytes() + item.estimated_bytes <= usize::MAX,
        ensures
            final(self).queues.wf(),
            control_replaces(old(self).queues.control@, item) ==> {
                let i = first_with_key(old(self).queues.control@, control_key(item.message)->0, false)->0;
                &&& final(self).queues.control@ == old(self).queues.control@.update(i, item)
                &&& dropped == 1
                &&& final(self).stats.control_replaced == sat(old(self).stats.control_replaced, 1)
                &&& final(self).stats.control_dropped == old(self).stats.control_dropped
                &&& final(self).stats.control_queue_high_watermark == old(self).stats.control_queue_high_watermark
            },
            !control_replaces(old(self).queues.control@, item) ==> {
                let (q, d) = control_trim(
                    old(self).queues.control@.push(item),
                    old(self).queues.total_bytes() + item.estimated_bytes as nat,
                );
                &&& final(self).queues.control@ == q
                &&& dropped == d
                &&& final(self).stats.control_replaced == old(self).stats.control_replaced
                &&& final(self).stats.control_dropped == sat(old(self).stats.control_dropped, d)
                &&& final(self).stats.control_queue_high_watermark == max_u64(
                    old(self).stats.control_queue_high_watermark,
                    q.len(),
                )
            },
            final(self).queues.safety@ == old(self).queues.safety@,
            final(self).queues.audio@ == old(self).queues.audio@,
            final(self).queues.display == old(self).queues.display,
            final(self).queues.audio_sequence == old(self).queues.audio_sequence,
            final(self).queues.writer_started == old(self).queues.writer_started,
            final(self).stats.outbound_high_watermark_bytes == max_u64(
                old(self).stats.outbound_high_watermark_bytes,
                final(self).queues.queued_bytes as nat,
            ),
            final(self).stats.audio_dropped == old(self).stats.audio_dropped,
            final(self).stats.safety_queue_depth_overflow == old(self).stats.safety_queue_depth_overflow,
            enqueue_quiet_kept(old(self).stats, final(self).stats),
            final(self).stats.display_replaced == old(self).stats.display_replaced,
            final(self).stats.audio_panic_drain == old(self).stats.audio_panic_drain,
    {
        let ghost old_q = self.queues.control@;
        let key = control_coalesce_key(&item.message);
        if let Some(k) = &key {
            if let Some(position) = find_first_with_key(&self.queues.control, k, false) {
                proof {
                    lemma_first_with_key(old_q, k@, false);
                    lemma_sums_update(old_q, position as int, item);
                    lemma_sums_elem(old_q, position as int);
                }
                let old_item = self.queues.control.remove(position).unwrap();
                let new_bytes = item.estimated_bytes;
                self.queues.control.insert(position, item);
                proof {
                    assert(self.queues.control@ =~= old_q.update(position as int, item));
                }
                self.queues.queued_bytes = self.queues.queued_bytes - old_item.estimated_bytes
                    + new_bytes;
                self.stats.record_control_replaced();
                self.stats.record_high_watermark(self.queues.queued_bytes);
                return 1;
            }
        }
        proof {
            lemma_sums_push(old_q, item);
        }
        self.queues.queued_bytes = self.queues.queued_bytes + item.estimated_bytes;
        self.queues.control.push_back(item);
        let mut dropped: u64 = 0;
        let ghost pushed = self.queues.control@;
        let plen = self.queues.control.len();
        let ghost total = self.queues.queued_bytes as nat;
        while self.queues.control.len() > MAX_CONTROL_QUEUE_MESSAGES || self.queues.queued_bytes
            > MAX_CONTROL_QUEUE_BYTES
            invariant_except_break
                self.queues.wf(),
                self.queues.safety@ == old(self).queues.safety@,
                self.queues.audio@ == old(self).queues.audio@,
                self.queues.display == old(self).queues.display,
                self.queues.audio_sequence == old(self).queues.audio_sequence,
                self.queues.writer_started == old(self).queues.writer_started,
                control_trim(pushed, total) == ({
                    let (r, d) = control_trim(self.queues.control@, self.queues.queued_bytes as nat);
                    (r, (d + dropped) as nat)
                }),
                dropped as nat + self.queues.control@.len() == pushed.len(),
                pushed.len() == plen,
                self.stats.control_dropped == sat(old(self).stats.control_dropped, dropped as nat),
                self.stats.control_replaced == old(self).stats.control_replaced,
                self.stats.audio_dropped == old(self).stats.audio_dropped,
                self.stats.safety_queue_depth_overflow == old(self).stats.safety_queue_depth_overflow,
                self.stats.outbound_high_watermark_bytes == old(self).stats.outbound_high_watermark_bytes,
                self.stats.control_queue_high_watermark == old(self).stats.control_queue_high_watermark,
                enqueue_quiet_kept(old(self).stats, self.stats),
                self.stats.display_replaced == old(self).stats.display_replaced,
                self.stats.audio_panic_drain == old(self).stats.audio_panic_drain,
            ensures
                self.queues.wf(),
                self.queues.safety@ == old(self).queues.safety@,
                self.queues.audio@ == old(self).queues.audio@,
                self.queues.display == old(self).queues.display,
                self.queues.audio_sequence == old(self).queues.audio_sequence,
                self.queues.writer_started == old(self).queues.writer_started,
                control_trim(pushed, total) == (self.queues.control@, dropped as nat),
                self.stats.control_dropped == sat(old(self).stats.control_dropped, dropped as nat),
                self.stats.control_replaced == old(self).stats.control_replaced,
                self.stats.audio_dropped == old(self).stats.audio_dropped,
                self.stats.safety_queue_depth_overflow == old(self).stats.safety_queue_depth_overflow,
                self.stats.outbound_high_watermark_bytes == old(self).stats.outbound_high_watermark_bytes,
                self.stats.control_queue_high_watermark == old(self).stats.control_queue_high_watermark,
                enqueue_quiet_kept(old(self).stats, self.stats),
                self.stats.display_replaced == old(self).stats.display_replaced,
                self.stats.audio_panic_drain == old(self).stats.audio_panic_drain,
            decreases self.queues.control@.len(),
        {
            let ghost cq = self.queues.control@;
            if self.queues.control.len() == 0 {
                break;
            }
            proof {
                lemma_sums_front(cq);
            }
            let old_item = self.queues.control.pop_front().unwrap();
            self.queues.queued_bytes = self.queues.queued_bytes - old_item.estimated_bytes;
            dropped = dropped + 1;
            self.stats.record_control_dropped();
            proof {
                assert(sat(sat(old(self).stats.control_dropped, (dropped - 1) as nat), 1) == sat(
                    old(self).stats.control_dropped,
                    dropped as nat,
                ));
            }
        }
        self.stats.record_control_queue_high_watermark(self.queues.control.len());
        self.stats.record_high_watermark(self.queues.queued_bytes);
        dropped
    }

    /// Queues an audio item: a full audio queue is emptied at once (a panic
    /// drain), then the oldest items leave until the new one fits the
    /// quarter-second frame budget.
    pub fn enqueue_audio_locked(&mut self, item: QueuedOutbound<P>) -> (dropped: u64)
        requires
            old(self).queues.wf(),
            item_wf(item),
            item.class == OutboundClass::Audio,
            old(self).queues.total_bytes() + item.estimated_bytes <= usize::MAX,
            old(self).queues.audio_queued_frames + item.audio_frames <= usize::MAX,
        ensures
            final(self).queues.wf(),
            ({
                let max = max_audio_frames(sample_rate_of(item.message));
                let q0 = old(self).queues.audio@;
                let drain = old(self).queues.audio_queued_frames >= max && q0.len() > 0;
                let q1 = if drain { Seq::<QueuedOutbound<P>>::empty() } else { q0 };
                let (q2, d2) = audio_trim(q1, item.audio_frames as nat, max);
                &&& final(self).queues.audio@ == q2.push(item)
                &&& dropped == (if drain { q0.len() } else { 0 }) + d2
                &&& final(self).stats.audio_panic_drain == (if drain {
                    sat(old(self).stats.audio_panic_drain, 1)
                } else {
                    old(self).stats.audio_panic_drain
                })
                &&& final(self).stats.audio_dropped == sat(old(self).stats.audio_dropped, dropped as nat)
            }),
            final(self).queues.safety@ == old(self).queues.safety@,
            final(self).queues.control@ == old(self).queues.control@,
            final(self).queues.display == old(self).queues.display,
            final(self).queues.audio_sequence == old(self).queues.audio_sequence,
            final(self).queues.writer_started == old(self).queues.writer_started,
            final(self).stats.control_replaced == old(self).stats.control_replaced,
            final(self).stats.control_dropped == old(self).stats.control_dropped,
            final(self).stats.outbound_high_watermark_bytes == old(self).stats.outbound_high_watermark_bytes,
            final(self).stats.safety_queue_depth_overflow == old(self).stats.safety_queue_depth_overflow,
            enqueue_quiet_kept(old(self).stats, final(self).stats),
            final(self).stats.display_replaced == old(self).stats.display_replaced,
            final(self).stats.control_queue_high_watermark == old(self).stats.control_queue_high_watermark,
    {
        let max_frames = max_audio_queued_frames(item.message.audio_sample_rate());
        let mut dropped: u64 = 0;
        let ghost q0 = self.queues.audio@;
        let q0len = self.queues.audio.len();
        if self.queues.audio_queued_frames >= max_frames && self.queues.audio.len() > 0 {
            let without = queued_bytes_without_audio(&self.queues);
            let n = self.queues.audio.len() as u64;
            dropped = n;
            self.stats.record_audio_panic_drain();
            self.stats.record_audio_dropped(n);
            self.queues.audio.clear();
            self.queues.audio_queued_frames = 0;
            self.queues.queued_bytes = without;
            proof {
                assert(self.queues.audio@ =~= Seq::<QueuedOutbound<P>>::empty());
            }
        }
        let ghost q1 = self.queues.audio@;
        let ghost d1 = dropped;
        let ghost stats_audio_before = self.stats.audio_dropped;
        let ghost pd = self.stats.audio_panic_drain;
        proof {
            assert(d1 + q1.len() == q0.len());
            assert(stats_audio_before == sat(old(self).stats.audio_dropped, d1 as nat));
        }
        while self.queues.audio_queued_frames + item.audio_frames > max_frames
            invariant_except_break
                self.queues.wf(),
                self.queues.safety@ == old(self).queues.safety@,
                self.queues.control@ == old(self).queues.control@,
                self.queues.display == old(self).queues.display,
                self.queues.audio_sequence == old(self).queues.audio_sequence,
                self.queues.writer_started == old(self).queues.writer_started,
                self.queues.total_bytes() + item.estimated_bytes <= usize::MAX,
                self.queues.audio_queued_frames + item.audio_frames <= usize::MAX,
                audio_trim(q1, item.audio_frames as nat, max_frames as nat) == ({
                    let (r, d) = audio_trim(self.queues.audio@, item.audio_frames as nat, max_frames as nat);
                    (r, (d + dropped - d1) as nat)
                }),
                dropped >= d1,
                (dropped - d1) + self.queues.audio@.len() == q1.len(),
                d1 + q1.len() == q0.len(),
                q0.len() == q0len,
                self.stats.audio_dropped == sat(stats_audio_before, (dropped - d1) as nat),
                self.stats.audio_panic_drain == pd,
                self.stats.control_replaced == old(self).stats.control_replaced,
                self.stats.control_dropped == old(self).stats.control_dropped,
                self.stats.outbound_high_watermark_bytes == old(self).stats.outbound_high_watermark_bytes,
                self.stats.safety_queue_depth_overflow == old(self).stats.safety_queue_depth_overflow,
                enqueue_quiet_kept(old(self).stats, self.stats),
                self.stats.display_replaced == old(self).stats.display_replaced,
                self.stats.control_queue_high_watermark == old(self).stats.control_queue_high_watermark,
            ensures
                self.queues.wf(),
                self.queues.safety@ == old(self).queues.safety@,
                self.queues.control@ == old(self).queues.control@,
                self.queues.display == old(self).queues.display,
                self.queues.audio_sequence == old(self).queues.audio_sequence,
                self.queues.writer_started == old(self).queues.writer_started,
                self.queues.total_bytes() + item.estimated_bytes <= usize::MAX,
                self.queues.audio_queued_frames + item.audio_frames <= usize::MAX,
                audio_trim(q1, item.audio_frames as nat, max_frames as nat) == (self.queues.audio@, (dropped - d1) as nat),
                dropped >= d1,
                self.stats.audio_dropped == sat(stats_audio_before, (dropped - d1) as nat),
                self.stats.audio_panic_drain == pd,
                self.stats.control_replaced == old(self).stats.control_replaced,
                self.stats.control_dropped == old(self).stats.control_dropped,
                self.stats.outbound_high_watermark_bytes == old(self).stats.outbound_high_watermark_bytes,
                self.stats.safety_queue_depth_overflow == old(self).stats.safety_queue_depth_overflow,
                enqueue_quiet_kept(old(self).stats, self.stats),
                self.stats.display_replaced == old(self).stats.display_replaced,
                self.stats.control_queue_high_watermark == old(self).stats.control_queue_high_watermark,
            decreases self.queues.audio@.len(),
        {
            let ghost aq = self.queues.audio@;
            if self.queues.audio.len() == 0 {
                break;
            }
            proof {
                lemma_sums_front(aq);
            }
            let old_item = self.queues.audio.pop_front().unwrap();
            self.queues.audio_queued_frames = self.queues.audio_queued_frames - old_item.audio_frames;
            self.queues.queued_bytes = self.queues.queued_bytes - old_item.estimated_bytes;
            dropped = dropped + 1;
            self.stats.record_audio_dropped(1);
            proof {
                lemma_sat_sum(stats_audio_before, (dropped - 1 - d1) as nat, 1);
            }
        }
        proof {
            lemma_sat_sum(old(self).stats.audio_dropped, d1 as nat, (dropped - d1) as nat);
        }
        let ghost mid = self.queues.audio@;
        proof {
            lemma_sums_push(mid, item);
        }
        self.queues.audio_queued_frames = self.queues.audio_queued_frames + item.audio_frames;
        self.queues.queued_bytes = self.queues.queued_bytes + item.estimated_bytes;
        self.queues.audio.push_back(item);
        dropped
    }

    fn enqueue_display(&mut self, item: QueuedOutbound<P>) -> (dropped: u64)
        requires
            old(self).queues.wf(),
            item_wf(item),
            item.class == OutboundClass::Display,
            old(self).queues.total_bytes() + item.estimated_bytes <= usize::MAX,
        ensures
            final(self).queues.wf(),
            final(self).queues.display == Some(item),
            dropped == (if old(self).queues.display is Some { 1u64 } else { 0u64 }),
            final(self).stats.display_replaced == (if old(self).queues.display is Some {
                sat(old(self).stats.display_replaced, 1)
            } else {
                old(self).stats.display_replaced
            }),
            final(self).queues.safety@ == old(self).queues.safety@,
            final(self).queues.control@ == old(self).queues.control@,
            final(self).queues.audio@ == old(self).queues.audio@,
            final(self).queues.audio_sequence == old(self).queues.audio_sequence,
            final(self).queues.writer_started == old(self).queues.writer_started,
            final(self).stats.outbound_high_watermark_bytes == max_u64(
                old(self).stats.outbound_high_watermark_bytes,
                final(self).queues.queued_bytes as nat,
            ),
            final(self).stats.control_replaced == old(self).stats.control_replaced,
            final(self).stats.control_dropped == old(self).stats.control_dropped,
            final(self).stats.audio_dropped == old(self).stats.audio_dropped,
            enqueue_quiet_kept(old(self).stats, final(self).stats),
            final(self).stats.audio_panic_drain == old(self).stats.audio_panic_drain,
            final(self).stats.control_queue_high_watermark == old(self).stats.control_queue_high_watermark,
            final(self).stats.safety_queue_depth_overflow == old(self).stats.safety_queue_depth_overflow,
    {
        let mut dropped: u64 = 0;
        let new_bytes = item.estimated_bytes;
        let previous = self.queues.display.take();
        if let Some(old_item) = previous {
            self.queues.queued_bytes = self.queues.queued_bytes - old_item.estimated_bytes;
            dropped = 1;
            self.stats.record_display_replaced();
        }
        self.queues.display = Some(item);
        self.queues.queued_bytes = self.queues.queued_bytes + new_bytes;
        self.stats.record_high_watermark(self.queues.queued_bytes);
        dropped
    }

    /// Queues a message by its class and returns how many queued messages it
    /// displaced (dropped, or replaced in place for control text).
    pub fn enqueue(&mut self, message: OutboundMessage<P>, now_ns: u64) -> (dropped: u64)
        requires
            old(self).queues.wf(),
            msg_wf(message),
            old(self).queues.total_bytes() + est_bytes(message) <= usize::MAX,
            old(self).queues.audio_queued_frames + frames_in(message) <= usize::MAX,
        ensures
            final(self).queues.wf(),
            enqueue_post(old(self).queues, final(self).queues, message, now_ns, dropped),
            enqueue_stats_post(old(self).queues, final(self).queues, old(self).stats, final(self).stats, message, now_ns, dropped),
            queue_lengths_bounded(old(self).queues) ==> queue_lengths_bounded(final(self).queues),
            final(self).queues.writer_started == old(self).queues.writer_started,
    {
        let mut message = message;
        let class = message.class();
        if class == OutboundClass::Audio {
            let next = if self.queues.audio_sequence == u32::MAX {
                1
            } else {
                self.queues.audio_sequence + 1
            };
            self.queues.audio_sequence = next;
            message = message.with_audio_sequence(next);
        }
        proof {
            lemma_with_sequence_keeps(message, self.queues.audio_sequence);
        }
        let item = QueuedOutbound::new(message, now_ns);
        let ghost before = self.queues;
        let ghost it = item;
        let dropped = match class {
            OutboundClass::Safety => self.enqueue_safety(item),
            OutboundClass::Control => self.enqueue_control(item),
            OutboundClass::Audio => {
                let d = self.enqueue_audio_locked(item);
                self.stats.record_high_watermark(self.queues.queued_bytes);
                d
            },
            OutboundClass::Display => self.enqueue_display(item),
        };
        proof {
            lemma_control_trim_bounded(before.control@.push(it), before.total_bytes() + it.estimated_bytes as nat);
            if let Some(k) = safety_key(it.message) {
                lemma_first_with_key(before.safety@, k, true);
            }
            if let Some(k) = control_key(it.message) {
                lemma_first_with_key(before.control@, k, false);
            }
        }
        dropped
    }

    /// Enqueues `message` when the counters can take it (see
    /// `within_limits`; only machine limits refuse one), returning the count
    /// of messages dropped; otherwise leaves everything unchanged.
    pub fn enqueue_within_limits(&mut self, message: OutboundMessage<P>, now_ns: u64) -> (r: Option<
        u64,
    >)
        requires
            old(self).queues.wf(),
        ensures
            final(self).queues.wf(),
            r is Some <==> within_limits(old(self).queues, message),
            r matches Some(d) ==> enqueue_post(old(self).queues, final(self).queues, message, now_ns, d),
            r is None ==> final(self).queues == old(self).queues,
            final(self).queues.writer_started == old(self).queues.writer_started,
    {
        let sample_len_ok = match &message {
            OutboundMessage::IqFrame { sample_len, .. } => *sample_len <= (usize::MAX - 64) / 4,
            OutboundMessage::TxIqFrame { sample_len, .. } => *sample_len <= (usize::MAX - 64) / 4,
            OutboundMessage::AudioFrame { sample_len, .. } => *sample_len <= (usize::MAX - 64) / 4,
            _ => true,
        };
        if !sample_len_ok {
            return None;
        }
        let est = message.estimated_bytes();
        let frames = message.audio_frame_count();
        if est > usize::MAX - self.queues.queued_bytes || frames > usize::MAX
            - self.queues.audio_queued_frames {
            return None;
        }
        Some(self.enqueue(message, now_ns))
    }

    /// The next message for the writer: safety, then control, then (only
    /// when bulk traffic is allowed) audio, then the display frame.
    pub fn next_message(&mut self, allow_bulk: bool) -> (r: Option<QueuedOutbound<P>>)
        requires
            old(self).queues.wf(),
        ensures
            final(self).queues.wf(),
            ({
                let o = old(self).queues;
                let f = final(self).queues;
                if o.safety@.len() > 0 {
                    &&& r == Some(o.safety@[0])
                    &&& f.safety@ == o.safety@.subrange(1, o.safety@.len() as int)
                    &&& f.control@ == o.control@ && f.audio@ == o.audio@ && f.display == o.display
                } else if o.control@.len() > 0 {
                    &&& r == Some(o.control@[0])
                    &&& f.control@ == o.control@.subrange(1, o.control@.len() as int)
                    &&& f.safety@ == o.safety@ && f.audio@ == o.audio@ && f.display == o.display
                } else if !allow_bulk {
                    &&& r is None
                    &&& f.safety@ == o.safety@ && f.control@ == o.control@ && f.audio@ == o.audio@
                    &&& f.display == o.display
                } else if o.audio@.len() > 0 {
                    &&& r == Some(o.audio@[0])
                    &&& f.audio@ == o.audio@.subrange(1, o.audio@.len() as int)
                    &&& f.safety@ == o.safety@ && f.control@ == o.control@ && f.display == o.display
                } else {
                    &&& r == o.display
                    &&& f.display is None
                    &&& f.safety@ == o.safety@ && f.control@ == o.control@ && f.audio@ == o.audio@
                }
            }),
            final(self).queues.audio_sequence == old(self).queues.audio_sequence,
            final(self).queues.writer_started == old(self).queues.writer_started,
            r matches Some(x) ==> final(self).queues.queued_bytes == old(self).queues.queued_bytes - x.estimated_bytes,
            r matches Some(x) ==> final(self).queues.audio_queued_frames == (if x.class == OutboundClass::Audio {
                old(self).queues.audio_queued_frames - x.audio_frames
            } else {
                old(self).queues.audio_queued_frames as int
            }),
            r is None ==> final(self).queues.queued_bytes == old(self).queues.queued_bytes
                && final(self).queues.audio_queued_frames == old(self).queues.audio_queued_frames,
            queue_lengths_bounded(old(self).queues) ==> queue_lengths_bounded(final(self).queues),
            final(self).stats == old(self).stats,
    {
        let ghost o = self.queues;
        let item = if self.queues.safety.len() > 0 {
            proof {
                lemma_sums_front(o.safety@);
            }
            self.queues.safety.pop_front()
        } else if self.queues.control.len() > 0 {
            proof {
                lemma_sums_front(o.control@);
            }
            self.queues.control.pop_front()
        } else if allow_bulk {
            if self.queues.audio.len() > 0 {
                proof {
                    lemma_sums_front(o.audio@);
                }
                let it = self.queues.audio.pop_front();
                if let Some(x) = &it {
                    self.queues.audio_queued_frames = self.queues.audio_queued_frames - x.audio_frames;
                }
                it
            } else {
                self.queues.display.take()
            }
        } else {
            None
        };
        if let Some(x) = &item {
            self.queues.queued_bytes = self.queues.queued_bytes - x.estimated_bytes;
        }
        item
    }

    /// Puts a message the writer could not send back at the front of its
    /// queue; control stays bounded by dropping from the back, and a newer
    /// display frame is dropped in favour of the returned one.
    pub fn requeue_front(&mut self, item: QueuedOutbound<P>)
        requires
            old(self).queues.wf(),
            item_wf(item),
            old(self).queues.total_bytes() + item.estimated_bytes <= usize::MAX,
            old(self).queues.audio_queued_frames + item.audio_frames <= usize::MAX,
        ensures
            final(self).queues.wf(),
            item.class == OutboundClass::Safety ==> final(self).queues.safety@ == seq![item]
                + old(self).queues.safety@,
            item.class == OutboundClass::Control ==> final(self).queues.control@ == control_back_trim(
                seq![item] + old(self).queues.control@,
                old(self).queues.total_bytes() + item.estimated_bytes as nat,
            ),
            item.class == OutboundClass::Audio ==> final(self).queues.audio@ == seq![item]
                + old(self).queues.audio@,
            item.class == OutboundClass::Display ==> final(self).queues.display == Some(item),
            item.class != OutboundClass::Safety ==> final(self).queues.safety@ == old(self).queues.safety@,
            item.class != OutboundClass::Control ==> final(self).queues.control@ == old(self).queues.control@,
            item.class != OutboundClass::Audio ==> final(self).queues.audio@ == old(self).queues.audio@,
            item.class != OutboundClass::Display ==> final(self).queues.display == old(self).queues.display,
            final(self).queues.audio_sequence == old(self).queues.audio_sequence,
            final(self).queues.writer_started == old(self).queues.writer_started,
            old(self).queues.control@.len() <= MAX_CONTROL_QUEUE_MESSAGES ==> final(self).queues.control@.len()
                <= MAX_CONTROL_QUEUE_MESSAGES,
    {
        let ghost o = self.queues;
        self.queues.queued_bytes = self.queues.queued_bytes + item.estimated_bytes;
        match item.class {
            OutboundClass::Safety => {
                proof {
                    lemma_sums_prepend(item, o.safety@);
                }
                self.queues.safety.push_front(item);
            },
            OutboundClass::Control => {
                proof {
                    lemma_sums_prepend(item, o.control@);
                }
                self.queues.control.push_front(item);
                let ghost start = self.queues.control@;
                let ghost total = self.queues.queued_bytes as nat;
                while self.queues.control.len() > MAX_CONTROL_QUEUE_MESSAGES || self.queues.queued_bytes
                    > MAX_CONTROL_QUEUE_BYTES
                    invariant_except_break
                        self.queues.wf(),
                        self.queues.safety@ == o.safety@,
                        self.queues.audio@ == o.audio@,
                        self.queues.display == o.display,
                        self.queues.audio_sequence == o.audio_sequence,
                        self.queues.writer_started == o.writer_started,
                        control_back_trim(start, total) == control_back_trim(self.queues.control@, self.queues.queued_bytes as nat),
                    ensures
                        self.queues.wf(),
                        self.queues.safety@ == o.safety@,
                        self.queues.audio@ == o.audio@,
                        self.queues.display == o.display,
                        self.queues.audio_sequence == o.audio_sequence,
                        self.queues.writer_started == o.writer_started,
                        control_back_trim(start, total) == self.queues.control@,
                    decreases self.queues.control@.len(),
                {
                    let ghost cq = self.queues.control@;
                    if self.queues.control.len() == 0 {
                        break;
                    }
                    proof {
                        lemma_sums_elem(cq, cq.len() - 1);
                        assert(cq.subrange(0, cq.len() - 1) =~= cq.drop_last());
                    }
                    let old_item = self.queues.control.pop_back().unwrap();
                    self.queues.queued_bytes = self.queues.queued_bytes - old_item.estimated_bytes;
                    self.stats.record_control_dropped();
                }
                proof {
                    lemma_control_back_trim_bounded(start, total);
                }
                self.stats.record_control_queue_high_watermark(self.queues.control.len());
            },
            OutboundClass::Audio => {
                proof {
                    lemma_sums_prepend(item, o.audio@);
                }
                self.queues.audio_queued_frames = self.queues.audio_queued_frames + item.audio_frames;
                self.queues.audio.push_front(item);
            },
            OutboundClass::Display => {
                let previous = self.queues.display.take();
                if let Some(old_item) = previous {
                    self.queues.queued_bytes = self.queues.queued_bytes - old_item.estimated_bytes;
                    self.stats.record_display_dropped();
                }
                self.queues.display = Some(item);
            },
        }
        self.stats.record_high_watermark(self.queues.queued_bytes);
    }

    /// Counts a bulk message the writer had to drop.
    pub fn record_bulk_send_drop(&mut self, class: OutboundClass)
        ensures
            final(self).queues == old(self).queues,
            final(self).stats.audio_dropped == (if class == OutboundClass::Audio {
                sat(old(self).stats.audio_dropped, 1)
            } else {
                old(self).stats.audio_dropped
            }),
            final(self).stats.display_dropped == (if class == OutboundClass::Display {
                sat(old(self).stats.display_dropped, 1)
            } else {
                old(self).stats.display_dropped
            }),
            final(self).stats.control_dropped == (if class == OutboundClass::Control {
                sat(old(self).stats.control_dropped, 1)
            } else {
                old(self).stats.control_dropped
            }),
    {
        match class {
            OutboundClass::Audio => self.stats.record_audio_dropped(1),
            OutboundClass::Display => self.stats.record_display_dropped(),
            OutboundClass::Control => self.stats.record_control_dropped(),
            OutboundClass::Safety => {},
        }
    }

    pub fn queued_bytes(&self) -> (n: u64)
        ensures
            n == self.queues.queued_bytes as u64,
    {
        self.queues.queued_bytes as u64
    }
}

/// The queued form of a message enqueued at `now_ns`.
pub open spec fn queued_item<P>(m: OutboundMessage<P>, seq: u32, now_ns: u64) -> QueuedOutbound<P> {
    let qm = sequenced(m, seq);
    QueuedOutbound {
        message: qm,
        class: class_of(m),
        enqueued_at_ns: now_ns,
        estimated_bytes: est_bytes(m) as usize,
        audio_frames: frames_in(m) as usize,
    }
}

/// The control queue and drop count after a new control item.
pub open spec fn control_after<P>(q: Seq<QueuedOutbound<P>>, item: QueuedOutbound<P>, total: nat) -> (Seq<QueuedOutbound<P>>, nat) {
    if control_replaces(q, item) {
        (q.update(first_with_key(q, control_key(item.message)->0, false)->0, item), 1)
    } else {
        control_trim(q.push(item), total + item.estimated_bytes as nat)
    }
}

/// The audio queue and drop count after a new audio item.
pub open spec fn audio_after<P>(q0: Seq<QueuedOutbound<P>>, frames: nat, item: QueuedOutbound<P>) -> (Seq<QueuedOutbound<P>>, nat) {
    let max = max_audio_frames(sample_rate_of(item.message));
    let drain = frames >= max && q0.len() > 0;
    let q1 = if drain { Seq::<QueuedOutbound<P>>::empty() } else { q0 };
    let (q2, d2) = audio_trim(q1, item.audio_frames as nat, max);
    (q2.push(item), (if drain { q0.len() } else { 0 }) + d2)
}

/// Control items dropped from the back while the queue holds more than 256
/// items or all queues together more than 256 KiB.
pub open spec fn control_back_trim<P>(q: Seq<QueuedOutbound<P>>, bytes: nat) -> Seq<QueuedOutbound<P>>
    decreases q.len(),
{
    if q.len() > 0 && (q.len() > MAX_CONTROL_QUEUE_MESSAGES || bytes > MAX_CONTROL_QUEUE_BYTES) {
        control_back_trim(q.drop_last(), (bytes - q.last().estimated_bytes) as nat)
    } else {
        q
    }
}

fn sum_queue_bytes<P>(q: &std::collections::VecDeque<QueuedOutbound<P>>, bound: usize) -> (n: usize)
    requires
        bytes_of(q@) <= bound,
    ensures
        n as nat == bytes_of(q@),
{
    let mut n: usize = 0;
    let mut i: usize = 0;
    while i < q.len()
        invariant
            i <= q@.len(),
            n as nat == bytes_of(q@.take(i as int)),
            bytes_of(q@) <= bound,
        decreases q@.len() - i,
    {
        proof {
            assert(q@.take(i + 1).drop_last() =~= q@.take(i as int));
            let t = q@.take(i + 1);
            assert(q@ == t + q@.skip(i + 1));
            lemma_sums_prefix(q@, i + 1);
        }
        n = n + q[i].estimated_bytes;
        i = i + 1;
    }
    proof {
        assert(q@.take(q@.len() as int) =~= q@);
    }
    n
}

pub proof fn lemma_sums_prefix<P>(q: Seq<QueuedOutbound<P>>, k: int)
    requires
        0 <= k <= q.len(),
    ensures
        bytes_of(q.take(k)) <= bytes_of(q),
        frames_of(q.take(k)) <= frames_of(q),
    decreases q.len() - k,
{
    if k < q.len() {
        lemma_sums_prefix(q, k + 1);
        assert(q.take(k + 1).drop_last() =~= q.take(k));
    } else {
        assert(q.take(k) =~= q);
    }
}

/// Bytes queued outside the audio queue.
pub fn queued_bytes_without_audio<P>(queues: &OutboundQueues<P>) -> (n: usize)
    requires
        queues.wf(),
    ensures
        n as nat == bytes_of(queues.safety@) + bytes_of(queues.control@) + opt_bytes(queues.display),
{
    let safety = sum_queue_bytes(&queues.safety, queues.queued_bytes);
    let control = sum_queue_bytes(&queues.control, queues.queued_bytes);
    let display: usize = match &queues.display {
        Some(d) => d.estimated_bytes,
        None => 0,
    };
    safety + control + display
}

/// The new item replaces a queued control item with its key.
pub open spec fn control_replaces<P>(q: Seq<QueuedOutbound<P>>, item: QueuedOutbound<P>) -> bool {
    control_key(item.message) matches Some(k) && first_with_key(q, k, false) is Some
}


/// The queue lengths stay within their limits: at most 16 safety items and
/// 256 control items.
pub open spec fn queue_lengths_bounded<P>(q: OutboundQueues<P>) -> bool {
    &&& q.safety@.len() <= MAX_SAFETY_QUEUE_MESSAGES
    &&& q.control@.len() <= MAX_CONTROL_QUEUE_MESSAGES
}

pub proof fn lemma_control_trim_bounded<P>(q: Seq<QueuedOutbound<P>>, bytes: nat)
    ensures
        control_trim(q, bytes).0.len() <= MAX_CONTROL_QUEUE_MESSAGES,
    decreases q.len(),
{
    if q.len() > 0 && (q.len() > MAX_CONTROL_QUEUE_MESSAGES || bytes > MAX_CONTROL_QUEUE_BYTES) {
        lemma_control_trim_bounded(q.subrange(1, q.len() as int), (bytes - q[0].estimated_bytes) as nat);
    }
}

pub proof fn lemma_control_back_trim_bounded<P>(q: Seq<QueuedOutbound<P>>, bytes: nat)
    ensures
        control_back_trim(q, bytes).len() <= MAX_CONTROL_QUEUE_MESSAGES,
    decreases q.len(),
{
    if q.len() > 0 && (q.len() > MAX_CONTROL_QUEUE_MESSAGES || bytes > MAX_CONTROL_QUEUE_BYTES) {
        lemma_control_back_trim_bounded(q.drop_last(), (bytes - q.last().estimated_bytes) as nat);
    }
}

/// Counters that no enqueue touches.
pub open spec fn enqueue_quiet_kept(o: ClientSchedulerStats, n: ClientSchedulerStats) -> bool {
    &&& n.safety_latencies_us@ == o.safety_latencies_us@
    &&& n.control_latencies_us@ == o.control_latencies_us@
    &&& n.display_dropped == o.display_dropped
    &&& n.send_blocked_ms == o.send_blocked_ms
    &&& n.tcp_outq_high_watermark_bytes == o.tcp_outq_high_watermark_bytes
}

/// What an enqueue does to the scheduler counters: each counter of the
/// message's class moves as that class's rules say, the byte high-water mark
/// takes the new queued bytes, and every other counter stays.
pub open spec fn enqueue_stats_post<P>(
    old_q: OutboundQueues<P>,
    new_q: OutboundQueues<P>,
    o: ClientSchedulerStats,
    n: ClientSchedulerStats,
    message: OutboundMessage<P>,
    now_ns: u64,
    dropped: u64,
) -> bool {
    let item = queued_item(message, old_q.audio_sequence, now_ns);
    let c = class_of(message);
    let control_replaced = c == OutboundClass::Control && control_replaces(old_q.control@, item);
    let control_appended = c == OutboundClass::Control && !control_replaces(old_q.control@, item);
    let safety_appended = c == OutboundClass::Safety && !safety_replaces(old_q.safety@, item);
    let overflowed = if safety_appended && old_q.safety@.len() >= MAX_SAFETY_QUEUE_MESSAGES {
        sat(o.safety_queue_depth_overflow, 1)
    } else {
        o.safety_queue_depth_overflow
    };
    &&& enqueue_quiet_kept(o, n)
    &&& n.outbound_high_watermark_bytes == max_u64(o.outbound_high_watermark_bytes, new_q.queued_bytes as nat)
    &&& n.display_replaced == (if c == OutboundClass::Display && old_q.display is Some {
        sat(o.display_replaced, 1)
    } else {
        o.display_replaced
    })
    &&& n.control_replaced == (if control_replaced { sat(o.control_replaced, 1) } else { o.control_replaced })
    &&& n.control_dropped == (if control_appended {
        sat(o.control_dropped, dropped as nat)
    } else {
        o.control_dropped
    })
    &&& n.control_queue_high_watermark == (if control_appended {
        max_u64(o.control_queue_high_watermark, new_q.control@.len())
    } else {
        o.control_queue_high_watermark
    })
    &&& n.audio_dropped == (if c == OutboundClass::Audio {
        sat(o.audio_dropped, dropped as nat)
    } else {
        o.audio_dropped
    })
    &&& n.audio_panic_drain == (if c == OutboundClass::Audio && old_q.audio_queued_frames
        >= max_audio_frames(sample_rate_of(message)) && old_q.audio@.len() > 0 {
        sat(o.audio_panic_drain, 1)
    } else {
        o.audio_panic_drain
    })
    &&& n.safety_queue_depth_overflow == (if safety_appended && old_q.writer_started
        && new_q.safety@.len() > 1 {
        sat(overflowed, 1)
    } else {
        overflowed
    })
}

} // verus!
