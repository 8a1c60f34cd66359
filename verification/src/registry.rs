//! The registry of connected TCI clients: per-client stream and uplink
//! state, operator election, split-session pairing of control and media
//! sockets, and the per-client outbound queues.
use vstd::prelude::*;

use crate::codec::{select_tx_codec, selected_codec, TxCodecCaps, TxCodecRuntimeFlags, TxMicCodec};
use crate::outbound::{enqueue_post, within_limits, ClientOutbound, OutboundMessage};
use crate::session::{
    normalize_split_session_id_chars, normalized_session_id, remote_client_role_message,
    role_message, SplitSocketKind, TciClientRole,
};
use crate::text::{chars_of, eq_chars};

verus! {

/// Decode errors within one window that force the transmitter back to receive.
pub const TX_CODEC_DECODE_ERROR_FORCE_RX_LIMIT: u64 = 10;
/// The decode-error window.
pub const TX_CODEC_DECODE_ERROR_WINDOW_NS: u64 = 1_000_000_000;
pub const MAX_TCI_INBOUND_MESSAGE_BYTES: usize = 262_144;
pub const MAX_TCI_INBOUND_FRAME_BYTES: usize = 262_144;

/// What a client declared of its split session.
pub struct SplitClientMetadata {
    pub session_id: Vec<char>,
    pub lane: Option<SplitSocketKind>,
    pub role: Option<TciClientRole>,
    pub ignore_media_until_ns: Option<u64>,
}

/// The state the bridge keeps of one client. Times are monotonic nanoseconds.
pub struct ClientState {
    pub iq_stream_enabled: bool,
    pub audio_stream_enabled: bool,
    pub audio_sample_rate_hz: u32,
    pub audio_frame_float_count: u32,
    pub audio_channels: u32,
    pub audio_seq_gap_count: u64,
    pub tx_uplink_degraded: bool,
    pub tx_mic_browser_last_seq: u32,
    pub tx_mic_browser_dropped_count: u64,
    pub tx_uplink_buffered_bytes: u64,
    pub tx_uplink_buffered_high_watermark_bytes: u64,
    pub tx_mic_last_arrived_seq: u32,
    pub tx_mic_seq_gap_count: u64,
    pub tx_mic_last_arrived_at_ns: Option<u64>,
    pub tx_codec_caps: TxCodecCaps,
    pub tx_codec_active: TxMicCodec,
    pub tx_codec_negotiated_at_ns: Option<u64>,
    pub tx_codec_runtime_flags: TxCodecRuntimeFlags,
    /// The codec the client's decoder was made for.
    pub tx_codec_decoder_codec: TxMicCodec,
    /// Bumped whenever the client's decoder is replaced by a fresh one.
    pub tx_codec_decoder_epoch: u64,
    pub tx_codec_degraded: bool,
    pub tx_codec_decode_error_count: u64,
    pub tx_codec_decode_error_window_started_at_ns: Option<u64>,
    pub tx_codec_decode_error_window_count: u64,
    pub tx_codec_stale_drop_count: u64,
    pub tx_codec_release_flush_count: u64,
    pub split: Option<SplitClientMetadata>,
    /// Lane declared by the websocket request path before any in-band
    /// `session_lane` command.
    pub connect_lane_hint: Option<SplitSocketKind>,
}

/// A connected client: its outbound queues and its state.
pub struct ClientConnection<P> {
    pub outbound: ClientOutbound<P>,
    pub state: ClientState,
}

/// A client and its id.
pub struct ClientEntry<P> {
    pub id: u64,
    pub conn: ClientConnection<P>,
}

/// The connected clients in ascending id order, and the operator's id (zero: none).
pub struct ClientRegistry<P> {
    pub entries: Vec<ClientEntry<P>>,
    pub operator_client_id: u64,
}

/// Both halves of a split session.
#[derive(Debug)]
pub struct SplitSessionPair {
    pub session_id: Vec<char>,
    pub control_client_id: u64,
    pub media_client_id: u64,
}

/// What unregistering a client changed.
#[derive(Clone, Copy, Debug, PartialEq, Eq, Structural)]
pub struct ClientDisconnect {
    pub was_operator: bool,
    pub split_media_loss_forces_rx: bool,
    pub split_closed_peer: Option<u64>,
    pub promoted_operator: Option<u64>,
    pub remaining_clients: usize,
}

/// The state of a freshly connected client.
pub open spec fn fresh_state(s: ClientState, flags: TxCodecRuntimeFlags, hint: Option<SplitSocketKind>) -> bool {
    &&& !s.iq_stream_enabled && !s.audio_stream_enabled
    &&& s.audio_sample_rate_hz == 48_000 && s.audio_frame_float_count == 2048 && s.audio_channels == 2
    &&& s.audio_seq_gap_count == 0 && !s.tx_uplink_degraded && s.tx_mic_browser_last_seq == 0
    &&& s.tx_mic_browser_dropped_count == 0 && s.tx_uplink_buffered_bytes == 0
    &&& s.tx_uplink_buffered_high_watermark_bytes == 0 && s.tx_mic_last_arrived_seq == 0
    &&& s.tx_mic_seq_gap_count == 0 && s.tx_mic_last_arrived_at_ns is None
    &&& s.tx_codec_caps == TxCodecCaps { pcm: true, opus_nb: false, opus_wb: false }
    &&& s.tx_codec_active == TxMicCodec::Pcm && s.tx_codec_negotiated_at_ns is None
    &&& s.tx_codec_runtime_flags == flags && s.tx_codec_decoder_codec == TxMicCodec::Pcm
    &&& s.tx_codec_decoder_epoch == 0 && !s.tx_codec_degraded && s.tx_codec_decode_error_count == 0
    &&& s.tx_codec_decode_error_window_started_at_ns is None
    &&& s.tx_codec_decode_error_window_count == 0 && s.tx_codec_stale_drop_count == 0
    &&& s.tx_codec_release_flush_count == 0 && s.split is None && s.connect_lane_hint == hint
}

impl ClientState {
    pub fn with_tx_codec_runtime_flags(flags: TxCodecRuntimeFlags, hint: Option<SplitSocketKind>) -> (s: Self)
        ensures
            fresh_state(s, flags, hint),
    {
        ClientState {
            iq_stream_enabled: false,
            audio_stream_enabled: false,
            audio_sample_rate_hz: 48_000,
            audio_frame_float_count: 2048,
            audio_channels: 2,
            audio_seq_gap_count: 0,
            tx_uplink_degraded: false,
            tx_mic_browser_last_seq: 0,
            tx_mic_browser_dropped_count: 0,
            tx_uplink_buffered_bytes: 0,
            tx_uplink_buffered_high_watermark_bytes: 0,
            tx_mic_last_arrived_seq: 0,
            tx_mic_seq_gap_count: 0,
            tx_mic_last_arrived_at_ns: None,
            tx_codec_caps: TxCodecCaps::pcm_only(),
            tx_codec_active: TxMicCodec::Pcm,
            tx_codec_negotiated_at_ns: None,
            tx_codec_runtime_flags: flags,
            tx_codec_decoder_codec: TxMicCodec::Pcm,
            tx_codec_decoder_epoch: 0,
            tx_codec_degraded: false,
            tx_codec_decode_error_count: 0,
            tx_codec_decode_error_window_started_at_ns: None,
            tx_codec_decode_error_window_count: 0,
            tx_codec_stale_drop_count: 0,
            tx_codec_release_flush_count: 0,
            split: None,
            connect_lane_hint: hint,
        }
    }
}

/// Ids strictly ascend.
pub open spec fn ids_ascending<P>(s: Seq<ClientEntry<P>>) -> bool {
    forall|i: int, j: int| 0 <= i < j < s.len() ==> s[i].id < s[j].id
}

/// Some entry has this id.
pub open spec fn has_id<P>(s: Seq<ClientEntry<P>>, id: u64) -> bool {
    exists|i: int| 0 <= i < s.len() && s[i].id == id
}

/// The first entry with this id.
pub open spec fn lookup<P>(s: Seq<ClientEntry<P>>, id: u64) -> Option<ClientConnection<P>>
    decreases s.len(),
{
    if s.len() == 0 {
        None
    } else if s[0].id == id {
        Some(s[0].conn)
    } else {
        lookup(s.drop_first(), id)
    }
}

/// The lane a client is on: its declared lane, else none.
pub open spec fn split_lane(st: ClientState) -> Option<SplitSocketKind> {
    match st.split {
        Some(m) => m.lane,
        None => None,
    }
}

/// The client is in session `sid` on `lane`.
pub open spec fn in_session_lane<P>(e: ClientEntry<P>, sid: Seq<char>, lane: SplitSocketKind) -> bool {
    match e.conn.state.split {
        Some(m) => m.session_id@ == sid && m.lane == Some(lane),
        None => false,
    }
}

/// The lowest id in session `sid` on `lane`.
pub open spec fn first_in_lane<P>(s: Seq<ClientEntry<P>>, sid: Seq<char>, lane: SplitSocketKind) -> Option<u64>
    decreases s.len(),
{
    if s.len() == 0 {
        None
    } else if in_session_lane(s[0], sid, lane) {
        Some(s[0].id)
    } else {
        first_in_lane(s.drop_first(), sid, lane)
    }
}

/// The (control, media) clients of session `sid`, when both lanes are present.
pub open spec fn pair_in<P>(s: Seq<ClientEntry<P>>, sid: Seq<char>) -> Option<(u64, u64)> {
    match (first_in_lane(s, sid, SplitSocketKind::Control), first_in_lane(s, sid, SplitSocketKind::Media)) {
        (Some(c), Some(m)) => Some((c, m)),
        _ => None,
    }
}

/// The session a client declared.
pub open spec fn session_of<P>(s: Seq<ClientEntry<P>>, id: u64) -> Option<Seq<char>> {
    match lookup(s, id) {
        Some(c) => match c.state.split {
            Some(m) => Some(m.session_id@),
            None => None,
        },
        None => None,
    }
}

/// The pair of the session a client declared.
pub open spec fn pair_for_client<P>(s: Seq<ClientEntry<P>>, id: u64) -> Option<(u64, u64)> {
    match session_of(s, id) {
        Some(sid) => pair_in(s, sid),
        None => None,
    }
}

/// The media client paired with control client `id`: only for a client on
/// the control lane that is its session's control half.
pub open spec fn paired_media<P>(s: Seq<ClientEntry<P>>, id: u64) -> Option<u64> {
    match lookup(s, id) {
        Some(c) => match c.state.split {
            Some(m) => if m.lane == Some(SplitSocketKind::Control) {
                match pair_in(s, m.session_id@) {
                    Some((ctl, media)) => if ctl == id {
                        Some(media)
                    } else {
                        None
                    },
                    None => None,
                }
            } else {
                None
            },
            None => None,
        },
        None => None,
    }
}

/// A client on the media lane.
pub open spec fn is_split_media(st: ClientState) -> bool {
    split_lane(st) == Some(SplitSocketKind::Media)
}

/// The media client of a session whose control client is the operator.
pub open spec fn media_paired_with_operator<P>(s: Seq<ClientEntry<P>>, operator: u64, media_id: u64) -> bool {
    operator != 0 && operator != media_id && pair_for_client(s, media_id) == Some((operator, media_id))
}

/// The lowest id of a client that is not on the media lane.
pub open spec fn first_non_media<P>(s: Seq<ClientEntry<P>>) -> Option<u64>
    decreases s.len(),
{
    if s.len() == 0 {
        None
    } else if !is_split_media(s[0].conn.state) {
        Some(s[0].id)
    } else {
        first_non_media(s.drop_first())
    }
}

/// The entries without the one with this id.
pub open spec fn without<P>(s: Seq<ClientEntry<P>>, id: u64) -> Seq<ClientEntry<P>> {
    s.filter(|e: ClientEntry<P>| e.id != id)
}

proof fn lemma_lookup_skip<P>(s: Seq<ClientEntry<P>>, id: u64, i: int)
    requires
        0 <= i <= s.len(),
        forall|j: int| 0 <= j < i ==> s[j].id != id,
    ensures
        lookup(s, id) == lookup(s.skip(i), id),
    decreases i,
{
    if i > 0 {
        assert(s.skip(1) =~= s.drop_first());
        lemma_lookup_skip(s.drop_first(), id, i - 1);
        assert(s.drop_first().skip(i - 1) =~= s.skip(i));
    } else {
        assert(s.skip(0) =~= s);
    }
}

proof fn lemma_lookup_at<P>(s: Seq<ClientEntry<P>>, id: u64, i: int)
    requires
        0 <= i < s.len(),
        s[i].id == id,
        forall|j: int| 0 <= j < i ==> s[j].id != id,
    ensures
        lookup(s, id) == Some(s[i].conn),
{
    lemma_lookup_skip(s, id, i);
    assert(s.skip(i)[0] == s[i]);
}

proof fn lemma_lookup_none<P>(s: Seq<ClientEntry<P>>, id: u64)
    requires
        forall|j: int| 0 <= j < s.len() ==> s[j].id != id,
    ensures
        lookup(s, id) is None,
{
    lemma_lookup_skip(s, id, s.len() as int);
}

proof fn lemma_first_in_lane_skip<P>(s: Seq<ClientEntry<P>>, sid: Seq<char>, lane: SplitSocketKind, i: int)
    requires
        0 <= i <= s.len(),
        forall|j: int| 0 <= j < i ==> !in_session_lane(#[trigger] s[j], sid, lane),
    ensures
        first_in_lane(s, sid, lane) == first_in_lane(s.skip(i), sid, lane),
    decreases i,
{
    if i > 0 {
        assert(s.skip(1) =~= s.drop_first());
        lemma_first_in_lane_skip(s.drop_first(), sid, lane, i - 1);
        assert(s.drop_first().skip(i - 1) =~= s.skip(i));
    } else {
        assert(s.skip(0) =~= s);
    }
}

proof fn lemma_first_non_media_skip<P>(s: Seq<ClientEntry<P>>, i: int)
    requires
        0 <= i <= s.len(),
        forall|j: int| 0 <= j < i ==> is_split_media(#[trigger] s[j].conn.state),
    ensures
        first_non_media(s) == first_non_media(s.skip(i)),
    decreases i,
{
    if i > 0 {
        assert(s.skip(1) =~= s.drop_first());
        lemma_first_non_media_skip(s.drop_first(), i - 1);
        assert(s.drop_first().skip(i - 1) =~= s.skip(i));
    } else {
        assert(s.skip(0) =~= s);
    }
}

impl<P> ClientRegistry<P> {
    /// Ids ascend and every client's queues are well formed.
    pub open spec fn wf(&self) -> bool {
        &&& ids_ascending(self.entries@)
        &&& forall|i: int| 0 <= i < self.entries@.len() ==> (#[trigger] self.entries@[i]).conn.outbound.queues.wf()
    }

    pub fn new() -> (r: Self)
        ensures
            r.wf(),
            r.entries@.len() == 0,
            r.operator_client_id == 0,
    {
        ClientRegistry { entries: Vec::new(), operator_client_id: 0 }
    }

    /// Index of the client with this id.
    pub fn find(&self, id: u64) -> (r: Option<usize>)
        ensures
            r matches Some(i) ==> i < self.entries@.len() && self.entries@[i as int].id == id
                && lookup(self.entries@, id) == Some(self.entries@[i as int].conn)
                && forall|j: int| 0 <= j < i ==> self.entries@[j].id != id,
            r is None ==> !has_id(self.entries@, id) && lookup(self.entries@, id) is None,
    {
        let mut i: usize = 0;
        while i < self.entries.len()
            invariant
                i <= self.entries@.len(),
                forall|j: int| 0 <= j < i ==> self.entries@[j].id != id,
            decreases self.entries@.len() - i,
        {
            if self.entries[i].id == id {
                proof {
                    lemma_lookup_at(self.entries@, id, i as int);
                }
                return Some(i);
            }
            i = i + 1;
        }
        proof {
            lemma_lookup_none(self.entries@, id);
        }
        None
    }

    pub fn contains(&self, id: u64) -> (b: bool)
        ensures
            b == has_id(self.entries@, id),
    {
        self.find(id).is_some()
    }

    pub fn len(&self) -> (n: usize)
        ensures
            n == self.entries@.len(),
    {
        self.entries.len()
    }

    /// The lowest id in session `sid` on `lane`.
    pub fn first_in_lane_exec(&self, sid: &Vec<char>, lane: SplitSocketKind) -> (r: Option<u64>)
        ensures
            r == first_in_lane(self.entries@, sid@, lane),
    {
        let mut i: usize = 0;
        while i < self.entries.len()
            invariant
                i <= self.entries@.len(),
                forall|j: int| 0 <= j < i ==> !in_session_lane(#[trigger] self.entries@[j], sid@, lane),
            decreases self.entries@.len() - i,
        {
            let hit = match &self.entries[i].conn.state.split {
                Some(m) => eq_chars(&m.session_id, sid) && m.lane == Some(lane),
                None => false,
            };
            if hit {
                proof {
                    lemma_first_in_lane_skip(self.entries@, sid@, lane, i as int);
                    assert(self.entries@.skip(i as int)[0] == self.entries@[i as int]);
                }
                return Some(self.entries[i].id);
            }
            i = i + 1;
        }
        proof {
            lemma_first_in_lane_skip(self.entries@, sid@, lane, i as int);
        }
        None
    }

    /// Both halves of session `sid`, when both are connected.
    pub fn split_session_pair_in_clients(&self, sid: &Vec<char>) -> (r: Option<SplitSessionPair>)
        ensures
            r matches Some(p) ==> pair_in(self.entries@, sid@) == Some(
                (p.control_client_id, p.media_client_id),
            ) && p.session_id@ == sid@,
            r is None ==> pair_in(self.entries@, sid@) is None,
    {
        let control = self.first_in_lane_exec(sid, SplitSocketKind::Control);
        let media = self.first_in_lane_exec(sid, SplitSocketKind::Media);
        match (control, media) {
            (Some(c), Some(m)) => Some(
                SplitSessionPair { session_id: copy_chars(sid), control_client_id: c, media_client_id: m },
            ),
            _ => None,
        }
    }

    /// The session a client declared.
    pub fn session_of_exec(&self, id: u64) -> (r: Option<Vec<char>>)
        ensures
            r matches Some(v) ==> session_of(self.entries@, id) == Some(v@),
            r is None ==> session_of(self.entries@, id) is None,
    {
        match self.find(id) {
            Some(i) => match &self.entries[i].conn.state.split {
                Some(m) => Some(copy_chars(&m.session_id)),
                None => None,
            },
            None => None,
        }
    }

    /// The pair of the session a client declared.
    pub fn split_session_pair_for_client(&self, id: u64) -> (r: Option<SplitSessionPair>)
        ensures
            r matches Some(p) ==> pair_for_client(self.entries@, id) == Some(
                (p.control_client_id, p.media_client_id),
            ),
            r is None ==> pair_for_client(self.entries@, id) is None,
    {
        match self.session_of_exec(id) {
            Some(sid) => self.split_session_pair_in_clients(&sid),
            None => None,
        }
    }

    /// The media client paired with a control client (only asked of the
    /// control half of a connected session).
    pub fn split_paired_media_client_id(&self, id: u64) -> (r: Option<u64>)
        ensures
            r == paired_media(self.entries@, id),
    {
        match self.find(id) {
            Some(i) => match &self.entries[i].conn.state.split {
                Some(m) => {
                    if m.lane != Some(SplitSocketKind::Control) {
                        return None;
                    }
                    match self.split_session_pair_in_clients(&m.session_id) {
                        Some(p) => if p.control_client_id == id {
                            Some(p.media_client_id)
                        } else {
                            None
                        },
                        None => None,
                    }
                },
                None => None,
            },
            None => None,
        }
    }

    /// The client on the media lane of the operator's session.
    pub fn split_media_client_paired_with_operator(&self, media_id: u64) -> (b: bool)
        ensures
            b == media_paired_with_operator(self.entries@, self.operator_client_id, media_id),
    {
        let operator = self.operator_client_id;
        if operator == 0 || operator == media_id {
            return false;
        }
        match self.split_session_pair_for_client(media_id) {
            Some(p) => p.control_client_id == operator && p.media_client_id == media_id,
            None => false,
        }
    }

    /// The lowest id of a client that is not on the media lane.
    pub fn first_non_media_exec(&self) -> (r: Option<u64>)
        ensures
            r == first_non_media(self.entries@),
    {
        let mut i: usize = 0;
        while i < self.entries.len()
            invariant
                i <= self.entries@.len(),
                forall|j: int| 0 <= j < i ==> is_split_media(#[trigger] self.entries@[j].conn.state),
            decreases self.entries@.len() - i,
        {
            if !client_is_split_media(&self.entries[i].conn) {
                proof {
                    lemma_first_non_media_skip(self.entries@, i as int);
                    assert(self.entries@.skip(i as int)[0] == self.entries@[i as int]);
                }
                return Some(self.entries[i].id);
            }
            i = i + 1;
        }
        proof {
            lemma_first_non_media_skip(self.entries@, i as int);
        }
        None
    }
}

/// A client on the media lane.
pub fn client_is_split_media<P>(client: &ClientConnection<P>) -> (b: bool)
    ensures
        b == is_split_media(client.state),
{
    match &client.state.split {
        Some(m) => m.lane == Some(SplitSocketKind::Media),
        None => false,
    }
}

/// A copy of a character vector.
pub fn copy_chars(v: &Vec<char>) -> (out: Vec<char>)
    ensures
        out@ == v@,
{
    let mut out: Vec<char> = Vec::new();
    let mut i: usize = 0;
    while i < v.len()
        invariant
            i <= v@.len(),
            out@ == v@.subrange(0, i as int),
        decreases v@.len() - i,
    {
        out.push(v[i]);
        i = i + 1;
        assert(out@ =~= v@.subrange(0, i as int));
    }
    assert(v@.subrange(0, v@.len() as int) =~= v@);
    out
}

pub proof fn lemma_lookup_ascending<P>(s: Seq<ClientEntry<P>>, i: int)
    requires
        ids_ascending(s),
        0 <= i < s.len(),
    ensures
        lookup(s, s[i].id) == Some(s[i].conn),
{
    lemma_lookup_at(s, s[i].id, i);
}

proof fn lemma_lookup_absent<P>(s: Seq<ClientEntry<P>>, x: u64)
    requires
        !has_id(s, x),
    ensures
        lookup(s, x) is None,
{
    assert forall|j: int| 0 <= j < s.len() implies s[j].id != x by {
        if s[j].id == x {
            assert(has_id(s, x));
        }
    }
    lemma_lookup_none(s, x);
}

/// Two entry sequences that agree on ids position by position, and on the
/// connections except at position `k`.
proof fn lemma_lookup_same_ids<P>(a: Seq<ClientEntry<P>>, b: Seq<ClientEntry<P>>, k: int, x: u64)
    requires
        ids_ascending(a),
        a.len() == b.len(),
        0 <= k < a.len(),
        forall|j: int| 0 <= j < a.len() ==> b[j].id == a[j].id,
        forall|j: int| 0 <= j < a.len() && j != k ==> b[j] == a[j],
        x != a[k].id,
    ensures
        lookup(b, x) == lookup(a, x),
        ids_ascending(b),
{
    if has_id(a, x) {
        let i = choose|i: int| 0 <= i < a.len() && a[i].id == x;
        lemma_lookup_ascending(a, i);
        assert(ids_ascending(b));
        lemma_lookup_ascending(b, i);
    } else {
        lemma_lookup_absent(a, x);
        assert(!has_id(b, x)) by {
            if has_id(b, x) {
                let i = choose|i: int| 0 <= i < b.len() && b[i].id == x;
                assert(a[i].id == x);
            }
        }
        lemma_lookup_absent(b, x);
    }
}

/// The next browser mic sequence number: wraps past `u32::MAX` to one, never zero.
pub open spec fn next_wrapped(sequence: u32) -> u32 {
    if sequence == u32::MAX {
        1
    } else {
        (sequence + 1) as u32
    }
}

pub fn next_wrapped_sequence(sequence: u32) -> (n: u32)
    ensures
        n == next_wrapped(sequence),
        n != 0,
{
    let next = sequence.wrapping_add(1);
    if next == 0 {
        1
    } else {
        next
    }
}

/// `x + 1` saturating.
pub open spec fn inc(x: u64) -> u64 {
    if x == u64::MAX {
        u64::MAX
    } else {
        (x + 1) as u64
    }
}

/// One change to a client's state.
#[derive(Clone, Copy, Debug, PartialEq, Eq, Structural)]
pub enum StateOp {
    IqStream(bool),
    AudioStream(bool),
    AudioSampleRate(u32),
    AudioFrameFloats(u32),
    AudioChannels(u32),
    AudioSeqGaps(u64),
    UplinkStats { degraded: bool, last_seq: u32, dropped: u64, buffered: u64, high_watermark: u64 },
    ResetUplinkAttempt,
    StaleDrop,
    ReleaseFlush,
    MicFrame { sequence: u32, now_ns: u64 },
    CodecReset { caps: TxCodecCaps, selected: Option<TxMicCodec>, now_ns: u64 },
    DecodeError { now_ns: u64 },
}

/// The decode-error window restarts when it is unset or older than one second.
pub open spec fn window_restarts(started: Option<u64>, now_ns: u64) -> bool {
    match started {
        Some(t) => now_ns >= t && now_ns - t > TX_CODEC_DECODE_ERROR_WINDOW_NS,
        None => true,
    }
}

/// Errors counted in the window after one more decode error.
pub open spec fn window_count_after(st: ClientState, now_ns: u64) -> u64 {
    inc(if window_restarts(st.tx_codec_decode_error_window_started_at_ns, now_ns) {
        0
    } else {
        st.tx_codec_decode_error_window_count
    })
}

/// What a state change does.
pub open spec fn apply_op(st: ClientState, op: StateOp) -> ClientState {
    match op {
        StateOp::IqStream(b) => ClientState { iq_stream_enabled: b, ..st },
        StateOp::AudioStream(b) => ClientState { audio_stream_enabled: b, ..st },
        StateOp::AudioSampleRate(r) => ClientState { audio_sample_rate_hz: r, ..st },
        StateOp::AudioFrameFloats(n) => ClientState { audio_frame_float_count: n, ..st },
        StateOp::AudioChannels(n) => ClientState { audio_channels: n, ..st },
        StateOp::AudioSeqGaps(n) => ClientState { audio_seq_gap_count: n, ..st },
        StateOp::UplinkStats { degraded, last_seq, dropped, buffered, high_watermark } => ClientState {
            tx_uplink_degraded: degraded,
            tx_mic_browser_last_seq: last_seq,
            tx_mic_browser_dropped_count: dropped,
            tx_uplink_buffered_bytes: buffered,
            tx_uplink_buffered_high_watermark_bytes: if high_watermark > buffered {
                high_watermark
            } else {
                buffered
            },
            ..st
        },
        StateOp::ResetUplinkAttempt => ClientState {
            tx_uplink_degraded: false,
            tx_mic_browser_last_seq: 0,
            tx_mic_browser_dropped_count: 0,
            tx_uplink_buffered_bytes: 0,
            tx_uplink_buffered_high_watermark_bytes: 0,
            tx_mic_last_arrived_seq: 0,
            tx_mic_seq_gap_count: 0,
            tx_mic_last_arrived_at_ns: None,
            tx_codec_decode_error_window_started_at_ns: None,
            tx_codec_decode_error_window_count: 0,
            ..st
        },
        StateOp::StaleDrop => ClientState {
            tx_codec_stale_drop_count: inc(st.tx_codec_stale_drop_count),
            ..st
        },
        StateOp::ReleaseFlush => ClientState {
            tx_codec_release_flush_count: inc(st.tx_codec_release_flush_count),
            ..st
        },
        StateOp::MicFrame { sequence, now_ns } => if sequence == 0 {
            ClientState { tx_mic_last_arrived_at_ns: Some(now_ns), ..st }
        } else {
            ClientState {
                tx_mic_last_arrived_at_ns: Some(now_ns),
                tx_mic_last_arrived_seq: sequence,
                tx_mic_seq_gap_count: if st.tx_mic_last_arrived_seq != 0 && sequence != next_wrapped(
                    st.tx_mic_last_arrived_seq,
                ) {
                    inc(st.tx_mic_seq_gap_count)
                } else {
                    st.tx_mic_seq_gap_count
                },
                ..st
            }
        },
        StateOp::CodecReset { caps, selected, now_ns } => match selected {
            Some(c) => ClientState {
                tx_codec_caps: caps,
                tx_codec_decode_error_window_started_at_ns: None,
                tx_codec_decode_error_window_count: 0,
                tx_codec_active: c,
                tx_codec_negotiated_at_ns: Some(now_ns),
                tx_codec_decoder_codec: c,
                tx_codec_decoder_epoch: inc(st.tx_codec_decoder_epoch),
                tx_codec_degraded: false,
                ..st
            },
            None => ClientState {
                tx_codec_caps: caps,
                tx_codec_decode_error_window_started_at_ns: None,
                tx_codec_decode_error_window_count: 0,
                tx_codec_negotiated_at_ns: None,
                ..st
            },
        },
        StateOp::DecodeError { now_ns } => {
            let restart = window_restarts(st.tx_codec_decode_error_window_started_at_ns, now_ns);
            let count = window_count_after(st, now_ns);
            ClientState {
                tx_codec_decode_error_count: inc(st.tx_codec_decode_error_count),
                tx_codec_decode_error_window_started_at_ns: if restart {
                    Some(now_ns)
                } else {
                    st.tx_codec_decode_error_window_started_at_ns
                },
                tx_codec_decode_error_window_count: count,
                tx_codec_degraded: st.tx_codec_degraded || count >= TX_CODEC_DECODE_ERROR_FORCE_RX_LIMIT,
                ..st
            }
        },
    }
}

fn op_uplink(st: &mut ClientState, degraded: bool, last_seq: u32, dropped: u64, buffered: u64, high_watermark: u64)
    ensures
        *final(st) == apply_op(
            *old(st),
            StateOp::UplinkStats { degraded, last_seq, dropped, buffered, high_watermark },
        ),
{
    st.tx_uplink_degraded = degraded;
    st.tx_mic_browser_last_seq = last_seq;
    st.tx_mic_browser_dropped_count = dropped;
    st.tx_uplink_buffered_bytes = buffered;
    st.tx_uplink_buffered_high_watermark_bytes = if high_watermark > buffered {
        high_watermark
    } else {
        buffered
    };
}

fn op_reset_uplink(st: &mut ClientState)
    ensures
        *final(st) == apply_op(*old(st), StateOp::ResetUplinkAttempt),
{
    st.tx_uplink_degraded = false;
    st.tx_mic_browser_last_seq = 0;
    st.tx_mic_browser_dropped_count = 0;
    st.tx_uplink_buffered_bytes = 0;
    st.tx_uplink_buffered_high_watermark_bytes = 0;
    st.tx_mic_last_arrived_seq = 0;
    st.tx_mic_seq_gap_count = 0;
    st.tx_mic_last_arrived_at_ns = None;
    st.tx_codec_decode_error_window_started_at_ns = None;
    st.tx_codec_decode_error_window_count = 0;
}

fn op_mic_frame(st: &mut ClientState, sequence: u32, now_ns: u64)
    ensures
        *final(st) == apply_op(*old(st), StateOp::MicFrame { sequence, now_ns }),
{
    st.tx_mic_last_arrived_at_ns = Some(now_ns);
    if sequence != 0 {
        if st.tx_mic_last_arrived_seq != 0 && sequence != next_wrapped_sequence(
            st.tx_mic_last_arrived_seq,
        ) {
            st.tx_mic_seq_gap_count = st.tx_mic_seq_gap_count.saturating_add(1);
        }
        st.tx_mic_last_arrived_seq = sequence;
    }
}

fn op_codec_reset(st: &mut ClientState, caps: TxCodecCaps, selected: Option<TxMicCodec>, now_ns: u64)
    ensures
        *final(st) == apply_op(*old(st), StateOp::CodecReset { caps, selected, now_ns }),
{
    st.tx_codec_caps = caps;
    st.tx_codec_decode_error_window_started_at_ns = None;
    st.tx_codec_decode_error_window_count = 0;
    match selected {
        Some(c) => {
            st.tx_codec_active = c;
            st.tx_codec_negotiated_at_ns = Some(now_ns);
            st.tx_codec_decoder_codec = c;
            st.tx_codec_decoder_epoch = st.tx_codec_decoder_epoch.saturating_add(1);
            st.tx_codec_degraded = false;
        },
        None => {
            st.tx_codec_negotiated_at_ns = None;
        },
    }
}

fn op_decode_error(st: &mut ClientState, now_ns: u64)
    ensures
        *final(st) == apply_op(*old(st), StateOp::DecodeError { now_ns }),
{
    st.tx_codec_decode_error_count = st.tx_codec_decode_error_count.saturating_add(1);
    let restart = match st.tx_codec_decode_error_window_started_at_ns {
        Some(t) => now_ns >= t && now_ns - t > TX_CODEC_DECODE_ERROR_WINDOW_NS,
        None => true,
    };
    if restart {
        st.tx_codec_decode_error_window_started_at_ns = Some(now_ns);
        st.tx_codec_decode_error_window_count = 0;
    }
    st.tx_codec_decode_error_window_count = st.tx_codec_decode_error_window_count.saturating_add(1);
    if st.tx_codec_decode_error_window_count >= TX_CODEC_DECODE_ERROR_FORCE_RX_LIMIT
        && !st.tx_codec_degraded {
        st.tx_codec_degraded = true;
    }
}

/// Applies a state change in place.
pub fn apply_op_exec(st: &mut ClientState, op: StateOp)
    ensures
        *final(st) == apply_op(*old(st), op),
{
    match op {
        StateOp::IqStream(b) => st.iq_stream_enabled = b,
        StateOp::AudioStream(b) => st.audio_stream_enabled = b,
        StateOp::AudioSampleRate(r) => st.audio_sample_rate_hz = r,
        StateOp::AudioFrameFloats(n) => st.audio_frame_float_count = n,
        StateOp::AudioChannels(n) => st.audio_channels = n,
        StateOp::AudioSeqGaps(n) => st.audio_seq_gap_count = n,
        StateOp::UplinkStats { degraded, last_seq, dropped, buffered, high_watermark } => op_uplink(
            st,
            degraded,
            last_seq,
            dropped,
            buffered,
            high_watermark,
        ),
        StateOp::ResetUplinkAttempt => op_reset_uplink(st),
        StateOp::StaleDrop => {
            st.tx_codec_stale_drop_count = st.tx_codec_stale_drop_count.saturating_add(1);
        },
        StateOp::ReleaseFlush => {
            st.tx_codec_release_flush_count = st.tx_codec_release_flush_count.saturating_add(1);
        },
        StateOp::MicFrame { sequence, now_ns } => op_mic_frame(st, sequence, now_ns),
        StateOp::CodecReset { caps, selected, now_ns } => op_codec_reset(st, caps, selected, now_ns),
        StateOp::DecodeError { now_ns } => op_decode_error(st, now_ns),
    }
}

/// A connection whose state went through `op`.
pub open spec fn with_op<P>(c: Option<ClientConnection<P>>, op: StateOp) -> Option<ClientConnection<P>> {
    match c {
        Some(c) => Some(ClientConnection { outbound: c.outbound, state: apply_op(c.state, op) }),
        None => None,
    }
}

/// `op` applied to the clients `a` and `b` (when present), nothing else changed.
pub open spec fn applied_to<P>(
    old_s: Seq<ClientEntry<P>>,
    new_s: Seq<ClientEntry<P>>,
    a: u64,
    b: Option<u64>,
    op: StateOp,
) -> bool {
    &&& new_s.len() == old_s.len()
    &&& forall|j: int| 0 <= j < old_s.len() ==> (#[trigger] new_s[j]).id == old_s[j].id
    &&& forall|x: u64|
        #![trigger lookup(new_s, x)]
        lookup(new_s, x) == (if x == a || b == Some(x) {
            with_op(lookup(old_s, x), op)
        } else {
            lookup(old_s, x)
        })
}

impl<P> ClientRegistry<P> {
    /// Applies `op` to the client at index `i`.
    fn apply_at(&mut self, i: usize, op: StateOp)
        requires
            old(self).wf(),
            i < old(self).entries@.len(),
        ensures
            final(self).wf(),
            final(self).operator_client_id == old(self).operator_client_id,
            applied_to(old(self).entries@, final(self).entries@, old(self).entries@[i as int].id, None, op),
    {
        let ghost a = self.entries@;
        let e = &mut self.entries[i];
        apply_op_exec(&mut e.conn.state, op);
        proof {
            assert forall|x: u64| x != a[i as int].id implies lookup(self.entries@, x) == lookup(a, x) by {
                lemma_lookup_same_ids(a, self.entries@, i as int, x);
            }
            assert(ids_ascending(self.entries@));
            lemma_lookup_ascending(a, i as int);
            lemma_lookup_ascending(self.entries@, i as int);
        }
    }

    /// Applies `op` to client `a` and, when given and different, client `b`.
    fn apply_to(&mut self, a: u64, b: Option<u64>, op: StateOp)
        requires
            old(self).wf(),
        ensures
            final(self).wf(),
            final(self).operator_client_id == old(self).operator_client_id,
            applied_to(
                old(self).entries@,
                final(self).entries@,
                a,
                match b {
                    Some(m) => if m == a {
                        None
                    } else {
                        Some(m)
                    },
                    None => None,
                },
                op,
            ),
    {
        let ghost s0 = self.entries@;
        match self.find(a) {
            Some(i) => self.apply_at(i, op),
            None => {},
        }
        let ghost s1 = self.entries@;
        proof {
            if !has_id(s0, a) {
                lemma_lookup_absent(s0, a);
                assert(s1 == s0);
            }
        }
        match b {
            Some(m) => {
                if m != a {
                    match self.find(m) {
                        Some(j) => self.apply_at(j, op),
                        None => {},
                    }
                    proof {
                        if !has_id(s1, m) {
                            lemma_lookup_absent(s1, m);
                        }
                    }
                }
            },
            None => {},
        }
    }
}

/// The paired media client a control client's stream settings mirror to.
pub open spec fn mirror<P>(s: Seq<ClientEntry<P>>, id: u64) -> Option<u64> {
    match paired_media(s, id) {
        Some(m) => if m == id {
            None
        } else {
            Some(m)
        },
        None => None,
    }
}

/// Some client streams IQ.
pub open spec fn any_iq<P>(s: Seq<ClientEntry<P>>) -> bool {
    exists|j: int| 0 <= j < s.len() && (#[trigger] s[j]).conn.state.iq_stream_enabled
}

/// Some client streams audio.
pub open spec fn any_audio<P>(s: Seq<ClientEntry<P>>) -> bool {
    exists|j: int| 0 <= j < s.len() && (#[trigger] s[j]).conn.state.audio_stream_enabled
}

/// What one more decode error asks of the transmitter.
#[derive(Clone, Copy, Debug, PartialEq, Eq, Structural)]
pub struct TxCodecDecodeFaultAction {
    pub force_rx: bool,
    pub count: u64,
    pub limit: u64,
}

impl<P> ClientRegistry<P> {
    /// Whether any client streams IQ.
    pub fn is_iq_stream_enabled(&self) -> (b: bool)
        ensures
            b == any_iq(self.entries@),
    {
        let mut i: usize = 0;
        while i < self.entries.len()
            invariant
                i <= self.entries@.len(),
                forall|j: int| 0 <= j < i ==> !(#[trigger] self.entries@[j]).conn.state.iq_stream_enabled,
            decreases self.entries@.len() - i,
        {
            if self.entries[i].conn.state.iq_stream_enabled {
                assert(self.entries@[i as int].conn.state.iq_stream_enabled);
                return true;
            }
            i = i + 1;
        }
        false
    }

    /// Whether any client streams audio.
    pub fn is_audio_stream_enabled(&self) -> (b: bool)
        ensures
            b == any_audio(self.entries@),
    {
        let mut i: usize = 0;
        while i < self.entries.len()
            invariant
                i <= self.entries@.len(),
                forall|j: int| 0 <= j < i ==> !(#[trigger] self.entries@[j]).conn.state.audio_stream_enabled,
            decreases self.entries@.len() - i,
        {
            if self.entries[i].conn.state.audio_stream_enabled {
                assert(self.entries@[i as int].conn.state.audio_stream_enabled);
                return true;
            }
            i = i + 1;
        }
        false
    }

    /// Applies `op` to a client and to its paired media client.
    fn apply_mirrored(&mut self, client_id: u64, op: StateOp)
        requires
            old(self).wf(),
        ensures
            final(self).wf(),
            final(self).operator_client_id == old(self).operator_client_id,
            applied_to(old(self).entries@, final(self).entries@, client_id, mirror(old(self).entries@, client_id), op),
    {
        let media = self.split_paired_media_client_id(client_id);
        self.apply_to(client_id, media, op);
    }

    /// Turns IQ streaming on or off for a client (and its paired media
    /// client); says whether any client still streams IQ.
    pub fn set_client_iq_stream_enabled(&mut self, client_id: u64, enabled: bool) -> (any: bool)
        requires
            old(self).wf(),
        ensures
            final(self).wf(),
            final(self).operator_client_id == old(self).operator_client_id,
            applied_to(
                old(self).entries@,
                final(self).entries@,
                client_id,
                mirror(old(self).entries@, client_id),
                StateOp::IqStream(enabled),
            ),
            any == any_iq(final(self).entries@),
    {
        self.apply_mirrored(client_id, StateOp::IqStream(enabled));
        self.is_iq_stream_enabled()
    }

    /// Turns audio streaming on or off for a client (and its paired media
    /// client); says whether any client still streams audio.
    pub fn set_client_audio_stream_enabled(&mut self, client_id: u64, enabled: bool) -> (any: bool)
        requires
            old(self).wf(),
        ensures
            final(self).wf(),
            final(self).operator_client_id == old(self).operator_client_id,
            applied_to(
                old(self).entries@,
                final(self).entries@,
                client_id,
                mirror(old(self).entries@, client_id),
                StateOp::AudioStream(enabled),
            ),
            any == any_audio(final(self).entries@),
    {
        self.apply_mirrored(client_id, StateOp::AudioStream(enabled));
        self.is_audio_stream_enabled()
    }

    pub fn set_client_audio_sample_rate(&mut self, client_id: u64, sample_rate_hz: u32)
        requires
            old(self).wf(),
        ensures
            final(self).wf(),
            final(self).operator_client_id == old(self).operator_client_id,
            applied_to(
                old(self).entries@,
                final(self).entries@,
                client_id,
                mirror(old(self).entries@, client_id),
                StateOp::AudioSampleRate(sample_rate_hz),
            ),
    {
        self.apply_mirrored(client_id, StateOp::AudioSampleRate(sample_rate_hz));
    }

    pub fn set_client_audio_frame_float_count(&mut self, client_id: u64, sample_count: u32)
        requires
            old(self).wf(),
        ensures
            final(self).wf(),
            final(self).operator_client_id == old(self).operator_client_id,
            applied_to(
                old(self).entries@,
                final(self).entries@,
                client_id,
                mirror(old(self).entries@, client_id),
                StateOp::AudioFrameFloats(sample_count),
            ),
    {
        self.apply_mirrored(client_id, StateOp::AudioFrameFloats(sample_count));
    }

    pub fn set_client_audio_channels(&mut self, client_id: u64, channels: u32)
        requires
            old(self).wf(),
        ensures
            final(self).wf(),
            final(self).operator_client_id == old(self).operator_client_id,
            applied_to(
                old(self).entries@,
                final(self).entries@,
                client_id,
                mirror(old(self).entries@, client_id),
                StateOp::AudioChannels(channels),
            ),
    {
        self.apply_mirrored(client_id, StateOp::AudioChannels(channels));
    }

    pub fn set_client_audio_seq_gap_count(&mut self, client_id: u64, gaps: u64)
        requires
            old(self).wf(),
        ensures
            final(self).wf(),
            final(self).operator_client_id == old(self).operator_client_id,
            applied_to(old(self).entries@, final(self).entries@, client_id, None, StateOp::AudioSeqGaps(gaps)),
    {
        self.apply_to(client_id, None, StateOp::AudioSeqGaps(gaps));
    }

    /// Records the uplink statistics a browser reported (the high-water mark
    /// never below the buffered bytes).
    pub fn set_client_tx_uplink_stats(
        &mut self,
        client_id: u64,
        degraded: bool,
        last_seq: u32,
        dropped_count: u64,
        buffered_bytes: u64,
        high_watermark_bytes: u64,
    )
        requires
            old(self).wf(),
        ensures
            final(self).wf(),
            final(self).operator_client_id == old(self).operator_client_id,
            applied_to(
                old(self).entries@,
                final(self).entries@,
                client_id,
                None,
                StateOp::UplinkStats {
                    degraded,
                    last_seq,
                    dropped: dropped_count,
                    buffered: buffered_bytes,
                    high_watermark: high_watermark_bytes,
                },
            ),
    {
        self.apply_to(
            client_id,
            None,
            StateOp::UplinkStats {
                degraded,
                last_seq,
                dropped: dropped_count,
                buffered: buffered_bytes,
                high_watermark: high_watermark_bytes,
            },
        );
    }

    /// Clears a client's uplink and decode-window state for a new transmission.
    pub fn reset_client_tx_uplink_attempt(&mut self, client_id: u64)
        requires
            old(self).wf(),
        ensures
            final(self).wf(),
            final(self).operator_client_id == old(self).operator_client_id,
            applied_to(old(self).entries@, final(self).entries@, client_id, None, StateOp::ResetUplinkAttempt),
    {
        self.apply_to(client_id, None, StateOp::ResetUplinkAttempt);
    }

    pub fn record_client_tx_codec_stale_drop(&mut self, client_id: u64)
        requires
            old(self).wf(),
        ensures
            final(self).wf(),
            final(self).operator_client_id == old(self).operator_client_id,
            applied_to(old(self).entries@, final(self).entries@, client_id, None, StateOp::StaleDrop),
    {
        self.apply_to(client_id, None, StateOp::StaleDrop);
    }

    /// Counts a release flush for the operator; false without an operator.
    pub fn flush_client_tx_codec_decode_queue(&mut self, operator_client_id: u64) -> (b: bool)
        requires
            old(self).wf(),
        ensures
            final(self).wf(),
            final(self).operator_client_id == old(self).operator_client_id,
            b == (operator_client_id != 0 && has_id(old(self).entries@, operator_client_id)),
            b ==> applied_to(old(self).entries@, final(self).entries@, operator_client_id, None, StateOp::ReleaseFlush),
            !b ==> final(self).entries@ == old(self).entries@,
    {
        if operator_client_id == 0 {
            return false;
        }
        match self.find(operator_client_id) {
            Some(i) => {
                self.apply_at(i, StateOp::ReleaseFlush);
                true
            },
            None => false,
        }
    }

    /// Records the arrival of a mic frame: its time, and a sequence gap when
    /// a nonzero sequence does not follow the last one.
    pub fn record_client_tx_mic_frame(&mut self, client_id: u64, sequence: u32, received_at_ns: u64)
        requires
            old(self).wf(),
        ensures
            final(self).wf(),
            final(self).operator_client_id == old(self).operator_client_id,
            applied_to(
                old(self).entries@,
                final(self).entries@,
                client_id,
                None,
                StateOp::MicFrame { sequence, now_ns: received_at_ns },
            ),
    {
        self.apply_to(client_id, None, StateOp::MicFrame { sequence, now_ns: received_at_ns });
    }

    /// Counts a decode error in the client's one-second window; the tenth in
    /// a window degrades the codec once and asks to force receive.
    pub fn record_client_tx_codec_decode_error_at(&mut self, client_id: u64, now_ns: u64) -> (r:
        TxCodecDecodeFaultAction)
        requires
            old(self).wf(),
        ensures
            final(self).wf(),
            final(self).operator_client_id == old(self).operator_client_id,
            applied_to(old(self).entries@, final(self).entries@, client_id, None, StateOp::DecodeError { now_ns }),
            r.limit == TX_CODEC_DECODE_ERROR_FORCE_RX_LIMIT,
            match lookup(old(self).entries@, client_id) {
                Some(c) => r.count == window_count_after(c.state, now_ns) && r.force_rx == (
                window_count_after(c.state, now_ns) >= TX_CODEC_DECODE_ERROR_FORCE_RX_LIMIT
                    && !c.state.tx_codec_degraded),
                None => r.count == 0 && !r.force_rx,
            },
    {
        let limit = TX_CODEC_DECODE_ERROR_FORCE_RX_LIMIT;
        match self.find(client_id) {
            Some(i) => {
                let was_degraded = self.entries[i].conn.state.tx_codec_degraded;
                self.apply_at(i, StateOp::DecodeError { now_ns });
                proof {
                    lemma_lookup_ascending(self.entries@, i as int);
                }
                let count = self.entries[i].conn.state.tx_codec_decode_error_window_count;
                TxCodecDecodeFaultAction { force_rx: count >= limit && !was_degraded, count, limit }
            },
            None => {
                proof {
                    lemma_lookup_absent(self.entries@, client_id);
                }
                TxCodecDecodeFaultAction { force_rx: false, count: 0, limit }
            },
        }
    }

    /// Records the codecs a client offers and negotiates one; the paired
    /// media client, which receives the mic frames, takes the same state.
    pub fn set_client_tx_codec_caps(&mut self, client_id: u64, caps: TxCodecCaps, now_ns: u64) -> (r:
        Option<TxMicCodec>)
        requires
            old(self).wf(),
        ensures
            final(self).wf(),
            final(self).operator_client_id == old(self).operator_client_id,
            r == selected_codec(
                caps,
                match lookup(old(self).entries@, client_id) {
                    Some(c) => c.state.tx_codec_runtime_flags,
                    None => TxCodecRuntimeFlags { opus_decode_enabled: false },
                },
            ),
            applied_to(
                old(self).entries@,
                final(self).entries@,
                client_id,
                mirror(old(self).entries@, client_id),
                StateOp::CodecReset { caps, selected: r, now_ns },
            ),
    {
        let flags = match self.find(client_id) {
            Some(i) => self.entries[i].conn.state.tx_codec_runtime_flags,
            None => TxCodecRuntimeFlags::default_flags(),
        };
        let selected = select_tx_codec(&caps, flags);
        self.apply_mirrored(client_id, StateOp::CodecReset { caps, selected, now_ns });
        selected
    }
}

/// The queues of a client went through one enqueue of `message` (when the
/// counters could take it), nothing else changed.
pub open spec fn enqueued_to<P>(
    old_s: Seq<ClientEntry<P>>,
    new_s: Seq<ClientEntry<P>>,
    id: u64,
    message: OutboundMessage<P>,
    now_ns: u64,
) -> bool {
    &&& new_s.len() == old_s.len()
    &&& forall|j: int| 0 <= j < old_s.len() ==> (#[trigger] new_s[j]).id == old_s[j].id
    &&& forall|x: u64| #![trigger lookup(new_s, x)] x != id ==> lookup(new_s, x) == lookup(old_s, x)
    &&& match (lookup(old_s, id), lookup(new_s, id)) {
        (Some(o), Some(n)) => n.state == o.state && (if within_limits(o.outbound.queues, message) {
            exists|d: u64| enqueue_post(o.outbound.queues, n.outbound.queues, message, now_ns, d)
        } else {
            n.outbound.queues == o.outbound.queues
        }),
        (None, None) => true,
        _ => false,
    }
}

/// The operator is a connected client, or there is none.
pub open spec fn operator_connected<P>(r: ClientRegistry<P>) -> bool {
    r.operator_client_id == 0 || has_id(r.entries@, r.operator_client_id)
}

/// `n` holds the clients of `o`, in the same places.
pub open spec fn same_ids<P>(o: Seq<ClientEntry<P>>, n: Seq<ClientEntry<P>>) -> bool {
    &&& n.len() == o.len()
    &&& forall|j: int| 0 <= j < o.len() ==> (#[trigger] n[j]).id == o[j].id
}

pub proof fn lemma_same_ids_has_id<P>(o: Seq<ClientEntry<P>>, n: Seq<ClientEntry<P>>, x: u64)
    requires
        same_ids(o, n),
    ensures
        has_id(n, x) == has_id(o, x),
{
    if has_id(o, x) {
        let k = choose|k: int| 0 <= k < o.len() && o[k].id == x;
        assert(n[k].id == x);
    }
    if has_id(n, x) {
        let k = choose|k: int| 0 <= k < n.len() && n[k].id == x;
        assert(o[k].id == x);
    }
}

pub proof fn lemma_lookup_some_has_id<P>(s: Seq<ClientEntry<P>>, x: u64)
    requires
        lookup(s, x) is Some,
    ensures
        has_id(s, x),
{
    if !has_id(s, x) {
        lemma_lookup_absent(s, x);
    }
}

/// Handing the operator role to a session's control client keeps the
/// operator a connected client.
pub proof fn lemma_reconcile_keeps_operator_connected<P>(
    o: Seq<ClientEntry<P>>,
    op: u64,
    n: Seq<ClientEntry<P>>,
    nop: u64,
    changed: u64,
    now_ns: u64,
    r: Option<u64>,
)
    requires
        reconcile_post(o, op, n, nop, changed, now_ns, r),
        op == 0 || has_id(o, op),
    ensures
        nop == 0 || has_id(n, nop),
{
    if r is Some {
        let ctl = r->0;
        let m = choose|m: String| m@ == role_message(ctl, TciClientRole::Operator)
            && enqueued_to(o, n, ctl, OutboundMessage::SafetyText(m), now_ns);
        assert(same_ids(o, n));
        lemma_lookup_some_has_id(o, ctl);
        lemma_same_ids_has_id(o, n, ctl);
    }
}

/// What enqueuing `message` for client `id` dropped: nothing when the client
/// is absent or the message would not fit the queue limits.
pub open spec fn sent_drop<P>(
    old_s: Seq<ClientEntry<P>>,
    new_s: Seq<ClientEntry<P>>,
    id: u64,
    message: OutboundMessage<P>,
    now_ns: u64,
    dropped: u64,
) -> bool {
    match (lookup(old_s, id), lookup(new_s, id)) {
        (Some(o), Some(n)) => if within_limits(o.outbound.queues, message) {
            enqueue_post(o.outbound.queues, n.outbound.queues, message, now_ns, dropped)
        } else {
            dropped == 0
        },
        _ => dropped == 0,
    }
}

proof fn lemma_lookup_insert<P>(a: Seq<ClientEntry<P>>, k: int, e: ClientEntry<P>, x: u64)
    requires
        ids_ascending(a),
        0 <= k <= a.len(),
        forall|j: int| 0 <= j < k ==> a[j].id < e.id,
        forall|j: int| k <= j < a.len() ==> a[j].id > e.id,
    ensures
        ids_ascending(a.insert(k, e)),
        lookup(a.insert(k, e), e.id) == Some(e.conn),
        x != e.id ==> lookup(a.insert(k, e), x) == lookup(a, x),
        has_id(a.insert(k, e), x) == (has_id(a, x) || x == e.id),
{
    let b = a.insert(k, e);
    assert(ids_ascending(b)) by {
        assert forall|i: int, j: int| 0 <= i < j < b.len() implies b[i].id < b[j].id by {
            if j < k {
            } else if j == k {
            } else if i < k {
            } else if i == k {
            } else {
            }
        }
    }
    lemma_lookup_ascending(b, k);
    if has_id(a, x) {
        let i = choose|i: int| 0 <= i < a.len() && a[i].id == x;
        lemma_lookup_ascending(a, i);
        if i < k {
            lemma_lookup_ascending(b, i);
            assert(b[i] == a[i]);
        } else {
            lemma_lookup_ascending(b, i + 1);
            assert(b[i + 1] == a[i]);
        }
        assert(has_id(b, x));
    } else if x != e.id {
        lemma_lookup_absent(a, x);
        assert(!has_id(b, x)) by {
            if has_id(b, x) {
                let i = choose|i: int| 0 <= i < b.len() && b[i].id == x;
                if i < k {
                    assert(a[i].id == x);
                } else if i > k {
                    assert(a[i - 1].id == x);
                }
            }
        }
        lemma_lookup_absent(b, x);
    } else {
        assert(b[k].id == x);
    }
}

proof fn lemma_lookup_remove<P>(a: Seq<ClientEntry<P>>, k: int, x: u64)
    requires
        ids_ascending(a),
        0 <= k < a.len(),
    ensures
        ids_ascending(a.remove(k)),
        lookup(a.remove(k), a[k].id) is None,
        !has_id(a.remove(k), a[k].id),
        x != a[k].id ==> lookup(a.remove(k), x) == lookup(a, x),
        x != a[k].id ==> has_id(a.remove(k), x) == has_id(a, x),
{
    let b = a.remove(k);
    assert(ids_ascending(b)) by {
        assert forall|i: int, j: int| 0 <= i < j < b.len() implies b[i].id < b[j].id by {
            if j < k {
            } else if i < k {
                assert(b[j] == a[j + 1]);
            } else {
                assert(b[i] == a[i + 1]);
                assert(b[j] == a[j + 1]);
            }
        }
    }
    assert(!has_id(b, a[k].id)) by {
        if has_id(b, a[k].id) {
            let i = choose|i: int| 0 <= i < b.len() && b[i].id == a[k].id;
            if i < k {
                assert(a[i].id < a[k].id);
            } else {
                assert(b[i] == a[i + 1]);
            }
        }
    }
    lemma_lookup_absent(b, a[k].id);
    if x != a[k].id {
        if has_id(a, x) {
            let i = choose|i: int| 0 <= i < a.len() && a[i].id == x;
            lemma_lookup_ascending(a, i);
            if i < k {
                lemma_lookup_ascending(b, i);
            } else {
                assert(b[i - 1] == a[i]);
                lemma_lookup_ascending(b, i - 1);
            }
            assert(has_id(b, x));
        } else {
            lemma_lookup_absent(a, x);
            assert(!has_id(b, x)) by {
                if has_id(b, x) {
                    let i = choose|i: int| 0 <= i < b.len() && b[i].id == x;
                    if i < k {
                        assert(a[i].id == x);
                    } else {
                        assert(b[i] == a[i + 1]);
                    }
                }
            }
            lemma_lookup_absent(b, x);
        }
    }
}

impl<P> ClientRegistry<P> {
    /// Puts `conn` under `id`, in id order (replacing a client with that id).
    fn insert_client(&mut self, id: u64, conn: ClientConnection<P>)
        requires
            old(self).wf(),
            conn.outbound.queues.wf(),
        ensures
            final(self).wf(),
            final(self).operator_client_id == old(self).operator_client_id,
            lookup(final(self).entries@, id) == Some(conn),
            forall|x: u64| #![trigger lookup(final(self).entries@, x)] x != id ==> lookup(final(self).entries@, x) == lookup(old(self).entries@, x),
            forall|x: u64| #![trigger has_id(final(self).entries@, x)] has_id(final(self).entries@, x) == (has_id(old(self).entries@, x) || x == id),
            final(self).entries@.len() == old(self).entries@.len() + (if has_id(old(self).entries@, id) {
                0int
            } else {
                1int
            }),
    {
        let ghost a = self.entries@;
        let mut k: usize = 0;
        while k < self.entries.len() && self.entries[k].id < id
            invariant
                k <= self.entries@.len(),
                self.entries@ == a,
                forall|j: int| 0 <= j < k ==> a[j].id < id,
            decreases self.entries@.len() - k,
        {
            k = k + 1;
        }
        if k < self.entries.len() && self.entries[k].id == id {
            let e = &mut self.entries[k];
            e.conn = conn;
            proof {
                assert forall|x: u64| x != id implies lookup(self.entries@, x) == lookup(a, x) by {
                    lemma_lookup_same_ids(a, self.entries@, k as int, x);
                }
                lemma_lookup_ascending(self.entries@, k as int);
                assert(has_id(a, id));
                assert forall|x: u64| has_id(self.entries@, x) == (has_id(a, x) || x == id) by {
                    if has_id(a, x) {
                        let i = choose|i: int| 0 <= i < a.len() && a[i].id == x;
                        assert(self.entries@[i].id == x);
                    }
                    if has_id(self.entries@, x) {
                        let i = choose|i: int| 0 <= i < a.len() && self.entries@[i].id == x;
                        assert(a[i].id == x);
                    }
                }
            }
        } else {
            proof {
                assert forall|j: int| k <= j < a.len() implies a[j].id > id by {
                    if a[k as int].id > id {
                        if j > k {
                            assert(a[k as int].id < a[j].id);
                        }
                    }
                }
                assert(!has_id(a, id)) by {
                    if has_id(a, id) {
                        let i = choose|i: int| 0 <= i < a.len() && a[i].id == id;
                    }
                }
            }
            let e = ClientEntry { id, conn };
            let ghost eg = e;
            self.entries.insert(k, e);
            proof {
                assert forall|x: u64| x != id implies lookup(self.entries@, x) == lookup(a, x) by {
                    lemma_lookup_insert(a, k as int, eg, x);
                }
                assert forall|x: u64| has_id(self.entries@, x) == (has_id(a, x) || x == id) by {
                    lemma_lookup_insert(a, k as int, eg, x);
                }
                lemma_lookup_insert(a, k as int, eg, id);
                assert forall|i: int| 0 <= i < self.entries@.len() implies (#[trigger] self.entries@[i]).conn.outbound.queues.wf() by {
                    if i < k {
                        assert(self.entries@[i] == a[i]);
                    } else if i > k {
                        assert(self.entries@[i] == a[i - 1]);
                    }
                }
            }
        }
    }

    /// Removes the client with this id, if any.
    fn remove_client(&mut self, id: u64)
        requires
            old(self).wf(),
        ensures
            final(self).wf(),
            final(self).operator_client_id == old(self).operator_client_id,
            lookup(final(self).entries@, id) is None,
            !has_id(final(self).entries@, id),
            forall|x: u64| #![trigger lookup(final(self).entries@, x)] x != id ==> lookup(final(self).entries@, x) == lookup(old(self).entries@, x),
            forall|x: u64| #![trigger has_id(final(self).entries@, x)] x != id ==> has_id(final(self).entries@, x) == has_id(old(self).entries@, x),
            final(self).entries@.len() == old(self).entries@.len() - (if has_id(old(self).entries@, id) {
                1int
            } else {
                0int
            }),
    {
        let ghost a = self.entries@;
        match self.find(id) {
            Some(k) => {
                let _ = self.entries.remove(k);
                proof {
                    assert forall|x: u64| x != id implies lookup(self.entries@, x) == lookup(a, x) && has_id(self.entries@, x) == has_id(a, x) by {
                        lemma_lookup_remove(a, k as int, x);
                    }
                    lemma_lookup_remove(a, k as int, id);
                    assert forall|i: int| 0 <= i < self.entries@.len() implies (#[trigger] self.entries@[i]).conn.outbound.queues.wf() by {
                        if i < k {
                            assert(self.entries@[i] == a[i]);
                        } else {
                            assert(self.entries@[i] == a[i + 1]);
                        }
                    }
                }
            },
            None => {
                proof {
                    lemma_lookup_absent(a, id);
                    assert forall|x: u64| x != id implies lookup(self.entries@, x) == lookup(a, x) by {}
                }
            },
        }
    }

    /// Enqueues `message` for a client (when its counters can take it).
    pub fn send_message_to(&mut self, client_id: u64, message: OutboundMessage<P>, now_ns: u64) -> (dropped: u64)
        requires
            old(self).wf(),
        ensures
            final(self).wf(),
            final(self).operator_client_id == old(self).operator_client_id,
            enqueued_to(old(self).entries@, final(self).entries@, client_id, message, now_ns),
            sent_drop(old(self).entries@, final(self).entries@, client_id, message, now_ns, dropped),
    {
        let ghost a = self.entries@;
        match self.find(client_id) {
            Some(i) => {
                let ghost m = message;
                let e = &mut self.entries[i];
                let r = e.conn.outbound.enqueue_within_limits(message, now_ns);
                let dropped = match r {
                    Some(d) => d,
                    None => 0,
                };
                proof {
                    assert forall|x: u64| x != client_id implies lookup(self.entries@, x) == lookup(a, x) by {
                        lemma_lookup_same_ids(a, self.entries@, i as int, x);
                    }
                    assert(ids_ascending(self.entries@));
                    lemma_lookup_ascending(a, i as int);
                    lemma_lookup_ascending(self.entries@, i as int);
                    if within_limits(a[i as int].conn.outbound.queues, m) {
                        let d = r.unwrap();
                        assert(enqueue_post(a[i as int].conn.outbound.queues, self.entries@[i as int].conn.outbound.queues, m, now_ns, d));
                    }
                }
                dropped
            },
            None => {
                proof {
                    lemma_lookup_absent(a, client_id);
                }
                0
            },
        }
    }

    /// Marks a client's writer as running; nothing else changes.
    pub fn mark_client_writer_started(&mut self, client_id: u64)
        requires
            old(self).wf(),
        ensures
            final(self).wf(),
            final(self).operator_client_id == old(self).operator_client_id,
            final(self).entries@.len() == old(self).entries@.len(),
            forall|j: int| 0 <= j < old(self).entries@.len() ==> (#[trigger] final(self).entries@[j]).id == old(self).entries@[j].id,
            forall|x: u64| #![trigger lookup(final(self).entries@, x)] x != client_id ==> lookup(final(self).entries@, x) == lookup(old(self).entries@, x),
            match (lookup(old(self).entries@, client_id), lookup(final(self).entries@, client_id)) {
                (Some(o), Some(n)) => n.state == o.state && n.outbound.queues.writer_started
                    && n.outbound.queues.safety@ == o.outbound.queues.safety@
                    && n.outbound.queues.control@ == o.outbound.queues.control@
                    && n.outbound.queues.audio@ == o.outbound.queues.audio@
                    && n.outbound.queues.display == o.outbound.queues.display
                    && n.outbound.queues.queued_bytes == o.outbound.queues.queued_bytes
                    && n.outbound.queues.audio_queued_frames == o.outbound.queues.audio_queued_frames
                    && n.outbound.queues.audio_sequence == o.outbound.queues.audio_sequence
                    && n.outbound.stats == o.outbound.stats,
                (None, None) => true,
                _ => false,
            },
    {
        let ghost a = self.entries@;
        match self.find(client_id) {
            Some(i) => {
                self.entries[i].conn.outbound.mark_writer_started();
                proof {
                    assert forall|x: u64| x != client_id implies lookup(self.entries@, x) == lookup(a, x) by {
                        lemma_lookup_same_ids(a, self.entries@, i as int, x);
                    }
                    assert(ids_ascending(self.entries@)) by {
                        if a.len() > 1 {
                            let other: u64 = if a[0].id == client_id { a[1].id } else { a[0].id };
                            lemma_lookup_same_ids(a, self.entries@, i as int, other);
                        }
                    }
                    lemma_lookup_ascending(a, i as int);
                    lemma_lookup_ascending(self.entries@, i as int);
                }
            },
            None => {
                proof {
                    lemma_lookup_absent(a, client_id);
                }
            },
        }
    }

    /// Sends a text message to a client.
    pub fn send_text_to_client(&mut self, client_id: u64, text: String, now_ns: u64) -> (dropped: u64)
        requires
            old(self).wf(),
        ensures
            final(self).wf(),
            final(self).operator_client_id == old(self).operator_client_id,
            enqueued_to(old(self).entries@, final(self).entries@, client_id, OutboundMessage::Text(text), now_ns),
            sent_drop(old(self).entries@, final(self).entries@, client_id, OutboundMessage::Text(text), now_ns, dropped),
    {
        self.send_message_to(client_id, OutboundMessage::Text(text), now_ns)
    }

    /// Tells a client its role (a safety message); says whether the client
    /// is connected.
    pub fn send_role_to_client(&mut self, client_id: u64, role: TciClientRole, now_ns: u64) -> (sent: bool)
        requires
            old(self).wf(),
        ensures
            final(self).wf(),
            final(self).operator_client_id == old(self).operator_client_id,
            sent == has_id(old(self).entries@, client_id),
            sent ==> exists|m: String| m@ == role_message(client_id, role) && enqueued_to(
                old(self).entries@,
                final(self).entries@,
                client_id,
                OutboundMessage::SafetyText(m),
                now_ns,
            ),
            !sent ==> final(self).entries@ == old(self).entries@,
    {
        if !self.contains(client_id) {
            return false;
        }
        let m = remote_client_role_message(client_id, role);
        let ghost mg = m;
        self.send_message_to(client_id, OutboundMessage::SafetyText(m), now_ns);
        true
    }

    /// Registers a new client with fresh state and empty queues. It becomes
    /// the operator when there is none (or the recorded one is gone).
    /// Returns its role, whether it is the first client, and the client count.
    pub fn register_client(
        &mut self,
        client_id: u64,
        flags: TxCodecRuntimeFlags,
        connect_lane_hint: Option<SplitSocketKind>,
    ) -> (r: (TciClientRole, bool, usize))
        requires
            old(self).wf(),
        ensures
            final(self).wf(),
            lookup(final(self).entries@, client_id) matches Some(c) && fresh_state(c.state, flags, connect_lane_hint)
                && c.outbound.queues.safety@.len() == 0 && c.outbound.queues.control@.len() == 0
                && c.outbound.queues.audio@.len() == 0 && c.outbound.queues.display is None,
            forall|x: u64| #![trigger lookup(final(self).entries@, x)] x != client_id ==> lookup(final(self).entries@, x) == lookup(old(self).entries@, x),
            forall|x: u64| #![trigger has_id(final(self).entries@, x)] has_id(final(self).entries@, x) == (has_id(old(self).entries@, x) || x == client_id),
            r.1 == (old(self).entries@.len() == 0),
            r.2 == final(self).entries@.len(),
            final(self).entries@.len() == old(self).entries@.len() + (if has_id(old(self).entries@, client_id) {
                0int
            } else {
                1int
            }),
            (old(self).operator_client_id == 0 || !has_id(final(self).entries@, old(self).operator_client_id))
                ==> r.0 == TciClientRole::Operator && final(self).operator_client_id == client_id,
            !(old(self).operator_client_id == 0 || !has_id(final(self).entries@, old(self).operator_client_id))
                ==> r.0 == TciClientRole::Viewer && final(self).operator_client_id == old(self).operator_client_id,
    {
        let first_client = self.entries.len() == 0;
        let state = ClientState::with_tx_codec_runtime_flags(flags, connect_lane_hint);
        let outbound = ClientOutbound::new();
        self.insert_client(client_id, ClientConnection { outbound, state });
        let current = self.operator_client_id;
        let role = if current == 0 || !self.contains(current) {
            self.operator_client_id = client_id;
            TciClientRole::Operator
        } else {
            TciClientRole::Viewer
        };
        (role, first_client, self.entries.len())
    }
}

proof fn lemma_first_in_lane_member<P>(s: Seq<ClientEntry<P>>, sid: Seq<char>, lane: SplitSocketKind)
    requires
        first_in_lane(s, sid, lane) is Some,
    ensures
        exists|i: int| 0 <= i < s.len() && s[i].id == first_in_lane(s, sid, lane)->0 && in_session_lane(s[i], sid, lane),
    decreases s.len(),
{
    if in_session_lane(s[0], sid, lane) {
        assert(s[0].id == first_in_lane(s, sid, lane)->0);
    } else {
        lemma_first_in_lane_member(s.drop_first(), sid, lane);
        let i = choose|i: int| 0 <= i < s.drop_first().len() && s.drop_first()[i].id == first_in_lane(s.drop_first(), sid, lane)->0
            && in_session_lane(s.drop_first()[i], sid, lane);
        assert(s[i + 1] == s.drop_first()[i]);
    }
}

/// The paired media client is connected, on the media lane, and not the control client.
proof fn lemma_paired_media_member<P>(s: Seq<ClientEntry<P>>, id: u64)
    requires
        ids_ascending(s),
        paired_media(s, id) is Some,
    ensures
        has_id(s, paired_media(s, id)->0),
        paired_media(s, id)->0 != id,
        lookup(s, paired_media(s, id)->0) matches Some(c) && is_split_media(c.state),
{
    let c = lookup(s, id)->0;
    let m = c.state.split->0;
    lemma_first_in_lane_member(s, m.session_id@, SplitSocketKind::Media);
    let i = choose|i: int| 0 <= i < s.len() && s[i].id == first_in_lane(s, m.session_id@, SplitSocketKind::Media)->0
        && in_session_lane(s[i], m.session_id@, SplitSocketKind::Media);
    lemma_lookup_ascending(s, i);
    assert(has_id(s, s[i].id));
}

impl<P> ClientRegistry<P> {
    /// Asks the media client paired with a control client to close; returns
    /// the media client's id.
    pub fn queue_split_media_peer_close_for_control(&mut self, control_client_id: u64, now_ns: u64) -> (r: Option<u64>)
        requires
            old(self).wf(),
        ensures
            final(self).wf(),
            final(self).operator_client_id == old(self).operator_client_id,
            r == paired_media(old(self).entries@, control_client_id),
            r matches Some(m) ==> enqueued_to(old(self).entries@, final(self).entries@, m, OutboundMessage::Close, now_ns),
            r is None ==> final(self).entries@ == old(self).entries@,
    {
        let peer = self.split_paired_media_client_id(control_client_id);
        match peer {
            Some(m) => {
                self.send_message_to(m, OutboundMessage::Close, now_ns);
                Some(m)
            },
            None => None,
        }
    }

    /// Unregisters a client: its paired media client is asked to close, and
    /// when it was the operator the lowest-id client not on a media lane
    /// takes over (or none).
    pub fn unregister_client(&mut self, client_id: u64, now_ns: u64) -> (r: ClientDisconnect)
        requires
            old(self).wf(),
        ensures
            final(self).wf(),
            r.split_media_loss_forces_rx == media_paired_with_operator(old(self).entries@, old(self).operator_client_id, client_id),
            r.split_closed_peer == paired_media(old(self).entries@, client_id),
            r.was_operator == (old(self).operator_client_id == client_id),
            !has_id(final(self).entries@, client_id),
            forall|x: u64| #![trigger has_id(final(self).entries@, x)] x != client_id ==> has_id(final(self).entries@, x) == has_id(old(self).entries@, x),
            forall|x: u64| #![trigger lookup(final(self).entries@, x)]
                x != client_id && r.split_closed_peer != Some(x) ==> lookup(final(self).entries@, x) == lookup(old(self).entries@, x),
            r.split_closed_peer matches Some(m) ==> (match (lookup(old(self).entries@, m), lookup(final(self).entries@, m)) {
                (Some(o), Some(n)) => n.state == o.state && exists|d: u64| enqueue_post(o.outbound.queues, n.outbound.queues, OutboundMessage::Close, now_ns, d),
                _ => false,
            }),
            r.was_operator ==> r.promoted_operator == first_non_media(final(self).entries@) && final(self).operator_client_id == (match r.promoted_operator {
                Some(p) => p,
                None => 0,
            }),
            !r.was_operator ==> r.promoted_operator is None && final(self).operator_client_id == old(self).operator_client_id,
            r.remaining_clients == final(self).entries@.len(),
    {
        let ghost a = self.entries@;
        let current = self.operator_client_id;
        let forces_rx = self.split_media_client_paired_with_operator(client_id);
        proof {
            if paired_media(a, client_id) is Some {
                lemma_paired_media_member(a, client_id);
                let m = paired_media(a, client_id)->0;
                let i = choose|i: int| 0 <= i < a.len() && a[i].id == m;
                lemma_lookup_ascending(a, i);
                assert(a[i].conn.outbound.queues.wf());
            }
        }
        let closed = self.queue_split_media_peer_close_for_control(client_id, now_ns);
        let ghost b = self.entries@;
        self.remove_client(client_id);
        let was_operator = current == client_id;
        let mut promoted: Option<u64> = None;
        if was_operator {
            match self.first_non_media_exec() {
                Some(next) => {
                    self.operator_client_id = next;
                    promoted = Some(next);
                },
                None => {
                    self.operator_client_id = 0;
                },
            }
        }
        proof {
            assert forall|x: u64| x != client_id implies has_id(self.entries@, x) == has_id(a, x) by {
                if has_id(a, x) {
                    let i = choose|i: int| 0 <= i < a.len() && a[i].id == x;
                    assert(b[i].id == x);
                }
                if has_id(b, x) {
                    let i = choose|i: int| 0 <= i < b.len() && b[i].id == x;
                    assert(a[i].id == x);
                }
            }
        }
        ClientDisconnect {
            was_operator,
            split_media_loss_forces_rx: forces_rx,
            split_closed_peer: closed,
            promoted_operator: promoted,
            remaining_clients: self.entries.len(),
        }
    }
}

/// The client's split metadata after declaring session `t`: kept (or
/// created with nothing declared) when its session is `t`; `set_role` or
/// `set_lane` then records what was declared. Nothing else changes.
pub open spec fn declared(
    old_st: ClientState,
    new_st: ClientState,
    t: Seq<char>,
    role: Option<TciClientRole>,
    lane: Option<SplitSocketKind>,
) -> bool {
    &&& new_st == ClientState { split: new_st.split, ..old_st }
    &&& new_st.split matches Some(m) && m.session_id@ == t && match old_st.split {
        Some(o) => m.role == (if role is Some {
            role
        } else {
            o.role
        }) && m.lane == (if lane is Some {
            lane
        } else {
            o.lane
        }) && m.ignore_media_until_ns == o.ignore_media_until_ns,
        None => m.role == role && m.lane == lane && m.ignore_media_until_ns is None,
    }
}

/// A client may declare session `t` when it declared none or that one.
pub open spec fn may_declare(st: ClientState, t: Seq<char>) -> bool {
    match st.split {
        Some(m) => m.session_id@ == t,
        None => true,
    }
}

/// How many clients are on `lane`.
pub open spec fn lane_count<P>(s: Seq<ClientEntry<P>>, lane: SplitSocketKind) -> nat
    decreases s.len(),
{
    if s.len() == 0 {
        0
    } else {
        lane_count(s.drop_last(), lane) + if split_lane(s.last().conn.state) == Some(lane) {
            1nat
        } else {
            0nat
        }
    }
}

/// Entry `i` is the lowest-id control client of a session that also has a
/// media client.
pub open spec fn heads_paired_session<P>(s: Seq<ClientEntry<P>>, i: int) -> bool {
    match s[i].conn.state.split {
        Some(m) => m.lane == Some(SplitSocketKind::Control) && first_in_lane(s, m.session_id@, SplitSocketKind::Control)
            == Some(s[i].id) && first_in_lane(s, m.session_id@, SplitSocketKind::Media) is Some,
        None => false,
    }
}

/// Sessions with both lanes connected: one per session, counted at its
/// lowest-id control client among the first `n` entries.
pub open spec fn paired_sessions<P>(s: Seq<ClientEntry<P>>, n: int) -> nat
    decreases n,
{
    if n <= 0 {
        0
    } else {
        paired_sessions(s, n - 1) + if heads_paired_session(s, n - 1) {
            1nat
        } else {
            0nat
        }
    }
}

/// Media clients in session `sid` among the first `n` entries.
pub open spec fn media_in_session<P>(s: Seq<ClientEntry<P>>, sid: Seq<char>, n: int) -> nat
    decreases n,
{
    if n <= 0 {
        0
    } else {
        media_in_session(s, sid, n - 1) + if in_session_lane(s[n - 1], sid, SplitSocketKind::Media) {
            1nat
        } else {
            0nat
        }
    }
}

/// The lane a client's traffic goes by: its declared lane, else the lane
/// of its request path.
pub open spec fn effective_lane(st: ClientState) -> Option<SplitSocketKind> {
    match split_lane(st) {
        Some(l) => Some(l),
        None => st.connect_lane_hint,
    }
}

/// Text goes to control (or unsplit) clients; binary frames to media (or
/// unsplit) clients that asked for that stream, unless transmit media has
/// priority; a close always goes.
pub open spec fn wants<P>(st: ClientState, message: OutboundMessage<P>, tx_media_priority_active: bool) -> bool {
    let lane = effective_lane(st);
    match message {
        OutboundMessage::Close => true,
        OutboundMessage::Text(_) => lane != Some(SplitSocketKind::Media),
        OutboundMessage::SafetyText(_) => lane != Some(SplitSocketKind::Media),
        OutboundMessage::IqFrame { .. } => lane != Some(SplitSocketKind::Control) && st.iq_stream_enabled
            && !tx_media_priority_active,
        OutboundMessage::TxIqFrame { .. } => lane != Some(SplitSocketKind::Control) && st.iq_stream_enabled
            && !tx_media_priority_active,
        OutboundMessage::AudioFrame { .. } => lane != Some(SplitSocketKind::Control)
            && st.audio_stream_enabled && !tx_media_priority_active,
    }
}

pub fn client_wants_outbound_message<P>(
    client: &ClientConnection<P>,
    message: &OutboundMessage<P>,
    tx_media_priority_active: bool,
) -> (b: bool)
    ensures
        b == wants(client.state, *message, tx_media_priority_active),
{
    let declared = match &client.state.split {
        Some(m) => m.lane,
        None => None,
    };
    let lane = match declared {
        Some(l) => Some(l),
        None => client.state.connect_lane_hint,
    };
    match message {
        OutboundMessage::Close => true,
        OutboundMessage::Text(_) | OutboundMessage::SafetyText(_) => lane != Some(SplitSocketKind::Media),
        OutboundMessage::IqFrame { .. } | OutboundMessage::TxIqFrame { .. } => lane != Some(
            SplitSocketKind::Control,
        ) && client.state.iq_stream_enabled && !tx_media_priority_active,
        OutboundMessage::AudioFrame { .. } => lane != Some(SplitSocketKind::Control)
            && client.state.audio_stream_enabled && !tx_media_priority_active,
    }
}

/// What declaring split session `session` (a role or a lane) does to the
/// clients; `ok` says whether it was recorded.
pub open spec fn declare_post<P>(
    old_s: Seq<ClientEntry<P>>,
    new_s: Seq<ClientEntry<P>>,
    client_id: u64,
    session: Seq<char>,
    role: Option<TciClientRole>,
    lane: Option<SplitSocketKind>,
    ok: bool,
) -> bool {
    &&& ok == (normalized_session_id(session) matches Some(t) && lookup(old_s, client_id) matches Some(c)
        && may_declare(c.state, t))
    &&& ok ==> (normalized_session_id(session) matches Some(t) && lookup(old_s, client_id) matches Some(o)
        && lookup(new_s, client_id) matches Some(n) && n.outbound == o.outbound && declared(o.state, n.state, t, role, lane))
    &&& forall|x: u64| #![trigger lookup(new_s, x)] x != client_id ==> lookup(new_s, x) == lookup(old_s, x)
    &&& !ok ==> new_s == old_s
    &&& new_s.len() == old_s.len()
    &&& forall|j: int| 0 <= j < old_s.len() ==> (#[trigger] new_s[j]).id == old_s[j].id
}

impl<P> ClientRegistry<P> {
    /// Records a declaration of session `t` (role or lane) for the client at `i`.
    fn declare_at(&mut self, i: usize, t: &Vec<char>, role: Option<TciClientRole>, lane: Option<SplitSocketKind>) -> (ok: bool)
        requires
            old(self).wf(),
            i < old(self).entries@.len(),
        ensures
            final(self).wf(),
            final(self).operator_client_id == old(self).operator_client_id,
            ok == may_declare(old(self).entries@[i as int].conn.state, t@),
            final(self).entries@.len() == old(self).entries@.len(),
            final(self).entries@[i as int].id == old(self).entries@[i as int].id,
            final(self).entries@[i as int].conn.outbound == old(self).entries@[i as int].conn.outbound,
            ok ==> declared(old(self).entries@[i as int].conn.state, final(self).entries@[i as int].conn.state, t@, role, lane),
            !ok ==> final(self).entries@ == old(self).entries@,
            forall|j: int| 0 <= j < old(self).entries@.len() && j != i ==> final(self).entries@[j] == old(self).entries@[j],
            forall|x: u64| #![trigger lookup(final(self).entries@, x)] x != old(self).entries@[i as int].id ==> lookup(final(self).entries@, x) == lookup(old(self).entries@, x),
    {
        let ghost a = self.entries@;
        let e = &mut self.entries[i];
        let ok = match &mut e.conn.state.split {
            Some(m) => {
                if eq_chars(&m.session_id, t) {
                    if role.is_some() {
                        m.role = role;
                    }
                    if lane.is_some() {
                        m.lane = lane;
                    }
                    true
                } else {
                    false
                }
            },
            None => {
                e.conn.state.split = Some(
                    SplitClientMetadata { session_id: copy_chars(t), lane, role, ignore_media_until_ns: None },
                );
                true
            },
        };
        proof {
            assert forall|x: u64| x != a[i as int].id implies lookup(self.entries@, x) == lookup(a, x) by {
                lemma_lookup_same_ids(a, self.entries@, i as int, x);
            }
            assert(ids_ascending(self.entries@));
            if !ok {
                assert(self.entries@ =~= a);
            }
        }
        ok
    }

    /// Records that a client opened split session `session_id` with `role`;
    /// false when the id normalizes to nothing, the client is unknown, or it
    /// already declared another session.
    pub fn set_client_split_session_open(&mut self, client_id: u64, session_id: &str, role: TciClientRole) -> (ok: bool)
        requires
            old(self).wf(),
        ensures
            final(self).wf(),
            final(self).operator_client_id == old(self).operator_client_id,
            declare_post(old(self).entries@, final(self).entries@, client_id, session_id@, Some(role), None, ok),
    {
        let t = match normalize_split_session_id_chars(&chars_of(session_id)) {
            Some(t) => t,
            None => return false,
        };
        match self.find(client_id) {
            Some(i) => {
                let ghost a = self.entries@;
                let ok = self.declare_at(i, &t, Some(role), None);
                proof {
                    lemma_lookup_ascending(self.entries@, i as int);
                }
                ok
            },
            None => false,
        }
    }

    /// Records that a client declared `lane` of split session `session_id`;
    /// false as for opening.
    pub fn set_client_split_session_lane(&mut self, client_id: u64, session_id: &str, lane: SplitSocketKind) -> (ok: bool)
        requires
            old(self).wf(),
        ensures
            final(self).wf(),
            final(self).operator_client_id == old(self).operator_client_id,
            declare_post(old(self).entries@, final(self).entries@, client_id, session_id@, None, Some(lane), ok),
    {
        let t = match normalize_split_session_id_chars(&chars_of(session_id)) {
            Some(t) => t,
            None => return false,
        };
        match self.find(client_id) {
            Some(i) => {
                let ok = self.declare_at(i, &t, None, Some(lane));
                proof {
                    lemma_lookup_ascending(self.entries@, i as int);
                }
                ok
            },
            None => false,
        }
    }

    /// A media client may supply mic audio when it is paired with the
    /// operator's control client and outside its ignore window.
    pub fn split_media_client_can_supply_mic(&self, media_client_id: u64, now_ns: u64) -> (b: bool)
        ensures
            b == (media_paired_with_operator(self.entries@, self.operator_client_id, media_client_id)
                && !(lookup(self.entries@, media_client_id) matches Some(c) && c.state.split matches Some(m)
                && m.ignore_media_until_ns matches Some(u) && now_ns < u)),
    {
        if !self.split_media_client_paired_with_operator(media_client_id) {
            return false;
        }
        match self.find(media_client_id) {
            Some(i) => match &self.entries[i].conn.state.split {
                Some(m) => match m.ignore_media_until_ns {
                    Some(u) => !(now_ns < u),
                    None => true,
                },
                None => true,
            },
            None => true,
        }
    }
}

/// The control client that takes the operator role after `changed` declared
/// its session: the session must be paired, its control client must have
/// opened it as operator and not be the operator already, and the current
/// operator must be gone (or none) or be that session's media client.
pub open spec fn reconcile_target<P>(s: Seq<ClientEntry<P>>, operator: u64, changed: u64) -> Option<u64> {
    match pair_for_client(s, changed) {
        Some((ctl, media)) => match lookup(s, ctl) {
            Some(c) => match c.state.split {
                Some(m) => if m.role != Some(TciClientRole::Operator) || operator == ctl {
                    None
                } else if !(operator == 0 || !has_id(s, operator)) && operator != media {
                    None
                } else {
                    Some(ctl)
                },
                None => None,
            },
            None => None,
        },
        None => None,
    }
}

/// Where a safety message for a client goes: a media client's messages go
/// to its session's control client.
pub open spec fn safety_target<P>(s: Seq<ClientEntry<P>>, id: u64) -> u64 {
    match lookup(s, id) {
        Some(c) => match c.state.split {
            Some(m) => if m.lane == Some(SplitSocketKind::Media) {
                match pair_in(s, m.session_id@) {
                    Some((ctl, _)) => ctl,
                    None => id,
                }
            } else {
                id
            },
            None => id,
        },
        None => id,
    }
}

/// Only the media ignore window of the split metadata changed, to `until`.
pub open spec fn ignore_set(o: ClientState, n: ClientState, until: Option<u64>) -> bool {
    &&& n == ClientState { split: n.split, ..o }
    &&& match (o.split, n.split) {
        (Some(om), Some(nm)) => nm == SplitClientMetadata { ignore_media_until_ns: until, ..om },
        _ => false,
    }
}

/// What reconciling the operator role after `changed` declared does: the
/// target of `reconcile_target` becomes the operator and is told so.
pub open spec fn reconcile_post<P>(
    old_s: Seq<ClientEntry<P>>,
    old_op: u64,
    new_s: Seq<ClientEntry<P>>,
    new_op: u64,
    changed: u64,
    now_ns: u64,
    r: Option<u64>,
) -> bool {
    &&& r == reconcile_target(old_s, old_op, changed)
    &&& r matches Some(ctl) ==> new_op == ctl && exists|m: String| m@ == role_message(ctl, TciClientRole::Operator)
        && enqueued_to(old_s, new_s, ctl, OutboundMessage::SafetyText(m), now_ns)
    &&& r is None ==> new_op == old_op && new_s == old_s
}

impl<P> ClientRegistry<P> {
    /// Moves the operator role to a session's control client when its
    /// declaration completes a pairing (see `reconcile_target`), telling it
    /// so. Returns the new operator.
    pub fn reconcile_split_operator_role(&mut self, changed_client_id: u64, now_ns: u64) -> (r: Option<u64>)
        requires
            old(self).wf(),
        ensures
            final(self).wf(),
            reconcile_post(old(self).entries@, old(self).operator_client_id, final(self).entries@, final(self).operator_client_id, changed_client_id, now_ns, r),
    {
        let current = self.operator_client_id;
        let pair = match self.split_session_pair_for_client(changed_client_id) {
            Some(p) => p,
            None => return None,
        };
        let ctl = pair.control_client_id;
        let i = match self.find(ctl) {
            Some(i) => i,
            None => return None,
        };
        let is_operator_role = match &self.entries[i].conn.state.split {
            Some(m) => m.role == Some(TciClientRole::Operator),
            None => return None,
        };
        if !is_operator_role || current == ctl {
            return None;
        }
        let missing = current == 0 || !self.contains(current);
        let is_paired_media = current == pair.media_client_id;
        if !missing && !is_paired_media {
            return None;
        }
        self.operator_client_id = ctl;
        let m = remote_client_role_message(ctl, TciClientRole::Operator);
        self.send_message_to(ctl, OutboundMessage::SafetyText(m), now_ns);
        Some(ctl)
    }

    /// Sends a safety message to a client, or for a media client to its
    /// session's control client.
    pub fn send_safety_text_to_client_or_control(&mut self, client_id: u64, text: String, now_ns: u64)
        requires
            old(self).wf(),
        ensures
            final(self).wf(),
            final(self).operator_client_id == old(self).operator_client_id,
            enqueued_to(
                old(self).entries@,
                final(self).entries@,
                safety_target(old(self).entries@, client_id),
                OutboundMessage::SafetyText(text),
                now_ns,
            ),
    {
        let target = match self.find(client_id) {
            Some(i) => match &self.entries[i].conn.state.split {
                Some(m) => if m.lane == Some(SplitSocketKind::Media) {
                    match self.split_session_pair_in_clients(&m.session_id) {
                        Some(p) => p.control_client_id,
                        None => client_id,
                    }
                } else {
                    client_id
                },
                None => client_id,
            },
            None => client_id,
        };
        self.send_message_to(target, OutboundMessage::SafetyText(text), now_ns);
    }

    /// How many clients are on `lane`.
    pub fn split_lane_client_count(&self, lane: SplitSocketKind) -> (n: u64)
        ensures
            n as nat == lane_count(self.entries@, lane),
    {
        let mut n: u64 = 0;
        let mut i: usize = 0;
        while i < self.entries.len()
            invariant
                i <= self.entries@.len(),
                n as nat == lane_count(self.entries@.subrange(0, i as int), lane),
                n <= i,
            decreases self.entries@.len() - i,
        {
            let hit = match &self.entries[i].conn.state.split {
                Some(m) => m.lane == Some(lane),
                None => false,
            };
            proof {
                let t = self.entries@.subrange(0, i + 1);
                assert(t.drop_last() =~= self.entries@.subrange(0, i as int));
                assert(t.last() == self.entries@[i as int]);
            }
            if hit {
                n = n + 1;
            }
            i = i + 1;
        }
        assert(self.entries@.subrange(0, i as int) =~= self.entries@);
        n
    }

    /// How many sessions have both a control and a media client connected.
    pub fn split_paired_session_count(&self) -> (n: u64)
        ensures
            n as nat == paired_sessions(self.entries@, self.entries@.len() as int),
    {
        let mut n: u64 = 0;
        let mut i: usize = 0;
        while i < self.entries.len()
            invariant
                i <= self.entries@.len(),
                n as nat == paired_sessions(self.entries@, i as int),
                n <= i,
            decreases self.entries@.len() - i,
        {
            let heads = match &self.entries[i].conn.state.split {
                Some(m) => m.lane == Some(SplitSocketKind::Control) && self.first_in_lane_exec(
                    &m.session_id,
                    SplitSocketKind::Control,
                ) == Some(self.entries[i].id) && self.first_in_lane_exec(
                    &m.session_id,
                    SplitSocketKind::Media,
                ).is_some(),
                None => false,
            };
            if heads {
                n = n + 1;
            }
            i = i + 1;
        }
        n
    }

    /// Sets the media ignore window of the operator's session; returns how
    /// many media clients it reached (none unless the operator is a control client).
    pub fn set_split_media_ignore_until(&mut self, ignore_until_ns: Option<u64>) -> (updated: u64)
        requires
            old(self).wf(),
        ensures
            final(self).wf(),
            final(self).operator_client_id == old(self).operator_client_id,
            media_ignore_post(old(self).entries@, final(self).entries@, old(self).operator_client_id, ignore_until_ns),
            updated as nat == (match operator_control_session(old(self).entries@, old(self).operator_client_id) {
                Some(t) => media_in_session(old(self).entries@, t, old(self).entries@.len() as int),
                None => 0,
            }),
    {
        let op = self.operator_client_id;
        if op == 0 {
            return 0;
        }
        let sid = match self.find(op) {
            Some(i) => match &self.entries[i].conn.state.split {
                Some(m) => if m.lane == Some(SplitSocketKind::Control) {
                    copy_chars(&m.session_id)
                } else {
                    return 0;
                },
                None => return 0,
            },
            None => return 0,
        };
        let ghost a = self.entries@;
        let mut updated: u64 = 0;
        let mut i: usize = 0;
        while i < self.entries.len()
            invariant
                i <= self.entries@.len(),
                self.entries@.len() == a.len(),
                self.operator_client_id == op,
                ids_ascending(a),
                forall|k: int| 0 <= k < a.len() ==> (#[trigger] a[k]).conn.outbound.queues.wf(),
                updated as nat == media_in_session(a, sid@, i as int),
                updated <= i,
                forall|j: int| i <= j < a.len() ==> self.entries@[j] == a[j],
                forall|j: int| 0 <= j < i ==> {
                    let o = #[trigger] a[j];
                    let n = self.entries@[j];
                    &&& n.id == o.id && n.conn.outbound == o.conn.outbound
                    &&& if in_session_lane(o, sid@, SplitSocketKind::Media) {
                        ignore_set(o.conn.state, n.conn.state, ignore_until_ns)
                    } else {
                        n == o
                    }
                },
            decreases a.len() - i,
        {
            let e = &mut self.entries[i];
            let hit = match &mut e.conn.state.split {
                Some(m) => {
                    if eq_chars(&m.session_id, &sid) && m.lane == Some(SplitSocketKind::Media) {
                        m.ignore_media_until_ns = ignore_until_ns;
                        true
                    } else {
                        false
                    }
                },
                None => false,
            };
            if hit {
                updated = updated + 1;
            }
            i = i + 1;
        }
        proof {
            assert(ids_ascending(self.entries@)) by {
                assert forall|x: int, y: int| 0 <= x < y < self.entries@.len() implies self.entries@[x].id < self.entries@[y].id by {
                    assert(self.entries@[x].id == a[x].id);
                    assert(self.entries@[y].id == a[y].id);
                }
            }
            assert forall|k: int| 0 <= k < self.entries@.len() implies (#[trigger] self.entries@[k]).conn.outbound.queues.wf() by {
                assert(self.entries@[k].conn.outbound == a[k].conn.outbound);
            }
        }
        updated
    }
}

/// The session of the operator when the operator is the control lane of a
/// split session (no operator: none).
pub open spec fn operator_control_session<P>(entries: Seq<ClientEntry<P>>, op: u64) -> Option<Seq<char>> {
    if op == 0 {
        None
    } else {
        match lookup(entries, op) {
            Some(c) => match c.state.split {
                Some(m) => if m.lane == Some(SplitSocketKind::Control) {
                    Some(m.session_id@)
                } else {
                    None
                },
                None => None,
            },
            None => None,
        }
    }
}

/// `n` is `o` with the media ignore window of the operator's split session
/// set to `until` on every media client of that session.
pub open spec fn media_ignore_post<P>(o: Seq<ClientEntry<P>>, n: Seq<ClientEntry<P>>, op: u64, until: Option<u64>) -> bool {
    &&& n.len() == o.len()
    &&& match operator_control_session(o, op) {
        Some(t) => forall|j: int| 0 <= j < o.len() ==> {
            let a = #[trigger] o[j];
            let b = n[j];
            &&& b.id == a.id && b.conn.outbound == a.conn.outbound
            &&& if in_session_lane(a, t, SplitSocketKind::Media) {
                ignore_set(a.conn.state, b.conn.state, until)
            } else {
                b == a
            }
        },
        None => n == o,
    }
}

} // verus!
