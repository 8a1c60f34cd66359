//! Properties that hold across the library's operations.
use vstd::prelude::*;
use crate::codec::{selected_codec, TxCodecCaps, TxCodecRuntimeFlags, TxMicCodec};
use crate::duc::{
    duc_shutdown_state, duc_shutdown_tx_config_spec, lemma_scan_bounded, lemma_scan_monotone,
    phase4_tx_config_spec, rank_of, refill_frames, rf_disabled_duc_state, LatencyHistogram,
};
use crate::session::{
    frame_action, sat_add, SplitMediaFrameAction, SplitSessionState,
    SPLIT_RELEASE_IGNORE_WINDOW_NS,
};
use crate::codec::{codec_from_text, codec_text, dash_to_underscore};
use crate::session::{lane_from_text, lane_text, role_from_text, role_text, SplitSocketKind, TciClientRole};
use crate::text::{is_space, lower, strip_trailing, trim};
use crate::session::role_message;
use crate::snapshot::{bool_text, radio_state_messages_spec, snapshot_messages, RadioSnapshot};
use crate::tx_audio::TxAudioSource;
use crate::frontend::broadcast_at;
use crate::outbound::OutboundMessage;
use crate::registry::{effective_lane, ClientEntry};
use crate::tx_control::{TxController, TxState};
use crate::xdma::{
    receive_safe, safe_keyer_spec, safe_rf_gpio_spec, safe_tx_config_spec, CW_KEYER_ENABLE_BIT,
    MOX_BIT, TX_ENABLE_BIT, TX_RELAY_DISABLE_BIT, UNSAFE_TX_BITS,
};

verus! {

/// Forcing the receive-safe state gives registers that the receive-safe
/// check accepts, whatever they held before.
pub proof fn law_forced_state_is_receive_safe(gpio: u32, keyer: u32, tx: u32)
    ensures
        receive_safe(safe_rf_gpio_spec(gpio), safe_keyer_spec(keyer), safe_tx_config_spec(tx)),
{
    assert(((gpio & !(0x0100_0000u32 | 0x0200_0000u32)) | 0x0800_0000u32) & (0x0100_0000u32
        | 0x0200_0000u32) == 0) by (bit_vector);
    assert(((gpio & !(0x0100_0000u32 | 0x0200_0000u32)) | 0x0800_0000u32) & 0x0800_0000u32 != 0)
        by (bit_vector);
    assert((keyer & !0x8000_0000u32) & 0x8000_0000u32 == 0) by (bit_vector);
    assert((tx & !0xf03f_fff7u32) & 0xf03f_fff7u32 == 0) by (bit_vector);
}

/// Forcing the receive-safe state changes only the transmit bits: every
/// other GPIO, keyer and TX configuration bit is kept.
pub proof fn law_forced_state_keeps_unrelated_bits(gpio: u32, keyer: u32, tx: u32)
    ensures
        safe_rf_gpio_spec(gpio) & !(MOX_BIT | TX_ENABLE_BIT | TX_RELAY_DISABLE_BIT) == gpio & !(
        MOX_BIT | TX_ENABLE_BIT | TX_RELAY_DISABLE_BIT),
        safe_keyer_spec(keyer) & !CW_KEYER_ENABLE_BIT == keyer & !CW_KEYER_ENABLE_BIT,
        safe_tx_config_spec(tx) & !UNSAFE_TX_BITS == tx & !UNSAFE_TX_BITS,
{
    assert(((gpio & !(0x0100_0000u32 | 0x0200_0000u32)) | 0x0800_0000u32) & !(0x0100_0000u32
        | 0x0200_0000u32 | 0x0800_0000u32) == gpio & !(0x0100_0000u32 | 0x0200_0000u32
        | 0x0800_0000u32)) by (bit_vector);
    assert((keyer & !0x8000_0000u32) & !0x8000_0000u32 == keyer & !0x8000_0000u32) by (bit_vector);
    assert((tx & !0xf03f_fff7u32) & !0xf03f_fff7u32 == tx & !0xf03f_fff7u32) by (bit_vector);
}

/// The DUC probe configuration, applied over receive-safe GPIO and keyer
/// registers, is the RF-disabled DUC state that the probe checks for.
pub proof fn law_probe_config_is_rf_disabled(gpio: u32, keyer: u32, current_tx: u32, stream_enabled: bool)
    requires
        gpio & (MOX_BIT | TX_ENABLE_BIT) == 0,
        gpio & TX_RELAY_DISABLE_BIT != 0,
        keyer & CW_KEYER_ENABLE_BIT == 0,
    ensures
        rf_disabled_duc_state(gpio, keyer, phase4_tx_config_spec(current_tx, stream_enabled), stream_enabled),
{
    let cleared = current_tx & !(0b11u32 | 0x003f_fff0u32 | 0x1000_0000u32 | 0x2000_0000u32
        | 0x4000_0000u32 | 0x8000_0000u32);
    let set = cleared | 0b100u32 | 0b1000u32;
    assert(set & (0b11u32 | 0x003f_fff0u32 | 0x1000_0000u32 | 0x2000_0000u32 | 0x4000_0000u32) == 0)
        by (bit_vector)
        requires
            cleared == current_tx & !(0b11u32 | 0x003f_fff0u32 | 0x1000_0000u32 | 0x2000_0000u32
                | 0x4000_0000u32 | 0x8000_0000u32),
            set == cleared | 0b100u32 | 0b1000u32,
    ;
    assert((set | 0x8000_0000u32) & (0b11u32 | 0x003f_fff0u32 | 0x1000_0000u32 | 0x2000_0000u32
        | 0x4000_0000u32) == 0) by (bit_vector)
        requires
            set & (0b11u32 | 0x003f_fff0u32 | 0x1000_0000u32 | 0x2000_0000u32 | 0x4000_0000u32) == 0,
    ;
    assert(set & (0b100u32 | 0b1000u32) == 0b100u32 | 0b1000u32) by (bit_vector)
        requires
            set == cleared | 0b100u32 | 0b1000u32,
    ;
    assert((set | 0x8000_0000u32) & (0b100u32 | 0b1000u32) == 0b100u32 | 0b1000u32) by (bit_vector)
        requires
            set & (0b100u32 | 0b1000u32) == 0b100u32 | 0b1000u32,
    ;
    assert(set & 0x8000_0000u32 == 0) by (bit_vector)
        requires
            cleared == current_tx & !(0b11u32 | 0x003f_fff0u32 | 0x1000_0000u32 | 0x2000_0000u32
                | 0x4000_0000u32 | 0x8000_0000u32),
            set == cleared | 0b100u32 | 0b1000u32,
    ;
    assert((set | 0x8000_0000u32) & 0x8000_0000u32 == 0x8000_0000u32) by (bit_vector);
}

/// The DUC shutdown configuration, over receive-safe GPIO and keyer
/// registers, passes the shutdown check and leaves the radio receive-safe.
pub proof fn law_shutdown_config_is_receive_safe(gpio: u32, keyer: u32, current_tx: u32)
    requires
        gpio & (MOX_BIT | TX_ENABLE_BIT) == 0,
        gpio & TX_RELAY_DISABLE_BIT != 0,
        keyer & CW_KEYER_ENABLE_BIT == 0,
    ensures
        duc_shutdown_state(gpio, keyer, duc_shutdown_tx_config_spec(current_tx)),
        receive_safe(gpio, keyer, duc_shutdown_tx_config_spec(current_tx)),
{
    let cleared = current_tx & !(0b11u32 | 0x003f_fff0u32 | 0x1000_0000u32 | 0x2000_0000u32
        | 0x4000_0000u32 | 0x8000_0000u32);
    let set = cleared | 0b100u32 | 0b1000u32;
    let shut = set & !(0b100u32 | 0x8000_0000u32 | 0x2000_0000u32);
    assert(shut & (0x003f_fff0u32 | 0b100u32 | 0x1000_0000u32 | 0x2000_0000u32 | 0x4000_0000u32
        | 0x8000_0000u32) == 0) by (bit_vector)
        requires
            cleared == current_tx & !(0b11u32 | 0x003f_fff0u32 | 0x1000_0000u32 | 0x2000_0000u32
                | 0x4000_0000u32 | 0x8000_0000u32),
            set == cleared | 0b100u32 | 0b1000u32,
            shut == set & !(0b100u32 | 0x8000_0000u32 | 0x2000_0000u32),
    ;
    assert(shut & 0xf03f_fff7u32 == 0) by (bit_vector)
        requires
            cleared == current_tx & !(0b11u32 | 0x003f_fff0u32 | 0x1000_0000u32 | 0x2000_0000u32
                | 0x4000_0000u32 | 0x8000_0000u32),
            set == cleared | 0b100u32 | 0b1000u32,
            shut == set & !(0b100u32 | 0x8000_0000u32 | 0x2000_0000u32),
    ;
}

/// A DUC refill never writes more than the FIFO has room for, nor more than
/// one DMA batch.
pub proof fn law_refill_fits_fifo(occupied: nat, depth: nat, target: nat)
    requires
        occupied <= depth,
    ensures
        refill_frames(occupied, depth, target) * 180 + occupied <= depth,
        refill_frames(occupied, depth, target) <= 11,
{
    let free: nat = (depth - occupied) as nat / 180;
    assert(free * 180 <= (depth - occupied) as nat) by (nonlinear_arith)
        requires
            free == (depth - occupied) as nat / 180,
    ;
    let n = refill_frames(occupied, depth, target);
    assert(n <= free);
    assert(n * 180 <= free * 180) by (nonlinear_arith)
        requires
            n <= free,
    ;
}

/// A reported latency percentile never exceeds the largest latency observed.
pub proof fn law_percentile_at_most_max(h: LatencyHistogram, ppm: nat)
    ensures
        h.observations > 0 ==> h.percentile_spec(ppm) <= h.max_ns,
        h.observations == 0 ==> h.percentile_spec(ppm) == 0,
{
    if h.observations > 0 {
        lemma_scan_bounded(h.buckets@, rank_of(ppm, h.observations as nat), h.max_ns, 0);
    }
}

/// A higher percentile never reports a lower latency.
pub proof fn law_percentile_monotone(h: LatencyHistogram, low_ppm: nat, high_ppm: nat)
    requires
        low_ppm <= high_ppm,
    ensures
        h.percentile_spec(low_ppm) <= h.percentile_spec(high_ppm),
{
    if h.observations > 0 {
        let o = h.observations as nat;
        let p1: nat = if low_ppm > 1_000_000 { 1_000_000 } else { low_ppm };
        let p2: nat = if high_ppm > 1_000_000 { 1_000_000 } else { high_ppm };
        assert(p1 <= p2);
        assert(p1 * o <= p2 * o) by (nonlinear_arith)
            requires
                p1 <= p2,
        ;
        vstd::arithmetic::div_mod::lemma_div_is_ordered(
            (p1 * o + 999_999) as int,
            (p2 * o + 999_999) as int,
            1_000_000,
        );
        assert(rank_of(low_ppm, o) <= rank_of(high_ppm, o));
        lemma_scan_monotone(h.buckets@, rank_of(low_ppm, o), rank_of(high_ppm, o), h.max_ns, 0);
    }
}

/// Releasing transmit opens a window in which the paired media lane's
/// microphone frames are dropped.
pub proof fn law_release_window_drops_media(media_connected: bool, released_at: u64, now: u64)
    requires
        released_at <= now < sat_add(released_at, SPLIT_RELEASE_IGNORE_WINDOW_NS),
    ensures
        frame_action(
            SplitSessionState::Paired,
            media_connected,
            Some(sat_add(released_at, SPLIT_RELEASE_IGNORE_WINDOW_NS)),
            now,
        ) == SplitMediaFrameAction::DropReleaseWindow,
{
}

/// Media microphone frames are accepted only while the session is keyed,
/// its media lane connected and no release window open.
pub proof fn law_media_accepted_only_when_keyed(
    state: SplitSessionState,
    media_connected: bool,
    until: Option<u64>,
    now: u64,
)
    ensures
        frame_action(state, media_connected, until, now) == SplitMediaFrameAction::Accept ==> {
            &&& state == SplitSessionState::Keyed
            &&& media_connected
            &&& !(until matches Some(t) && now < t)
        },
{
}

/// The transmit codec chosen is always one the client offered, and Opus is
/// never chosen while Opus decoding is disabled.
pub proof fn law_selected_codec_was_offered(caps: TxCodecCaps, flags: TxCodecRuntimeFlags)
    ensures
        selected_codec(caps, flags) == Some(TxMicCodec::Pcm) ==> caps.pcm,
        selected_codec(caps, flags) == Some(TxMicCodec::OpusNb) ==> caps.opus_nb && flags.opus_decode_enabled,
        selected_codec(caps, flags) == Some(TxMicCodec::OpusWb) ==> caps.opus_wb && flags.opus_decode_enabled,
        selected_codec(caps, flags) is None ==> !caps.pcm && !(flags.opus_decode_enabled && (
        caps.opus_wb || caps.opus_nb)),
{
}

/// The transmit worker is keyed only with RF enabled, and idle only with RF
/// off and no keepalive running.
pub proof fn law_keyed_only_with_rf_enabled(c: TxController)
    requires
        c.inv(),
    ensures
        c.state == TxState::Keyed ==> c.rf_enabled,
        c.state == TxState::Idle ==> !c.rf_enabled && !c.keepalive_active,
{
}

/// A word of lower-case letters, digits and `_` is its own trimmed,
/// lower-cased, `;`-stripped and `-`-normalised form.
proof fn lemma_plain_word(s: Seq<char>)
    requires
        s.len() > 0,
        forall|i: int| 0 <= i < s.len() ==> ('a' <= #[trigger] s[i] <= 'z' || '0' <= s[i] <= '9' || s[i] == '_'),
    ensures
        trim(s) == s,
        lower(s) == s,
        strip_trailing(s, ';') == s,
        dash_to_underscore(s) == s,
{
    assert(!is_space(s[0]));
    assert(!is_space(s.last()));
    assert(lower(s) =~= s);
    assert(dash_to_underscore(s) =~= s);
}

/// A client role's TCI name reads back as that role.
pub proof fn law_role_name_round_trip(role: TciClientRole)
    ensures
        role_from_text(role_text(role)) == role,
{
    reveal_strlit("operator");
    reveal_strlit("viewer");
    reveal_strlit("view");
    lemma_plain_word(role_text(role));
    assert("operator"@.len() != "viewer"@.len() && "operator"@.len() != "view"@.len());
}

/// A split lane's TCI name reads back as that lane.
pub proof fn law_lane_name_round_trip(lane: SplitSocketKind)
    ensures
        lane_from_text(lane_text(lane)) == Some(lane),
{
    reveal_strlit("control");
    reveal_strlit("media");
    lemma_plain_word(lane_text(lane));
}

/// A transmit codec's TCI name reads back as that codec.
pub proof fn law_codec_name_round_trip(codec: TxMicCodec)
    ensures
        codec_from_text(codec_text(codec)) == Some(codec),
{
    reveal_strlit("pcm");
    reveal_strlit("opus_nb");
    reveal_strlit("opus_wb");
    reveal_strlit("0");
    reveal_strlit("1");
    reveal_strlit("2");
    reveal_strlit("s16");
    reveal_strlit("opus_narrowband");
    reveal_strlit("opus_wideband");
    lemma_plain_word(codec_text(codec));
    assert("opus_wb"@[5] != "opus_nb"@[5]);
    assert("opus_wb"@ != "opus_nb"@);
}

/// `char::to_ascii_uppercase`.
pub open spec fn upper_char(c: char) -> char {
    if 'a' <= c && c <= 'z' {
        ((c as u32) - 32) as char
    } else {
        c
    }
}

/// `str::to_ascii_uppercase`.
pub open spec fn upper(s: Seq<char>) -> Seq<char> {
    s.map_values(|c: char| upper_char(c))
}

/// `_` written as `-`.
pub open spec fn underscore_to_dash(s: Seq<char>) -> Seq<char> {
    s.map_values(|c: char| if c == '_' { '-' } else { c })
}

/// A word of lower-case letters, digits and `_` that starts and ends with a
/// letter normalises back to itself from its upper-case form and from its
/// form with `-` for `_`.
proof fn lemma_word_forms(s: Seq<char>)
    requires
        s.len() > 0,
        'a' <= s[0] <= 'z',
        'a' <= s.last() <= 'z',
        forall|i: int| 0 <= i < s.len() ==> ('a' <= #[trigger] s[i] <= 'z' || '0' <= s[i] <= '9' || s[i] == '_'),
    ensures
        dash_to_underscore(lower(strip_trailing(trim(upper(s)), ';'))) == s,
        dash_to_underscore(lower(strip_trailing(trim(underscore_to_dash(s)), ';'))) == s,
{
    let u = upper(s);
    assert(u[0] == upper_char(s[0]));
    assert(u.last() == upper_char(s.last()));
    assert(!is_space(u[0]));
    assert(!is_space(u.last()));
    assert(trim(u) == u);
    assert(strip_trailing(u, ';') == u);
    assert(lower(u) =~= s) by {
        assert forall|i: int| 0 <= i < s.len() implies #[trigger] lower(u)[i] == s[i] by {
            assert(u[i] == upper_char(s[i]));
        }
    }
    assert(dash_to_underscore(s) =~= s);
    let d = underscore_to_dash(s);
    assert(d[0] == s[0]);
    assert(d.last() == s.last());
    assert(!is_space(d[0]));
    assert(!is_space(d.last()));
    assert(trim(d) == d);
    assert(strip_trailing(d, ';') == d);
    assert(lower(d) =~= d);
    assert(dash_to_underscore(d) =~= s);
}

/// A transmit codec's name reads back as that codec when written in upper
/// case, and when written with `-` in place of `_`; the numeric ids `0`,
/// `1` and `2` read as PCM, narrowband and wideband Opus.
pub proof fn law_codec_name_forms(codec: TxMicCodec)
    ensures
        codec_from_text(codec_text(codec)) == Some(codec),
        codec_from_text(upper(codec_text(codec))) == Some(codec),
        codec_from_text(underscore_to_dash(codec_text(codec))) == Some(codec),
        codec_from_text("0"@) == Some(TxMicCodec::Pcm),
        codec_from_text("1"@) == Some(TxMicCodec::OpusNb),
        codec_from_text("2"@) == Some(TxMicCodec::OpusWb),
{
    law_codec_name_round_trip(codec);
    reveal_strlit("pcm");
    reveal_strlit("opus_nb");
    reveal_strlit("opus_wb");
    reveal_strlit("0");
    reveal_strlit("1");
    reveal_strlit("2");
    reveal_strlit("s16");
    reveal_strlit("opus_narrowband");
    reveal_strlit("opus_wideband");
    lemma_word_forms(codec_text(codec));
    assert("opus_wb"@[5] != "opus_nb"@[5]);
    assert("opus_wb"@ != "opus_nb"@);
    lemma_plain_word("0"@);
    lemma_plain_word("1"@);
    lemma_plain_word("2"@);
}

/// A transmit audio source's name parses back as that source.
pub proof fn law_audio_source_name_round_trip(source: TxAudioSource)
    ensures
        TxAudioSource::parse_spec(source.as_str_spec()) == Some(source),
{
    reveal_strlit("tci");
    reveal_strlit("satp");
    lemma_plain_word(source.as_str_spec());
}

/// A connecting client first learns that the bridge is ready and which role
/// it holds, and the snapshot tells it whether remote RF transmit is enabled.
pub proof fn law_snapshot_reports_role_and_rf(m: RadioSnapshot, remote_tx_rf_enabled: bool, client_id: u64, role: TciClientRole)
    ensures
        snapshot_messages(m, remote_tx_rf_enabled, client_id, role).len() == 100,
        snapshot_messages(m, remote_tx_rf_enabled, client_id, role)[0] == "ready;"@,
        snapshot_messages(m, remote_tx_rf_enabled, client_id, role)[1] == role_message(client_id, role),
        snapshot_messages(m, remote_tx_rf_enabled, client_id, role).contains(
            "remote_tx_rf_enabled:0,"@ + bool_text(remote_tx_rf_enabled) + ";"@,
        ),
{
    let s = snapshot_messages(m, remote_tx_rf_enabled, client_id, role);
    assert(s[34] == "remote_tx_rf_enabled:0,"@ + bool_text(remote_tx_rf_enabled) + ";"@);
}

/// The connect snapshot carries exactly the radio-state broadcast, in the
/// same order, between its role line and its audio rate; that broadcast
/// ends with `tune:0,false;`.
pub proof fn law_snapshot_carries_radio_state(m: RadioSnapshot, remote_tx_rf_enabled: bool, client_id: u64, role: TciClientRole)
    ensures
        radio_state_messages_spec(m, remote_tx_rf_enabled).len() == 97,
        snapshot_messages(m, remote_tx_rf_enabled, client_id, role).subrange(2, 99) == radio_state_messages_spec(
            m,
            remote_tx_rf_enabled,
        ),
        radio_state_messages_spec(m, remote_tx_rf_enabled)[96] == "tune:0,false;"@,
{
    let s = snapshot_messages(m, remote_tx_rf_enabled, client_id, role);
    let r = radio_state_messages_spec(m, remote_tx_rf_enabled);
    assert(r.len() == 97);
    assert(s.subrange(2, 99) =~= r);
}

/// A broadcast leaves a media-lane client's queues untouched by text, a
/// control-lane client's untouched by IQ and audio frames, and every
/// client's untouched by IQ and audio frames while transmit media has
/// priority.
pub proof fn law_broadcast_respects_lanes<P: Clone>(
    o: ClientEntry<P>,
    n: ClientEntry<P>,
    message: OutboundMessage<P>,
    priority: bool,
    now_ns: u64,
)
    requires
        broadcast_at(o, n, message, priority, now_ns),
    ensures
        effective_lane(o.conn.state) == Some(SplitSocketKind::Media) && (message is Text || message is SafetyText)
            ==> n.conn.outbound.queues == o.conn.outbound.queues,
        effective_lane(o.conn.state) == Some(SplitSocketKind::Control) && (message is IqFrame || message is TxIqFrame
            || message is AudioFrame) ==> n.conn.outbound.queues == o.conn.outbound.queues,
        priority && (message is IqFrame || message is TxIqFrame || message is AudioFrame)
            ==> n.conn.outbound.queues == o.conn.outbound.queues,
        n.id == o.id && n.conn.state == o.conn.state,
{
}

} // verus!
