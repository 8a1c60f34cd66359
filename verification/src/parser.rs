//! Handling of one TCI text command from a client: split-session markers,
//! the viewer gate, the client's own stream and uplink settings, codec
//! negotiation, and the command handed to the radio loop.
use vstd::prelude::*;

use crate::codec::{
    codec_text, selected_codec, tx_codec_accept_message, tx_codec_reject_message, TxCodecCaps,
    TxCodecRuntimeFlags, TxMicCodec,
};
use crate::commands::{classify, request_of, TciCommand, TciCommandView, TciRequest, TciRequestView};
use crate::outbound::OutboundMessage;
use crate::protocol::{viewer_allowed, viewer_tci_command_allowed_chars};
use crate::registry::{
    any_audio, applied_to, declare_post, enqueued_to, lemma_reconcile_keeps_operator_connected,
    lemma_same_ids_has_id, lookup, mirror, operator_connected, reconcile_post, same_ids, ClientRegistry,
    StateOp,
};
use crate::session::{
    parse_split_session_lane, parse_split_session_open, session_lane_marker, session_open_marker,
    SplitSocketKind, TciClientRole,
};
use crate::text::{
    chars_of, lemma_split_nonempty, lower, lower_chars, sanitized, split, split_exec, split_once,
    split_once_exec, views,
};

verus! {

pub open spec fn view_opt<M>(r: Option<TciCommand<M>>) -> Option<TciCommandView> {
    match r {
        Some(c) => Some(c.view()),
        None => None,
    }
}

/// The codec a rejection names: the first the client offered, else PCM.
pub open spec fn requested_codec(caps: TxCodecCaps) -> TxMicCodec {
    if caps.pcm {
        TxMicCodec::Pcm
    } else if caps.opus_nb {
        TxMicCodec::OpusNb
    } else if caps.opus_wb {
        TxMicCodec::OpusWb
    } else {
        TxMicCodec::Pcm
    }
}

/// The answer to a client's codec offer.
pub open spec fn codec_answer(caps: TxCodecCaps, selected: Option<TxMicCodec>) -> Seq<char> {
    match selected {
        Some(c) => "tx_codec_accept:0,"@ + codec_text(c) + ";"@,
        None => "tx_codec_reject:0,"@ + codec_text(requested_codec(caps)) + ","@ + sanitized(
            "unsupported"@,
            48,
        ) + ";"@,
    }
}

/// The runtime flags of a client (the defaults for an unknown one).
pub open spec fn flags_of<P>(reg: ClientRegistry<P>, client_id: u64) -> TxCodecRuntimeFlags {
    match lookup(reg.entries@, client_id) {
        Some(c) => c.state.tx_codec_runtime_flags,
        None => TxCodecRuntimeFlags { opus_decode_enabled: false },
    }
}

/// What a request does to the registry and which command it yields.
pub open spec fn apply_post<P>(
    old_r: ClientRegistry<P>,
    new_r: ClientRegistry<P>,
    req: TciRequestView,
    client_id: u64,
    now_ns: u64,
    r: Option<TciCommandView>,
) -> bool {
    let o = old_r.entries@;
    let n = new_r.entries@;
    &&& new_r.operator_client_id == old_r.operator_client_id
    &&& match req {
        TciRequestView::Command(v) => r == Some(v) && n == o,
        TciRequestView::IqStream(b) => applied_to(o, n, client_id, mirror(o, client_id), StateOp::IqStream(b))
            && r == Some(TciCommandView::SetIqStreaming),
        TciRequestView::AudioStream(b) => applied_to(o, n, client_id, mirror(o, client_id), StateOp::AudioStream(b))
            && r == Some(TciCommandView::SetAudioStreaming(any_audio(n))),
        TciRequestView::AudioSampleRate(v) => applied_to(o, n, client_id, mirror(o, client_id), StateOp::AudioSampleRate(v))
            && r == Some(TciCommandView::SetAudioSampleRate(v)),
        TciRequestView::AudioFrameSamples(v) => applied_to(o, n, client_id, mirror(o, client_id), StateOp::AudioFrameFloats(v))
            && r == Some(TciCommandView::SetAudioFrameSamples(v)),
        TciRequestView::AudioChannels(v) => applied_to(o, n, client_id, mirror(o, client_id), StateOp::AudioChannels(v))
            && r == Some(TciCommandView::SetAudioChannels(v)),
        TciRequestView::AudioSeqGaps(v) => applied_to(o, n, client_id, None, StateOp::AudioSeqGaps(v)) && r is None,
        TciRequestView::UplinkStats { degraded, last_seq, dropped, buffered, high_watermark } => applied_to(
            o,
            n,
            client_id,
            None,
            StateOp::UplinkStats { degraded, last_seq, dropped, buffered, high_watermark },
        ) && r is None,
        TciRequestView::CodecCaps(caps) => r is None && exists|mid: ClientRegistry<P>, m: String|
            #![trigger enqueued_to(mid.entries@, n, client_id, OutboundMessage::Text(m), now_ns)]
            {
            let sel = selected_codec(caps, flags_of(old_r, client_id));
            &&& applied_to(o, mid.entries@, client_id, mirror(o, client_id), StateOp::CodecReset { caps, selected: sel, now_ns })
            &&& m@ == codec_answer(caps, sel)
            &&& enqueued_to(mid.entries@, n, client_id, OutboundMessage::Text(m), now_ns)
        },
        TciRequestView::Trx(b) => r == Some(TciCommandView::SetTxEnabled(b)) && (if b {
            applied_to(o, n, client_id, None, StateOp::ResetUplinkAttempt)
        } else {
            n == o
        }),
        TciRequestView::Nothing => r is None && n == o,
    }
}

/// What a session marker does: record the declaration, reconcile the
/// operator role when asked, and report the declaration when recorded.
pub open spec fn marker_post<P>(
    old_r: ClientRegistry<P>,
    new_r: ClientRegistry<P>,
    client_id: u64,
    sid: Seq<char>,
    role: Option<crate::session::TciClientRole>,
    lane: Option<crate::session::SplitSocketKind>,
    reconcile: bool,
    now_ns: u64,
    r: Option<TciCommandView>,
) -> bool {
    exists|ok: bool, mid: ClientRegistry<P>|
        #![trigger declare_post(old_r.entries@, mid.entries@, client_id, sid, role, lane, ok)]
        {
        &&& declare_post(old_r.entries@, mid.entries@, client_id, sid, role, lane, ok)
        &&& mid.operator_client_id == old_r.operator_client_id
        &&& (ok && reconcile) ==> exists|t: Option<u64>| #[trigger] reconcile_post(
            mid.entries@,
            mid.operator_client_id,
            new_r.entries@,
            new_r.operator_client_id,
            client_id,
            now_ns,
            t,
        )
        &&& !(ok && reconcile) ==> new_r.entries@ == mid.entries@ && new_r.operator_client_id == mid.operator_client_id
        &&& r == (if ok {
            match (role, lane) {
                (Some(ro), _) => Some(TciCommandView::SplitSessionOpen { client_id, session_id: sid, role: ro }),
                (None, Some(la)) => Some(TciCommandView::SplitSessionLane { client_id, session_id: sid, lane: la }),
                _ => None,
            }
        } else {
            None
        })
    }
}

/// What handling one command text does.
pub open spec fn parse_post<P>(
    old_r: ClientRegistry<P>,
    new_r: ClientRegistry<P>,
    command: Seq<char>,
    client_id: u64,
    allow_control: bool,
    reconcile: bool,
    now_ns: u64,
    r: Option<TciCommandView>,
) -> bool {
    match split_once(command, ':') {
        None => r is None && new_r.entries@ == old_r.entries@ && new_r.operator_client_id == old_r.operator_client_id,
        Some((name0, rest)) => match session_open_marker(command) {
            Some((sid, role)) => marker_post(old_r, new_r, client_id, sid, Some(role), None, reconcile, now_ns, r),
            None => match session_lane_marker(command) {
                Some((sid, lane)) => marker_post(old_r, new_r, client_id, sid, None, Some(lane), reconcile, now_ns, r),
                None => if !allow_control && !viewer_allowed(lower(name0)) {
                    r is None && new_r.entries@ == old_r.entries@ && new_r.operator_client_id == old_r.operator_client_id
                } else {
                    apply_post(old_r, new_r, request_of(lower(name0), split(rest, ','), client_id), client_id, now_ns, r)
                },
            },
        },
    }
}

/// Handling one command text keeps the operator a connected client (or
/// none): no command adds or removes clients, and a command that moves the
/// operator role moves it to a connected control client.
pub proof fn lemma_parse_keeps_operator_connected<P>(
    old_r: ClientRegistry<P>,
    new_r: ClientRegistry<P>,
    command: Seq<char>,
    client_id: u64,
    allow_control: bool,
    reconcile: bool,
    now_ns: u64,
    r: Option<TciCommandView>,
)
    requires
        parse_post(old_r, new_r, command, client_id, allow_control, reconcile, now_ns, r),
        operator_connected(old_r),
    ensures
        operator_connected(new_r),
{
    let o = old_r.entries@;
    let n = new_r.entries@;
    let op = old_r.operator_client_id;
    match split_once(command, ':') {
        None => {},
        Some((name0, rest)) => {
            let marker = match session_open_marker(command) {
                Some((sid, role)) => Some((sid, Some(role), None::<SplitSocketKind>)),
                None => match session_lane_marker(command) {
                    Some((sid, lane)) => Some((sid, None::<TciClientRole>, Some(lane))),
                    None => None,
                },
            };
            if marker is Some {
                let (sid, role, lane) = marker->0;
                let (ok, mid) = choose|ok: bool, mid: ClientRegistry<P>|
                    #[trigger] declare_post(o, mid.entries@, client_id, sid, role, lane, ok)
                    && mid.operator_client_id == op
                    && ((ok && reconcile) ==> exists|t: Option<u64>| #[trigger] reconcile_post(
                        mid.entries@,
                        mid.operator_client_id,
                        n,
                        new_r.operator_client_id,
                        client_id,
                        now_ns,
                        t,
                    ))
                    && (!(ok && reconcile) ==> n == mid.entries@ && new_r.operator_client_id == mid.operator_client_id);
                assert(same_ids(o, mid.entries@));
                lemma_same_ids_has_id(o, mid.entries@, op);
                if ok && reconcile {
                    let t = choose|t: Option<u64>| #[trigger] reconcile_post(
                        mid.entries@,
                        mid.operator_client_id,
                        n,
                        new_r.operator_client_id,
                        client_id,
                        now_ns,
                        t,
                    );
                    lemma_reconcile_keeps_operator_connected(
                        mid.entries@,
                        mid.operator_client_id,
                        n,
                        new_r.operator_client_id,
                        client_id,
                        now_ns,
                        t,
                    );
                }
            } else if allow_control || viewer_allowed(lower(name0)) {
                let req = request_of(lower(name0), split(rest, ','), client_id);
                match req {
                    TciRequestView::CodecCaps(caps) => {
                        let (mid, m) = choose|mid: ClientRegistry<P>, m: String|
                            #[trigger] enqueued_to(mid.entries@, n, client_id, OutboundMessage::Text(m), now_ns)
                            && applied_to(
                                o,
                                mid.entries@,
                                client_id,
                                mirror(o, client_id),
                                StateOp::CodecReset {
                                    caps,
                                    selected: selected_codec(caps, flags_of(old_r, client_id)),
                                    now_ns,
                                },
                            )
                            && m@ == codec_answer(caps, selected_codec(caps, flags_of(old_r, client_id)));
                        assert(same_ids(o, mid.entries@));
                        assert(same_ids(mid.entries@, n));
                        lemma_same_ids_has_id(o, mid.entries@, op);
                        lemma_same_ids_has_id(mid.entries@, n, op);
                    },
                    _ => {
                        assert(same_ids(o, n));
                        lemma_same_ids_has_id(o, n, op);
                    },
                }
            }
        },
    }
}

/// Carries out a request for a client.
pub fn apply_request<M, P>(
    clients: &mut ClientRegistry<P>,
    request: TciRequest<M>,
    client_id: u64,
    now_ns: u64,
) -> (r: Option<TciCommand<M>>)
    requires
        old(clients).wf(),
    ensures
        final(clients).wf(),
        apply_post(*old(clients), *final(clients), request.view(), client_id, now_ns, view_opt(r)),
{
    match request {
        TciRequest::Command(c) => Some(c),
        TciRequest::IqStream(b) => {
            let _ = clients.set_client_iq_stream_enabled(client_id, b);
            Some(TciCommand::SetIqStreaming)
        },
        TciRequest::AudioStream(b) => {
            let any = clients.set_client_audio_stream_enabled(client_id, b);
            Some(TciCommand::SetAudioStreaming(any))
        },
        TciRequest::AudioSampleRate(v) => {
            clients.set_client_audio_sample_rate(client_id, v);
            Some(TciCommand::SetAudioSampleRate(v))
        },
        TciRequest::AudioFrameSamples(v) => {
            clients.set_client_audio_frame_float_count(client_id, v);
            Some(TciCommand::SetAudioFrameSamples(v))
        },
        TciRequest::AudioChannels(v) => {
            clients.set_client_audio_channels(client_id, v);
            Some(TciCommand::SetAudioChannels(v))
        },
        TciRequest::AudioSeqGaps(v) => {
            clients.set_client_audio_seq_gap_count(client_id, v);
            None
        },
        TciRequest::UplinkStats { degraded, last_seq, dropped, buffered, high_watermark } => {
            clients.set_client_tx_uplink_stats(client_id, degraded, last_seq, dropped, buffered, high_watermark);
            None
        },
        TciRequest::CodecCaps(caps) => {
            let ghost o = *clients;
            let selected = clients.set_client_tx_codec_caps(client_id, caps, now_ns);
            let ghost mid = *clients;
            let text = match selected {
                Some(codec) => tx_codec_accept_message(codec),
                None => {
                    let requested = match caps.first() {
                        Some(c) => c,
                        None => TxMicCodec::Pcm,
                    };
                    tx_codec_reject_message(requested, "unsupported")
                },
            };
            let ghost tg = text;
            clients.send_text_to_client(client_id, text, now_ns);
            proof {
                assert(tg@ == codec_answer(caps, selected));
                assert({
                    let sel = selected_codec(caps, flags_of(o, client_id));
                    &&& applied_to(o.entries@, mid.entries@, client_id, mirror(o.entries@, client_id), StateOp::CodecReset { caps, selected: sel, now_ns })
                    &&& tg@ == codec_answer(caps, sel)
                    &&& enqueued_to(mid.entries@, clients.entries@, client_id, OutboundMessage::Text(tg), now_ns)
                });
            }
            None
        },
        TciRequest::Trx(b) => {
            if b {
                clients.reset_client_tx_uplink_attempt(client_id);
            }
            Some(TciCommand::SetTxEnabled(b))
        },
        TciRequest::Nothing => None,
    }
}

/// Handles one TCI text command from a client: a split-session marker is
/// recorded (reconciling the operator role when `reconcile` is set); other
/// commands from a viewer pass only when a viewer may send them; the rest
/// update the client's own settings and yield the command for the radio loop.
pub fn parse_tci_command_with_roles<M, P>(
    command: &str,
    clients: &mut ClientRegistry<P>,
    client_id: u64,
    allow_control: bool,
    reconcile: bool,
    now_ns: u64,
) -> (r: Option<TciCommand<M>>)
    requires
        old(clients).wf(),
    ensures
        final(clients).wf(),
        parse_post(*old(clients), *final(clients), command@, client_id, allow_control, reconcile, now_ns, view_opt(r)),
{
    let text = chars_of(command);
    let (name0, rest) = match split_once_exec(&text, ':') {
        Some(p) => p,
        None => return None,
    };
    let ghost o = *clients;
    if let Some((session_id, role)) = parse_split_session_open(command) {
        let ok = clients.set_client_split_session_open(client_id, session_id.as_str(), role);
        let ghost mid = *clients;
        let mut t: Option<u64> = None;
        if ok && reconcile {
            t = clients.reconcile_split_operator_role(client_id, now_ns);
        }
        let r = if ok {
            Some(TciCommand::SplitSessionOpen { client_id, session_id, role })
        } else {
            None
        };
        proof {
            assert(declare_post(o.entries@, mid.entries@, client_id, session_id@, Some(role), None, ok));
        }
        return r;
    }
    if let Some((session_id, lane)) = parse_split_session_lane(command) {
        let ok = clients.set_client_split_session_lane(client_id, session_id.as_str(), lane);
        let ghost mid = *clients;
        let mut t: Option<u64> = None;
        if ok && reconcile {
            t = clients.reconcile_split_operator_role(client_id, now_ns);
        }
        let r = if ok {
            Some(TciCommand::SplitSessionLane { client_id, session_id, lane })
        } else {
            None
        };
        proof {
            assert(declare_post(o.entries@, mid.entries@, client_id, session_id@, None, Some(lane), ok));
        }
        return r;
    }
    let name = lower_chars(&name0);
    if !allow_control && !viewer_tci_command_allowed_chars(&name) {
        return None;
    }
    let args = split_exec(&rest, ',');
    proof {
        lemma_split_nonempty(rest@, ',');
    }
    let request = classify(&name, &args, client_id);
    apply_request(clients, request, client_id, now_ns)
}

/// Handles one TCI text command without reconciling the operator role on
/// split-session markers.
pub fn parse_tci_command<M, P>(
    command: &str,
    clients: &mut ClientRegistry<P>,
    client_id: u64,
    allow_control: bool,
    now_ns: u64,
) -> (r: Option<TciCommand<M>>)
    requires
        old(clients).wf(),
    ensures
        final(clients).wf(),
        parse_post(*old(clients), *final(clients), command@, client_id, allow_control, false, now_ns, view_opt(r)),
{
    parse_tci_command_with_roles(command, clients, client_id, allow_control, false, now_ns)
}

} // verus!
