//! What the frontend does with a client's incoming websocket message: text
//! carries `;`-separated commands; binary carries microphone frames, which
//! only the operator (or the media lane paired with it) may supply.
use vstd::prelude::*;
use crate::codec::{tx_codec_frame_is_stale, TxDecodeError, TxMicCodec};
use crate::commands::{TciCommand, TciCommandView};
use crate::frontend::{wrapping_total, TciFrontend};
use crate::outbound::{enqueue_post, OutboundMessage};
use crate::parser::{lemma_parse_keeps_operator_connected, parse_post, parse_tci_command_with_roles, view_opt};
use crate::protocol::{tx_codec_decode_fault_message, TciMicFrameParseError};
use crate::codec::TxCodecRuntimeFlags;
use crate::registry::{
    applied_to, enqueued_to, first_non_media, operator_connected, is_split_media, paired_media, sent_drop, fresh_state, has_id, lookup, media_paired_with_operator,
    safety_target, window_count_after, ClientDisconnect, ClientEntry, ClientRegistry, StateOp,
    TX_CODEC_DECODE_ERROR_FORCE_RX_LIMIT,
};
use crate::session::{role_message, SplitSocketKind, TciClientRole};
use crate::snapshot::{initial_snapshot_messages, message_views, snapshot_messages, RadioSnapshot};
use crate::text::{dec, split, split_exec, string_of, trim, trim_chars, views};

verus! {

/// The commands of a text message: its `;`-separated parts, trimmed, without
/// the empty ones.
pub open spec fn command_parts(text: Seq<char>) -> Seq<Seq<char>> {
    split(text, ';').map_values(|p: Seq<char>| trim(p)).filter(|p: Seq<char>| p.len() > 0)
}

proof fn lemma_filter_step(s: Seq<Seq<char>>, i: int)
    requires
        0 <= i < s.len(),
    ensures
        s.take(i + 1).filter(|p: Seq<char>| p.len() > 0) == (if s[i].len() > 0 {
            s.take(i).filter(|p: Seq<char>| p.len() > 0).push(s[i])
        } else {
            s.take(i).filter(|p: Seq<char>| p.len() > 0)
        }),
{
    reveal(Seq::filter);
    assert(s.take(i + 1).drop_last() =~= s.take(i));
    assert(s.take(i + 1).last() == s[i]);
}

/// Splits a text message into its commands.
pub fn split_tci_commands(text: &Vec<char>) -> (parts: Vec<Vec<char>>)
    ensures
        views(parts@) == command_parts(text@),
{
    let raw = split_exec(text, ';');
    let ghost trimmed = split(text@, ';').map_values(|p: Seq<char>| trim(p));
    let mut parts: Vec<Vec<char>> = Vec::new();
    let mut i: usize = 0;
    while i < raw.len()
        invariant
            i <= raw.len(),
            views(raw@) == split(text@, ';'),
            trimmed == split(text@, ';').map_values(|p: Seq<char>| trim(p)),
            views(parts@) == trimmed.take(i as int).filter(|p: Seq<char>| p.len() > 0),
        decreases raw.len() - i,
    {
        let t = trim_chars(&raw[i]);
        proof {
            assert(views(raw@)[i as int] == raw@[i as int]@);
            assert(trimmed[i as int] == t@);
            lemma_filter_step(trimmed, i as int);
        }
        if t.len() > 0 {
            let ghost before = parts@;
            parts.push(t);
            proof {
                assert(views(parts@) =~= views(before).push(t@));
            }
        }
        i = i + 1;
    }
    proof {
        assert(trimmed.take(raw.len() as int) =~= trimmed);
    }
    parts
}

/// The views of the commands that a sequence of parse results yields, in order.
pub open spec fn yielded(outs: Seq<Option<TciCommandView>>) -> Seq<TciCommandView>
    decreases outs.len(),
{
    if outs.len() == 0 {
        Seq::empty()
    } else {
        match outs.last() {
            Some(c) => yielded(outs.drop_last()).push(c),
            None => yielded(outs.drop_last()),
        }
    }
}

/// Each command of `parts` was parsed in turn, from `trace[j]` to
/// `trace[j + 1]`, as control exactly when the client was the operator at
/// that point, reconciling the operator role, with `outs[j]` as its result.
pub open spec fn parsed_in_turn<P>(
    trace: Seq<ClientRegistry<P>>,
    outs: Seq<Option<TciCommandView>>,
    parts: Seq<Seq<char>>,
    client_id: u64,
    now_ns: u64,
) -> bool {
    &&& trace.len() == parts.len() + 1
    &&& outs.len() == parts.len()
    &&& forall|j: int| 0 <= j < parts.len() ==> #[trigger] parsed_step(trace, outs, parts, client_id, now_ns, j)
}

/// Step `j` of `parsed_in_turn`.
pub open spec fn parsed_step<P>(
    trace: Seq<ClientRegistry<P>>,
    outs: Seq<Option<TciCommandView>>,
    parts: Seq<Seq<char>>,
    client_id: u64,
    now_ns: u64,
    j: int,
) -> bool {
    parse_post(
        trace[j],
        trace[j + 1],
        parts[j],
        client_id,
        trace[j].operator_client_id == client_id,
        true,
        now_ns,
        outs[j],
    )
}

pub open spec fn command_views<M>(cmds: Seq<TciCommand<M>>) -> Seq<TciCommandView> {
    cmds.map_values(|c: TciCommand<M>| c.view())
}

/// `tx_fault:0,codec_decode,count=<count>,limit=<limit>;`
pub open spec fn decode_fault_text(count: nat, limit: nat) -> Seq<char> {
    "tx_fault:0,codec_decode,count="@ + dec(count) + ",limit="@ + dec(limit) + ";"@
}

impl<P: Clone> TciFrontend<P> {
    /// A text message: every command is parsed in order (the operator role
    /// may change between them), the commands for the radio loop are
    /// returned, and an operator's message refreshes the control heartbeat.
    pub fn handle_incoming_text<M>(&mut self, text: &str, client_id: u64, now_ns: u64) -> (cmds: Vec<TciCommand<M>>)
        requires
            old(self).wf(),
        ensures
            final(self).wf(),
            exists|trace: Seq<ClientRegistry<P>>, outs: Seq<Option<TciCommandView>>|
                {
                    &&& #[trigger] parsed_in_turn(trace, outs, command_parts(text@), client_id, now_ns)
                    &&& trace[0] == old(self).clients
                    &&& trace.last() == final(self).clients
                    &&& command_views(cmds@) == yielded(outs)
                },
            final(self).operator_control_at_ns == (if final(self).clients.operator_client_id == client_id {
                Some(now_ns)
            } else {
                old(self).operator_control_at_ns
            }),
            final(self).drop_count == old(self).drop_count,
            final(self).display_rate_limited_count == old(self).display_rate_limited_count,
            final(self).tx_media_priority_active == old(self).tx_media_priority_active,
            final(self).remote_tx_rf_enabled == old(self).remote_tx_rf_enabled,
            final(self).display_frame_interval_ns == old(self).display_frame_interval_ns,
            final(self).last_display_frame_at_ns == old(self).last_display_frame_at_ns,
            final(self).rx_audio_transport_rate_hz == old(self).rx_audio_transport_rate_hz,
            final(self).rx_audio_transport_channels == old(self).rx_audio_transport_channels,
            operator_connected(old(self).clients) ==> operator_connected(final(self).clients),
    {
        let chars = crate::text::chars_of(text);
        let parts = split_tci_commands(&chars);
        let ghost ps = command_parts(text@);
        let ghost mut trace: Seq<ClientRegistry<P>> = seq![self.clients];
        let ghost mut outs: Seq<Option<TciCommandView>> = Seq::empty();
        let mut cmds: Vec<TciCommand<M>> = Vec::new();
        let mut i: usize = 0;
        while i < parts.len()
            invariant
                i <= parts.len(),
                views(parts@) == ps,
                self.wf(),
                trace.len() == i + 1,
                outs.len() == i,
                trace[0] == old(self).clients,
                trace.last() == self.clients,
                forall|j: int| 0 <= j < i ==> #[trigger] parsed_step(trace, outs, ps, client_id, now_ns, j),
                command_views(cmds@) == yielded(outs),
                self.operator_control_at_ns == old(self).operator_control_at_ns,
                self.drop_count == old(self).drop_count,
                self.display_rate_limited_count == old(self).display_rate_limited_count,
                self.tx_media_priority_active == old(self).tx_media_priority_active,
                self.remote_tx_rf_enabled == old(self).remote_tx_rf_enabled,
                self.display_frame_interval_ns == old(self).display_frame_interval_ns,
                self.last_display_frame_at_ns == old(self).last_display_frame_at_ns,
                self.rx_audio_transport_rate_hz == old(self).rx_audio_transport_rate_hz,
                self.rx_audio_transport_channels == old(self).rx_audio_transport_channels,
                operator_connected(old(self).clients) ==> operator_connected(self.clients),
            decreases parts.len() - i,
        {
            let command = string_of(&parts[i]);
            proof {
                assert(views(parts@)[i as int] == parts@[i as int]@);
            }
            let allow_control = self.clients.operator_client_id == client_id;
            let ghost before = self.clients;
            let r = parse_tci_command_with_roles(command.as_str(), &mut self.clients, client_id, allow_control, true, now_ns);
            let ghost out = view_opt(r);
            proof {
                if operator_connected(old(self).clients) {
                    lemma_parse_keeps_operator_connected(
                        before,
                        self.clients,
                        command@,
                        client_id,
                        allow_control,
                        true,
                        now_ns,
                        out,
                    );
                }
                let t2 = trace.push(self.clients);
                let o2 = outs.push(out);
                assert(t2.drop_last() =~= trace);
                assert(o2.drop_last() =~= outs);
                assert forall|j: int| 0 <= j < i + 1 implies #[trigger] parsed_step(t2, o2, ps, client_id, now_ns, j) by {
                    if j < i {
                        assert(parsed_step(trace, outs, ps, client_id, now_ns, j));
                        assert(t2[j] == trace[j]);
                        assert(t2[j + 1] == trace[j + 1]);
                        assert(o2[j] == outs[j]);
                    } else {
                        assert(t2[j] == before);
                        assert(t2[j + 1] == self.clients);
                        assert(o2[j] == out);
                    }
                }
                trace = t2;
                outs = o2;
            }
            match r {
                Some(c) => {
                    let ghost before_cmds = cmds@;
                    cmds.push(c);
                    proof {
                        assert(command_views(cmds@) =~= command_views(before_cmds).push(out->0));
                    }
                },
                None => {},
            }
            i = i + 1;
        }
        if self.clients.operator_client_id == client_id {
            self.operator_control_at_ns = Some(now_ns);
        }
        proof {
            assert(parsed_in_turn(trace, outs, ps, client_id, now_ns));
        }
        cmds
    }

    /// A binary frame is read as microphone audio only from the operator, or
    /// from the media lane paired with the operator outside its ignore window.
    pub fn mic_frame_allowed(&self, client_id: u64, now_ns: u64) -> (b: bool)
        ensures
            b == (self.clients.operator_client_id == client_id || (media_paired_with_operator(
                self.clients.entries@,
                self.clients.operator_client_id,
                client_id,
            ) && !(lookup(self.clients.entries@, client_id) matches Some(c) && c.state.split matches Some(m)
                && m.ignore_media_until_ns matches Some(u) && now_ns < u))),
    {
        self.clients.operator_client_id == client_id || self.clients.split_media_client_can_supply_mic(
            client_id,
            now_ns,
        )
    }

    /// A frame is decoded only with the codec the client negotiated; an
    /// unknown client's frame is malformed.
    pub fn check_mic_frame_codec(&self, client_id: u64, codec: TxMicCodec) -> (r: Result<(), TciMicFrameParseError>)
        requires
            self.wf(),
        ensures
            r == (match lookup(self.clients.entries@, client_id) {
                None => Err::<(), TciMicFrameParseError>(TciMicFrameParseError::Malformed),
                Some(c) => if c.state.tx_codec_active != codec {
                    Err(TciMicFrameParseError::Decode(TxDecodeError::CodecMismatch))
                } else {
                    Ok(())
                },
            }),
    {
        match self.clients.find(client_id) {
            None => Err(TciMicFrameParseError::Malformed),
            Some(i) => {
                proof {
                    crate::registry::lemma_lookup_ascending(self.clients.entries@, i as int);
                }
                if self.clients.entries[i].conn.state.tx_codec_active != codec {
                    Err(TciMicFrameParseError::Decode(TxDecodeError::CodecMismatch))
                } else {
                    Ok(())
                }
            },
        }
    }

    /// A decoded frame: a stale one is counted and dropped (false); a fresh
    /// one is recorded and goes to the radio loop (true).
    pub fn accept_mic_frame(&mut self, client_id: u64, sequence: u32, received_at_ns: u64, now_ns: u64) -> (forward: bool)
        requires
            old(self).wf(),
        ensures
            final(self).wf(),
            forward == !(now_ns >= received_at_ns && now_ns - received_at_ns
                > crate::codec::TX_CODEC_STALE_FRAME_MAX_AGE_NS),
            final(self).clients.operator_client_id == old(self).clients.operator_client_id,
            !forward ==> applied_to(old(self).clients.entries@, final(self).clients.entries@, client_id, None, StateOp::StaleDrop),
            forward ==> applied_to(
                old(self).clients.entries@,
                final(self).clients.entries@,
                client_id,
                None,
                StateOp::MicFrame { sequence, now_ns: received_at_ns },
            ),
            final(self).operator_control_at_ns == old(self).operator_control_at_ns,
            final(self).tx_media_priority_active == old(self).tx_media_priority_active,
    {
        if tx_codec_frame_is_stale(received_at_ns, now_ns) {
            self.clients.record_client_tx_codec_stale_drop(client_id);
            false
        } else {
            self.clients.record_client_tx_mic_frame(client_id, sequence, received_at_ns);
            true
        }
    }

    /// A frame that could not be used: a non-microphone frame is ignored; any
    /// other failure counts as a decode error, and when that forces receive
    /// the fault goes to the client (or its control lane) as safety text and
    /// the result asks the loop to turn transmit off.
    pub fn mic_frame_failed(&mut self, client_id: u64, error: TciMicFrameParseError, now_ns: u64) -> (force_rx: bool)
        requires
            old(self).wf(),
        ensures
            final(self).wf(),
            final(self).clients.operator_client_id == old(self).clients.operator_client_id,
            error == TciMicFrameParseError::NotMicFrame ==> !force_rx && final(self).clients.entries@
                == old(self).clients.entries@,
            error != TciMicFrameParseError::NotMicFrame ==> {
                let count = match lookup(old(self).clients.entries@, client_id) {
                    Some(c) => window_count_after(c.state, now_ns),
                    None => 0,
                };
                &&& force_rx == (match lookup(old(self).clients.entries@, client_id) {
                    Some(c) => count >= TX_CODEC_DECODE_ERROR_FORCE_RX_LIMIT && !c.state.tx_codec_degraded,
                    None => false,
                })
                &&& !force_rx ==> applied_to(
                    old(self).clients.entries@,
                    final(self).clients.entries@,
                    client_id,
                    None,
                    StateOp::DecodeError { now_ns },
                )
                &&& force_rx ==> exists|mid: Seq<crate::registry::ClientEntry<P>>, m: String| {
                    &&& m@ == decode_fault_text(count as nat, TX_CODEC_DECODE_ERROR_FORCE_RX_LIMIT as nat)
                    &&& applied_to(old(self).clients.entries@, mid, client_id, None, StateOp::DecodeError { now_ns })
                    &&& #[trigger] enqueued_to(
                        mid,
                        final(self).clients.entries@,
                        safety_target(mid, client_id),
                        OutboundMessage::SafetyText(m),
                        now_ns,
                    )
                }
            },
            final(self).operator_control_at_ns == old(self).operator_control_at_ns,
            final(self).tx_media_priority_active == old(self).tx_media_priority_active,
    {
        match error {
            TciMicFrameParseError::NotMicFrame => false,
            _ => {
                let action = self.clients.record_client_tx_codec_decode_error_at(client_id, now_ns);
                let ghost mid = self.clients.entries@;
                if action.force_rx {
                    let message = tx_codec_decode_fault_message(action.count, action.limit);
                    self.clients.send_safety_text_to_client_or_control(client_id, message, now_ns);
                }
                action.force_rx
            },
        }
    }
}

/// The commands a disconnect sends to the radio loop: transmit off when the
/// operator or the media lane paired with it left, and `ClientDisconnected`
/// when no client remains.
pub open spec fn disconnect_commands(d: ClientDisconnect) -> Seq<TciCommandView> {
    (if d.was_operator {
        seq![TciCommandView::SetTxEnabled(false)]
    } else {
        Seq::empty()
    }) + (if d.split_media_loss_forces_rx {
        seq![TciCommandView::SetTxEnabled(false)]
    } else {
        Seq::empty()
    }) + (if d.remaining_clients == 0 {
        seq![TciCommandView::ClientDisconnected]
    } else {
        Seq::empty()
    })
}

/// `n` is `o` after the text `t` was enqueued for client `id`, which dropped `d` messages.
pub open spec fn text_enqueued_step<P>(o: Seq<ClientEntry<P>>, n: Seq<ClientEntry<P>>, t: Seq<char>, id: u64, now_ns: u64, d: u64) -> bool {
    exists|s: String| s@ == t && #[trigger] enqueued_to(o, n, id, OutboundMessage::Text(s), now_ns)
        && sent_drop(o, n, id, OutboundMessage::Text(s), now_ns, d)
}

/// The texts `msgs` were enqueued in turn for client `id`, `trace[k + 1]`
/// being `trace[k]` after the `k`-th, which dropped `ds[k]` messages.
pub open spec fn texts_enqueued<P>(trace: Seq<Seq<ClientEntry<P>>>, msgs: Seq<Seq<char>>, ds: Seq<u64>, id: u64, now_ns: u64) -> bool {
    &&& trace.len() == msgs.len() + 1
    &&& ds.len() == msgs.len()
    &&& forall|k: int| #![trigger msgs[k]] 0 <= k < msgs.len() ==> text_enqueued_step(trace[k], trace[k + 1], msgs[k], id, now_ns, ds[k])
}

/// Client `id` is connected with all its outbound queues empty.
pub open spec fn queues_empty_for<P>(s: Seq<ClientEntry<P>>, id: u64) -> bool {
    lookup(s, id) matches Some(c) && c.outbound.queues.safety@.len() == 0 && c.outbound.queues.control@.len() == 0
        && c.outbound.queues.audio@.len() == 0 && c.outbound.queues.display is None
}

/// Client `id` has the same queued messages and counters in `a` and `b`.
pub open spec fn same_queued<P>(a: Seq<ClientEntry<P>>, b: Seq<ClientEntry<P>>, id: u64) -> bool {
    lookup(a, id) matches Some(x) && lookup(b, id) matches Some(y) && y.outbound.queues.safety@ == x.outbound.queues.safety@
        && y.outbound.queues.control@ == x.outbound.queues.control@ && y.outbound.queues.audio@ == x.outbound.queues.audio@
        && y.outbound.queues.display == x.outbound.queues.display && y.outbound.stats == x.outbound.stats
}

/// The first client off the media lane is one of the clients.
proof fn lemma_first_non_media_member<P>(s: Seq<ClientEntry<P>>)
    ensures
        first_non_media(s) matches Some(x) ==> has_id(s, x),
    decreases s.len(),
{
    if s.len() > 0 && is_split_media(s[0].conn.state) {
        lemma_first_non_media_member(s.drop_first());
        if first_non_media(s.drop_first()) is Some {
            let x = first_non_media(s.drop_first())->0;
            let k = choose|k: int| 0 <= k < s.drop_first().len() && s.drop_first()[k].id == x;
            assert(s[k + 1].id == x);
        }
    } else if s.len() > 0 {
        assert(s[0].id == s[0].id);
    }
}

/// Which client is the first one off the media lane depends only on the
/// clients' ids and states.
proof fn lemma_first_non_media_same_shape<P>(a: Seq<ClientEntry<P>>, b: Seq<ClientEntry<P>>)
    requires
        a.len() == b.len(),
        forall|j: int| 0 <= j < a.len() ==> a[j].id == b[j].id && a[j].conn.state == b[j].conn.state,
    ensures
        first_non_media(a) == first_non_media(b),
    decreases a.len(),
{
    if a.len() > 0 {
        assert forall|j: int| 0 <= j < a.drop_first().len() implies a.drop_first()[j].id == b.drop_first()[j].id
            && a.drop_first()[j].conn.state == b.drop_first()[j].conn.state by {
            assert(a.drop_first()[j] == a[j + 1]);
            assert(b.drop_first()[j] == b[j + 1]);
        }
        lemma_first_non_media_same_shape(a.drop_first(), b.drop_first());
    }
}

/// Enqueues each of `messages` in turn as text for client `client_id`.
fn send_texts_to_client<P: Clone>(
    clients: &mut ClientRegistry<P>,
    drop_count: &mut u64,
    client_id: u64,
    messages: &Vec<String>,
    now_ns: u64,
)
    requires
        old(clients).wf(),
    ensures
        final(clients).wf(),
        final(clients).operator_client_id == old(clients).operator_client_id,
        final(clients).entries@.len() == old(clients).entries@.len(),
        forall|j: int| 0 <= j < old(clients).entries@.len() ==> (#[trigger] final(clients).entries@[j]).id
            == old(clients).entries@[j].id,
        forall|x: u64| #![trigger lookup(final(clients).entries@, x)] x != client_id ==> lookup(final(clients).entries@, x)
            == lookup(old(clients).entries@, x),
        match (lookup(old(clients).entries@, client_id), lookup(final(clients).entries@, client_id)) {
            (Some(o), Some(n)) => n.state == o.state,
            (None, None) => true,
            _ => false,
        },
        exists|trace: Seq<Seq<ClientEntry<P>>>, ds: Seq<u64>| #[trigger] texts_enqueued(trace, message_views(messages@), ds, client_id, now_ns)
            && trace[0] == old(clients).entries@ && trace.last() == final(clients).entries@
            && *final(drop_count) == wrapping_total(*old(drop_count), ds),
{
    let ghost msgs = message_views(messages@);
    let ghost mut trace: Seq<Seq<ClientEntry<P>>> = seq![clients.entries@];
    let ghost mut ds: Seq<u64> = Seq::empty();
    let mut i: usize = 0;
    let n = messages.len();
    while i < n
        invariant
            n == messages.len(),
            i <= n,
            msgs == message_views(messages@),
            trace.len() == i + 1,
            trace[0] == old(clients).entries@,
            trace.last() == clients.entries@,
            ds.len() == i,
            forall|k: int| #![trigger msgs[k]] 0 <= k < i ==> text_enqueued_step(trace[k], trace[k + 1], msgs[k], client_id, now_ns, ds[k]),
            *drop_count == wrapping_total(*old(drop_count), ds),
            clients.wf(),
            clients.operator_client_id == old(clients).operator_client_id,
            clients.entries@.len() == old(clients).entries@.len(),
            forall|j: int| 0 <= j < old(clients).entries@.len() ==> (#[trigger] clients.entries@[j]).id
                == old(clients).entries@[j].id,
            forall|x: u64| #![trigger lookup(clients.entries@, x)] x != client_id ==> lookup(clients.entries@, x)
                == lookup(old(clients).entries@, x),
            match (lookup(old(clients).entries@, client_id), lookup(clients.entries@, client_id)) {
                (Some(o), Some(c)) => c.state == o.state,
                (None, None) => true,
                _ => false,
            },
        decreases n - i,
    {
        let text = messages[i].clone();
        let ghost tg = text;
        let ghost before = clients.entries@;
        let d = clients.send_text_to_client(client_id, text, now_ns);
        *drop_count = drop_count.wrapping_add(d);
        proof {
            assert(tg@ == msgs[i as int]);
            assert(text_enqueued_step(before, clients.entries@, msgs[i as int], client_id, now_ns, d));
            let t0 = trace;
            let d0 = ds;
            trace = trace.push(clients.entries@);
            ds = ds.push(d);
            assert(ds.drop_last() =~= d0);
            assert forall|k: int| #![trigger msgs[k]] 0 <= k < i + 1 implies text_enqueued_step(trace[k], trace[k + 1], msgs[k], client_id, now_ns, ds[k]) by {
                if k < i {
                    assert(trace[k] == t0[k]);
                    assert(trace[k + 1] == t0[k + 1]);
                    assert(ds[k] == d0[k]);
                }
            }
            assert forall|x: u64| x != client_id implies lookup(clients.entries@, x) == lookup(old(clients).entries@, x) by {
                assert(lookup(clients.entries@, x) == lookup(before, x));
            }
        }
        i = i + 1;
    }
    proof {
        assert(texts_enqueued(trace, msgs, ds, client_id, now_ns));
    }
}

impl<P: Clone> TciFrontend<P> {
    /// A websocket client connected: it is registered (the operator when
    /// there is none), a client not on the media lane gets the connect
    /// snapshot, its writer starts, and the first client wakes the radio loop.
    #[verifier::spinoff_prover]
    #[verifier::rlimit(30)]
    pub fn connect_client<M>(
        &mut self,
        client_id: u64,
        flags: TxCodecRuntimeFlags,
        connect_lane_hint: Option<SplitSocketKind>,
        snapshot: &RadioSnapshot,
        now_ns: u64,
    ) -> (r: (TciClientRole, usize, Vec<TciCommand<M>>))
        requires
            old(self).wf(),
        ensures
            final(self).wf(),
            forall|x: u64| #![trigger has_id(final(self).clients.entries@, x)] has_id(final(self).clients.entries@, x)
                == (has_id(old(self).clients.entries@, x) || x == client_id),
            forall|x: u64| #![trigger lookup(final(self).clients.entries@, x)] x != client_id ==> lookup(
                final(self).clients.entries@,
                x,
            ) == lookup(old(self).clients.entries@, x),
            lookup(final(self).clients.entries@, client_id) matches Some(c) && fresh_state(c.state, flags, connect_lane_hint)
                && c.outbound.queues.writer_started,
            connect_lane_hint == Some(SplitSocketKind::Media) ==> (lookup(final(self).clients.entries@, client_id) matches Some(c)
                && c.outbound.queues.safety@.len() == 0 && c.outbound.queues.control@.len() == 0),
            (old(self).clients.operator_client_id == 0 || !has_id(final(self).clients.entries@, old(self).clients.operator_client_id))
                ==> r.0 == TciClientRole::Operator && final(self).clients.operator_client_id == client_id,
            !(old(self).clients.operator_client_id == 0 || !has_id(final(self).clients.entries@, old(self).clients.operator_client_id))
                ==> r.0 == TciClientRole::Viewer && final(self).clients.operator_client_id == old(self).clients.operator_client_id,
            r.1 == final(self).clients.entries@.len(),
            connect_lane_hint != Some(SplitSocketKind::Media) ==> exists|trace: Seq<Seq<ClientEntry<P>>>, ds: Seq<u64>| {
                &&& #[trigger] texts_enqueued(
                    trace,
                    snapshot_messages(*snapshot, old(self).remote_tx_rf_enabled, client_id, r.0),
                    ds,
                    client_id,
                    now_ns,
                )
                &&& queues_empty_for(trace[0], client_id)
                &&& same_queued(trace.last(), final(self).clients.entries@, client_id)
                &&& final(self).drop_count == wrapping_total(old(self).drop_count, ds)
            },
            connect_lane_hint == Some(SplitSocketKind::Media) ==> final(self).drop_count == old(self).drop_count,
            operator_connected(final(self).clients),
            command_views(r.2@) == (if old(self).clients.entries@.len() == 0 {
                seq![TciCommandView::ClientConnected]
            } else {
                Seq::empty()
            }),
            final(self).operator_control_at_ns == old(self).operator_control_at_ns,
            final(self).tx_media_priority_active == old(self).tx_media_priority_active,
            final(self).remote_tx_rf_enabled == old(self).remote_tx_rf_enabled,
    {
        let (role, first_client, _count) = self.clients.register_client(client_id, flags, connect_lane_hint);
        let ghost registered = self.clients;
        let is_media = match connect_lane_hint {
            Some(SplitSocketKind::Media) => true,
            _ => false,
        };
        let ghost msgs = snapshot_messages(*snapshot, self.remote_tx_rf_enabled, client_id, role);
        if !is_media {
            let messages = initial_snapshot_messages(snapshot, self.remote_tx_rf_enabled, client_id, role);
            send_texts_to_client(&mut self.clients, &mut self.drop_count, client_id, &messages, now_ns);
        }
        let ghost texted = self.clients.entries@;
        let ghost before_mark = self.clients.entries@;
        self.clients.mark_client_writer_started(client_id);
        proof {
            if !is_media {
                let (trace, ds) = choose|trace: Seq<Seq<ClientEntry<P>>>, ds: Seq<u64>| #[trigger] texts_enqueued(trace, msgs, ds, client_id, now_ns)
                    && trace[0] == registered.entries@ && trace.last() == texted
                    && self.drop_count == wrapping_total(old(self).drop_count, ds);
                assert(same_queued(trace.last(), self.clients.entries@, client_id));
            }
        }
        proof {
            assert forall|x: u64| #![trigger has_id(self.clients.entries@, x)] has_id(self.clients.entries@, x)
                == (has_id(old(self).clients.entries@, x) || x == client_id) by {
                if has_id(self.clients.entries@, x) {
                    let k = choose|k: int| 0 <= k < self.clients.entries@.len() && self.clients.entries@[k].id == x;
                    assert(registered.entries@[k].id == x);
                    assert(has_id(registered.entries@, x));
                }
                if has_id(registered.entries@, x) {
                    let k = choose|k: int| 0 <= k < registered.entries@.len() && registered.entries@[k].id == x;
                    assert(self.clients.entries@[k].id == x);
                }
            }
        }
        let mut commands: Vec<TciCommand<M>> = Vec::new();
        if first_client {
            commands.push(TciCommand::ClientConnected);
            proof {
                assert(command_views(commands@) =~= seq![TciCommandView::ClientConnected]);
            }
        } else {
            proof {
                assert(command_views(commands@) =~= Seq::<TciCommandView>::empty());
            }
        }
        let count = self.clients.len();
        (role, count, commands)
    }

    /// A websocket client went away: it is unregistered; the operator's
    /// heartbeat is cleared when it was the operator; a promoted operator is
    /// told its role; and the radio loop gets the disconnect's commands.
    pub fn disconnect_client<M>(&mut self, client_id: u64, now_ns: u64) -> (r: (ClientDisconnect, Vec<TciCommand<M>>))
        requires
            old(self).wf(),
        ensures
            final(self).wf(),
            r.0.was_operator == (old(self).clients.operator_client_id == client_id),
            r.0.split_media_loss_forces_rx == media_paired_with_operator(
                old(self).clients.entries@,
                old(self).clients.operator_client_id,
                client_id,
            ),
            !has_id(final(self).clients.entries@, client_id),
            forall|x: u64| #![trigger has_id(final(self).clients.entries@, x)] x != client_id ==> has_id(
                final(self).clients.entries@,
                x,
            ) == has_id(old(self).clients.entries@, x),
            r.0.remaining_clients == final(self).clients.entries@.len(),
            r.0.was_operator ==> final(self).operator_control_at_ns is None,
            !r.0.was_operator ==> final(self).operator_control_at_ns == old(self).operator_control_at_ns,
            r.0.promoted_operator matches Some(p) ==> final(self).clients.operator_client_id == p,
            !r.0.was_operator ==> final(self).clients.operator_client_id == old(self).clients.operator_client_id
                && r.0.promoted_operator is None,
            command_views(r.1@) == disconnect_commands(r.0),
            r.0.split_closed_peer == paired_media(old(self).clients.entries@, client_id),
            forall|x: u64| #![trigger lookup(final(self).clients.entries@, x)]
                x != client_id && r.0.split_closed_peer != Some(x) && r.0.promoted_operator != Some(x)
                ==> lookup(final(self).clients.entries@, x) == lookup(old(self).clients.entries@, x),
            r.0.split_closed_peer matches Some(m) ==> r.0.promoted_operator != Some(m) ==> (match (
                lookup(old(self).clients.entries@, m),
                lookup(final(self).clients.entries@, m),
            ) {
                (Some(o), Some(n)) => n.state == o.state && exists|d: u64| enqueue_post(o.outbound.queues, n.outbound.queues, OutboundMessage::Close, now_ns, d),
                _ => false,
            }),
            operator_connected(old(self).clients) ==> operator_connected(final(self).clients),
            r.0.was_operator ==> r.0.promoted_operator == first_non_media(final(self).clients.entries@)
                && final(self).clients.operator_client_id == (match r.0.promoted_operator {
                    Some(p) => p,
                    None => 0,
                }),
            r.0.promoted_operator matches Some(p) ==> exists|mid: Seq<ClientEntry<P>>, m: String|
                m@ == role_message(p, TciClientRole::Operator)
                    && #[trigger] enqueued_to(mid, final(self).clients.entries@, p, OutboundMessage::SafetyText(m), now_ns),
            final(self).tx_media_priority_active == old(self).tx_media_priority_active,
            final(self).remote_tx_rf_enabled == old(self).remote_tx_rf_enabled,
            final(self).drop_count == old(self).drop_count,
            final(self).display_rate_limited_count == old(self).display_rate_limited_count,
            final(self).last_display_frame_at_ns == old(self).last_display_frame_at_ns,
            final(self).display_frame_interval_ns == old(self).display_frame_interval_ns,
            final(self).rx_audio_transport_rate_hz == old(self).rx_audio_transport_rate_hz,
            final(self).rx_audio_transport_channels == old(self).rx_audio_transport_channels,
    {
        let d = self.clients.unregister_client(client_id, now_ns);
        let ghost after = self.clients.entries@;
        if d.was_operator {
            self.operator_control_at_ns = None;
        }
        match d.promoted_operator {
            Some(p) => {
                proof {
                    lemma_first_non_media_member(after);
                }
                let _ = self.clients.send_role_to_client(p, TciClientRole::Operator, now_ns);
                proof {
                    assert forall|j: int| 0 <= j < after.len() implies after[j].id == self.clients.entries@[j].id
                        && after[j].conn.state == self.clients.entries@[j].conn.state by {
                        crate::registry::lemma_lookup_ascending(after, j);
                        crate::registry::lemma_lookup_ascending(self.clients.entries@, j);
                    }
                    lemma_first_non_media_same_shape(after, self.clients.entries@);
                    assert forall|x: u64| #![trigger has_id(self.clients.entries@, x)] has_id(self.clients.entries@, x)
                        == has_id(after, x) by {
                        if has_id(self.clients.entries@, x) {
                            let k = choose|k: int| 0 <= k < self.clients.entries@.len() && self.clients.entries@[k].id == x;
                            assert(after[k].id == x);
                        }
                        if has_id(after, x) {
                            let k = choose|k: int| 0 <= k < after.len() && after[k].id == x;
                            assert(self.clients.entries@[k].id == x);
                        }
                    }
                }
            },
            None => {},
        }
        let mut commands: Vec<TciCommand<M>> = Vec::new();
        if d.was_operator {
            commands.push(TciCommand::SetTxEnabled(false));
        }
        let ghost c1 = commands@;
        if d.split_media_loss_forces_rx {
            commands.push(TciCommand::SetTxEnabled(false));
        }
        let ghost c2 = commands@;
        if d.remaining_clients == 0 {
            commands.push(TciCommand::ClientDisconnected);
        }
        proof {
            assert(command_views(c1) =~= (if d.was_operator {
                seq![TciCommandView::SetTxEnabled(false)]
            } else {
                Seq::empty()
            }));
            assert(command_views(c2) =~= command_views(c1) + (if d.split_media_loss_forces_rx {
                seq![TciCommandView::SetTxEnabled(false)]
            } else {
                Seq::empty()
            }));
            assert(command_views(commands@) =~= command_views(c2) + (if d.remaining_clients == 0 {
                seq![TciCommandView::ClientDisconnected]
            } else {
                Seq::empty()
            }));
        }
        (d, commands)
    }
}

} // verus!
