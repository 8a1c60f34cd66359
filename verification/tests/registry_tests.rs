use saturn_bridge::codec::{TxCodecRuntimeFlags, TxMicCodec, TX_MIC_CODEC_PCM_ID, TX_SAMPLE_TYPE_S16};
use saturn_bridge::commands::TciCommand;
use saturn_bridge::frontend::TciFrontend;
use saturn_bridge::outbound::OutboundMessage;
use saturn_bridge::parser::{parse_tci_command, parse_tci_command_with_roles};
use saturn_bridge::protocol::{parse_tci_mic_frame_parts, write_u32_le, TciMicFrameParseError};
use saturn_bridge::registry::{
    client_wants_outbound_message, ClientConnection, ClientRegistry, ClientState,
    SplitClientMetadata, TX_CODEC_DECODE_ERROR_FORCE_RX_LIMIT,
};
use saturn_bridge::session::{SplitSocketKind, TciClientRole, SPLIT_RELEASE_IGNORE_WINDOW_NS};
use saturn_bridge::outbound::ClientOutbound;

type Cmd = Option<TciCommand<Vec<f32>>>;
type Reg = ClientRegistry<Vec<f32>>;

const MS: u64 = 1_000_000;
const NOW: u64 = 50_000 * MS;

fn flags(opus: bool) -> TxCodecRuntimeFlags {
    TxCodecRuntimeFlags {
        opus_decode_enabled: opus,
    }
}

fn registry(ids: &[u64]) -> Reg {
    let mut reg = ClientRegistry::new();
    for id in ids {
        reg.register_client(*id, flags(false), None);
    }
    reg
}

fn state(reg: &Reg, id: u64) -> &ClientState {
    &reg.entries[reg.find(id).unwrap()].conn.state
}

fn next_out(reg: &mut Reg, id: u64) -> Option<OutboundMessage<Vec<f32>>> {
    let i = reg.find(id).unwrap();
    reg.entries[i].conn.outbound.next_message(true).map(|q| q.message)
}

fn parse(reg: &mut Reg, command: &str, id: u64, allow: bool) -> Cmd {
    parse_tci_command(command, reg, id, allow, NOW)
}

fn pair(reg: &mut Reg, session: &str, control: u64, media: u64) {
    parse(reg, &format!("session_lane:{session},control;"), control, true);
    parse(reg, &format!("session_lane:{session},media;"), media, false);
}

fn connection(split: Option<SplitClientMetadata>) -> ClientConnection<Vec<f32>> {
    let mut state = ClientState::with_tx_codec_runtime_flags(flags(false), None);
    state.split = split;
    ClientConnection {
        outbound: ClientOutbound::new(),
        state,
    }
}

fn lane(lane: SplitSocketKind, role: Option<TciClientRole>) -> Option<SplitClientMetadata> {
    Some(SplitClientMetadata {
        session_id: "phase-42".chars().collect(),
        lane: Some(lane),
        role,
        ignore_media_until_ns: None,
    })
}

fn iq() -> OutboundMessage<Vec<f32>> {
    OutboundMessage::IqFrame {
        receiver: 0,
        sample_rate: 192_000,
        samples: vec![0.0, 0.0],
        sample_len: 2,
    }
}

fn tx_iq() -> OutboundMessage<Vec<f32>> {
    OutboundMessage::TxIqFrame {
        receiver: 0,
        sample_rate: 192_000,
        samples: vec![0.0, 0.0],
        sample_len: 2,
    }
}

fn audio(sequence: u32) -> OutboundMessage<Vec<f32>> {
    OutboundMessage::AudioFrame {
        receiver: 0,
        sample_rate: 48_000,
        channels: 1,
        samples: vec![0.0, 0.0],
        sample_len: 2,
        sequence,
    }
}

#[test]
fn parses_saturn_ping_command() {
    let mut reg = registry(&[7]);
    match parse(&mut reg, "saturn_ping:probe-1,123.456;", 7, false) {
        Some(TciCommand::SaturnPing {
            client_id,
            nonce,
            sent_at,
        }) => {
            assert_eq!(client_id, 7);
            assert_eq!(nonce, "probe-1");
            assert_eq!(sent_at, "123.456");
        }
        command => panic!("unexpected command: {command:?}"),
    }
}

#[test]
fn parses_wdsp2_nr2_wbfm_and_phase_rotator_commands() {
    let mut reg = registry(&[7]);
    let mut out = Vec::new();
    for command in [
        "rx_nr2_gain_method:0,TRAINED",
        "rx_nr2_npe_method:0,NSTAT",
        "rx_nr2_post_filter:0,false",
        "rx_wbfm_deemphasis:0,EU_50US",
        "modulation:0,WFM",
        "tx_phase_rotator:0,true",
        "tx_phase_rotator_auto:0,true",
        "tx_phase_rotator_corner:0,425",
    ] {
        out.push(parse(&mut reg, command, 7, true).unwrap());
    }
    assert!(matches!(&out[0], TciCommand::SetRxNr2GainMethod(m) if m == "TRAINED"));
    assert!(matches!(&out[1], TciCommand::SetRxNr2NpeMethod(m) if m == "NSTAT"));
    assert!(matches!(out[2], TciCommand::SetRxNr2PostFilterEnabled(false)));
    assert!(matches!(&out[3], TciCommand::SetRxWbfmDeemphasis(m) if m == "EU_50US"));
    assert!(matches!(
        out[4],
        TciCommand::SetMode(saturn_bridge::tx_control::DemodMode::Wfm)
    ));
    assert!(matches!(out[5], TciCommand::SetTxPhaseRotatorEnabled(true)));
    assert!(matches!(out[6], TciCommand::SetTxPhaseRotatorAuto(true)));
    assert!(matches!(&out[7], TciCommand::SetTxPhaseRotatorCorner(v) if v.parse::<f64>().unwrap() == 425.0));
}

#[test]
fn parses_puresignal_control_commands() {
    let mut reg = registry(&[7]);
    assert!(matches!(
        parse(&mut reg, "tx_puresignal:0,true", 7, true),
        Some(TciCommand::SetPureSignalEnabled(true))
    ));
    assert!(matches!(
        parse(&mut reg, "tx_puresignal_auto_attenuate:0,false", 7, true),
        Some(TciCommand::SetPureSignalAutoAttenuate(false))
    ));
    assert!(matches!(
        parse(&mut reg, "tx_puresignal_attenuation:0,12", 7, true),
        Some(TciCommand::SetPureSignalAttenuation(12))
    ));
    assert!(matches!(
        parse(&mut reg, "tx_puresignal_reset:0", 7, true),
        Some(TciCommand::ResetPureSignal)
    ));
}

#[test]
fn tx_codec_caps_accepts_pcm_scaffold() {
    let mut reg = registry(&[7]);
    assert!(parse(&mut reg, "tx_codec_caps:0,pcm;", 7, true).is_none());
    let st = state(&reg, 7);
    assert!(st.tx_codec_caps.contains(TxMicCodec::Pcm));
    assert_eq!(st.tx_codec_active, TxMicCodec::Pcm);
    assert!(st.tx_codec_negotiated_at_ns.is_some());
    match next_out(&mut reg, 7) {
        Some(OutboundMessage::Text(text)) => assert_eq!(text, "tx_codec_accept:0,pcm;"),
        other => panic!("unexpected outbound: {other:?}"),
    }
}

#[test]
fn tx_codec_caps_mirror_from_control_to_paired_media() {
    let mut reg = registry(&[73, 74]);
    pair(&mut reg, "phase-44", 73, 74);
    parse(&mut reg, "tx_codec_caps:0,pcm;", 73, true);
    assert_eq!(state(&reg, 73).tx_codec_active, TxMicCodec::Pcm);
    assert_eq!(state(&reg, 74).tx_codec_active, TxMicCodec::Pcm);
    assert!(state(&reg, 74).tx_codec_negotiated_at_ns.is_some());
    assert_eq!(state(&reg, 74).tx_codec_decoder_codec, TxMicCodec::Pcm);
}

#[test]
fn tx_codec_caps_rejects_non_pcm_until_decoder_exists() {
    let mut reg = registry(&[7]);
    assert!(parse(&mut reg, "tx_codec_caps:0,opus_wb;", 7, true).is_none());
    let st = state(&reg, 7);
    assert!(st.tx_codec_caps.contains(TxMicCodec::OpusWb));
    assert_eq!(st.tx_codec_active, TxMicCodec::Pcm);
    assert!(st.tx_codec_negotiated_at_ns.is_none());
    match next_out(&mut reg, 7) {
        Some(OutboundMessage::Text(text)) => {
            assert_eq!(text, "tx_codec_reject:0,opus_wb,unsupported;")
        }
        other => panic!("unexpected outbound: {other:?}"),
    }
}

#[test]
fn tx_codec_caps_accepts_opus_only_when_runtime_flag_enabled() {
    let mut reg: Reg = ClientRegistry::new();
    reg.register_client(7, flags(true), None);
    assert!(parse(&mut reg, "tx_codec_caps:0,opus_wb,pcm;", 7, true).is_none());
    let st = state(&reg, 7);
    assert!(st.tx_codec_caps.contains(TxMicCodec::OpusWb));
    assert_eq!(st.tx_codec_active, TxMicCodec::OpusWb);
    assert!(st.tx_codec_negotiated_at_ns.is_some());
    assert_eq!(st.tx_codec_decoder_codec, TxMicCodec::OpusWb);
    match next_out(&mut reg, 7) {
        Some(OutboundMessage::Text(text)) => assert_eq!(text, "tx_codec_accept:0,opus_wb;"),
        other => panic!("unexpected outbound: {other:?}"),
    }
}

#[test]
fn operator_text_updates_control_heartbeat() {
    let mut frontend: TciFrontend<Vec<f32>> = TciFrontend::new(false, 0, 48_000, 2);
    frontend.clients.register_client(7, flags(false), None);
    let cmds: Vec<TciCommand<Vec<f32>>> =
        frontend.handle_incoming_text("saturn_ping:probe-1,123.456;", 7, NOW);
    assert_eq!(cmds.len(), 1);
    assert_eq!(frontend.operator_control_at_ns, Some(NOW));
}

#[test]
fn viewer_text_does_not_update_control_heartbeat() {
    let mut frontend: TciFrontend<Vec<f32>> = TciFrontend::new(false, 0, 48_000, 2);
    frontend.clients.register_client(1, flags(false), None);
    frontend.clients.register_client(7, flags(false), None);
    let cmds: Vec<TciCommand<Vec<f32>>> =
        frontend.handle_incoming_text("saturn_ping:probe-1,123.456;", 7, NOW);
    assert_eq!(cmds.len(), 1);
    assert!(frontend.operator_control_at_ns.is_none());
}

#[test]
fn incoming_text_splits_trims_and_skips_empty_commands() {
    let mut frontend: TciFrontend<Vec<f32>> = TciFrontend::new(false, 0, 48_000, 2);
    frontend.clients.register_client(7, flags(false), None);
    let cmds: Vec<TciCommand<Vec<f32>>> =
        frontend.handle_incoming_text(" vfo:0,0,7100000 ;;  trx:0,true; ; ", 7, NOW);
    assert_eq!(cmds.len(), 2);
    assert!(matches!(cmds[0], TciCommand::SetVfoA(7_100_000)));
    assert!(matches!(cmds[1], TciCommand::SetTxEnabled(true)));
}

#[test]
fn split_metadata_commands_cross_viewer_filter() {
    let mut reg = registry(&[51]);
    match parse(&mut reg, "session_lane:phase-42,media;", 51, false) {
        Some(TciCommand::SplitSessionLane {
            client_id,
            session_id,
            lane,
        }) => {
            assert_eq!(client_id, 51);
            assert_eq!(session_id, "phase-42");
            assert_eq!(lane, SplitSocketKind::Media);
        }
        other => panic!("unexpected command: {other:?}"),
    }
    match parse(&mut reg, "session_open:phase-42,viewer;", 51, false) {
        Some(TciCommand::SplitSessionOpen {
            client_id,
            session_id,
            role,
        }) => {
            assert_eq!(client_id, 51);
            assert_eq!(session_id, "phase-42");
            assert_eq!(role, TciClientRole::Viewer);
        }
        other => panic!("unexpected command: {other:?}"),
    }
}

#[test]
fn split_metadata_updates_client_state_and_rejects_mismatch() {
    let mut reg = registry(&[52]);
    assert!(matches!(
        parse(&mut reg, "session_lane:phase-42,media;", 52, false),
        Some(TciCommand::SplitSessionLane { .. })
    ));
    assert!(matches!(
        parse(&mut reg, "session_open:phase-42,viewer;", 52, false),
        Some(TciCommand::SplitSessionOpen { .. })
    ));
    {
        let split = state(&reg, 52).split.as_ref().unwrap();
        assert_eq!(split.session_id.iter().collect::<String>(), "phase-42");
        assert_eq!(split.lane, Some(SplitSocketKind::Media));
        assert_eq!(split.role, Some(TciClientRole::Viewer));
    }
    assert!(parse(&mut reg, "session_lane:other-session,control;", 52, false).is_none());
    let split = state(&reg, 52).split.as_ref().unwrap();
    assert_eq!(split.session_id.iter().collect::<String>(), "phase-42");
    assert_eq!(split.lane, Some(SplitSocketKind::Media));
}

#[test]
fn split_pairing_status_derives_from_client_metadata() {
    let mut reg = registry(&[61, 62]);
    assert!(matches!(
        parse(&mut reg, "session_lane:phase-42,control;", 61, true),
        Some(TciCommand::SplitSessionLane { client_id: 61, .. })
    ));
    assert!(reg.split_session_pair_for_client(61).is_none());
    assert!(matches!(
        parse(&mut reg, "session_lane:phase-42,media;", 62, false),
        Some(TciCommand::SplitSessionLane { client_id: 62, .. })
    ));
    let pair = reg.split_session_pair_for_client(62).unwrap();
    assert_eq!(pair.session_id.iter().collect::<String>(), "phase-42");
    assert_eq!(pair.control_client_id, 61);
    assert_eq!(pair.media_client_id, 62);
    assert_eq!(reg.split_lane_client_count(SplitSocketKind::Control), 1);
    assert_eq!(reg.split_lane_client_count(SplitSocketKind::Media), 1);
    assert_eq!(reg.split_paired_session_count(), 1);
}

#[test]
fn split_control_lane_reclaims_operator_from_media_lane() {
    let mut reg = registry(&[17, 18]);
    reg.operator_client_id = 18;
    for (command, id, allow) in [
        ("session_lane:phase-42,media;", 18, true),
        ("session_lane:phase-42,control;", 17, false),
        ("session_open:phase-42,operator;", 17, false),
    ] {
        let _: Cmd = parse_tci_command_with_roles(command, &mut reg, id, allow, true, NOW);
    }
    assert_eq!(reg.operator_client_id, 17);
    assert!(reg.split_media_client_can_supply_mic(18, NOW));
    assert!(next_out(&mut reg, 18).is_none());
    match next_out(&mut reg, 17) {
        Some(OutboundMessage::SafetyText(text)) => {
            assert_eq!(text, "remote_client_role:0,operator,17;")
        }
        other => panic!("unexpected control outbound: {other:?}"),
    }
}

#[test]
fn split_paired_media_socket_can_supply_mic_binary() {
    let mut frontend: TciFrontend<Vec<f32>> = TciFrontend::new(false, 0, 48_000, 2);
    frontend.clients.register_client(71, flags(false), None);
    frontend.clients.register_client(72, flags(false), None);
    pair(&mut frontend.clients, "phase-42", 71, 72);
    assert!(frontend.mic_frame_allowed(72, NOW));
    assert!(frontend.accept_mic_frame(72, 91, NOW, NOW));
    assert_eq!(state(&frontend.clients, 72).tx_mic_last_arrived_seq, 91);
}

#[test]
fn split_release_window_blocks_paired_media_mic_binary() {
    let mut frontend: TciFrontend<Vec<f32>> = TciFrontend::new(false, 0, 48_000, 2);
    frontend.clients.register_client(73, flags(false), None);
    frontend.clients.register_client(74, flags(false), None);
    pair(&mut frontend.clients, "phase-42", 73, 74);
    assert_eq!(
        frontend
            .clients
            .set_split_media_ignore_until(Some(NOW + SPLIT_RELEASE_IGNORE_WINDOW_NS)),
        1
    );
    assert!(!frontend.clients.split_media_client_can_supply_mic(74, NOW));
    assert!(!frontend.mic_frame_allowed(74, NOW));
    assert!(frontend
        .clients
        .split_media_client_can_supply_mic(74, NOW + SPLIT_RELEASE_IGNORE_WINDOW_NS + MS));
    assert_eq!(frontend.clients.set_split_media_ignore_until(None), 1);
    assert!(frontend.clients.split_media_client_can_supply_mic(74, NOW));
}

#[test]
fn media_decode_errors_force_rx_and_report_on_control_lane() {
    let mut frontend: TciFrontend<Vec<f32>> = TciFrontend::new(false, 0, 48_000, 2);
    frontend.clients.register_client(73, flags(false), None);
    frontend.clients.register_client(74, flags(false), None);
    pair(&mut frontend.clients, "phase-44", 73, 74);

    let mut frame = vec![0u8; 64 + 4];
    write_u32_le(&mut frame, 4, 48_000);
    write_u32_le(&mut frame, 8, TX_SAMPLE_TYPE_S16);
    write_u32_le(&mut frame, 20, 2);
    write_u32_le(&mut frame, 24, 2);
    write_u32_le(&mut frame, 28, 1);
    write_u32_le(&mut frame, 36, TX_MIC_CODEC_PCM_ID);
    write_u32_le(&mut frame, 40, 2);

    let mut forced = 0;
    for _ in 0..TX_CODEC_DECODE_ERROR_FORCE_RX_LIMIT {
        assert!(frontend.mic_frame_allowed(74, NOW));
        let parts = parse_tci_mic_frame_parts(&frame).unwrap();
        assert!(frontend.check_mic_frame_codec(74, parts.codec).is_ok());
        let err = saturn_bridge::codec::check_pcm_payload(
            parts.sample_type,
            parts.sample_count,
            parts.payload.len(),
            parts.declared_payload_bytes,
        )
        .unwrap_err();
        if frontend.mic_frame_failed(74, TciMicFrameParseError::Decode(err), NOW) {
            forced += 1;
        }
    }
    assert_eq!(forced, 1);
    let media = state(&frontend.clients, 74);
    assert_eq!(media.tx_codec_decode_error_count, TX_CODEC_DECODE_ERROR_FORCE_RX_LIMIT);
    assert!(media.tx_codec_degraded);
    match next_out(&mut frontend.clients, 73) {
        Some(OutboundMessage::SafetyText(text)) => {
            assert_eq!(text, "tx_fault:0,codec_decode,count=10,limit=10;")
        }
        other => panic!("unexpected outbound: {other:?}"),
    }
    assert!(next_out(&mut frontend.clients, 74).is_none());
}

#[test]
fn split_media_ignores_opus_that_arrives_before_control_lane_negotiation() {
    let mut frontend: TciFrontend<Vec<f32>> = TciFrontend::new(false, 0, 48_000, 2);
    frontend.clients.register_client(73, flags(true), None);
    frontend.clients.register_client(74, flags(true), None);
    pair(&mut frontend.clients, "codec-race", 73, 74);
    for _ in 0..TX_CODEC_DECODE_ERROR_FORCE_RX_LIMIT {
        assert!(matches!(
            frontend.check_mic_frame_codec(74, TxMicCodec::OpusWb),
            Err(TciMicFrameParseError::Decode(_))
        ));
    }
    let media = state(&frontend.clients, 74);
    assert_eq!(media.tx_codec_active, TxMicCodec::Pcm);
    assert_eq!(media.tx_codec_decode_error_count, 0);
    assert!(!media.tx_codec_degraded);
}

#[test]
fn split_unpaired_media_socket_cannot_supply_mic_binary() {
    let mut frontend: TciFrontend<Vec<f32>> = TciFrontend::new(false, 0, 48_000, 2);
    frontend.clients.register_client(81, flags(false), None);
    frontend.clients.operator_client_id = 80;
    parse(&mut frontend.clients, "session_lane:phase-42,media;", 81, false);
    assert!(!frontend.mic_frame_allowed(81, NOW));
}

#[test]
fn split_iq_stream_enable_propagates_from_control_to_media() {
    let mut reg = registry(&[80, 81]);
    pair(&mut reg, "phase-42", 80, 81);
    assert!(reg.set_client_iq_stream_enabled(80, true));
    assert!(state(&reg, 80).iq_stream_enabled);
    assert!(state(&reg, 81).iq_stream_enabled);
}

#[test]
fn split_audio_stream_enable_propagates_from_control_to_media() {
    let mut reg = registry(&[82, 83]);
    pair(&mut reg, "phase-42", 82, 83);
    assert!(reg.set_client_audio_stream_enabled(82, true));
    assert!(state(&reg, 82).audio_stream_enabled);
    assert!(state(&reg, 83).audio_stream_enabled);
}

#[test]
fn split_audio_format_state_propagates_from_control_to_media() {
    let mut reg = registry(&[84, 85]);
    pair(&mut reg, "phase-42", 84, 85);
    reg.set_client_audio_sample_rate(84, 24_000);
    reg.set_client_audio_frame_float_count(84, 4096);
    reg.set_client_audio_channels(84, 1);
    assert_eq!(state(&reg, 85).audio_sample_rate_hz, 24_000);
    assert_eq!(state(&reg, 85).audio_frame_float_count, 4096);
    assert_eq!(state(&reg, 85).audio_channels, 1);
}

#[test]
fn split_tx_media_priority_suppresses_media_downlink() {
    let mut reg = registry(&[86, 87]);
    pair(&mut reg, "phase-42", 86, 87);
    reg.set_client_iq_stream_enabled(86, true);
    reg.set_client_audio_stream_enabled(86, true);
    let media = &reg.entries[reg.find(87).unwrap()].conn;
    assert!(!client_wants_outbound_message(media, &iq(), true));
    assert!(!client_wants_outbound_message(media, &tx_iq(), true));
    assert!(!client_wants_outbound_message(media, &audio(7), true));
    assert!(client_wants_outbound_message(media, &iq(), false));
    assert!(client_wants_outbound_message(media, &tx_iq(), false));
    assert!(client_wants_outbound_message(media, &audio(7), false));
}

#[test]
fn split_outbound_routing_sends_text_to_control_lane_not_media() {
    let control = connection(lane(SplitSocketKind::Control, Some(TciClientRole::Operator)));
    let media = connection(lane(SplitSocketKind::Media, None));
    let text = OutboundMessage::Text("rx_smeter:0,0,-110.0;".into());
    assert!(client_wants_outbound_message(&control, &text, false));
    assert!(!client_wants_outbound_message(&media, &text, false));
    let safety = OutboundMessage::SafetyText("tx_fault:0,power_trip,126.3,110.0;".into());
    assert!(client_wants_outbound_message(&control, &safety, false));
    assert!(!client_wants_outbound_message(&media, &safety, false));
}

#[test]
fn connect_lane_hint_filters_outbound_before_session_lane_declaration() {
    let text = OutboundMessage::Text("rx_smeter:0,0,-110.0;".into());
    let safety = OutboundMessage::SafetyText("tx_fault:0,power_trip,126.3,110.0;".into());

    let mut media = connection(None);
    media.state.connect_lane_hint = Some(SplitSocketKind::Media);
    media.state.iq_stream_enabled = true;
    assert!(!client_wants_outbound_message(&media, &text, false));
    assert!(!client_wants_outbound_message(&media, &safety, false));
    assert!(client_wants_outbound_message(&media, &iq(), false));

    let mut control = connection(None);
    control.state.connect_lane_hint = Some(SplitSocketKind::Control);
    control.state.iq_stream_enabled = true;
    assert!(client_wants_outbound_message(&control, &text, false));
    assert!(!client_wants_outbound_message(&control, &iq(), false));

    let mut legacy = connection(None);
    legacy.state.iq_stream_enabled = true;
    assert!(client_wants_outbound_message(&legacy, &text, false));
    assert!(client_wants_outbound_message(&legacy, &iq(), false));

    media.state.split = lane(SplitSocketKind::Media, None);
    assert!(!client_wants_outbound_message(&media, &text, false));
    assert!(client_wants_outbound_message(&media, &iq(), false));
}

#[test]
fn split_outbound_routing_sends_iq_to_media_lane_not_control() {
    let mut control = connection(lane(SplitSocketKind::Control, Some(TciClientRole::Operator)));
    control.state.iq_stream_enabled = true;
    let mut media = connection(lane(SplitSocketKind::Media, None));
    media.state.iq_stream_enabled = true;
    assert!(!client_wants_outbound_message(&control, &iq(), false));
    assert!(client_wants_outbound_message(&media, &iq(), false));
    assert!(!client_wants_outbound_message(&control, &tx_iq(), false));
    assert!(client_wants_outbound_message(&media, &tx_iq(), false));
}

#[test]
fn split_outbound_routing_sends_audio_to_media_lane_not_control() {
    let mut control = connection(lane(SplitSocketKind::Control, Some(TciClientRole::Operator)));
    control.state.audio_stream_enabled = true;
    let mut media = connection(lane(SplitSocketKind::Media, None));
    media.state.audio_stream_enabled = true;
    assert!(!client_wants_outbound_message(&control, &audio(7), false));
    assert!(client_wants_outbound_message(&media, &audio(7), false));
}

#[test]
fn legacy_non_split_client_receives_text_and_binary() {
    let mut legacy = connection(None);
    legacy.state.iq_stream_enabled = true;
    legacy.state.audio_stream_enabled = true;
    let text = OutboundMessage::Text("rx_smeter:0,0,-110.0;".into());
    assert!(client_wants_outbound_message(&legacy, &text, false));
    assert!(client_wants_outbound_message(&legacy, &iq(), false));
    assert!(client_wants_outbound_message(&legacy, &audio(0), false));
}

#[test]
fn viewer_commands_are_limited_to_streaming_and_ping() {
    let mut reg = registry(&[9]);
    assert!(parse(&mut reg, "trx:0,true,tci;", 9, false).is_none());
    assert!(matches!(
        parse(&mut reg, "iq_start:0;", 9, false),
        Some(TciCommand::SetIqStreaming)
    ));
    assert!(state(&reg, 9).iq_stream_enabled);
    parse(&mut reg, "audio_seq_gap_count:0,4", 9, false);
    assert_eq!(state(&reg, 9).audio_seq_gap_count, 4);
    parse(&mut reg, "tx_uplink_stats:0,true,5,6,7000,9000", 9, false);
    assert!(!state(&reg, 9).tx_uplink_degraded);
    assert!(parse(&mut reg, "remote_tx_media_priority:0,true", 9, false).is_none());
}

#[test]
fn parses_operator_tx_uplink_stats() {
    let mut reg = registry(&[9]);
    parse(&mut reg, "tx_uplink_stats:0,true,5,6,7000,9000", 9, true);
    let st = state(&reg, 9);
    assert!(st.tx_uplink_degraded);
    assert_eq!(st.tx_mic_browser_last_seq, 5);
    assert_eq!(st.tx_mic_browser_dropped_count, 6);
    assert_eq!(st.tx_uplink_buffered_bytes, 7000);
    assert_eq!(st.tx_uplink_buffered_high_watermark_bytes, 9000);
}

#[test]
fn tracks_tx_codec_safety_counters_in_client_snapshot() {
    let mut reg = registry(&[9]);
    reg.record_client_tx_codec_decode_error_at(9, NOW);
    reg.record_client_tx_codec_decode_error_at(9, NOW);
    reg.record_client_tx_codec_stale_drop(9);
    assert!(reg.flush_client_tx_codec_decode_queue(9));
    let st = state(&reg, 9);
    assert_eq!(st.tx_codec_decode_error_count, 2);
    assert_eq!(st.tx_codec_stale_drop_count, 1);
    assert_eq!(st.tx_codec_release_flush_count, 1);
}

#[test]
fn remote_tx_media_priority_is_a_noop_after_split_refactor() {
    let mut reg = registry(&[9]);
    assert!(parse(&mut reg, "remote_tx_media_priority:0,true", 9, true).is_none());
    assert!(parse(&mut reg, "remote_tx_media_priority:0,false", 9, true).is_none());
}

#[test]
fn records_tx_mic_sequence_gaps() {
    let mut reg = registry(&[9]);
    reg.record_client_tx_mic_frame(9, 1, NOW);
    reg.record_client_tx_mic_frame(9, 2, NOW);
    reg.record_client_tx_mic_frame(9, 4, NOW);
    let st = state(&reg, 9);
    assert_eq!(st.tx_mic_last_arrived_seq, 4);
    assert_eq!(st.tx_mic_seq_gap_count, 1);
    assert_eq!(st.tx_mic_last_arrived_at_ns, Some(NOW));
}

#[test]
fn trx_true_resets_tx_uplink_attempt_telemetry() {
    let mut reg = registry(&[9]);
    parse(&mut reg, "tx_uplink_stats:0,true,12,3,4096,8192", 9, true);
    reg.record_client_tx_mic_frame(9, 10, NOW);
    reg.record_client_tx_mic_frame(9, 12, NOW);
    {
        let st = state(&reg, 9);
        assert!(st.tx_uplink_degraded);
        assert_eq!(st.tx_mic_browser_dropped_count, 3);
        assert_eq!(st.tx_mic_seq_gap_count, 1);
        assert_eq!(st.tx_mic_last_arrived_seq, 12);
    }
    assert!(matches!(
        parse(&mut reg, "trx:0,true,tci;", 9, true),
        Some(TciCommand::SetTxEnabled(true))
    ));
    let first_frame_at = NOW + 20 * MS;
    reg.record_client_tx_mic_frame(9, 50, first_frame_at);
    let st = state(&reg, 9);
    assert!(!st.tx_uplink_degraded);
    assert_eq!(st.tx_mic_browser_last_seq, 0);
    assert_eq!(st.tx_mic_browser_dropped_count, 0);
    assert_eq!(st.tx_uplink_buffered_bytes, 0);
    assert_eq!(st.tx_uplink_buffered_high_watermark_bytes, 0);
    assert_eq!(st.tx_mic_last_arrived_seq, 50);
    assert_eq!(st.tx_mic_seq_gap_count, 0);
    assert_eq!(st.tx_mic_last_arrived_at_ns, Some(first_frame_at));
}

#[test]
fn operator_disconnect_promotes_oldest_viewer() {
    let mut reg = registry(&[1, 2]);
    let disconnect = reg.unregister_client(1, NOW);
    assert!(disconnect.was_operator);
    assert_eq!(disconnect.promoted_operator, Some(2));
    assert_eq!(disconnect.split_closed_peer, None);
    assert!(!disconnect.split_media_loss_forces_rx);
    assert_eq!(disconnect.remaining_clients, 1);
    assert_eq!(reg.operator_client_id, 2);
}

#[test]
fn split_media_disconnect_forces_rx_when_paired_with_operator() {
    let mut reg = registry(&[91, 92]);
    pair(&mut reg, "phase-42", 91, 92);
    let disconnect = reg.unregister_client(92, NOW);
    assert!(!disconnect.was_operator);
    assert!(disconnect.split_media_loss_forces_rx);
    assert_eq!(disconnect.split_closed_peer, None);
    assert_eq!(disconnect.promoted_operator, None);
    assert_eq!(disconnect.remaining_clients, 1);
    assert_eq!(reg.operator_client_id, 91);
}

#[test]
fn split_control_disconnect_queues_media_peer_close() {
    let mut reg = registry(&[101, 102]);
    pair(&mut reg, "phase-42", 101, 102);
    let disconnect = reg.unregister_client(101, NOW);
    assert!(disconnect.was_operator);
    assert_eq!(disconnect.split_closed_peer, Some(102));
    assert_eq!(disconnect.remaining_clients, 1);
    let i = reg.find(102).unwrap();
    let close = reg.entries[i].conn.outbound.next_message(false).unwrap();
    assert!(matches!(close.message, OutboundMessage::Close));
}

#[test]
fn operator_disconnect_does_not_promote_split_media_socket() {
    let mut reg = registry(&[1, 2, 3]);
    parse(&mut reg, "session_lane:phase-42,media;", 2, false);
    let disconnect = reg.unregister_client(1, NOW);
    assert!(disconnect.was_operator);
    assert!(!disconnect.split_media_loss_forces_rx);
    assert_eq!(disconnect.split_closed_peer, None);
    assert_eq!(disconnect.promoted_operator, Some(3));
    assert_eq!(disconnect.remaining_clients, 2);
    assert_eq!(reg.operator_client_id, 3);
}

#[test]
fn classifies_parser_decode_errors_for_telemetry() {
    let mut frame = vec![0u8; 64 + 4];
    write_u32_le(&mut frame, 4, 48_000);
    write_u32_le(&mut frame, 8, TX_SAMPLE_TYPE_S16);
    write_u32_le(&mut frame, 20, 2);
    write_u32_le(&mut frame, 24, 2);
    write_u32_le(&mut frame, 28, 1);
    write_u32_le(&mut frame, 36, TX_MIC_CODEC_PCM_ID);
    write_u32_le(&mut frame, 40, 2);
    let parts = parse_tci_mic_frame_parts(&frame).unwrap();
    assert_eq!(
        saturn_bridge::codec::check_pcm_payload(
            parts.sample_type,
            parts.sample_count,
            parts.payload.len(),
            parts.declared_payload_bytes
        ),
        Err(saturn_bridge::codec::TxDecodeError::PayloadSizeMismatch)
    );
    write_u32_le(&mut frame, 24, 1);
    assert!(matches!(
        parse_tci_mic_frame_parts(&frame),
        Err(TciMicFrameParseError::NotMicFrame)
    ));
}
