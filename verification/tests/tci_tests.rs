use saturn_bridge::commands::TciCommand;
use saturn_bridge::settings::{apply_radio_command, RadioAction};
use saturn_bridge::tx_control::DemodMode;
use saturn_bridge::publish::{resample_tap, rx_audio_transport_shape, AudioShape, ResampleTap};
use saturn_bridge::frontend::{
    bulk_allowed_for_tcp_outq, display_frame_interval_for_limit,
    effective_rx_audio_transport_profile,
};
use saturn_bridge::outbound::BULK_TCP_OUTQ_LIMIT_BYTES;
use saturn_bridge::protocol::{
    lane_hint_for_request_path, parse_tci_bool, tx_control_watchdog_fault_message,
    tx_uplink_late_fault_message,
};
use saturn_bridge::snapshot::initial_snapshot_messages;
use saturn_bridge::session::{
    parse_split_session_lane, parse_split_session_open, remote_client_role_message,
    split_session_paired_message, SplitDisconnectAction, SplitMediaFrameAction, SplitSession,
    SplitSessionState, SplitSocketKind, TciClientRole,
};

const MS: u64 = 1_000_000;
const S: u64 = 1_000_000_000;

#[test]
fn per_client_audio_profile_honors_request_and_service_caps() {
    assert_eq!(
        effective_rx_audio_transport_profile(48_000, 2, 48_000, 48_000, 2),
        (48_000, 2)
    );
    assert_eq!(
        effective_rx_audio_transport_profile(12_000, 1, 48_000, 48_000, 2),
        (12_000, 1)
    );
    assert_eq!(
        effective_rx_audio_transport_profile(48_000, 2, 48_000, 24_000, 1),
        (24_000, 1)
    );
}

#[test]
fn bulk_tcp_outq_guard_blocks_bulk_at_limit() {
    assert!(bulk_allowed_for_tcp_outq(BULK_TCP_OUTQ_LIMIT_BYTES - 1));
    assert!(!bulk_allowed_for_tcp_outq(BULK_TCP_OUTQ_LIMIT_BYTES));
    assert!(!bulk_allowed_for_tcp_outq(BULK_TCP_OUTQ_LIMIT_BYTES * 2));
}

#[test]
fn display_frame_interval_supports_limit_and_disable() {
    assert_eq!(display_frame_interval_for_limit(0), 0);
    assert_eq!(display_frame_interval_for_limit(25), 40 * MS);
    assert_eq!(display_frame_interval_for_limit(50), 20 * MS);
}

#[test]
fn parses_boolish_tci_values() {
    assert_eq!(parse_tci_bool("true"), Some(true));
    assert_eq!(parse_tci_bool("0"), Some(false));
    assert_eq!(parse_tci_bool("bogus"), None);
}

#[test]
fn formats_tx_uplink_late_fault_message() {
    assert_eq!(
        tx_uplink_late_fault_message(280, 250),
        "tx_fault:0,uplink_late,280,250;"
    );
}

#[test]
fn formats_tx_control_watchdog_fault_message() {
    assert_eq!(
        tx_control_watchdog_fault_message(620, 500),
        "tx_fault:0,control_watchdog,620,500;"
    );
}

#[test]
fn formats_remote_client_role_message() {
    assert_eq!(
        remote_client_role_message(42, TciClientRole::Operator),
        "remote_client_role:0,operator,42;"
    );
    assert_eq!(
        remote_client_role_message(43, TciClientRole::Viewer),
        "remote_client_role:0,viewer,43;"
    );
}

#[test]
fn split_parses_session_open_and_paired_message() {
    assert_eq!(
        parse_split_session_open("session_open:phase-42,viewer;"),
        Some(("phase-42".to_string(), TciClientRole::Viewer))
    );
    assert_eq!(
        parse_split_session_open("session_open:operator.1;"),
        Some(("operator.1".to_string(), TciClientRole::Operator))
    );
    assert_eq!(parse_split_session_open("saturn_ping:1,2;"), None);
    assert_eq!(
        split_session_paired_message("phase-42"),
        "session_paired:phase-42;"
    );
}

#[test]
fn split_parses_proxy_lane_marker() {
    assert_eq!(
        parse_split_session_lane("session_lane:phase-42,control;"),
        Some(("phase-42".to_string(), SplitSocketKind::Control))
    );
    assert_eq!(
        parse_split_session_lane("session_lane:phase%3A42,media;"),
        Some(("phase3A42".to_string(), SplitSocketKind::Media))
    );
    assert_eq!(SplitSocketKind::Control.as_tci(), "control");
    assert_eq!(
        parse_split_session_lane("session_lane:phase-42,data;"),
        None
    );
    assert_eq!(
        parse_split_session_lane("session_open:phase-42,operator;"),
        None
    );
}

#[test]
fn split_session_pairs_after_control_and_media_connect() {
    let now = 5 * S;
    let mut session = SplitSession::new_control("phase-42", now).unwrap();

    assert_eq!(session.state, SplitSessionState::WaitingMedia);
    assert!(!session.pairing_timed_out(now + 29 * S));
    assert!(session.pairing_timed_out(now + 30 * S));

    assert_eq!(
        session.connect_media(),
        Some("session_paired:phase-42;".to_string())
    );
    assert_eq!(session.state, SplitSessionState::Paired);
}

#[test]
fn split_release_opens_media_ignore_window() {
    let now = 5 * S;
    let mut session = SplitSession::new_control("phase-42", now).unwrap();
    session.connect_media();
    assert!(session.key());
    assert_eq!(
        session.media_frame_action(now + 10 * MS),
        SplitMediaFrameAction::Accept
    );

    assert!(session.release(now + 20 * MS));
    assert_eq!(session.state, SplitSessionState::Paired);
    assert_eq!(
        session.media_frame_action(now + 30 * MS),
        SplitMediaFrameAction::DropReleaseWindow
    );
    assert_eq!(session.release_window_drops, 1);
    assert_eq!(
        session.media_frame_action(now + 300 * MS),
        SplitMediaFrameAction::DropNotKeyed
    );
}

#[test]
fn split_disconnects_force_rx_at_safety_boundaries() {
    let now = 5 * S;
    let mut media_loss = SplitSession::new_control("phase-42", now).unwrap();
    media_loss.connect_media();
    media_loss.key();
    assert_eq!(
        media_loss.disconnect_media(),
        SplitDisconnectAction {
            force_rx: true,
            close_peer_socket: false,
            state: SplitSessionState::WaitingMedia,
        }
    );

    let mut control_loss = SplitSession::new_control("phase-43", now).unwrap();
    control_loss.connect_media();
    control_loss.key();
    assert_eq!(
        control_loss.disconnect_control(),
        SplitDisconnectAction {
            force_rx: true,
            close_peer_socket: true,
            state: SplitSessionState::Terminated,
        }
    );
}

#[test]
fn lane_hint_for_request_path_maps_proxy_paths() {
    assert_eq!(
        lane_hint_for_request_path("/control"),
        Some(SplitSocketKind::Control)
    );
    assert_eq!(
        lane_hint_for_request_path("/media"),
        Some(SplitSocketKind::Media)
    );
    assert_eq!(lane_hint_for_request_path("/"), None);
    assert_eq!(lane_hint_for_request_path(""), None);
    assert_eq!(lane_hint_for_request_path("/tci"), None);
    assert_eq!(lane_hint_for_request_path("/media/"), None);
}

fn text(s: &str) -> String {
    s.to_string()
}

fn snapshot_model(drive: u64) -> saturn_bridge::snapshot::RadioSnapshot {
    saturn_bridge::snapshot::RadioSnapshot {
        vfo_a_hz: 14_200_000,
        vfo_b_hz: 14_200_000,
        iq_center_hz: 14_200_000,
        ddc0_adc: 0,
        rx_antenna: 1,
        ddc0_sample_rate_khz: 192,
        mode: text("usb"),
        rx_volume_db: text("0.0"),
        rx_noise_reduction_on: false,
        rx_noise_reduction_mode: text("off"),
        rx_noise_reduction_level: text("50"),
        rx_nr2_gain_method: text("gamma"),
        rx_nr2_npe_method: text("osms"),
        rx_nr2_post_filter_enabled: true,
        rx_wbfm_supported: false,
        rx_wbfm_deemphasis: text("75us"),
        rx_wbfm_stereo_detected: false,
        filter_low_hz: 100,
        filter_high_hz: 2_800,
        nb_mode: text("off"),
        nb_threshold: text("30.00"),
        rx_anr_taps: 64,
        rx_anr_delay: 16,
        rx_anr_gain: text("0.000200"),
        rx_anr_leakage: text("0.000050"),
        anf_enabled: false,
        rx_anf_taps: 64,
        rx_anf_delay: 16,
        rx_anf_gain: text("0.000120"),
        rx_anf_leakage: text("0.000080"),
        agc_mode: text("med"),
        agc_gain: text("80"),
        tx_drive: drive,
        tx_mic_gain_db: text("0.0"),
        tx_enabled: false,
        tx_phase: text("rx"),
        tx_filter_low_hz: 100,
        tx_filter_high_hz: 2_800,
        rx_eq_enabled: false,
        tx_eq_enabled: false,
        rx_eq_bands: [0; 11],
        tx_eq_bands: [0, 1, 2, 3, 4, 5, 6, 7, 8, 9, 10],
        cfc_enabled: false,
        cfc_precomp_db: text("0.0"),
        cfc_bands: [
            text("1.0"),
            text("2.0"),
            text("3.0"),
            text("4.0"),
            text("5.0"),
            text("6.0"),
            text("7.0"),
            text("8.0"),
            text("9.0"),
            text("10.0"),
        ],
        tx_phase_rotator_enabled: false,
        tx_phase_rotator_auto: false,
        tx_phase_rotator_corner_hz: text("300"),
        pure_signal_enabled: false,
        pure_signal_auto_attenuate: false,
        pure_signal_attenuation_db: 0,
        pure_signal_state: text("off"),
        pure_signal_feedback_level: 0,
        pure_signal_calibration_count: 0,
        pure_signal_correcting: false,
        pure_signal_max_tx: text("0.0000"),
        pure_signal_feedback_packets: 0,
        pure_signal_feedback_gaps: 0,
        two_tone_enabled: false,
        tx_two_tone_freq1_hz: text("700"),
        tx_two_tone_freq2_hz: text("1900"),
        tx_two_tone_level_db: text("-6.0"),
        tx_two_tone_invert_lsb: true,
        tx_two_tone_delay_ms: 0,
        tx_noise_gate_enabled: false,
        tx_noise_gate_threshold_db: text("-40.0"),
        rx_fft_size: 2048,
        rx_low_latency: true,
        tx_fft_size: 4096,
        tx_low_latency: true,
    }
}

#[test]
fn initial_snapshot_includes_remote_tx_rf_state() {
    let model = snapshot_model(24);
    let disabled = initial_snapshot_messages(&model, false, 7, TciClientRole::Viewer);
    let enabled = initial_snapshot_messages(&model, true, 8, TciClientRole::Operator);

    assert!(disabled.contains(&"remote_tx_rf_enabled:0,false;".to_string()));
    assert!(enabled.contains(&"remote_tx_rf_enabled:0,true;".to_string()));
    assert!(disabled.contains(&"remote_client_role:0,viewer,7;".to_string()));
    assert!(enabled.contains(&"remote_client_role:0,operator,8;".to_string()));
}

#[test]
fn initial_snapshot_renders_settings_in_order() {
    let mut model = snapshot_model(24);
    model.rx_antenna = 9;
    model.filter_low_hz = -2_800;
    let msgs = initial_snapshot_messages(&model, true, 3, TciClientRole::Operator);
    assert_eq!(msgs.len(), 100);
    assert_eq!(msgs[0], "ready;");
    assert_eq!(msgs[2], "vfo:0,0,14200000;");
    assert_eq!(msgs[6], "rx_antenna:0,3;");
    assert_eq!(msgs[7], "iq_samplerate:192000;");
    assert_eq!(msgs[19], "rx_filter_band:0,-2800,2800;");
    assert_eq!(msgs[33], "tx_drive:0,24;");
    assert!(msgs.contains(&"tx_eq_band:0,10,10;".to_string()));
    assert!(msgs.contains(&"tx_cfc_band:0,10,10.0;".to_string()));
    assert_eq!(msgs[98], "tune:0,false;");
    assert_eq!(msgs[99], "audio_samplerate:48000;");
}

fn queued_texts(
    frontend: &mut saturn_bridge::frontend::TciFrontend<Vec<f32>>,
    id: u64,
) -> Vec<String> {
    let index = frontend.clients.find(id).expect("client is connected");
    let mut texts = Vec::new();
    while let Some(item) = frontend.clients.entries[index].conn.outbound.next_message(true) {
        match item.message {
            saturn_bridge::outbound::OutboundMessage::Text(t)
            | saturn_bridge::outbound::OutboundMessage::SafetyText(t) => texts.push(t),
            _ => {}
        }
    }
    texts
}

fn frontend() -> saturn_bridge::frontend::TciFrontend<Vec<f32>> {
    saturn_bridge::frontend::TciFrontend::new(false, 0, 48_000, 2)
}

fn no_opus() -> saturn_bridge::codec::TxCodecRuntimeFlags {
    saturn_bridge::codec::TxCodecRuntimeFlags::default_flags()
}

#[test]
fn first_client_is_operator_and_receives_connect_snapshot() {
    let mut fe = frontend();
    let model = snapshot_model(24);
    let (role, count, commands) = fe.connect_client::<Vec<f32>>(1, no_opus(), None, &model, 10);
    assert_eq!(role, TciClientRole::Operator);
    assert_eq!(count, 1);
    assert_eq!(commands.len(), 1);
    assert!(matches!(commands[0], saturn_bridge::commands::TciCommand::ClientConnected));
    assert_eq!(fe.clients.operator_client_id, 1);

    let expected = initial_snapshot_messages(&model, false, 1, TciClientRole::Operator);
    let texts = queued_texts(&mut fe, 1);
    assert_eq!(texts[0], "ready;");
    assert!(texts.contains(&"remote_client_role:0,operator,1;".to_string()));
    assert!(texts.iter().all(|t| expected.contains(t)));
    // Every snapshot text either stayed queued or replaced an earlier one, and each replacement is counted.
    assert_eq!(texts.len() as u64 + fe.drop_count, expected.len() as u64);
}

#[test]
fn media_lane_client_receives_no_connect_snapshot() {
    let mut fe = frontend();
    let model = snapshot_model(24);
    let (_, _, _) = fe.connect_client::<Vec<f32>>(4, no_opus(), Some(SplitSocketKind::Media), &model, 10);
    assert!(queued_texts(&mut fe, 4).is_empty());
    assert_eq!(fe.drop_count, 0);
}

#[test]
fn second_client_is_viewer_and_does_not_wake_radio_loop() {
    let mut fe = frontend();
    let model = snapshot_model(24);
    fe.connect_client::<Vec<f32>>(1, no_opus(), None, &model, 10);
    let (role, count, commands) = fe.connect_client::<Vec<f32>>(2, no_opus(), None, &model, 20);
    assert_eq!(role, TciClientRole::Viewer);
    assert_eq!(count, 2);
    assert!(commands.is_empty());
    assert!(queued_texts(&mut fe, 2).contains(&"remote_client_role:0,viewer,2;".to_string()));
}

#[test]
fn operator_disconnect_forces_rx_and_promotes_next_client() {
    let mut fe = frontend();
    let model = snapshot_model(24);
    fe.connect_client::<Vec<f32>>(1, no_opus(), None, &model, 10);
    fe.connect_client::<Vec<f32>>(2, no_opus(), None, &model, 20);
    fe.note_operator_control(30);
    queued_texts(&mut fe, 2);

    let (disconnect, commands) = fe.disconnect_client::<Vec<f32>>(1, 40);
    assert!(disconnect.was_operator);
    assert_eq!(disconnect.promoted_operator, Some(2));
    assert_eq!(disconnect.remaining_clients, 1);
    assert_eq!(fe.clients.operator_client_id, 2);
    assert_eq!(fe.operator_control_at_ns, None);
    assert_eq!(commands.len(), 1);
    assert!(matches!(commands[0], saturn_bridge::commands::TciCommand::SetTxEnabled(false)));
    assert_eq!(queued_texts(&mut fe, 2), vec!["remote_client_role:0,operator,2;".to_string()]);
}

#[test]
fn last_client_disconnect_forces_rx_and_reports_no_clients() {
    let mut fe = frontend();
    let model = snapshot_model(24);
    fe.connect_client::<Vec<f32>>(1, no_opus(), None, &model, 10);
    let (disconnect, commands) = fe.disconnect_client::<Vec<f32>>(1, 20);
    assert_eq!(disconnect.promoted_operator, None);
    assert_eq!(disconnect.remaining_clients, 0);
    assert_eq!(fe.clients.operator_client_id, 0);
    assert_eq!(commands.len(), 2);
    assert!(matches!(commands[0], saturn_bridge::commands::TciCommand::SetTxEnabled(false)));
    assert!(matches!(commands[1], saturn_bridge::commands::TciCommand::ClientDisconnected));
}

#[test]
fn broadcast_counts_the_message_a_full_safety_queue_drops() {
    let mut fe = frontend();
    let model = snapshot_model(24);
    fe.connect_client::<Vec<f32>>(1, no_opus(), None, &model, 10);
    queued_texts(&mut fe, 1);
    let base = fe.drop_count;
    for k in 0..16 {
        fe.send_safety_text(format!("alert{k}:1;"), 20);
    }
    assert_eq!(fe.drop_count, base);
    fe.send_safety_text("alert99:1;".to_string(), 30);
    assert_eq!(fe.drop_count, base + 1);
    let texts = queued_texts(&mut fe, 1);
    assert_eq!(texts.len(), 16);
    assert_eq!(texts[0], "alert1:1;");
    assert_eq!(texts[15], "alert99:1;");
}

#[test]
fn heartbeat_pong_goes_to_its_client_only() {
    let mut fe = frontend();
    let model = snapshot_model(24);
    fe.connect_client::<Vec<f32>>(1, no_opus(), None, &model, 10);
    fe.connect_client::<Vec<f32>>(2, no_opus(), None, &model, 10);
    queued_texts(&mut fe, 1);
    queued_texts(&mut fe, 2);
    fe.publish_saturn_pong(2, "n7", "123", 20);
    assert!(queued_texts(&mut fe, 1).is_empty());
    assert_eq!(queued_texts(&mut fe, 2), vec!["saturn_pong:n7,123;".to_string()]);
}

#[test]
fn release_opens_media_ignore_window_and_ends_media_priority() {
    let mut fe = frontend();
    let model = snapshot_model(24);
    fe.connect_client::<Vec<f32>>(1, no_opus(), Some(SplitSocketKind::Control), &model, 10);
    fe.connect_client::<Vec<f32>>(2, no_opus(), Some(SplitSocketKind::Media), &model, 10);
    fe.handle_incoming_text::<Vec<f32>>("session_lane:abc,control;", 1, 20);
    fe.handle_incoming_text::<Vec<f32>>("session_lane:abc,media;", 2, 20);
    assert!(fe.has_split_paired_session());
    fe.set_tx_media_priority_active(true);
    assert!(fe.tx_media_priority_active());
    assert!(fe.mic_frame_allowed(2, 30));
    fe.mark_split_released(100);
    assert!(!fe.tx_media_priority_active());
    assert!(!fe.mic_frame_allowed(2, 100 + SPLIT_WINDOW - 1));
    assert!(fe.mic_frame_allowed(2, 100 + SPLIT_WINDOW));
    fe.mark_split_released(200);
    fe.clear_split_release_window();
    assert!(fe.mic_frame_allowed(2, 201));
}

const SPLIT_WINDOW: u64 = saturn_bridge::session::SPLIT_RELEASE_IGNORE_WINDOW_NS;

fn readings(smeter: Option<&str>, power: Option<(&str, &str)>) -> saturn_bridge::publish::TelemetryReadings {
    saturn_bridge::publish::TelemetryReadings {
        rx_wbfm_stereo_detected: true,
        smeter_dbm: smeter.map(text),
        tx_power: power.map(|(p, w)| (text(p), text(w))),
    }
}

#[test]
fn radio_state_broadcast_ends_with_meters_and_drop_report() {
    let mut fe = frontend();
    let model = snapshot_model(24);
    fe.connect_client::<Vec<f32>>(1, no_opus(), None, &model, 10);
    queued_texts(&mut fe, 1);
    fe.drop_count = 0;

    fe.publish_radio_state(&model, &readings(Some("-73.5"), Some(("12.5", "1.20"))), 20);
    let texts = queued_texts(&mut fe, 1);
    let state = saturn_bridge::snapshot::radio_state_messages(&model, false);
    assert_eq!(state.len(), 97);
    assert_eq!(state[0], "vfo:0,0,14200000;");
    assert_eq!(state[96], "tune:0,false;");
    assert_eq!(texts[0], "vfo:0,0,14200000;");
    // The stereo reading replaces the queued radio-state line of the same key, which counts as one drop.
    let stereo = state.iter().position(|t| t.starts_with("rx_wbfm_stereo:")).unwrap();
    assert_eq!(texts[stereo], "rx_wbfm_stereo:0,true;");
    assert_eq!(
        texts[texts.len() - 4..].to_vec(),
        vec![
            text("rx_smeter:0,0,-73.5;"),
            text("tx_power:0,12.5;"),
            text("swr:0,1.20;"),
            text("rx_drops:1;"),
        ]
    );
    assert_eq!(fe.drop_count, 0);
}

#[test]
fn telemetry_without_drops_sends_no_drop_report() {
    let mut fe = frontend();
    let model = snapshot_model(24);
    fe.connect_client::<Vec<f32>>(1, no_opus(), None, &model, 10);
    queued_texts(&mut fe, 1);
    fe.drop_count = 0;
    fe.publish_telemetry(&readings(None, None), 20);
    assert_eq!(queued_texts(&mut fe, 1), vec![text("rx_wbfm_stereo:0,true;")]);
    assert_eq!(fe.drop_count, 0);
}

#[test]
fn puresignal_status_broadcasts_its_eight_lines() {
    let mut fe = frontend();
    let mut model = snapshot_model(24);
    model.pure_signal_attenuation_db = 7;
    model.pure_signal_state = text("collect");
    model.pure_signal_calibration_count = 3;
    model.pure_signal_correcting = true;
    fe.connect_client::<Vec<f32>>(1, no_opus(), None, &model, 10);
    queued_texts(&mut fe, 1);
    fe.publish_puresignal_status(&model, 20);
    assert_eq!(
        queued_texts(&mut fe, 1),
        vec![
            text("tx_puresignal_attenuation:0,7;"),
            text("tx_puresignal_state:0,collect;"),
            text("tx_puresignal_feedback:0,0;"),
            text("tx_puresignal_calibration_count:0,3;"),
            text("tx_puresignal_correcting:0,true;"),
            text("tx_puresignal_max_tx:0,0.0000;"),
            text("tx_puresignal_feedback_packets:0,0;"),
            text("tx_puresignal_feedback_gaps:0,0;"),
        ]
    );
}

#[test]
fn scheduler_and_uplink_telemetry_lines_list_the_snapshot_figures() {
    let mut fe = frontend();
    let model = snapshot_model(24);
    fe.connect_client::<Vec<f32>>(1, no_opus(), None, &model, 10);
    queued_texts(&mut fe, 1);
    let mut snap = fe.client_snapshot(20);
    snap.safety_enqueue_to_write_p50_us = 1;
    snap.safety_enqueue_to_write_p95_us = 2;
    snap.safety_enqueue_to_write_p99_us = 3;
    snap.control_enqueue_to_write_p50_us = 4;
    snap.control_enqueue_to_write_p95_us = 5;
    snap.control_enqueue_to_write_p99_us = 6;
    snap.display_replaced_per_sec = 7;
    snap.display_dropped_per_sec = 8;
    snap.audio_dropped_per_sec = 9;
    snap.audio_seq_gap_count = 10;
    snap.audio_panic_drain_count = 11;
    snap.send_blocked_ms = 12;
    snap.outbound_high_watermark_bytes = 13;
    snap.safety_queue_depth_overflow_count = 14;
    snap.tcp_outq_high_watermark_bytes = 15;
    snap.display_rate_limited_per_sec = 16;
    snap.outbound_queued_bytes = 17;
    snap.tx_uplink_degraded = true;
    snap.tx_mic_browser_dropped_count = 21;
    snap.tx_uplink_buffered_bytes = 22;
    snap.tx_uplink_buffered_high_watermark_bytes = 23;
    snap.tx_mic_last_arrived_seq = 24;
    snap.tx_mic_seq_gap_count = 25;
    snap.tx_mic_age_ms = 26;
    snap.tx_codec_decode_error_count = 27;
    snap.tx_codec_stale_drop_count = 28;
    snap.tx_codec_release_flush_count = 29;
    fe.publish_scheduler_telemetry(&snap, 30);
    fe.publish_tx_uplink_telemetry(&snap, 30);
    assert_eq!(
        queued_texts(&mut fe, 1),
        vec![
            text("remote_backpressure:0,1,2,3,4,5,6,7,8,9,10,11,12,13,14,15,16,17;"),
            text("remote_tx_uplink:0,1,21,22,23,24,25,26,27,28,29;"),
        ]
    );
}

#[test]
fn plans_rx_audio_transport_shapes() {
    let wan = rx_audio_transport_shape(8, 48_000, 2, 12_000, 1);
    assert_eq!((wan.rate_hz, wan.channels, wan.source_rate_hz, wan.source_channels), (12_000, 1, 48_000, 2));
    assert_eq!(wan.shape, AudioShape::Resampled { frames: 1 });
    assert_eq!(
        rx_audio_transport_shape(2_048, 48_000, 2, 12_000, 1).shape,
        AudioShape::Resampled { frames: 256 }
    );
    assert_eq!(rx_audio_transport_shape(2_048, 48_000, 2, 48_000, 2).shape, AudioShape::Unchanged);
    assert_eq!(rx_audio_transport_shape(1, 48_000, 2, 12_000, 1).shape, AudioShape::Empty);
    let clamped = rx_audio_transport_shape(4, 96_000, 5, 1_000, 0);
    assert_eq!((clamped.rate_hz, clamped.channels, clamped.source_rate_hz, clamped.source_channels), (8_000, 1, 48_000, 2));
    assert_eq!(clamped.shape, AudioShape::Resampled { frames: 1 });
}

#[test]
fn audio_frame_goes_only_to_audio_streaming_clients() {
    let mut fe = frontend();
    let model = snapshot_model(24);
    fe.connect_client::<Vec<f32>>(1, no_opus(), None, &model, 10);
    fe.connect_client::<Vec<f32>>(2, no_opus(), None, &model, 10);
    queued_texts(&mut fe, 1);
    queued_texts(&mut fe, 2);

    fe.publish_audio_frame(12_000, 1, vec![0.5f32; 4], 4, 20);
    let idle = fe.clients.find(1).unwrap();
    assert!(fe.clients.entries[idle].conn.outbound.next_message(true).is_none());

    fe.clients.set_client_audio_stream_enabled(2, true);
    fe.publish_audio_frame(12_000, 1, vec![0.5f32; 4], 4, 30);
    let streaming = fe.clients.find(2).unwrap();
    let item = fe.clients.entries[streaming].conn.outbound.next_message(true).unwrap();
    match item.message {
        saturn_bridge::outbound::OutboundMessage::AudioFrame { receiver, sample_rate, channels, samples, sample_len, .. } => {
            assert_eq!((receiver, sample_rate, channels, sample_len), (0, 12_000, 1, 4));
            assert_eq!(samples, vec![0.5f32; 4]);
        }
        other => panic!("expected an audio frame, got {other:?}"),
    }
    let idle = fe.clients.find(1).unwrap();
    assert!(fe.clients.entries[idle].conn.outbound.next_message(true).is_none());
}

#[test]
fn connect_snapshot_carries_the_radio_state_broadcast() {
    let model = snapshot_model(31);
    let snapshot = initial_snapshot_messages(&model, true, 5, TciClientRole::Viewer);
    let state = saturn_bridge::snapshot::radio_state_messages(&model, true);
    assert_eq!(state.len(), 97);
    assert_eq!(snapshot[2..99].to_vec(), state);
    assert_eq!(state[96], "tune:0,false;");
}

#[test]
fn formats_tx_power_trip_fault_message() {
    // Powers are handed over in tenths of a watt: 126.3 W and 110.0 W.
    assert_eq!(
        saturn_bridge::protocol::tx_power_trip_fault_message(1263, 1100),
        "tx_fault:0,power_trip,126.3,110.0;"
    );
}

#[test]
fn power_trip_is_broadcast_as_safety_text() {
    let mut fe = frontend();
    let model = snapshot_model(24);
    fe.connect_client::<Vec<f32>>(1, no_opus(), None, &model, 10);
    queued_texts(&mut fe, 1);
    fe.publish_tx_power_trip(1263, 1100, 20);
    let index = fe.clients.find(1).unwrap();
    let item = fe.clients.entries[index].conn.outbound.next_message(false).unwrap();
    match item.message {
        saturn_bridge::outbound::OutboundMessage::SafetyText(t) => {
            assert_eq!(t, "tx_fault:0,power_trip,126.3,110.0;")
        }
        other => panic!("expected safety text, got {other:?}"),
    }
    assert_eq!(fe.last_operator_control_at(), None);
}

#[test]
fn iq_frames_follow_the_display_limit() {
    let mut fe: saturn_bridge::frontend::TciFrontend<Vec<f32>> =
        saturn_bridge::frontend::TciFrontend::new(false, 10, 48_000, 2);
    let model = snapshot_model(24);
    fe.connect_client::<Vec<f32>>(1, no_opus(), None, &model, 0);
    queued_texts(&mut fe, 1);
    // Nobody streams IQ yet: nothing happens.
    fe.publish_iq_frame(192_000, vec![0.0f32; 8], 8, 0);
    assert_eq!(fe.display_rate_limited_count, 0);
    fe.clients.set_client_iq_stream_enabled(1, true);
    fe.publish_iq_frame(192_000, vec![0.0f32; 8], 8, 0);
    fe.publish_iq_frame(192_000, vec![0.0f32; 8], 8, 50 * MS);
    assert_eq!(fe.display_rate_limited_count, 1);
    fe.publish_tx_iq_frame(192_000, vec![0.0f32; 8], 8, 100 * MS);
    assert_eq!(fe.display_rate_limited_count, 1);
    let index = fe.clients.find(1).unwrap();
    let item = fe.clients.entries[index].conn.outbound.next_message(true).unwrap();
    assert!(matches!(
        item.message,
        saturn_bridge::outbound::OutboundMessage::TxIqFrame { sample_rate: 192_000, sample_len: 8, .. }
    ));
    // The newer display frame replaced the older one.
    assert!(fe.clients.entries[index].conn.outbound.next_message(true).is_none());
}

#[test]
fn audio_start_and_stop_announce_the_transport_rate() {
    let mut fe: saturn_bridge::frontend::TciFrontend<Vec<f32>> =
        saturn_bridge::frontend::TciFrontend::new(false, 0, 24_000, 1);
    let model = snapshot_model(24);
    fe.connect_client::<Vec<f32>>(1, no_opus(), None, &model, 0);
    queued_texts(&mut fe, 1);
    fe.publish_audio_started(48_000, 10);
    fe.publish_audio_stopped(20);
    assert_eq!(
        queued_texts(&mut fe, 1),
        vec![text("audio_start:0;"), text("audio_samplerate:24000;"), text("audio_stop:0;")]
    );
}

#[test]
fn uplink_and_watchdog_faults_are_safety_broadcasts() {
    let mut fe = frontend();
    let model = snapshot_model(24);
    fe.connect_client::<Vec<f32>>(1, no_opus(), None, &model, 0);
    queued_texts(&mut fe, 1);
    fe.publish_tx_uplink_late(280, 250, 10);
    fe.publish_tx_control_watchdog(1_600, 1_500, 20);
    let index = fe.clients.find(1).unwrap();
    let mut safety = Vec::new();
    while let Some(item) = fe.clients.entries[index].conn.outbound.next_message(false) {
        if let saturn_bridge::outbound::OutboundMessage::SafetyText(t) = item.message {
            safety.push(t);
        }
    }
    assert_eq!(
        safety,
        vec![
            text("tx_fault:0,uplink_late,280,250;"),
            text("tx_fault:0,control_watchdog,1600,1500;"),
        ]
    );
}

#[test]
fn resample_taps_follow_the_rate_ratio() {
    assert_eq!(resample_tap(3, 10, 48_000, 8_000), ResampleTap { lo: 9, hi: 9, frac_num: 72_000 });
    assert_eq!(resample_tap(1, 10, 48_000, 24_000), ResampleTap { lo: 2, hi: 3, frac_num: 0 });
    assert_eq!(resample_tap(1, 10, 44_100, 8_000), ResampleTap { lo: 5, hi: 6, frac_num: 4_100 });
    assert_eq!(resample_tap(0, 1, 48_000, 8_000), ResampleTap { lo: 0, hi: 0, frac_num: 0 });
}

#[test]
fn radio_commands_update_settings_within_limits() {
    let mut s = snapshot_model(24);
    type C = TciCommand<Vec<f32>>;
    assert_eq!(apply_radio_command(&mut s, &C::SetRxAntenna(7), false), RadioAction::SetAntenna { antenna: 3 });
    assert_eq!(s.rx_antenna, 3);
    assert_eq!(apply_radio_command(&mut s, &C::SetRxAntenna(0), false), RadioAction::SetAntenna { antenna: 1 });
    assert_eq!(s.rx_antenna, 1);
    assert_eq!(apply_radio_command(&mut s, &C::SetRxAdc(2), false), RadioAction::RefusedAdc { adc: 2 });
    assert_eq!(s.ddc0_adc, 0);
    assert_eq!(apply_radio_command(&mut s, &C::SetVfoA(7_100_000), false), RadioAction::VfoChanged);
    assert_eq!(s.vfo_a_hz, 7_100_000);
    assert_eq!(apply_radio_command(&mut s, &C::SetIqCenter(7_000_000), false), RadioAction::Retune { center_hz: 7_000_000 });
    assert_eq!(s.iq_center_hz, 7_000_000);
    assert_eq!(apply_radio_command(&mut s, &C::SetTxDrive(250), false), RadioAction::WorkerModelChanged);
    assert_eq!(s.tx_drive, 100);
    assert_eq!(apply_radio_command(&mut s, &C::SetRxFftSize(5000), false), RadioAction::Unchanged);
    assert_eq!(s.rx_fft_size, 4096);
    assert_eq!(apply_radio_command(&mut s, &C::SetTxFftSize(1), false), RadioAction::WorkerModelChanged);
    assert_eq!(s.tx_fft_size, 1024);
    assert_eq!(apply_radio_command(&mut s, &C::SetRxEqBand { band: 3, gain_db: -30 }, false), RadioAction::Unchanged);
    assert_eq!(s.rx_eq_bands[3], -20);
    apply_radio_command(&mut s, &C::SetRxAnrVals { taps: Some(500), delay: Some(-4), gain: None, leakage: None }, false);
    assert_eq!((s.rx_anr_taps, s.rx_anr_delay), (128, 0));
    assert_eq!(apply_radio_command(&mut s, &C::SetTxTwoToneTest(true), true), RadioAction::TwoToneRefused);
    assert!(!s.two_tone_enabled);
    assert_eq!(apply_radio_command(&mut s, &C::SetTxTwoToneTest(true), false), RadioAction::WorkerModelChanged);
    assert!(s.two_tone_enabled);
    assert_eq!(apply_radio_command(&mut s, &C::SetTxTwoToneDelayMs(5000), false), RadioAction::WorkerModelChanged);
    assert_eq!(s.tx_two_tone_delay_ms, 2000);
    assert_eq!(apply_radio_command(&mut s, &C::SetPureSignalEnabled(true), false), RadioAction::PureSignalUnavailable);
    assert!(!s.pure_signal_enabled);
    assert_eq!(apply_radio_command(&mut s, &C::SetIqSampleRate(48_000), false), RadioAction::RefusedIqRate { rate_hz: 48_000 });
    assert_eq!(apply_radio_command(&mut s, &C::SetIqSampleRate(192_000), false), RadioAction::Unchanged);
    assert_eq!(apply_radio_command(&mut s, &C::SetRxVolume(text("30")), false), RadioAction::RealSetting);
    assert_eq!(s.rx_volume_db, "0.0");
    assert_eq!(apply_radio_command(&mut s, &C::SetAgcMode(text("fast")), false), RadioAction::Unchanged);
    assert_eq!(s.agc_mode, "fast");
    assert_eq!(apply_radio_command(&mut s, &C::SetTxEnabled(true), false), RadioAction::NotASetting);
    s.rx_wbfm_supported = false;
    assert_eq!(apply_radio_command(&mut s, &C::SetMode(DemodMode::Wfm), false), RadioAction::ModeChanged { mode: DemodMode::Fm });
    s.rx_wbfm_supported = true;
    assert_eq!(apply_radio_command(&mut s, &C::SetMode(DemodMode::Wfm), false), RadioAction::ModeChanged { mode: DemodMode::Wfm });
}
