use std::collections::VecDeque;

use saturn_bridge::backend::{
    adaptive_filter_delay, adaptive_filter_taps, eq_band_gain_db, DirectTxAction, DirectTxControl,
    TxPhase,
};
use saturn_bridge::protocol::viewer_tci_command_allowed;
use saturn_bridge::tx_control::{
    fill_mic_block, mode_inverts_two_tone, monitor_keyed_voice, push_display_chunk,
    push_mic_sample, tx_watchdog_secs, unkey_packet_count, wdsp_mode, DemodMode, DucPacketAction,
    TxController, TxState, DUC_IQ_PACKET_PERIOD_NS, DUC_IQ_SAMPLES_PER_PACKET,
    MIC_BLOCK_PERIOD_NS, TX_MIC_SAMPLES_PER_DSP_BLOCK, TX_UNKEY_BURST_COUNT,
};

const MS: u64 = 1_000_000;

#[test]
fn transmit_loop_keys_on_keyable_iq_after_recent_mic_audio() {
    let mut tx = TxController::new(0);
    assert!(tx.arm(true, false, 10 * MS));
    assert_eq!(tx.state, TxState::Armed);
    assert!(!tx.arm(true, false, 11 * MS));

    // No mic audio yet: the clock waits for the prefill.
    tx.start_mic_clock(1_000, 2_048, 12 * MS);
    assert!(!tx.mic_output_started);
    assert!(!tx.mic_block_due(12 * MS, 0));

    assert!(tx.mic_audio(true, 13 * MS));
    assert_eq!(tx.mic_frame_count, 1);
    assert_eq!(tx.first_mic_audio_at_ns, Some(13 * MS));
    tx.start_mic_clock(2_048, 2_048, 14 * MS);
    assert!(tx.mic_output_started);
    assert!(tx.mic_block_due(14 * MS, 0));
    tx.mic_block_sent(false);
    assert_eq!(tx.next_mic_dsp_at_ns, 14 * MS + MIC_BLOCK_PERIOD_NS);
    tx.finish_mic_pass(1, 14 * MS);

    assert!(tx.duc_packet_due(DUC_IQ_SAMPLES_PER_PACKET * 2, 14 * MS, 0));
    assert!(!tx.duc_packet_due(DUC_IQ_SAMPLES_PER_PACKET * 2 - 1, 14 * MS, 0));
    assert_eq!(tx.on_duc_packet(false, 14 * MS), DucPacketAction::HoldWaiting);
    assert_eq!(tx.on_duc_packet(true, 15 * MS), DucPacketAction::KeyThenSend);
    assert_eq!(tx.state, TxState::Keyed);
    assert_eq!(tx.keyed_at_ns, Some(15 * MS));
    assert_eq!(tx.next_duc_iq_at_ns, 10 * MS + 2 * DUC_IQ_PACKET_PERIOD_NS);
    tx.duc_packet_sent();
    assert_eq!(tx.duc_packet_count, 1);
    assert_eq!(tx.on_duc_packet(true, 16 * MS), DucPacketAction::Send);

    tx.model_changed(true);
    assert!(tx.two_tone);

    // The watchdog ends the episode once it has run long enough.
    assert_eq!(tx.check_watchdog(20 * MS, 180_000 * MS), TxState::Idle);
    assert_eq!(tx.state, TxState::Keyed);
    assert_eq!(tx.check_watchdog(10 * MS + 180_000 * MS, 180_000 * MS), TxState::Keyed);
    assert_eq!(tx.state, TxState::Idle);
    assert!(!tx.rf_enabled);
    assert_eq!(unkey_packet_count(TxState::Keyed), TX_UNKEY_BURST_COUNT);
    assert_eq!(unkey_packet_count(TxState::Armed), 1);
    assert_eq!(unkey_packet_count(TxState::Idle), 0);
}

#[test]
fn armed_without_rf_holds_every_packet() {
    let mut tx = TxController::new(0);
    assert!(tx.arm(false, true, 0));
    assert_eq!(tx.on_duc_packet(true, MS), DucPacketAction::HoldRfDisabled);
    assert_eq!(tx.state, TxState::Armed);
    assert!(tx.mic_audio(true, MS));
    assert_eq!(tx.state, TxState::Armed);
}

#[test]
fn silence_after_the_gap_starts_fill_and_live_audio_ends_it() {
    let mut tx = TxController::new(0);
    assert!(tx.arm(true, false, 0));
    assert!(tx.mic_audio(false, MS));
    tx.finish_mic_pass(1, MS + 250 * MS);
    assert!(tx.keepalive_active);
    assert!(tx.mic_audio(false, 300 * MS));
    assert!(tx.mic_audio(false, 301 * MS));
    assert!(tx.keepalive_active);
    assert!(tx.mic_audio(false, 302 * MS));
    assert!(!tx.keepalive_active);
}

#[test]
fn mic_blocks_take_queued_samples_then_hold_or_zero() {
    let mut queue: VecDeque<i32> = VecDeque::new();
    for k in 0..600 {
        push_mic_sample(&mut queue, k);
    }
    let mut last = -1;
    let (block, underrun) = fill_mic_block(&mut queue, false, 0, &mut last, true);
    assert_eq!(block.len(), TX_MIC_SAMPLES_PER_DSP_BLOCK);
    assert!(!underrun);
    assert_eq!(block[0], 0);
    assert_eq!(block[511], 511);
    assert_eq!(queue.len(), 88);

    let (block, underrun) = fill_mic_block(&mut queue, false, 0, &mut last, true);
    assert!(underrun);
    assert_eq!(block[87], 599);
    assert_eq!(block[88], 599);
    assert_eq!(block[511], 599);
    assert!(queue.is_empty());

    let (block, _) = fill_mic_block(&mut queue, true, 0, &mut last, true);
    assert!(block.iter().all(|&s| s == 0));
}

#[test]
fn display_frames_collect_four_packets() {
    let mut buffer: Vec<u8> = Vec::new();
    let chunk = vec![7u8; 480];
    for _ in 0..3 {
        assert!(push_display_chunk(&mut buffer, &chunk, 1_920).is_none());
    }
    let frame = push_display_chunk(&mut buffer, &chunk, 1_920).unwrap();
    assert_eq!(frame.len(), 1_920);
    assert!(buffer.is_empty());
}

#[test]
fn tx_mode_tables() {
    assert_eq!(wdsp_mode(DemodMode::Lsb), 0);
    assert_eq!(wdsp_mode(DemodMode::Usb), 1);
    assert_eq!(wdsp_mode(DemodMode::Sam), 10);
    assert!(mode_inverts_two_tone(DemodMode::DigL));
    assert!(!mode_inverts_two_tone(DemodMode::Usb));
    assert!(monitor_keyed_voice(true, false, DemodMode::Am));
    assert!(!monitor_keyed_voice(true, true, DemodMode::Am));
    assert!(!monitor_keyed_voice(true, false, DemodMode::Cwu));
}

#[test]
fn tx_watchdog_setting_is_clamped() {
    assert_eq!(tx_watchdog_secs(None), 180);
    assert_eq!(tx_watchdog_secs(Some("1")), 3);
    assert_eq!(tx_watchdog_secs(Some("60")), 60);
    assert_eq!(tx_watchdog_secs(Some("999")), 180);
    assert_eq!(tx_watchdog_secs(Some("soon")), 180);
}

#[test]
fn direct_tx_request_follows_clients_and_worker() {
    let mut control = DirectTxControl::new(40);
    assert_eq!(control.set_tx_enabled(true, false, true), DirectTxAction::Arm { rf_enabled: true });
    assert!(control.requested);
    assert_eq!(control.phase, TxPhase::Armed);
    control.tx_keyed();
    control.tx_unkeyed();
    assert!(!control.requested);
    assert_eq!(control.phase, TxPhase::Rx);
    assert_eq!(control.set_tx_enabled(true, false, false), DirectTxAction::Arm { rf_enabled: false });
    control.client_disconnected();
    assert!(!control.requested && !control.tx_enabled);
    assert_eq!(control.phase, TxPhase::Rx);
    assert_eq!(control.drive, 40);
}

#[test]
fn dsp_settings_are_clamped() {
    assert_eq!(adaptive_filter_taps(0), 1);
    assert_eq!(adaptive_filter_taps(64), 64);
    assert_eq!(adaptive_filter_taps(500), 128);
    assert_eq!(adaptive_filter_delay(-3), 0);
    assert_eq!(adaptive_filter_delay(200), 127);
    assert_eq!(eq_band_gain_db(-30), -20);
    assert_eq!(eq_band_gain_db(7), 7);
    assert_eq!(eq_band_gain_db(25), 20);
}

#[test]
fn viewers_may_only_stream_and_ping() {
    assert!(viewer_tci_command_allowed("iq_start"));
    assert!(!viewer_tci_command_allowed("trx"));
}
