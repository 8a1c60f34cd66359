use saturn_bridge::backend::{
    command_effects, effective_direct_tx_rf_enabled, normalized_fft_size, next_readiness,
    rx_processing_mode, CommandEffects, DirectReadiness, DirectTxAction, DirectTxControl,
    RxProcessingMode, TciMediaDemand, TxPhase, READY_DMA_READS, READY_IQ_PAIRS,
};
use saturn_bridge::commands::{TciCommand, TciMicFrame};

const MS: u64 = 1_000_000;

fn demand(iq: bool, audio: bool) -> TciMediaDemand {
    TciMediaDemand {
        iq_stream_enabled: iq,
        audio_stream_enabled: audio,
    }
}

#[test]
fn readiness_requires_advancing_dma_and_iq() {
    assert!(READY_DMA_READS > 0);
    assert!(READY_IQ_PAIRS >= READY_DMA_READS);
    assert_eq!(
        next_readiness(DirectReadiness::Starting, READY_DMA_READS, READY_IQ_PAIRS - 1),
        DirectReadiness::Starting
    );
    assert_eq!(
        next_readiness(DirectReadiness::Starting, READY_DMA_READS, READY_IQ_PAIRS),
        DirectReadiness::Ready
    );
    assert_eq!(next_readiness(DirectReadiness::Ready, 0, 0), DirectReadiness::Ready);
}

#[test]
fn rx_processing_only_runs_wdsp_for_audio_consumers() {
    assert_eq!(
        rx_processing_mode(demand(true, true), false),
        RxProcessingMode::Audio
    );
    assert_eq!(
        rx_processing_mode(demand(true, false), false),
        RxProcessingMode::IqOnly
    );
    assert_eq!(
        rx_processing_mode(TciMediaDemand::default(), true),
        RxProcessingMode::MeterOnly
    );
    assert_eq!(
        rx_processing_mode(TciMediaDemand::default(), false),
        RxProcessingMode::DrainOnly
    );
    assert_eq!(RxProcessingMode::MeterOnly.label(), "meter-only");
    assert!(!RxProcessingMode::DrainOnly.decodes_iq());
}

#[test]
fn direct_rf_requires_both_operator_configuration_and_firmware_qualification() {
    assert!(effective_direct_tx_rf_enabled(true, true));
    assert!(!effective_direct_tx_rf_enabled(true, false));
    assert!(!effective_direct_tx_rf_enabled(false, true));
    assert!(!effective_direct_tx_rf_enabled(false, false));
}

#[test]
fn mic_media_does_not_publish_full_radio_state_at_frame_cadence() {
    let mic_effects = command_effects(&TciCommand::MicAudioFrame(TciMicFrame {
        sample_rate_hz: 48_000,
        channels: 1,
        sequence: 1,
        received_at_ns: 5,
        samples: vec![0.0f32; 960],
    }));
    assert!(!mic_effects.radio_state_dirty);

    let control_effects = command_effects::<Vec<f32>>(&TciCommand::SetRxAntenna(2));
    assert!(control_effects.radio_state_dirty);

    let mut mixed_effects = mic_effects;
    mixed_effects.merge(control_effects);
    assert!(mixed_effects.radio_state_dirty);
}

#[test]
fn watchdog_heartbeat_uses_dedicated_pong_without_full_state_publication() {
    let effects = command_effects::<Vec<f32>>(&TciCommand::SaturnPing {
        client_id: 7,
        nonce: "test-nonce".to_string(),
        sent_at: "123.456".to_string(),
    });
    assert!(!effects.radio_state_dirty);
    assert!(command_effects::<Vec<f32>>(&TciCommand::RequestSmeter).radio_state_dirty);
}

#[test]
fn dsp_and_tuning_commands_mark_their_effects() {
    let e = command_effects::<Vec<f32>>(&TciCommand::SetAgcGain("50".to_string()));
    assert_eq!(
        e,
        CommandEffects {
            dsp_dirty: true,
            tuning_dirty: false,
            tx_state_dirty: false,
            radio_state_dirty: true,
        }
    );
    let t = command_effects::<Vec<f32>>(&TciCommand::SetVfoA(7_100_000));
    assert!(t.tuning_dirty && !t.dsp_dirty);
    let d = command_effects::<Vec<f32>>(&TciCommand::ClientDisconnected);
    assert!(d.tx_state_dirty);
}

#[test]
fn direct_tx_arms_and_disarms() {
    let mut tx = DirectTxControl::new(250);
    assert_eq!(tx.drive, 100);
    assert_eq!(tx.set_tx_enabled(true, false, false), DirectTxAction::Arm { rf_enabled: false });
    assert!(tx.requested);
    assert_eq!(tx.phase, TxPhase::Armed);
    assert!(tx.media_priority_active());
    assert_eq!(tx.set_tx_enabled(true, false, false), DirectTxAction::Unchanged);
    assert!(tx.mic_frame(10 * MS, true));
    assert_eq!(tx.last_mic_at_ns, Some(10 * MS));
    tx.tx_keyed();
    assert_eq!(tx.phase, TxPhase::Keyed);
    assert_eq!(tx.set_tx_enabled(false, false, false), DirectTxAction::Disarm);
    assert!(!tx.requested);
    assert_eq!(tx.phase, TxPhase::Rx);
    assert!(!tx.media_priority_active());
    assert_eq!(tx.set_tx_enabled(false, false, false), DirectTxAction::Unchanged);
    assert!(!tx.mic_frame(20 * MS, true));
}

#[test]
fn direct_tx_refuses_wide_fm() {
    let mut tx = DirectTxControl::new(50);
    assert_eq!(tx.set_tx_enabled(true, true, true), DirectTxAction::RefusedWhileWfm);
    assert!(!tx.requested);
    assert_eq!(tx.phase, TxPhase::Rx);
}

#[test]
fn direct_tx_watchdog_drops_stale_requests() {
    let mut tx = DirectTxControl::new(50);
    tx.set_tx_enabled(true, false, true);
    tx.mic_frame(1_000 * MS, true);
    assert_eq!(tx.watchdog(1_700 * MS, true, Some(1_600 * MS)), None);
    let trip = tx.watchdog(1_751 * MS, true, Some(1_600 * MS)).unwrap();
    assert!(trip.mic_stale && !trip.control_stale);
    assert!(!tx.requested && tx.last_mic_at_ns.is_none());

    let mut satp = DirectTxControl::new(50);
    satp.set_tx_enabled(true, false, true);
    satp.mic_frame(1_000 * MS, false);
    assert_eq!(satp.watchdog(5_000 * MS, false, Some(4_000 * MS)), None);
    let trip = satp.watchdog(5_501 * MS, false, Some(4_000 * MS)).unwrap();
    assert!(!trip.mic_stale && trip.control_stale);
}

#[test]
fn direct_settings_are_limited() {
    assert_eq!(normalized_fft_size(0), 1_024);
    assert_eq!(normalized_fft_size(3_000), 2_048);
    assert_eq!(normalized_fft_size(4_096), 4_096);
    assert_eq!(normalized_fft_size(1_000_000), 262_144);
    let mut tx = DirectTxControl::new(10);
    tx.set_tx_drive(0);
    assert_eq!(tx.drive, 1);
    tx.set_tx_drive(200);
    assert_eq!(tx.drive, 100);
    assert_eq!(saturn_bridge::backend::direct_rx_antenna(0), 1);
    assert_eq!(saturn_bridge::backend::direct_rx_antenna(7), 3);
    assert_eq!(saturn_bridge::backend::cfc_band_slot(1, 10), Some(0));
    assert_eq!(saturn_bridge::backend::cfc_band_slot(11, 10), None);
    assert_eq!(saturn_bridge::backend::two_tone_delay_ms(5_000), 2_000);
    assert!(!saturn_bridge::backend::direct_two_tone_enabled(true, true));
}
