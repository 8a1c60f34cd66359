use saturn_bridge::audio;
use saturn_bridge::duc::{
    duc_fifo_depth_words, fifo_margin_ns, fill_iq_pattern, is_terminal_fifo_condition,
    phase4_tx_config, refill_batch_frames, DucIqPattern, FifoSnapshot, LatencyHistogram,
    DMA_BUFFER_BYTES, DUC_FIFO_WORDS_PER_FRAME, DUC_FRAMES_PER_SECOND, DUC_FRAME_BYTES,
    DUC_IQ_PAIRS_PER_FRAME, HISTOGRAM_MAX_NS,
};
use saturn_bridge::xdma::{
    classify_p2app_status, safe_keyer, safe_rf_gpio, safe_tx_config, verify_safe_receive_state,
    SaturnIdentity, XdmaError, CW_KEYER_ENABLE_BIT, DUC_MUX_RESET_BIT, DUC_STREAM_ENABLE_BIT,
    MOX_BIT, TX_AMPLITUDE_MASK, TX_ENABLE_BIT, TX_IQ_DEINTERLEAVE_BIT, TX_MODULATION_SOURCE_MASK,
    TX_OUTPUT_GATE_BIT, TX_PROTOCOL_P2_BIT, TX_RELAY_DISABLE_BIT, TX_WATCHDOG_OVERRIDE_BIT,
};

#[test]
fn decodes_and_validates_primary_saturn_identity() {
    let software = (1 << 25) | (4 << 20) | (19 << 4) | 0x0F;
    let identity = SaturnIdentity::decode(software, (1 << 16) | 3, 0x1234_5678);
    assert_eq!(identity.product_id, 1);
    assert_eq!(identity.pcb_version, 3);
    assert_eq!(identity.software_id, 4);
    assert_eq!(identity.firmware_major, 1);
    assert_eq!(identity.firmware_minor, 19);
    assert_eq!(identity.clock_mask, 0x0F);
    assert!(!identity.is_fallback());
    identity.validate().unwrap();
}

#[test]
fn rejects_non_saturn_and_missing_clocks() {
    let not_saturn = SaturnIdentity::decode((1 << 25) | (4 << 20) | 0x0F, 2 << 16, 0);
    assert!(not_saturn.validate().is_err());
    let missing_clock = SaturnIdentity::decode((1 << 25) | (4 << 20) | 0x07, 1 << 16, 0);
    assert!(missing_clock.validate().is_err());
}

#[test]
fn p2app_status_check_fails_closed() {
    assert!(classify_p2app_status(Some(3)).is_ok());
    assert!(classify_p2app_status(Some(4)).is_ok());
    assert!(matches!(
        classify_p2app_status(Some(0)),
        Err(XdmaError::Ownership(_))
    ));
    assert!(matches!(
        classify_p2app_status(Some(1)),
        Err(XdmaError::Ownership(_))
    ));
    assert!(matches!(
        classify_p2app_status(None),
        Err(XdmaError::Ownership(_))
    ));
}

#[test]
fn open_forces_safe_state_without_clobbering_unrelated_bits() {
    let gpio_unrelated = 0x0000_0055;
    let gpio = safe_rf_gpio(gpio_unrelated | MOX_BIT | TX_ENABLE_BIT);
    let keyer = safe_keyer(0x0000_0033 | CW_KEYER_ENABLE_BIT);
    let tx = safe_tx_config(
        0x0000_0008
            | TX_MODULATION_SOURCE_MASK
            | TX_OUTPUT_GATE_BIT
            | TX_AMPLITUDE_MASK
            | TX_WATCHDOG_OVERRIDE_BIT
            | DUC_MUX_RESET_BIT
            | TX_IQ_DEINTERLEAVE_BIT
            | DUC_STREAM_ENABLE_BIT,
    );
    assert_eq!(gpio, gpio_unrelated | TX_RELAY_DISABLE_BIT);
    assert_eq!(keyer, 0x0000_0033);
    assert_eq!(tx, 0x0000_0008);
    assert!(verify_safe_receive_state(gpio, keyer, tx).is_ok());
}

#[test]
fn drop_recovers_unsafe_registers_after_an_injected_failure() {
    let gpio = safe_rf_gpio(MOX_BIT | TX_ENABLE_BIT | 0x0000_0055);
    let keyer = safe_keyer(CW_KEYER_ENABLE_BIT | 0x33);
    let tx = safe_tx_config(
        TX_MODULATION_SOURCE_MASK
            | TX_OUTPUT_GATE_BIT
            | TX_AMPLITUDE_MASK
            | TX_WATCHDOG_OVERRIDE_BIT
            | DUC_MUX_RESET_BIT
            | TX_IQ_DEINTERLEAVE_BIT
            | DUC_STREAM_ENABLE_BIT,
    );
    assert_eq!(gpio, TX_RELAY_DISABLE_BIT | 0x0000_0055);
    assert_eq!(keyer, 0x33);
    assert_eq!(tx, 0);
}

#[test]
fn unsafe_readback_is_refused() {
    assert!(matches!(
        verify_safe_receive_state(MOX_BIT | TX_RELAY_DISABLE_BIT, 0, 0),
        Err(XdmaError::Incompatible(_))
    ));
    assert!(matches!(
        verify_safe_receive_state(0, 0, 0),
        Err(XdmaError::Incompatible(_))
    ));
}

#[test]
fn fifo_snapshot_decodes_codec_flags_and_depth() {
    let snapshot = audio::FifoSnapshot::decode(0xe000_002a);
    assert_eq!(snapshot.depth_words, 42);
    assert!(snapshot.overflow);
    assert!(snapshot.over_threshold);
    assert!(snapshot.underflow);
}

#[test]
fn audio_dma_geometry_matches_saturn_protocol_frames() {
    assert_eq!(audio::MIC_DMA_BYTES / 2, audio::MIC_SAMPLES_PER_DMA);
    assert_eq!(audio::MIC_DMA_BYTES / 8, audio::MIC_FIFO_WORDS_PER_DMA);
    assert_eq!(
        audio::MIC_FIFO_WORDS_PER_DMA + audio::MIC_FIFO_GUARD_WORDS,
        2 * audio::MIC_FIFO_WORDS_PER_DMA
    );
    assert_eq!(audio::SPEAKER_DMA_BYTES % audio::SPEAKER_FRAME_BYTES, 0);
    assert_eq!(
        audio::SPEAKER_FRAME_BYTES / 4,
        audio::SPEAKER_SAMPLE_PAIRS_PER_FRAME
    );
}

#[test]
fn microphone_network_order_samples_are_decoded() {
    let bytes = [0x40, 0x00, 0xc0, 0x00, 0x00, 0x00];
    assert_eq!(audio::mic_samples(&bytes, true), vec![16_384, -16_384, 0]);
}

#[test]
fn microphone_local_order_samples_are_decoded() {
    let bytes = [0x00, 0x40, 0x00, 0xc0];
    assert_eq!(audio::mic_samples(&bytes, false), vec![16_384, -16_384]);
}

#[test]
fn speaker_probe_checks_occupancy() {
    let empty = audio::FifoSnapshot::decode(0);
    let some = audio::FifoSnapshot::decode(64);
    let more = audio::FifoSnapshot::decode(80);
    assert!(audio::check_speaker_fifo(some, some).is_ok());
    match audio::check_speaker_fifo(empty, empty) {
        Err(XdmaError::Incompatible(m)) => assert_eq!(
            m,
            "speaker DMA write completed but FIFO occupancy did not increase"
        ),
        other => panic!("unexpected {other:?}"),
    }
    match audio::check_speaker_fifo(some, more) {
        Err(XdmaError::Incompatible(m)) => assert_eq!(
            m,
            "speaker FIFO occupancy increased unexpectedly after silence write: 64 -> 80"
        ),
        other => panic!("unexpected {other:?}"),
    }
    let stats = audio::speaker_stats(audio::FifoSnapshot::decode(0x8000_0000), some, more);
    assert_eq!(stats.frames, 16);
    assert_eq!(stats.sample_pairs, 1_024);
    assert_eq!(stats.fifo_overflows, 1);
}

#[test]
fn audio_capture_duration_defaults_and_bounds() {
    assert_eq!(audio::capture_duration_ms(None), Ok(2_000));
    assert_eq!(audio::capture_duration_ms(Some("250")), Ok(250));
    assert_eq!(
        audio::capture_duration_ms(Some("249")),
        Err(audio::AudioDurationError::OutOfRange(249))
    );
    assert_eq!(
        audio::capture_duration_ms(Some("2s")),
        Err(audio::AudioDurationError::NotUnsigned)
    );
}

#[test]
fn duc_geometry_matches_saturn_protocol_two() {
    assert_eq!(DUC_FRAME_BYTES, DUC_IQ_PAIRS_PER_FRAME * 6);
    assert_eq!(DUC_FRAME_BYTES, DUC_FIFO_WORDS_PER_FRAME * 8);
    assert_eq!(DUC_FRAMES_PER_SECOND, 800);
    assert_eq!(DMA_BUFFER_BYTES, 15_840);
}

#[test]
fn phase4_tx_config_forces_zero_iq_rf_disabled_test_mode() {
    let unsafe_value = TX_MODULATION_SOURCE_MASK
        | TX_AMPLITUDE_MASK
        | TX_WATCHDOG_OVERRIDE_BIT
        | DUC_MUX_RESET_BIT
        | TX_IQ_DEINTERLEAVE_BIT;
    let configured = phase4_tx_config(unsafe_value | (1 << 26), true);
    assert_eq!(
        configured
            & (TX_MODULATION_SOURCE_MASK
                | TX_AMPLITUDE_MASK
                | TX_WATCHDOG_OVERRIDE_BIT
                | DUC_MUX_RESET_BIT
                | TX_IQ_DEINTERLEAVE_BIT),
        0
    );
    assert_eq!(
        configured & (TX_OUTPUT_GATE_BIT | TX_PROTOCOL_P2_BIT | DUC_STREAM_ENABLE_BIT),
        TX_OUTPUT_GATE_BIT | TX_PROTOCOL_P2_BIT | DUC_STREAM_ENABLE_BIT
    );
    assert_ne!(configured & (1 << 26), 0);
}

#[test]
fn refill_window_uses_fifo_headroom_and_bounds_each_dma_batch() {
    assert_eq!(refill_batch_frames(20 * 180, 4_096, 20), 0);
    assert_eq!(refill_batch_frames(12 * 180, 4_096, 20), 8);
    assert_eq!(refill_batch_frames(11 * 180 + 1, 4_096, 20), 9);
    assert_eq!(refill_batch_frames(0, 4_096, 20), 11);
    assert_eq!(refill_batch_frames(0, 1_024, 20), 5);
    assert_eq!(refill_batch_frames(4 * 180, 4_096, 10), 6);
    assert_eq!(refill_batch_frames(2 * 180, 4_096, 20), 11);
}

#[test]
fn fixed_histogram_is_bounded_and_conservative() {
    let mut histogram = LatencyHistogram::new();
    for value in [10_000, 20_000, 30_000, 40_000, 50_000] {
        histogram.observe(value);
    }
    assert_eq!(histogram.observations, 5);
    assert_eq!(histogram.percentile_ns(500_000), 30_000);
    assert_eq!(histogram.percentile_ns(990_000), 50_000);
    assert_eq!(histogram.percentile_ns(999_900), 50_000);
    assert_eq!(histogram.max_ns, 50_000);

    histogram.observe(HISTOGRAM_MAX_NS + 123);
    assert_eq!(histogram.overflow_observations, 1);
    assert_eq!(histogram.percentile_ns(1_000_000), HISTOGRAM_MAX_NS + 123);
}

#[test]
fn changing_iq_pattern_is_deterministic_and_nonzero() {
    let mut buffer = vec![0_u8; 12];
    let mut pair_index = 0;
    fill_iq_pattern(&mut buffer, DucIqPattern::Changing, &mut pair_index);
    assert_eq!(pair_index, 2);
    assert_ne!(buffer, vec![0_u8; 12]);
    assert_eq!(&buffer[0..3], &[0x00, 0x00, 0xc0]);
    assert_eq!(&buffer[3..6], &[0x00, 0x00, 0x40]);

    fill_iq_pattern(&mut buffer, DucIqPattern::Zero, &mut pair_index);
    assert_eq!(buffer, vec![0_u8; 12]);
    assert_eq!(pair_index, 4);
}

#[test]
fn guarded_carrier_matches_p2app_q_then_i_network_order() {
    let mut buffer = vec![0xa5; 12];
    let mut pair_index = 0;
    fill_iq_pattern(&mut buffer, DucIqPattern::Carrier, &mut pair_index);
    assert_eq!(
        buffer,
        vec![0x00, 0x00, 0x00, 0x7f, 0xff, 0xff, 0x00, 0x00, 0x00, 0x7f, 0xff, 0xff]
    );
    assert_eq!(pair_index, 2);
}

#[test]
fn fifo_margin_converts_words_to_time() {
    assert_eq!(fifo_margin_ns(180), 1_250_000);
    assert_eq!(fifo_margin_ns(900), 6_250_000);
}

#[test]
fn fifo_depth_tracks_firmware_generation() {
    assert_eq!(duc_fifo_depth_words(9), 1_024);
    assert_eq!(duc_fifo_depth_words(10), 2_048);
    assert_eq!(duc_fifo_depth_words(12), 2_048);
    assert_eq!(duc_fifo_depth_words(13), 4_096);
    assert_eq!(duc_fifo_depth_words(19), 4_096);
}

#[test]
fn fifo_snapshot_decodes_duc_flags_and_occupancy() {
    let snapshot = FifoSnapshot::decode(0xe000_05a0);
    assert_eq!(snapshot.occupied_words, 1_440);
    assert!(snapshot.overflow);
    assert!(snapshot.over_threshold);
    assert!(snapshot.underflow);
}

#[test]
fn phase4_stops_on_fifo_fault_or_critical_margin() {
    assert!(!is_terminal_fifo_condition(
        FifoSnapshot {
            occupied_words: 3 * DUC_FIFO_WORDS_PER_FRAME,
            ..FifoSnapshot::empty()
        },
        3
    ));
    assert!(is_terminal_fifo_condition(
        FifoSnapshot {
            occupied_words: 2 * DUC_FIFO_WORDS_PER_FRAME,
            ..FifoSnapshot::empty()
        },
        2
    ));
    assert!(is_terminal_fifo_condition(
        FifoSnapshot {
            occupied_words: 7 * DUC_FIFO_WORDS_PER_FRAME,
            underflow: true,
            ..FifoSnapshot::empty()
        },
        7
    ));
}

fn mic_stats(bytes: &[u8], network: bool) -> (u64, f32, f32) {
    let samples = audio::mic_samples(bytes, network);
    let mut stats = audio::MicStats::new();
    stats.record_read(bytes.len(), samples.len());
    let mut power_sum = 0.0f64;
    let mut peak = 0.0f32;
    for s in &samples {
        let normalized = *s as f32 / 32768.0;
        power_sum += (normalized * normalized) as f64;
        peak = peak.max(normalized.abs());
    }
    let mean_power = (power_sum / stats.samples as f64).max(1.0e-20);
    (stats.samples, peak, (10.0 * mean_power.log10()) as f32)
}

#[test]
fn microphone_network_order_samples_are_normalized() {
    let bytes = [0x40, 0x00, 0xc0, 0x00, 0x00, 0x00];
    let (samples, peak, rms_dbfs) = mic_stats(&bytes, true);
    assert_eq!(samples, 3);
    assert!((peak - 0.5).abs() < f32::EPSILON);
    assert!((rms_dbfs + 7.782).abs() < 0.01);
}

#[test]
fn microphone_local_order_samples_are_normalized() {
    let bytes = [0x00, 0x40, 0x00, 0xc0];
    let (samples, peak, rms_dbfs) = mic_stats(&bytes, false);
    assert_eq!(samples, 2);
    assert!((peak - 0.5).abs() < f32::EPSILON);
    assert!((rms_dbfs + 6.021).abs() < 0.01);
}

#[test]
fn incompatible_identity_is_rejected_before_register_writes() {
    let software = (1 << 25) | (4 << 20) | (19 << 4) | 0x0F;
    let identity = SaturnIdentity::decode(software, (2 << 16) | 3, 0);
    assert!(matches!(identity.validate(), Err(XdmaError::Incompatible(_))));
}

#[test]
fn microphone_fifo_statistics_track_flags() {
    let mut stats = audio::MicStats::new();
    stats.observe_startup(audio::FifoSnapshot::decode(0x2000_0010));
    assert!(stats.fifo_startup_underflow);
    assert_eq!(stats.fifo_underflows, 0);
    stats.observe_fifo(audio::FifoSnapshot::decode(0xc000_0040));
    assert_eq!(stats.fifo_hwm, 64);
    assert_eq!(stats.fifo_overflows, 1);
    assert_eq!(stats.fifo_over_threshold, 1);
    assert!(audio::mic_read_ready(audio::FifoSnapshot::decode(32)));
    assert!(!audio::mic_read_ready(audio::FifoSnapshot::decode(31)));
    assert!(audio::check_mic_capture(&stats).is_err());
}
