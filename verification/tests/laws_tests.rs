use saturn_bridge::codec::{select_tx_codec, TxCodecCaps, TxCodecRuntimeFlags, TxMicCodec};
use saturn_bridge::duc::{
    duc_shutdown_tx_config, phase4_tx_config, refill_batch_frames, validate_duc_stats,
    verify_rf_disabled_duc_shutdown, verify_rf_disabled_duc_state, DucConfigError,
    DucGateFailure, DucIqPattern, DucProbeConfig, DucSetting, DucStats, LatencyHistogram,
};
use saturn_bridge::session::{SplitSocketKind, TciClientRole};
use saturn_bridge::tx_audio::TxAudioSource;
use saturn_bridge::tx_control::{
    audio_frame_float_count, wdsp_input_decimation, DucPacketAction, TxController, TxState,
    WdspError,
};
use saturn_bridge::xdma::{safe_keyer, safe_rf_gpio, verify_safe_receive_state};

const MS: u64 = 1_000_000;

#[test]
fn probe_config_over_safe_registers_is_rf_disabled() {
    let gpio = safe_rf_gpio(0xffff_ffff);
    let keyer = safe_keyer(0xffff_ffff);
    for stream in [false, true] {
        let tx = phase4_tx_config(0xffff_ffff, stream);
        assert!(verify_rf_disabled_duc_state(gpio, keyer, tx, stream));
        assert!(!verify_rf_disabled_duc_state(gpio, keyer, tx, !stream));
    }
    let shut = duc_shutdown_tx_config(0xffff_ffff);
    assert!(verify_rf_disabled_duc_shutdown(gpio, keyer, shut));
    assert!(verify_safe_receive_state(gpio, keyer, shut).is_ok());
}

#[test]
fn refill_never_exceeds_free_fifo_space() {
    for occupied in [0usize, 100, 1_000, 3_000, 4_000, 4_096] {
        let n = refill_batch_frames(occupied, 4_096, 20);
        assert!(n * 180 + occupied <= 4_096);
        assert!(n <= 11);
    }
}

#[test]
fn percentiles_are_monotone_and_bounded_by_max() {
    let mut h = LatencyHistogram::new();
    for v in [5_000u128, 15_000, 27_000, 99_000, 250_000] {
        h.observe(v);
    }
    let mut last = 0;
    for ppm in [0u64, 100_000, 400_000, 600_000, 800_000, 999_999, 1_000_000, 2_000_000] {
        let p = h.percentile_ns(ppm);
        assert!(p >= last);
        assert!(p <= h.max_ns);
        last = p;
    }
    assert_eq!(LatencyHistogram::new().percentile_ns(500_000), 0);
}

#[test]
fn selected_codec_is_offered_and_prefers_wideband() {
    let all = TxCodecCaps {
        pcm: true,
        opus_nb: true,
        opus_wb: true,
    };
    let on = TxCodecRuntimeFlags {
        opus_decode_enabled: true,
    };
    let off = TxCodecRuntimeFlags {
        opus_decode_enabled: false,
    };
    assert_eq!(select_tx_codec(&all, on), Some(TxMicCodec::OpusWb));
    assert_eq!(select_tx_codec(&all, off), Some(TxMicCodec::Pcm));
    let nb = TxCodecCaps {
        pcm: false,
        opus_nb: true,
        opus_wb: false,
    };
    assert_eq!(select_tx_codec(&nb, on), Some(TxMicCodec::OpusNb));
    assert_eq!(select_tx_codec(&nb, off), None);
}

#[test]
fn transmit_never_keys_with_rf_disabled() {
    let mut c = TxController::new(0);
    assert!(c.arm(false, false, 0));
    assert!(c.mic_audio(true, MS));
    assert_eq!(c.on_duc_packet(true, 2 * MS), DucPacketAction::HoldRfDisabled);
    assert_eq!(c.state, TxState::Armed);

    let mut k = TxController::new(0);
    assert!(k.arm(true, false, 0));
    assert_eq!(k.on_duc_packet(true, MS), DucPacketAction::HoldWaiting);
    assert!(k.mic_audio(true, 2 * MS));
    assert_eq!(k.on_duc_packet(true, 3 * MS), DucPacketAction::KeyThenSend);
    assert_eq!(k.state, TxState::Keyed);
}

#[test]
fn names_round_trip() {
    for role in [TciClientRole::Operator, TciClientRole::Viewer] {
        assert_eq!(TciClientRole::from_tci(role.as_tci()), role);
    }
    for lane in [SplitSocketKind::Control, SplitSocketKind::Media] {
        assert_eq!(SplitSocketKind::from_tci(lane.as_tci()), Some(lane));
    }
    for codec in [TxMicCodec::Pcm, TxMicCodec::OpusNb, TxMicCodec::OpusWb] {
        assert_eq!(TxMicCodec::from_tci(codec.as_tci()), Some(codec));
    }
    for source in [TxAudioSource::Tci, TxAudioSource::Satp] {
        assert_eq!(TxAudioSource::parse(source.as_str()), Some(source));
    }
}

#[test]
fn wdsp_input_rates_must_be_power_of_two_multiples() {
    assert_eq!(wdsp_input_decimation(192_000), Ok(4));
    assert_eq!(wdsp_input_decimation(48_000), Ok(1));
    assert_eq!(
        wdsp_input_decimation(144_000),
        Err(WdspError::UnsupportedInputSampleRate(144_000))
    );
    assert_eq!(
        wdsp_input_decimation(44_100),
        Err(WdspError::UnsupportedInputSampleRate(44_100))
    );
    assert_eq!(
        wdsp_input_decimation(0),
        Err(WdspError::UnsupportedInputSampleRate(0))
    );
    assert_eq!(audio_frame_float_count(0), 256);
    assert_eq!(audio_frame_float_count(1_025), 1_024);
    assert_eq!(audio_frame_float_count(100_000), 8_192);
}

fn config(d: Option<&str>, s: Option<&str>, m: Option<&str>, cpu: Option<&str>, rt: Option<&str>, p: Option<&str>) -> Result<DucProbeConfig, DucConfigError> {
    DucProbeConfig::from_settings(d, s, m, cpu, &vec![0, 2, 3], rt, p)
}

#[test]
fn probe_settings_defaults_and_errors() {
    let c = config(None, None, None, None, None, None).unwrap();
    assert_eq!(c.duration_ms, 3_000);
    assert_eq!(c.max_p9999_refill_service_us, 5_000);
    assert_eq!(c.max_p9999_margin_percent, 60);
    assert_eq!(c.cpu, None);
    assert_eq!(c.iq_pattern, DucIqPattern::Zero);
    assert_eq!(
        config(Some("x"), None, None, None, None, None),
        Err(DucConfigError::NotUnsigned(DucSetting::DurationMs))
    );
    assert_eq!(
        config(Some("100"), None, None, None, None, None),
        Err(DucConfigError::Duration(100))
    );
    assert_eq!(
        config(None, Some("50"), None, None, None, None),
        Err(DucConfigError::RefillService(50))
    );
    assert_eq!(
        config(None, None, Some("99"), None, None, None),
        Err(DucConfigError::MarginPercent(99))
    );
    assert_eq!(
        config(None, None, None, Some("one"), None, None),
        Err(DucConfigError::CpuNotNumber)
    );
    assert_eq!(
        config(None, None, None, Some("1"), None, None),
        Err(DucConfigError::CpuUnavailable(1))
    );
    assert_eq!(config(None, None, None, Some("auto"), None, None).unwrap().cpu, Some(3));
    assert_eq!(
        config(None, None, None, None, Some("81"), None),
        Err(DucConfigError::RtPriority(81))
    );
    assert_eq!(
        config(None, None, None, None, None, Some("carrier")),
        Err(DucConfigError::Pattern)
    );
    assert_eq!(
        config(None, None, None, None, None, Some("CHANGING")).unwrap().iq_pattern,
        DucIqPattern::Changing
    );
}

#[test]
fn probe_gates_refuse_fifo_faults_and_wrong_rates() {
    let c = config(None, None, None, None, None, None).unwrap();
    let mut stats = DucStats::for_probe();
    stats.fifo_underflows = 1;
    assert!(matches!(
        validate_duc_stats(&stats, c),
        Err(DucGateFailure::FifoFault { underflow: 1, .. })
    ));
    let mut slow = DucStats::for_probe();
    slow.elapsed_ns = 1_000_000_000;
    slow.fifo_lwm = 2_000;
    assert!(matches!(
        validate_duc_stats(&slow, c),
        Err(DucGateFailure::PairRate { .. })
    ));
}
