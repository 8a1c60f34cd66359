use saturn_bridge::codec::{tx_codec_frame_is_stale, TxMicCodec, TxOpusDecoderConfig};
use saturn_bridge::tx_control::{
    duc_iq_packet_period_ns, mic_samples_to_mono, should_publish_tx_iq_display,
    tx_mic_prefill_samples_for_ms, voice_mode, DemodMode, DEFAULT_TX_MIC_PREFILL_SAMPLES,
    DUC_IQ_SAMPLES_PER_PACKET, TX_DISPLAY_DUC_PACKETS_PER_FRAME,
};

const MS: u64 = 1_000_000;

#[test]
fn parses_codec_names_and_ids() {
    assert_eq!(TxMicCodec::from_tci("pcm"), Some(TxMicCodec::Pcm));
    assert_eq!(TxMicCodec::from_tci("opus-wb;"), Some(TxMicCodec::OpusWb));
    assert_eq!(TxMicCodec::from_id(2), Some(TxMicCodec::OpusWb));
    assert_eq!(TxMicCodec::OpusNb.as_tci(), "opus_nb");
    assert_eq!(TxMicCodec::from_tci("bad"), None);
    assert_eq!(TxMicCodec::from_id(99), None);
}

#[test]
fn opus_profiles_match_defaults() {
    let nb = TxOpusDecoderConfig::for_codec(TxMicCodec::OpusNb).unwrap();
    assert_eq!(nb.encoder_sample_rate_hz, 16_000);
    assert_eq!(nb.decode_output_sample_rate_hz, 48_000);
    assert_eq!(nb.bitrate_bps, 16_000);
    assert_eq!(nb.frame_ms, 20);
    assert_eq!(nb.encoder_frame_samples, 320);
    assert_eq!(nb.decode_output_frame_samples, 960);
    assert!(nb.fec_enabled);
    assert!(!nb.dtx_enabled);

    let wb = TxOpusDecoderConfig::for_codec(TxMicCodec::OpusWb).unwrap();
    assert_eq!(wb.encoder_sample_rate_hz, 48_000);
    assert_eq!(wb.decode_output_sample_rate_hz, 48_000);
    assert_eq!(wb.bitrate_bps, 24_000);
    assert_eq!(wb.encoder_frame_samples, 960);
    assert_eq!(wb.decode_output_frame_samples, 960);
    assert!(TxOpusDecoderConfig::for_codec(TxMicCodec::Pcm).is_none());
}

#[test]
fn classifies_stale_decoded_frames_by_consume_age() {
    let received_at = 7_000 * MS;
    assert!(!tx_codec_frame_is_stale(received_at, received_at + 150 * MS));
    assert!(tx_codec_frame_is_stale(received_at, received_at + 151 * MS));
}

#[test]
fn cw_and_unknown_modes_are_not_voice_monitor() {
    assert!(!voice_mode(DemodMode::Cwu));
    assert!(!voice_mode(DemodMode::Wfm));
    assert!(voice_mode(DemodMode::Lsb));
    assert!(voice_mode(DemodMode::Fm));
}

#[test]
fn tx_mic_prefill_samples_are_env_tunable_and_clamped() {
    assert_eq!(
        tx_mic_prefill_samples_for_ms(None),
        DEFAULT_TX_MIC_PREFILL_SAMPLES
    );
    assert_eq!(tx_mic_prefill_samples_for_ms(Some(240)), 11_520);
    assert_eq!(tx_mic_prefill_samples_for_ms(Some(1)), 960);
    assert_eq!(tx_mic_prefill_samples_for_ms(Some(1_000)), 12_000);
}

#[test]
fn mic_samples_to_mono_preserves_explicit_mono_frames() {
    let samples = vec![0.1f32, 0.2, 0.3, 0.4];
    assert_eq!(mic_samples_to_mono(samples.clone(), 1), samples);
}

#[test]
fn mic_samples_to_mono_extracts_left_channel_from_stereo_frames() {
    let samples = vec![0.1f32, -0.1, 0.2, -0.2, 0.3, -0.3];
    assert_eq!(mic_samples_to_mono(samples, 2), vec![0.1, 0.2, 0.3]);
}

#[test]
fn tx_iq_display_publish_requires_contiguous_frame() {
    let target = DUC_IQ_SAMPLES_PER_PACKET * 2 * TX_DISPLAY_DUC_PACKETS_PER_FRAME;
    assert!(!should_publish_tx_iq_display(target - 1, target));
    assert!(should_publish_tx_iq_display(target, target));
}

#[test]
fn duc_iq_packet_period_matches_192khz_packet_rate() {
    assert_eq!(duc_iq_packet_period_ns(), 1_250_000);
}

use saturn_bridge::codec::{
    check_opus_enabled, decode_opus_frame, finish_opus_decode, check_opus_payload, check_pcm_payload, s16_samples,
    TxCodecRuntimeFlags, TxDecodeError, TX_SAMPLE_TYPE_FLOAT32, TX_SAMPLE_TYPE_S16,
};
use saturn_bridge::tx_control::{can_key_rf, fresh_frame, TX_MONITOR_MAX_AGE_NS};

#[test]
fn pcm_decoder_passes_through_s16_samples() {
    let payload = [0x00, 0x20, 0x00, 0xc0, 0xff, 0x7f];
    assert_eq!(
        check_pcm_payload(TX_SAMPLE_TYPE_S16, 3, payload.len(), payload.len()),
        Ok(6)
    );
    let samples: Vec<f32> = s16_samples(&payload, 3)
        .into_iter()
        .map(|s| s as f32 / 32768.0)
        .collect();
    assert_eq!(samples, vec![0.25, -0.5, 32767.0 / 32768.0]);
}

#[test]
fn pcm_decoder_passes_through_float32_samples() {
    let payload = [0.25f32.to_le_bytes(), (-0.5f32).to_le_bytes()].concat();
    assert_eq!(
        check_pcm_payload(TX_SAMPLE_TYPE_FLOAT32, 2, payload.len(), payload.len()),
        Ok(8)
    );
}

#[test]
fn pcm_decoder_rejects_bad_payload_lengths() {
    assert_eq!(
        check_pcm_payload(TX_SAMPLE_TYPE_S16, 3, 6, 4),
        Err(TxDecodeError::PayloadSizeMismatch)
    );
    assert_eq!(
        check_pcm_payload(TX_SAMPLE_TYPE_S16, 3, 4, 0),
        Err(TxDecodeError::PayloadTooShort)
    );
}

#[test]
fn opus_decoder_is_not_enabled_yet() {
    assert_eq!(
        check_opus_enabled(TxCodecRuntimeFlags {
            opus_decode_enabled: false
        }),
        Err(TxDecodeError::CodecDisabled)
    );
}

#[test]
fn opus_decoder_rejects_wrong_output_sample_count_before_backend_decode() {
    let config = TxOpusDecoderConfig::for_codec(TxMicCodec::OpusWb).unwrap();
    assert_eq!(
        check_opus_payload(&config, TX_SAMPLE_TYPE_S16, 320, 2, 2),
        Err(TxDecodeError::SampleCountMismatch)
    );
    assert_eq!(finish_opus_decode(&config, 959), Err(TxDecodeError::SampleCountMismatch));
    assert_eq!(finish_opus_decode(&config, 960), Ok(960));
    assert_eq!(finish_opus_decode(&config, -1), Err(TxDecodeError::OpusDecodeFailed));
}

#[test]
fn rf_keying_requires_rf_enabled_and_nonzero_duc_iq() {
    assert!(!can_key_rf(false, true, true, false));
    assert!(!can_key_rf(true, false, true, false));
    assert!(can_key_rf(true, true, true, false));
}

#[test]
fn can_key_rf_requires_iq_and_mic_or_two_tone() {
    assert!(!can_key_rf(false, true, true, false));
    assert!(!can_key_rf(false, true, true, true));
    assert!(!can_key_rf(true, false, true, false));
    assert!(!can_key_rf(true, false, true, true));
    assert!(!can_key_rf(true, true, false, false));
    assert!(can_key_rf(true, true, true, false));
    assert!(can_key_rf(true, true, false, true));
    assert!(can_key_rf(true, true, true, true));
}

#[test]
fn closed_gate_old_generation_and_stale_audio_are_rejected() {
    assert!(fresh_frame(true, 7, 7, 0, DemodMode::Usb));
    assert!(!fresh_frame(false, 7, 7, 0, DemodMode::Usb));
    assert!(!fresh_frame(true, 8, 7, 0, DemodMode::Usb));
    assert!(!fresh_frame(true, 7, 7, 1_000 * MS, DemodMode::Usb));
    assert!(fresh_frame(true, 7, 7, TX_MONITOR_MAX_AGE_NS, DemodMode::Usb));
}

#[test]
fn codec_names_read_back_in_upper_case_and_dash_form() {
    assert_eq!(TxMicCodec::from_tci("PCM"), Some(TxMicCodec::Pcm));
    assert_eq!(TxMicCodec::from_tci("OPUS_NB"), Some(TxMicCodec::OpusNb));
    assert_eq!(TxMicCodec::from_tci("OPUS_WB"), Some(TxMicCodec::OpusWb));
    assert_eq!(TxMicCodec::from_tci("opus-nb"), Some(TxMicCodec::OpusNb));
    assert_eq!(TxMicCodec::from_tci("opus-wb"), Some(TxMicCodec::OpusWb));
}

#[test]
fn opus_frames_reach_the_decoder_only_after_the_payload_checks() {
    let config = TxOpusDecoderConfig::for_codec(TxMicCodec::OpusWb).unwrap();
    let mut called = false;
    let r = decode_opus_frame(&config, 2, 960, 10, 0, |_| {
        called = true;
        960
    });
    assert_eq!(r, Err(TxDecodeError::UnsupportedSampleType));
    assert!(!called);
    assert_eq!(
        decode_opus_frame(&config, TX_SAMPLE_TYPE_S16, 960, 10, 11, |_| 960),
        Err(TxDecodeError::PayloadTooShort)
    );
    let mut seen = 0;
    assert_eq!(
        decode_opus_frame(&config, TX_SAMPLE_TYPE_S16, 960, 10, 4, |bytes| {
            seen = bytes;
            960
        }),
        Ok(960)
    );
    assert_eq!(seen, 4);
    assert_eq!(
        decode_opus_frame(&config, TX_SAMPLE_TYPE_S16, 960, 10, 0, |_| -3),
        Err(TxDecodeError::OpusDecodeFailed)
    );
    assert_eq!(
        decode_opus_frame(&config, TX_SAMPLE_TYPE_S16, 960, 10, 0, |_| 320),
        Err(TxDecodeError::SampleCountMismatch)
    );
}
