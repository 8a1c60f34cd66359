use saturn_bridge::codec::{
    check_pcm_payload, s16_samples, TxMicCodec, TX_MIC_CODEC_PCM_ID, TX_SAMPLE_TYPE_FLOAT32,
    TX_SAMPLE_TYPE_S16,
};
use saturn_bridge::protocol::{
    parse_tci_mic_frame_parts, write_u32_le, TciMicFrameParseError, MAX_TCI_MIC_SAMPLES,
};

/// The header and payload checks a microphone frame passes before decoding.
fn frame_ok(frame: &[u8]) -> bool {
    match parse_tci_mic_frame_parts(frame) {
        Ok(parts) => match parts.codec {
            TxMicCodec::Pcm => check_pcm_payload(
                parts.sample_type,
                parts.sample_count,
                parts.payload.len(),
                parts.declared_payload_bytes,
            )
            .is_ok(),
            _ => false,
        },
        Err(_) => false,
    }
}

#[test]
fn rejects_oversized_tci_mic_frames() {
    let sample_count = (MAX_TCI_MIC_SAMPLES + 1) as u32;
    let mut frame = vec![0u8; 64];
    write_u32_le(&mut frame, 20, sample_count);
    write_u32_le(&mut frame, 24, 2);
    frame.resize(64 + sample_count as usize * 4, 0);
    assert!(!frame_ok(&frame));
    assert!(matches!(
        parse_tci_mic_frame_parts(&frame),
        Err(TciMicFrameParseError::Malformed)
    ));
}

#[test]
fn parses_mono_tci_mic_frame_with_channel_metadata() {
    let mut frame = vec![0u8; 64 + 8];
    write_u32_le(&mut frame, 4, 48_000);
    write_u32_le(&mut frame, 20, 2);
    write_u32_le(&mut frame, 24, 2);
    write_u32_le(&mut frame, 28, 1);
    write_u32_le(&mut frame, 32, 77);
    frame[64..68].copy_from_slice(&0.25f32.to_le_bytes());
    frame[68..72].copy_from_slice(&(-0.5f32).to_le_bytes());

    assert!(frame_ok(&frame));
    let parts = parse_tci_mic_frame_parts(&frame).unwrap();
    assert_eq!(parts.sample_rate_hz, 48_000);
    assert_eq!(parts.channels, 1);
    assert_eq!(parts.sequence, 77);
    assert_eq!(parts.sample_count, 2);
    assert_eq!(&parts.payload[0..4], &0.25f32.to_le_bytes());
    assert_eq!(&parts.payload[4..8], &(-0.5f32).to_le_bytes());
}

#[test]
fn parses_stereo_tci_mic_frame_with_channel_metadata() {
    let mut frame = vec![0u8; 64 + 16];
    write_u32_le(&mut frame, 4, 48_000);
    write_u32_le(&mut frame, 8, TX_SAMPLE_TYPE_FLOAT32);
    write_u32_le(&mut frame, 20, 4);
    write_u32_le(&mut frame, 24, 2);
    write_u32_le(&mut frame, 28, 2);
    for (index, sample) in [0.25f32, -0.25, 0.5, -0.5].iter().enumerate() {
        let offset = 64 + index * 4;
        frame[offset..offset + 4].copy_from_slice(&sample.to_le_bytes());
    }

    assert!(frame_ok(&frame));
    let parts = parse_tci_mic_frame_parts(&frame).unwrap();
    assert_eq!(parts.sample_rate_hz, 48_000);
    assert_eq!(parts.channels, 2);
    assert_eq!(parts.sequence, 0);
    assert_eq!(parts.sample_count, 4);
    assert_eq!(parts.payload.len(), 16);
}

#[test]
fn parses_s16_tci_mic_frame_with_channel_metadata() {
    let mut frame = vec![0u8; 64 + 6];
    write_u32_le(&mut frame, 4, 48_000);
    write_u32_le(&mut frame, 8, TX_SAMPLE_TYPE_S16);
    write_u32_le(&mut frame, 20, 3);
    write_u32_le(&mut frame, 24, 2);
    write_u32_le(&mut frame, 28, 1);
    write_u32_le(&mut frame, 32, 78);
    for (index, sample) in [8192i16, -16384, 32767].iter().enumerate() {
        let offset = 64 + index * 2;
        frame[offset..offset + 2].copy_from_slice(&sample.to_le_bytes());
    }

    assert!(frame_ok(&frame));
    let parts = parse_tci_mic_frame_parts(&frame).unwrap();
    assert_eq!(parts.sample_rate_hz, 48_000);
    assert_eq!(parts.channels, 1);
    assert_eq!(parts.sequence, 78);
    let samples = s16_samples(parts.payload, parts.sample_count);
    assert_eq!(samples, vec![8192, -16384, 32767]);
    assert!((samples[0] as f32 / 32768.0 - 0.25).abs() < 0.0001);
    assert!((samples[1] as f32 / 32768.0 + 0.5).abs() < 0.0001);
    assert!((samples[2] as f32 / 32768.0 - 0.9999).abs() < 0.0001);
}

#[test]
fn parses_pcm_tci_mic_frame_with_codec_header() {
    let mut frame = vec![0u8; 64 + 4];
    write_u32_le(&mut frame, 4, 48_000);
    write_u32_le(&mut frame, 8, TX_SAMPLE_TYPE_S16);
    write_u32_le(&mut frame, 20, 2);
    write_u32_le(&mut frame, 24, 2);
    write_u32_le(&mut frame, 28, 1);
    write_u32_le(&mut frame, 32, 79);
    write_u32_le(&mut frame, 36, TX_MIC_CODEC_PCM_ID);
    write_u32_le(&mut frame, 40, 4);
    for (index, sample) in [8192i16, -16384].iter().enumerate() {
        let offset = 64 + index * 2;
        frame[offset..offset + 2].copy_from_slice(&sample.to_le_bytes());
    }

    assert!(frame_ok(&frame));
    let parts = parse_tci_mic_frame_parts(&frame).unwrap();
    assert_eq!(parts.sample_rate_hz, 48_000);
    assert_eq!(parts.channels, 1);
    assert_eq!(parts.sequence, 79);
    assert_eq!(s16_samples(parts.payload, parts.sample_count), vec![8192, -16384]);
}

#[test]
fn rejects_mic_frame_with_unsupported_codec() {
    let mut frame = vec![0u8; 64 + 2];
    write_u32_le(&mut frame, 4, 48_000);
    write_u32_le(&mut frame, 8, TX_SAMPLE_TYPE_S16);
    write_u32_le(&mut frame, 20, 1);
    write_u32_le(&mut frame, 24, 2);
    write_u32_le(&mut frame, 28, 1);
    write_u32_le(&mut frame, 36, 2);
    write_u32_le(&mut frame, 40, 2);

    assert!(!frame_ok(&frame));
}

#[test]
fn rejects_pcm_mic_frame_with_payload_size_mismatch() {
    let mut frame = vec![0u8; 64 + 4];
    write_u32_le(&mut frame, 4, 48_000);
    write_u32_le(&mut frame, 8, TX_SAMPLE_TYPE_S16);
    write_u32_le(&mut frame, 20, 2);
    write_u32_le(&mut frame, 24, 2);
    write_u32_le(&mut frame, 28, 1);
    write_u32_le(&mut frame, 36, TX_MIC_CODEC_PCM_ID);
    write_u32_le(&mut frame, 40, 2);

    assert!(!frame_ok(&frame));
}

#[test]
fn rejects_unknown_tci_mic_sample_type() {
    let mut frame = vec![0u8; 64 + 4];
    write_u32_le(&mut frame, 4, 48_000);
    write_u32_le(&mut frame, 8, 99);
    write_u32_le(&mut frame, 20, 1);
    write_u32_le(&mut frame, 24, 2);
    write_u32_le(&mut frame, 28, 1);

    assert!(!frame_ok(&frame));
}

#[test]
fn non_microphone_stream_is_not_a_mic_frame() {
    let mut frame = vec![0u8; 64 + 4];
    write_u32_le(&mut frame, 24, 1);
    assert!(matches!(
        parse_tci_mic_frame_parts(&frame),
        Err(TciMicFrameParseError::NotMicFrame)
    ));
    assert!(matches!(
        parse_tci_mic_frame_parts(&frame[..10]),
        Err(TciMicFrameParseError::Malformed)
    ));
}
