use saturn_bridge::outbound::{
    max_audio_queued_frames, ClientOutbound, OutboundClass, OutboundMessage,
    MAX_CONTROL_QUEUE_MESSAGES,
};
use saturn_bridge::protocol::{read_u32_le, tci_frame_header, TCI_FRAME_HEADER_BYTES};

type Msg = OutboundMessage<Vec<f32>>;

fn iq(sample_rate: u32, samples: Vec<f32>) -> Msg {
    let sample_len = samples.len();
    OutboundMessage::IqFrame {
        receiver: 0,
        sample_rate,
        samples,
        sample_len,
    }
}

fn audio(sample_rate: u32, channels: u32, samples: Vec<f32>) -> Msg {
    let sample_len = samples.len();
    OutboundMessage::AudioFrame {
        receiver: 0,
        sample_rate,
        channels,
        samples,
        sample_len,
        sequence: 0,
    }
}

#[test]
fn builds_iq_frame_with_expected_header() {
    let header = tci_frame_header(0, 192_000, 4, 0, 2, 0);
    assert_eq!(header.len(), TCI_FRAME_HEADER_BYTES);
    assert_eq!(read_u32_le(&header, 4), 192_000);
    assert_eq!(read_u32_le(&header, 24), 0);
}

#[test]
fn builds_tx_iq_frame_with_distinct_stream_type() {
    let header = tci_frame_header(0, 192_000, 4, 3, 2, 0);
    assert_eq!(read_u32_le(&header, 4), 192_000);
    assert_eq!(read_u32_le(&header, 24), 3);
    assert_eq!(read_u32_le(&header, 28), 2);
}

#[test]
fn builds_audio_frame_with_expected_header() {
    let header = tci_frame_header(0, 48_000, 4, 1, 1, 7);
    assert_eq!(read_u32_le(&header, 4), 48_000);
    assert_eq!(read_u32_le(&header, 8), 3);
    assert_eq!(read_u32_le(&header, 24), 1);
    assert_eq!(read_u32_le(&header, 28), 1);
    assert_eq!(read_u32_le(&header, 32), 7);
}

#[test]
fn outbound_scheduler_prioritizes_safety_and_control_over_display() {
    let mut outbound = ClientOutbound::new();
    outbound.enqueue(iq(192_000, vec![0.0, 0.0]), 1);
    outbound.enqueue(OutboundMessage::Text("rx_smeter:0,0,-110.0;".to_string()), 2);
    outbound.enqueue(
        OutboundMessage::SafetyText("tx_fault:0,power_trip,126.3,110.0;".to_string()),
        3,
    );

    let safety = outbound.next_message(true).unwrap();
    assert_eq!(safety.class, OutboundClass::Safety);
    let control = outbound.next_message(true).unwrap();
    assert_eq!(control.class, OutboundClass::Control);
    let display = outbound.next_message(true).unwrap();
    assert_eq!(display.class, OutboundClass::Display);
}

#[test]
fn outbound_scheduler_treats_snapshot_rf_state_as_control() {
    assert_eq!(
        Msg::Text("remote_tx_rf_enabled:0,false;".to_string()).class(),
        OutboundClass::Control
    );
    assert_eq!(
        Msg::SafetyText("remote_tx_rf_enabled:0,false;".to_string()).class(),
        OutboundClass::Safety
    );
}

#[test]
fn outbound_scheduler_replaces_display_depth_one() {
    let mut outbound = ClientOutbound::new();
    assert_eq!(outbound.enqueue(iq(48_000, vec![1.0, 2.0]), 1), 0);
    assert_eq!(outbound.enqueue(iq(96_000, vec![3.0, 4.0]), 2), 1);
    let item = outbound.next_message(true).unwrap();
    match item.message {
        OutboundMessage::IqFrame { sample_rate, .. } => assert_eq!(sample_rate, 96_000),
        _ => panic!("expected display frame"),
    }
    let delta = outbound.stats.drain();
    assert_eq!(delta.display_replaced, 1);
}

#[test]
fn outbound_scheduler_coalesces_control_state_and_keeps_latest() {
    let mut outbound: ClientOutbound<Vec<f32>> = ClientOutbound::new();
    assert_eq!(
        outbound.enqueue(OutboundMessage::Text("vfo:0,0,7100000;".to_string()), 1),
        0
    );
    assert_eq!(
        outbound.enqueue(OutboundMessage::Text("vfo:0,0,7200000;".to_string()), 2),
        1
    );
    let item = outbound.next_message(true).unwrap();
    assert!(matches!(
        item.message,
        OutboundMessage::Text(text) if text == "vfo:0,0,7200000;"
    ));
    let delta = outbound.stats.drain();
    assert_eq!(delta.control_replaced, 1);
}

#[test]
fn outbound_scheduler_bounds_unique_control_messages() {
    let mut outbound: ClientOutbound<Vec<f32>> = ClientOutbound::new();
    for index in 0..(MAX_CONTROL_QUEUE_MESSAGES + 10) {
        outbound.enqueue(
            OutboundMessage::Text(format!("test_metric_{index}:0,{index};")),
            index as u64,
        );
    }
    let mut retained = 0;
    while outbound.next_message(true).is_some() {
        retained += 1;
    }
    assert_eq!(retained, MAX_CONTROL_QUEUE_MESSAGES);
    let delta = outbound.stats.drain();
    assert_eq!(delta.control_dropped, 10);
    assert_eq!(
        delta.control_queue_high_watermark,
        MAX_CONTROL_QUEUE_MESSAGES as u64
    );
}

#[test]
fn outbound_scheduler_panic_drains_stale_audio() {
    let mut outbound = ClientOutbound::new();
    let samples = vec![0.0f32; max_audio_queued_frames(8_000) * 2];
    assert_eq!(outbound.enqueue(audio(8_000, 2, samples.clone()), 1), 0);
    assert_eq!(outbound.enqueue(audio(8_000, 2, samples), 2), 1);
    let item = outbound.next_message(true).unwrap();
    match item.message {
        OutboundMessage::AudioFrame { sequence, .. } => assert_eq!(sequence, 2),
        _ => panic!("expected audio frame"),
    }
    let delta = outbound.stats.drain();
    assert_eq!(delta.audio_panic_drain, 1);
    assert_eq!(delta.audio_dropped, 1);
}

#[test]
fn outbound_scheduler_tracks_tcp_outq_high_watermark() {
    let mut outbound: ClientOutbound<Vec<f32>> = ClientOutbound::new();
    outbound.stats.record_tcp_outq_high_watermark(32 * 1024);
    outbound.stats.record_tcp_outq_high_watermark(96 * 1024);
    outbound.stats.record_tcp_outq_high_watermark(64 * 1024);
    let delta = outbound.stats.drain();
    assert_eq!(delta.tcp_outq_high_watermark_bytes, 96 * 1024);
}

#[test]
fn bulk_is_held_back_when_not_allowed() {
    let mut outbound = ClientOutbound::new();
    outbound.enqueue(iq(48_000, vec![1.0, 2.0]), 1);
    assert!(outbound.next_message(false).is_none());
    assert!(outbound.next_message(true).is_some());
}
