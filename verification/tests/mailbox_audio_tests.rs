use saturn_bridge::commands::{TciCommand, TciMicFrame};
use saturn_bridge::mailbox::{
    TciCommandMailbox, MAX_TCI_CONTROL_COMMANDS, MAX_TCI_MIC_COMMANDS,
};
use saturn_bridge::tx_audio::{
    NullTxAudioSink, TxAudioIngress, TxAudioIngressError, TxAudioMessage, TxAudioSource,
    TxAudioIngressStats, TxPipelineReport, TxPipelineState, TX_AUDIO_INGRESS_CAPACITY,
    UNIT_RATIO_BITS,
};

fn mic(sequence: u32) -> TciCommand<Vec<f32>> {
    TciCommand::MicAudioFrame(TciMicFrame {
        sample_rate_hz: 48_000,
        channels: 1,
        sequence,
        received_at_ns: 0,
        samples: vec![0.0; 16],
    })
}

#[test]
fn mailbox_flood_keeps_tx_release_latency_below_ten_ms() {
    let mut mailbox = TciCommandMailbox::new();
    for sequence in 1..=10_000 {
        mailbox.enqueue(TciCommand::SetVfoA(7_100_000 + sequence));
        mailbox.enqueue(mic(sequence));
    }
    mailbox.enqueue(TciCommand::SetTxEnabled(false));

    let started = std::time::Instant::now();
    assert!(matches!(mailbox.try_recv(), Some(TciCommand::SetTxEnabled(false))));
    assert!(started.elapsed() < std::time::Duration::from_millis(10));
    assert!(matches!(mailbox.try_recv(), Some(TciCommand::SetVfoA(_))));
    assert!(matches!(mailbox.try_recv(), Some(TciCommand::MicAudioFrame(_))));
    let snapshot = mailbox.snapshot();
    assert!(snapshot.total_depth <= MAX_TCI_CONTROL_COMMANDS + MAX_TCI_MIC_COMMANDS);
}

#[test]
fn mailbox_coalesces_control_and_bounds_noncoalesced_commands() {
    let mut mailbox: TciCommandMailbox<Vec<f32>> = TciCommandMailbox::new();
    for freq in 0..1_000u32 {
        mailbox.enqueue(TciCommand::SetVfoA(freq));
    }
    for _ in 0..(MAX_TCI_CONTROL_COMMANDS + 10) {
        mailbox.enqueue(TciCommand::RequestSmeter);
    }

    let snapshot = mailbox.snapshot();
    assert_eq!(snapshot.control_depth, MAX_TCI_CONTROL_COMMANDS);
    assert_eq!(snapshot.control_coalesced, 999);
    assert_eq!(snapshot.control_dropped, 11);
    assert!(snapshot.total_depth <= MAX_TCI_CONTROL_COMMANDS);
}

#[test]
fn mailbox_bounds_microphone_frames_and_keeps_newest() {
    let mut mailbox = TciCommandMailbox::new();
    for sequence in 1..=20 {
        mailbox.enqueue(mic(sequence));
    }
    let snapshot = mailbox.snapshot();
    assert_eq!(snapshot.mic_depth, MAX_TCI_MIC_COMMANDS);
    assert_eq!(snapshot.mic_dropped, 12);
    assert!(matches!(
        mailbox.try_recv(),
        Some(TciCommand::MicAudioFrame(frame)) if frame.sequence == 13
    ));
}

#[test]
fn null_sink_counts_without_forwarding_audio() {
    let mut sink = NullTxAudioSink::new();
    sink.write_frames([0.1f32; 128]).unwrap();
    sink.flush().unwrap();
    assert_eq!(sink.frames(), 128);
    assert_eq!(sink.flushes(), 1);
    assert_eq!(sink.name(), "null");
}

#[test]
fn bounded_ingress_accounts_for_enqueued_and_consumed_satp_audio() {
    let mut ingress = TxAudioIngress::bounded();
    ingress
        .write_frame(TxAudioSource::Satp, vec![0.25f32; 128], 1, 48_000)
        .unwrap();
    assert_eq!(ingress.snapshot().queue_depth, 1);
    let Some(TxAudioMessage::Frames(frame)) = ingress.try_recv() else {
        panic!("expected audio frame")
    };
    ingress.stats.on_dequeued();
    ingress.stats.on_accepted(frame.source, frame.samples.len());
    let snapshot = ingress.snapshot();
    assert_eq!(snapshot.queue_depth, 0);
    assert_eq!(snapshot.satp_frames_enqueued, 1);
    assert_eq!(snapshot.satp_samples_enqueued, 128);
    assert_eq!(ingress.stats.snapshot().satp_frames_accepted, 1);
    assert_eq!(ingress.stats.snapshot().satp_samples_accepted, 128);
}

#[test]
fn bounded_ingress_drops_new_media_when_full() {
    let mut ingress = TxAudioIngress::bounded();
    for _ in 0..TX_AUDIO_INGRESS_CAPACITY {
        ingress
            .write_frame(TxAudioSource::Satp, vec![0.0f32; 128], 1, 48_000)
            .unwrap();
    }
    let error = ingress
        .write_frame(TxAudioSource::Satp, vec![0.0f32; 128], 1, 48_000)
        .unwrap_err();
    assert_eq!(error, TxAudioIngressError::QueueFull);
    let snapshot = ingress.snapshot();
    assert_eq!(snapshot.queue_depth, TX_AUDIO_INGRESS_CAPACITY);
    assert_eq!(snapshot.queue_high_water, TX_AUDIO_INGRESS_CAPACITY);
    assert_eq!(snapshot.satp_frames_queue_full, 1);
    assert_eq!(snapshot.satp_samples_queue_full, 128);
}

#[test]
fn pipeline_acceptance_follows_consumer_arm_state() {
    let mut ingress: TxAudioIngress<f32> = TxAudioIngress::bounded();
    assert!(!ingress.pipeline_accepting_audio());

    ingress.stats.mark_pipeline_armed(true);
    assert!(ingress.pipeline_accepting_audio());
    assert_eq!(ingress.stats.snapshot().pipeline_state, "armed");
    assert!(ingress.stats.snapshot().pipeline_rf_enabled);

    ingress.stats.mark_pipeline_idle();
    assert!(!ingress.pipeline_accepting_audio());
}

#[test]
fn ingress_delivers_in_order_and_refuses_after_close() {
    let mut ingress = TxAudioIngress::bounded();
    ingress.write_frame(TxAudioSource::Tci, vec![1.0f32, 2.0], 2, 48_000).unwrap();
    ingress.flush(TxAudioSource::Tci).unwrap();
    ingress.write_satp_packet([0.5f32; 128]).unwrap();
    assert_eq!(ingress.len(), 3);
    assert!(matches!(ingress.try_recv(), Some(TxAudioMessage::Frames(f)) if f.channels == 2 && f.samples.len() == 2));
    assert!(matches!(ingress.try_recv(), Some(TxAudioMessage::Flush(TxAudioSource::Tci))));
    assert!(matches!(ingress.try_recv(), Some(TxAudioMessage::Frames(f)) if f.source == TxAudioSource::Satp && f.samples.len() == 128));
    assert!(ingress.try_recv().is_none());
    let stats = ingress.snapshot();
    assert_eq!(stats.tci_frames_enqueued, 1);
    assert_eq!(stats.tci_samples_enqueued, 2);
    assert_eq!(stats.flushes_enqueued, 1);
    ingress.close_receiver();
    assert_eq!(
        ingress.flush(TxAudioSource::Satp),
        Err(TxAudioIngressError::Disconnected)
    );
    assert_eq!(ingress.snapshot().queue_depth, 3);
}

#[test]
fn pipeline_reports_are_labelled() {
    let mut ingress: TxAudioIngress<f32> = TxAudioIngress::bounded();
    let report = TxPipelineReport {
        mic_frames: 3,
        duc_packets: 4,
        wdsp_input_samples: 5,
        wdsp_output_pairs: 6,
        pending_mic_floats: 7,
        pending_iq_floats: 8,
        rmatch_enabled: true,
        rmatch_underflows: -1,
        rmatch_overflows: 2,
        rmatch_ratio_bits: 1.0f64.to_bits(),
    };
    ingress.stats.update_pipeline("keyed", true, report);
    assert_eq!(ingress.stats.pipeline_state, TxPipelineState::Keyed);
    assert_eq!(ingress.stats.snapshot().pipeline_duc_packets, 4);
    ingress.stats.update_pipeline("bogus", false, report);
    assert_eq!(ingress.stats.snapshot().pipeline_state, "idle");
}

#[test]
fn audio_source_names_parse() {
    assert_eq!(TxAudioSource::parse(" SATP "), Some(TxAudioSource::Satp));
    assert_eq!(TxAudioSource::parse("tci"), Some(TxAudioSource::Tci));
    assert_eq!(TxAudioSource::parse("mic"), None);
    assert_eq!(TxAudioSource::Satp.as_str(), "satp");
}

#[test]
fn fresh_stats_report_unit_resampler_ratio() {
    let stats = TxAudioIngressStats::new();
    let s = stats.snapshot();
    assert_eq!(s.queue_depth, 0);
    assert_eq!(s.tci_frames_enqueued, 0);
    assert_eq!(s.satp_frames_enqueued, 0);
    assert_eq!(s.pipeline_state, "idle");
    assert!(!s.pipeline_rf_enabled);
    assert!(!s.pipeline_rmatch_enabled);
    assert_eq!(f64::from_bits(s.pipeline_rmatch_ratio_bits), 1.0);
    assert_eq!(s.pipeline_rmatch_ratio_bits, UNIT_RATIO_BITS);
}

#[test]
fn reported_resampler_ratio_is_shown_as_reported() {
    let mut stats = TxAudioIngressStats::new();
    let mut report = TxPipelineReport::zero();
    report.rmatch_ratio_bits = 0.999f64.to_bits();
    stats.update_pipeline("armed", false, report);
    assert_eq!(f64::from_bits(stats.snapshot().pipeline_rmatch_ratio_bits), 0.999);
}

#[test]
fn writing_audio_keeps_pipeline_rf_flag() {
    let mut ingress: TxAudioIngress<f32> = TxAudioIngress::bounded();
    ingress.stats.mark_pipeline_armed(true);
    ingress.write_frame(TxAudioSource::Tci, vec![0.0; 4], 1, 48_000).unwrap();
    ingress.flush(TxAudioSource::Tci).unwrap();
    assert!(ingress.stats.snapshot().pipeline_rf_enabled);
}
