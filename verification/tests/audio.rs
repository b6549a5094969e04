use zilog_silicon::audio::{
    regulate, wav_header, Regulation, RegulationStats, MAX_LATENCY_SAMPLES, MIN_LATENCY_SAMPLES,
    SAMPLE_RATE, TARGET_LATENCY_SAMPLES,
};

/// Samples the emulator produces for a standard frame.
const FRAME: u32 = SAMPLE_RATE / 50;

#[test]
fn an_empty_queue_is_refilled_with_a_cushion() {
    assert_eq!(
        regulate(0, true),
        Regulation::Send {
            padding: TARGET_LATENCY_SAMPLES
        }
    );
    assert!(
        TARGET_LATENCY_SAMPLES > FRAME,
        "le coussin doit depasser une trame"
    );
}

#[test]
fn the_startup_cushion_is_not_reported_as_an_incident() {
    assert_eq!(
        regulate(0, false),
        Regulation::Prime {
            padding: TARGET_LATENCY_SAMPLES
        }
    );
}

#[test]
fn a_healthy_queue_is_left_alone() {
    for queued in [MIN_LATENCY_SAMPLES, 2 * FRAME, MAX_LATENCY_SAMPLES] {
        assert_eq!(regulate(queued, true), Regulation::Send { padding: 0 });
    }
}

#[test]
fn an_overfull_queue_drops_a_frame() {
    assert_eq!(regulate(MAX_LATENCY_SAMPLES + 1, true), Regulation::Drop);
}

#[test]
fn the_regulation_settles_at_a_stable_latency() {
    let mut queued = 0u32;
    let mut primed = false;
    let mut refills = 0;
    for _ in 0..1000 {
        match regulate(queued, primed) {
            Regulation::Drop => queued -= FRAME,
            Regulation::Prime { padding } => {
                primed = true;
                queued += padding + FRAME;
            }
            Regulation::Send { padding } => {
                if padding > 0 {
                    refills += 1;
                }
                queued += padding + FRAME;
            }
        }
        queued = queued.saturating_sub(FRAME);
    }
    assert_eq!(refills, 0, "aucun remplissage subi en regime stable");
    assert!(
        (MIN_LATENCY_SAMPLES..=MAX_LATENCY_SAMPLES).contains(&queued),
        "latence stabilisee hors de la plage visee : {queued}"
    );
}

#[test]
fn latency_constants_match_the_frame_timing() {
    assert_eq!(SAMPLE_RATE, 44100);
    assert_eq!(MAX_LATENCY_SAMPLES, 4410);
    assert_eq!(TARGET_LATENCY_SAMPLES, 2646);
    assert_eq!(MIN_LATENCY_SAMPLES, 882);
}

#[test]
fn a_partly_drained_queue_is_topped_up_to_the_cushion() {
    assert_eq!(regulate(100, true), Regulation::Send { padding: 2546 });
    assert_eq!(regulate(881, false), Regulation::Prime { padding: 1765 });
    assert_eq!(regulate(882, false), Regulation::Send { padding: 0 });
}

#[test]
fn the_stats_count_refills_drops_but_not_the_startup_cushion() {
    let mut stats = RegulationStats::new();
    assert!(!stats.primed());
    assert_eq!(stats.regulate_frame(0), Regulation::Prime { padding: 2646 });
    assert!(stats.primed());
    assert_eq!(stats.take_counts(), (0, 0, 0));
    assert_eq!(stats.regulate_frame(5000), Regulation::Drop);
    assert_eq!(stats.regulate_frame(100), Regulation::Send { padding: 2546 });
    assert_eq!(stats.regulate_frame(2000), Regulation::Send { padding: 0 });
    assert_eq!(stats.regulate_frame(0), Regulation::Send { padding: 2646 });
    assert_eq!(stats.take_counts(), (2, 2546 + 2646, 1));
    assert_eq!(stats.take_counts(), (0, 0, 0));
    assert!(stats.primed());
}

#[test]
fn the_wav_header_describes_mono_16_bit_pcm() {
    let h = wav_header(1000);
    assert_eq!(h.len(), 44);
    assert_eq!(&h[0..4], b"RIFF");
    assert_eq!(u32::from_le_bytes([h[4], h[5], h[6], h[7]]), 36 + 2000);
    assert_eq!(&h[8..16], b"WAVEfmt ");
    assert_eq!(u32::from_le_bytes([h[16], h[17], h[18], h[19]]), 16);
    assert_eq!(u16::from_le_bytes([h[20], h[21]]), 1);
    assert_eq!(u16::from_le_bytes([h[22], h[23]]), 1);
    assert_eq!(u32::from_le_bytes([h[24], h[25], h[26], h[27]]), 44100);
    assert_eq!(u32::from_le_bytes([h[28], h[29], h[30], h[31]]), 88200);
    assert_eq!(u16::from_le_bytes([h[32], h[33]]), 2);
    assert_eq!(u16::from_le_bytes([h[34], h[35]]), 16);
    assert_eq!(&h[36..40], b"data");
    assert_eq!(u32::from_le_bytes([h[40], h[41], h[42], h[43]]), 2000);
}

#[test]
fn an_empty_recording_has_an_empty_data_chunk() {
    let h = wav_header(0);
    assert_eq!(u32::from_le_bytes([h[4], h[5], h[6], h[7]]), 36);
    assert_eq!(u32::from_le_bytes([h[40], h[41], h[42], h[43]]), 0);
    let big = wav_header((u32::MAX - 36) / 2);
    assert_eq!(u32::from_le_bytes([big[4], big[5], big[6], big[7]]), u32::MAX - 1);
}
