use media_session::clock::{remaining, rtp_timestamp, FRAME_DURATION_MICROS, FRAME_DURATION_MS};
use media_session::encoder::{join_packets, Encoder, RawFrame, VideoCodec, BITRATE, TIMEBASE_DEN};
use media_session::error::SessionError;
use media_session::source::synthetic_frame;

#[test]
fn encoder_starts_at_timestamp_zero() {
    let encoder = Encoder::new(300, 300).unwrap();
    assert_eq!(encoder.pts(), 0);
    assert_eq!(encoder.width(), 300);
    assert_eq!(encoder.height(), 300);
}

#[test]
fn encoder_refuses_zero_and_odd_dimensions() {
    assert_eq!(Encoder::new(0, 300).err(), Some(SessionError::Encoding));
    assert_eq!(Encoder::new(300, 0).err(), Some(SessionError::Encoding));
    assert_eq!(Encoder::new(0, 0).err(), Some(SessionError::Encoding));
    assert_eq!(Encoder::new(301, 300).err(), Some(SessionError::Encoding));
    assert_eq!(Encoder::new(300, 299).err(), Some(SessionError::Encoding));
    assert!(Encoder::new(2, 2).is_ok());
    assert!(Encoder::new(u32::MAX - 1, 2).is_ok());
}

#[test]
fn compressor_configuration_is_fixed() {
    let config = Encoder::new(640, 480).unwrap().config();
    assert_eq!(config.width, 640);
    assert_eq!(config.height, 480);
    assert_eq!(config.timebase_num, 1);
    assert_eq!(config.timebase_den, 60);
    assert_eq!(config.bitrate, 5 * 1024 * 1024);
    assert_eq!(config.codec, VideoCodec::Vp8);
    assert_eq!(BITRATE, 5_242_880);
    assert_eq!(TIMEBASE_DEN, 60);
}

#[test]
fn prepare_converts_and_stamps_the_frame() {
    let encoder = Encoder::new(2, 2).unwrap();
    let src: Vec<u8> = vec![
        0, 0, 255, 255, 0, 255, 0, 255, //
        255, 0, 0, 255, 255, 255, 255, 255,
    ];
    let frame = encoder.prepare(&src).unwrap();
    assert_eq!(frame.pts, 0);
    assert_eq!(frame.planes, vec![82, 144, 41, 235, 90, 240]);
    assert_eq!(encoder.pts(), 0);
}

#[test]
fn prepared_frame_is_as_large_as_the_compressor_needs() {
    let encoder = Encoder::new(300, 300).unwrap();
    let frame = encoder.prepare(&synthetic_frame(300, 300)).unwrap();
    assert_eq!(2 * frame.planes.len(), 3 * 300 * 300);
}

#[test]
fn prepare_refuses_buffers_that_are_not_whole_rows() {
    let encoder = Encoder::new(2, 2).unwrap();
    assert_eq!(encoder.prepare(&[0u8; 17]).err(), Some(SessionError::Encoding));
    assert_eq!(encoder.prepare(&[0u8; 15]).err(), Some(SessionError::Encoding));
}

#[test]
fn prepare_refuses_rows_too_short_for_the_width() {
    let encoder = Encoder::new(2, 2).unwrap();
    assert_eq!(encoder.prepare(&[0u8; 14]).err(), Some(SessionError::Encoding));
    assert_eq!(encoder.prepare(&[]).err(), Some(SessionError::Encoding));
    assert!(encoder.prepare(&[0u8; 16]).is_ok());
    assert!(encoder.prepare(&[0u8; 18]).is_ok());
}

#[test]
fn finish_joins_packets_in_order() {
    let mut encoder = Encoder::new(2, 2).unwrap();
    let packets = vec![vec![1u8, 2, 3], vec![], vec![4], vec![5, 6]];
    let payload = encoder.finish(&packets, 10).unwrap();
    assert_eq!(payload, vec![1, 2, 3, 4, 5, 6]);
}

#[test]
fn finish_with_no_packets_gives_an_empty_payload() {
    let mut encoder = Encoder::new(2, 2).unwrap();
    assert_eq!(encoder.finish(&Vec::new(), 10).unwrap(), Vec::<u8>::new());
    assert_eq!(encoder.finish(&vec![vec![], vec![]], 10).unwrap(), Vec::<u8>::new());
    assert_eq!(encoder.pts(), 20);
}

#[test]
fn one_non_empty_packet_makes_a_non_empty_payload() {
    let mut encoder = Encoder::new(2, 2).unwrap();
    let payload = encoder.finish(&vec![vec![], vec![9], vec![]], 10).unwrap();
    assert!(!payload.is_empty());
}

#[test]
fn timestamp_advances_by_exactly_the_duration() {
    let mut encoder = Encoder::new(2, 2).unwrap();
    let mut expected: i64 = 0;
    for duration in [10u64, 10, 0, 33, 1, 1000] {
        let before = encoder.pts();
        assert_eq!(encoder.prepare(&[0u8; 16]).unwrap().pts, before);
        encoder.finish(&vec![vec![0u8]], duration).unwrap();
        expected += duration as i64;
        assert_eq!(encoder.pts(), expected);
        assert!(encoder.pts() >= before);
    }
}

#[test]
fn timestamp_that_cannot_advance_fails_the_pipeline() {
    let mut encoder = Encoder::new(2, 2).unwrap();
    encoder.finish(&Vec::new(), i64::MAX as u64).unwrap();
    assert_eq!(encoder.pts(), i64::MAX);
    assert_eq!(encoder.finish(&vec![vec![1u8]], 1).err(), Some(SessionError::Encoding));
    assert_eq!(encoder.pts(), i64::MAX);
    assert_eq!(encoder.finish(&vec![vec![1u8]], 0).unwrap(), vec![1]);
    let mut fresh = Encoder::new(2, 2).unwrap();
    assert_eq!(fresh.finish(&Vec::new(), u64::MAX).err(), Some(SessionError::Encoding));
    assert_eq!(fresh.pts(), 0);
}

#[test]
fn join_packets_is_concatenation() {
    assert_eq!(join_packets(&Vec::new()), Vec::<u8>::new());
    assert_eq!(join_packets(&vec![vec![7u8]]), vec![7]);
    assert_eq!(join_packets(&vec![vec![1u8, 2], vec![3u8]]), vec![1, 2, 3]);
}

#[test]
fn remaining_is_zero_for_a_deadline_that_has_passed() {
    assert_eq!(remaining(5, 5), 0);
    assert_eq!(remaining(4, 5), 0);
    assert_eq!(remaining(0, u64::MAX), 0);
    assert_eq!(remaining(6, 5), 1);
    assert_eq!(remaining(u64::MAX, 0), u64::MAX);
}

#[test]
fn media_time_is_rebased_to_the_ninety_kilohertz_clock() {
    assert_eq!(rtp_timestamp(0), 0);
    assert_eq!(rtp_timestamp(10_000), 900);
    assert_eq!(rtp_timestamp(20_000), 1800);
    assert_eq!(rtp_timestamp(1_000_000), 90_000);
    assert_eq!(rtp_timestamp(11), 0);
    assert_eq!(rtp_timestamp(12), 1);
    assert_eq!(rtp_timestamp(u64::MAX), ((u64::MAX as u128) * 90_000 / 1_000_000) as u64);
}

#[test]
fn frame_duration_is_ten_milliseconds() {
    assert_eq!(FRAME_DURATION_MS, 10);
    assert_eq!(FRAME_DURATION_MICROS, 10_000);
}

#[test]
fn errors_describe_themselves() {
    let all = [
        SessionError::Negotiation,
        SessionError::Configuration,
        SessionError::Transport,
        SessionError::Encoding,
        SessionError::Protocol,
    ];
    for (i, a) in all.iter().enumerate() {
        assert!(!a.describe().is_empty());
        for b in all.iter().skip(i + 1) {
            assert_ne!(a.describe(), b.describe());
        }
    }
    assert_eq!(SessionError::Configuration.describe(), "no usable local network address");
}

#[test]
fn encode_hands_the_converted_frame_to_the_compressor() {
    let mut encoder = Encoder::new(2, 2).unwrap();
    let src: Vec<u8> = vec![
        0, 0, 255, 255, 0, 255, 0, 255, //
        255, 0, 0, 255, 255, 255, 255, 255,
    ];
    let mut seen: Vec<(i64, Vec<u8>)> = Vec::new();
    for n in 0..3i64 {
        let payload = encoder.encode(&src, 10, |frame: &RawFrame| {
            seen.push((frame.pts, frame.planes.clone()));
            Some(vec![vec![1u8, 2], vec![], vec![n as u8]])
        });
        assert_eq!(payload, Ok(vec![1, 2, n as u8]));
        assert_eq!(encoder.pts(), 10 * (n + 1));
    }
    let planes = vec![82u8, 144, 41, 235, 90, 240];
    assert_eq!(seen, vec![(0, planes.clone()), (10, planes.clone()), (20, planes)]);
}

#[test]
fn encode_fails_when_the_compressor_fails() {
    let mut encoder = Encoder::new(2, 2).unwrap();
    let outcome = encoder.encode(&[0u8; 16], 10, |_: &RawFrame| None);
    assert_eq!(outcome, Err(SessionError::Encoding));
    assert_eq!(encoder.pts(), 0);
}

#[test]
fn encode_does_not_compress_a_refused_buffer() {
    let mut encoder = Encoder::new(2, 2).unwrap();
    let mut called = false;
    let outcome = encoder.encode(&[0u8; 15], 10, |_: &RawFrame| {
        called = true;
        Some(Vec::new())
    });
    assert_eq!(outcome, Err(SessionError::Encoding));
    assert!(!called);
    assert_eq!(encoder.pts(), 0);
}

#[test]
fn encode_fails_when_the_timestamp_cannot_advance() {
    let mut encoder = Encoder::new(2, 2).unwrap();
    encoder.finish(&Vec::new(), i64::MAX as u64).unwrap();
    let outcome = encoder.encode(&[0u8; 16], 1, |_: &RawFrame| Some(vec![vec![1u8]]));
    assert_eq!(outcome, Err(SessionError::Encoding));
    assert_eq!(encoder.pts(), i64::MAX);
}

#[test]
fn encode_may_yield_an_empty_payload() {
    let mut encoder = Encoder::new(2, 2).unwrap();
    let outcome = encoder.encode(&[0u8; 16], 10, |_: &RawFrame| Some(Vec::new()));
    assert_eq!(outcome, Ok(Vec::new()));
    assert_eq!(encoder.pts(), 10);
}
