use media_session::encoder::{Encoder, VideoCodec};
use media_session::error::SessionError;
use media_session::pump::{
    Action, Direction, Event, Failure, Input, MediaKind, Phase, Pump, ReceiveError, Track,
    RECEIVE_BUFFER_LEN,
};
use media_session::source::synthetic_frame;

type Address = &'static str;
type TestPump = Pump<u32, u16>;
type TestEvent = Event<Address, u32, u16, usize>;
type TestAction = Action<Address, u32, u16, usize>;

const MS: u64 = 1_000_000;

fn new_pump() -> TestPump {
    Pump::new(4, 2).unwrap()
}

fn frame() -> Vec<u8> {
    synthetic_frame(4, 2)
}

fn planes() -> Vec<u8> {
    let mut out = vec![210u8; 8];
    out.extend_from_slice(&[16, 16, 146, 146]);
    out
}

fn video_track(payloads: Vec<u16>) -> TestEvent {
    Event::TrackAdded { mid: 7, kind: MediaKind::Video, direction: Direction::SendRecv, payloads }
}

fn bound_pump() -> TestPump {
    let mut pump = new_pump();
    let action: TestAction = pump.step(video_track(vec![96, 97]), &frame());
    assert_eq!(action, TestAction::Continue);
    pump
}

fn step(pump: &mut TestPump, event: TestEvent) -> TestAction {
    pump.step(event, &frame())
}

fn step_with(pump: &mut TestPump, event: TestEvent, pixels: &[u8]) -> TestAction {
    pump.step(event, pixels)
}

fn stop(failure: Option<SessionError>) -> TestAction {
    Action::Stop { failure }
}

#[test]
fn new_pump_polls_with_no_track_at_timestamp_zero() {
    let pump = new_pump();
    assert_eq!(pump.phase(), Phase::Polling);
    assert_eq!(pump.track(), None);
    assert_eq!(pump.pts(), 0);
    assert_eq!(pump.failure(), None);
    assert!(!pump.is_finished());
}

#[test]
fn compressor_is_configured_for_the_frame_size_of_the_pump() {
    let config = new_pump().compressor_config();
    assert_eq!(config, Encoder::new(4, 2).unwrap().config());
    assert_eq!((config.width, config.height), (4, 2));
    assert_eq!(config.codec, VideoCodec::Vp8);
}

#[test]
fn pump_refuses_dimensions_no_compressor_takes() {
    assert_eq!(TestPump::new(0, 2).err(), Some(SessionError::Encoding));
    assert_eq!(TestPump::new(3, 2).err(), Some(SessionError::Encoding));
    assert_eq!(TestPump::new(2, 5).err(), Some(SessionError::Encoding));
}

#[test]
fn expired_deadline_is_answered_with_a_timeout_at_once() {
    for (deadline, now) in [(5u64, 5u64), (4, 5), (0, 0), (0, u64::MAX), (u64::MAX, u64::MAX)] {
        let mut pump = bound_pump();
        let action = step(&mut pump, Event::Timeout { deadline, now });
        assert_eq!(action, Action::Deliver { input: Input::Timeout });
        assert_eq!(pump.phase(), Phase::Polling);
        assert_eq!(pump.pts(), 0);
    }
}

#[test]
fn pending_deadline_without_a_track_is_waited_for() {
    let mut pump = new_pump();
    let action = step(&mut pump, Event::Timeout { deadline: 9 * MS, now: 5 * MS });
    assert_eq!(action, Action::Wait { remaining: 4 * MS });
    assert_eq!(pump.phase(), Phase::Waiting);
    let action = step(&mut pump, TestEvent::Elapsed);
    assert_eq!(action, Action::Deliver { input: Input::Timeout });
    assert_eq!(pump.phase(), Phase::Polling);
}

#[test]
fn wait_is_never_zero() {
    let mut pump = new_pump();
    let action = step(&mut pump, Event::Timeout { deadline: 6, now: 5 });
    assert_eq!(action, Action::Wait { remaining: 1 });
}

#[test]
fn datagram_that_arrives_during_the_wait_is_delivered() {
    let mut pump = new_pump();
    step(&mut pump, Event::Timeout { deadline: 9, now: 5 });
    let action = step(&mut pump, Event::Received { source: "peer", destination: "here", contents: vec![1, 2, 3] });
    assert_eq!(
        action,
        Action::Deliver {
            input: Input::Receive { source: "peer", destination: "here", contents: vec![1, 2, 3] }
        }
    );
    assert_eq!(pump.phase(), Phase::Polling);
}

#[test]
fn engine_datagrams_are_sent_as_they_are() {
    let mut pump = new_pump();
    for contents in [vec![], vec![9u8], vec![1, 2, 3, 4, 5]] {
        let action = step(&mut pump, Event::Transmit { destination: "peer", contents: contents.clone() });
        assert_eq!(action, Action::Send { destination: "peer", contents });
        assert_eq!(pump.phase(), Phase::Polling);
    }
}

#[test]
fn channel_data_is_answered_with_pong() {
    let mut pump = new_pump();
    let action = step(&mut pump, Event::ChannelData { channel: 3, data: b"ping".to_vec() });
    assert_eq!(action, Action::Reply { channel: 3, payload: b"pong".to_vec() });
    let action = step(&mut pump, Event::ChannelData { channel: 4, data: Vec::new() });
    assert_eq!(action, Action::Reply { channel: 4, payload: b"pong".to_vec() });
    assert_eq!(pump.phase(), Phase::Polling);
}

#[test]
fn other_events_are_passed_over() {
    let mut pump = new_pump();
    assert_eq!(step(&mut pump, TestEvent::Other), TestAction::Continue);
    assert_eq!(pump.phase(), Phase::Polling);
    assert_eq!(pump.track(), None);
}

#[test]
fn video_send_track_is_bound_with_its_first_payload() {
    let pump = bound_pump();
    assert_eq!(pump.track(), Some(Track { mid: 7, params: 96, accumulated_micros: 0 }));
    assert_eq!(pump.phase(), Phase::Polling);
    let mut send_only = new_pump();
    step(&mut send_only, Event::TrackAdded {
            mid: 1,
            kind: MediaKind::Video,
            direction: Direction::SendOnly,
            payloads: vec![100],
        });
    assert_eq!(send_only.track(), Some(Track { mid: 1, params: 100, accumulated_micros: 0 }));
}

#[test]
fn tracks_that_are_not_video_to_send_are_passed_over() {
    let rejected: [(MediaKind, Direction, Vec<u16>); 5] = [
        (MediaKind::Audio, Direction::SendRecv, vec![111]),
        (MediaKind::Audio, Direction::SendOnly, vec![111]),
        (MediaKind::Video, Direction::RecvOnly, vec![96]),
        (MediaKind::Video, Direction::Inactive, vec![96]),
        (MediaKind::Video, Direction::SendRecv, vec![]),
    ];
    for (kind, direction, payloads) in rejected {
        let mut pump = new_pump();
        let action = step(&mut pump, Event::TrackAdded { mid: 2, kind, direction, payloads });
        assert_eq!(action, TestAction::Continue);
        assert_eq!(pump.track(), None);
        assert_eq!(pump.phase(), Phase::Polling);
    }
}

#[test]
fn bound_track_is_never_rebound() {
    let mut pump = bound_pump();
    let action = step(&mut pump, Event::TrackAdded {
            mid: 8,
            kind: MediaKind::Video,
            direction: Direction::SendRecv,
            payloads: vec![120],
        });
    assert_eq!(action, TestAction::Continue);
    assert_eq!(pump.track(), Some(Track { mid: 7, params: 96, accumulated_micros: 0 }));
}

#[test]
fn frame_is_produced_before_the_wait_once_a_track_is_bound() {
    let mut pump = bound_pump();
    let action = step(&mut pump, Event::Timeout { deadline: 30 * MS, now: 20 * MS });
    assert_eq!(action, Action::Compress { pts: 0, planes: planes() });
    assert_eq!(pump.phase(), Phase::Compressing { remaining: 10 * MS });

    let packets = vec![vec![0xAAu8, 0xBB], vec![0xCC]];
    let action = step(&mut pump, Event::Compressed { packets });
    assert_eq!(
        action,
        Action::WriteFrame { mid: 7, params: 96, rtp_time: 0, payload: vec![0xAA, 0xBB, 0xCC] }
    );
    assert_eq!(pump.phase(), Phase::Writing { remaining: 10 * MS });
    assert_eq!(pump.pts(), 10);
    assert_eq!(pump.track(), Some(Track { mid: 7, params: 96, accumulated_micros: 10_000 }));

    let action = step(&mut pump, TestEvent::FrameWritten);
    assert_eq!(action, Action::Wait { remaining: 10 * MS });
    assert_eq!(pump.phase(), Phase::Waiting);

    let action = step(&mut pump, TestEvent::Elapsed);
    assert_eq!(action, Action::Deliver { input: Input::Timeout });
    assert_eq!(pump.phase(), Phase::Polling);
}

#[test]
fn frames_are_stamped_ten_milliseconds_apart() {
    let mut pump = bound_pump();
    for n in 0..5u64 {
        let action = step(&mut pump, Event::Timeout { deadline: 2, now: 1 });
        assert_eq!(action, Action::Compress { pts: 10 * n as i64, planes: planes() });
        let action = step(&mut pump, Event::Compressed { packets: vec![vec![n as u8]] });
        assert_eq!(
            action,
            Action::WriteFrame { mid: 7, params: 96, rtp_time: 900 * n, payload: vec![n as u8] }
        );
        assert_eq!(pump.pts(), 10 * (n as i64 + 1));
        assert_eq!(step(&mut pump, TestEvent::FrameWritten), Action::Wait { remaining: 1 });
        assert_eq!(
            step(&mut pump, TestEvent::Elapsed),
            Action::Deliver { input: Input::Timeout }
        );
    }
    assert_eq!(pump.track().unwrap().accumulated_micros, 50_000);
}

#[test]
fn timestamp_never_decreases_over_a_session() {
    let mut pump = bound_pump();
    let mut last = pump.pts();
    let script: Vec<TestEvent> = vec![
        Event::Other,
        Event::Timeout { deadline: 1, now: 1 },
        Event::Transmit { destination: "peer", contents: vec![1] },
        Event::Timeout { deadline: 5, now: 1 },
        Event::Compressed { packets: vec![vec![1]] },
        Event::FrameWritten,
        Event::Received { source: "peer", destination: "here", contents: vec![2] },
        Event::ChannelData { channel: 1, data: vec![3] },
        Event::Timeout { deadline: 9, now: 6 },
        Event::Compressed { packets: Vec::new() },
        Event::FrameWritten,
        Event::Elapsed,
        Event::Disconnected,
        Event::Timeout { deadline: 9, now: 6 },
    ];
    for event in script {
        step(&mut pump, event);
        assert!(pump.pts() >= last);
        last = pump.pts();
    }
    assert_eq!(last, 20);
}

#[test]
fn compressor_may_emit_no_packets() {
    let mut pump = bound_pump();
    step(&mut pump, Event::Timeout { deadline: 2, now: 1 });
    let action = step(&mut pump, Event::Compressed { packets: Vec::new() });
    assert_eq!(
        action,
        Action::WriteFrame { mid: 7, params: 96, rtp_time: 0, payload: Vec::new() }
    );
}

#[test]
fn frame_buffer_of_the_wrong_size_ends_the_session() {
    let mut pump = bound_pump();
    let action = step_with(&mut pump, Event::Timeout { deadline: 2, now: 1 }, &[0u8; 31]);
    assert_eq!(action, stop(Some(SessionError::Encoding)));
    assert!(pump.is_finished());
    assert_eq!(pump.failure(), Some(SessionError::Encoding));
}

#[test]
fn frame_buffer_is_not_read_without_a_track() {
    let mut pump = new_pump();
    let action = step_with(&mut pump, Event::Timeout { deadline: 2, now: 1 }, &[0u8; 31]);
    assert_eq!(action, Action::Wait { remaining: 1 });
}

#[test]
fn disconnect_ends_the_session_and_nothing_follows() {
    let mut pump = bound_pump();
    assert_eq!(step(&mut pump, TestEvent::Disconnected), stop(None));
    assert!(pump.is_finished());
    assert_eq!(pump.failure(), None);
    let later: Vec<TestEvent> = vec![
        Event::Transmit { destination: "peer", contents: vec![1] },
        Event::Timeout { deadline: 9, now: 5 },
        Event::Timeout { deadline: 5, now: 5 },
        Event::ChannelData { channel: 1, data: vec![1] },
        Event::Compressed { packets: vec![vec![1]] },
        Event::FrameWritten,
        Event::Received { source: "peer", destination: "here", contents: vec![1] },
        Event::Elapsed,
        Event::Other,
        Event::Disconnected,
        Event::Failure { operation: Failure::Socket },
        video_track(vec![96]),
    ];
    for event in later {
        assert_eq!(step(&mut pump, event), stop(None));
        assert!(pump.is_finished());
        assert_eq!(pump.pts(), 0);
    }
}

#[test]
fn failed_operations_end_the_session_with_their_error() {
    let cases = [
        (Failure::Engine, SessionError::Protocol),
        (Failure::Socket, SessionError::Transport),
        (Failure::Compressor, SessionError::Encoding),
    ];
    for (operation, error) in cases {
        let mut pump = bound_pump();
        assert_eq!(step(&mut pump, Event::Failure { operation }), stop(Some(error)));
        assert_eq!(pump.failure(), Some(error));
        assert!(pump.is_finished());
        assert_eq!(step(&mut pump, TestEvent::Other), stop(Some(error)));
    }
}

#[test]
fn failure_is_fatal_in_every_phase() {
    let mut compressing = bound_pump();
    step(&mut compressing, Event::Timeout { deadline: 2, now: 1 });
    assert_eq!(
        step(&mut compressing, Event::Failure { operation: Failure::Compressor }),
        stop(Some(SessionError::Encoding))
    );

    let mut writing = bound_pump();
    step(&mut writing, Event::Timeout { deadline: 2, now: 1 });
    step(&mut writing, Event::Compressed { packets: vec![vec![1]] });
    assert_eq!(
        step(&mut writing, Event::Failure { operation: Failure::Engine }),
        stop(Some(SessionError::Protocol))
    );

    let mut waiting = new_pump();
    step(&mut waiting, Event::Timeout { deadline: 2, now: 1 });
    assert_eq!(
        step(&mut waiting, Event::Failure { operation: Failure::Socket }),
        stop(Some(SessionError::Transport))
    );
}

#[test]
fn event_out_of_turn_ends_the_session() {
    let mut polling = new_pump();
    assert_eq!(step(&mut polling, TestEvent::Elapsed), stop(Some(SessionError::Protocol)));

    let mut polling = new_pump();
    assert_eq!(
        step(&mut polling, Event::Compressed { packets: Vec::new() }),
        stop(Some(SessionError::Protocol))
    );

    let mut compressing = bound_pump();
    step(&mut compressing, Event::Timeout { deadline: 2, now: 1 });
    assert_eq!(
        step(&mut compressing, TestEvent::FrameWritten),
        stop(Some(SessionError::Protocol))
    );

    let mut writing = bound_pump();
    step(&mut writing, Event::Timeout { deadline: 2, now: 1 });
    step(&mut writing, Event::Compressed { packets: Vec::new() });
    assert_eq!(step(&mut writing, TestEvent::Elapsed), stop(Some(SessionError::Protocol)));

    let mut waiting = new_pump();
    step(&mut waiting, Event::Timeout { deadline: 2, now: 1 });
    assert_eq!(
        step(&mut waiting, Event::Timeout { deadline: 2, now: 1 }),
        stop(Some(SessionError::Protocol))
    );
}

#[test]
fn read_that_timed_out_or_would_block_is_a_timeout() {
    for error in [ReceiveError::WouldBlock, ReceiveError::TimedOut] {
        let mut pump = new_pump();
        step(&mut pump, Event::Timeout { deadline: 2, now: 1 });
        let action = step(&mut pump, Event::ReceiveFailed { error });
        assert_eq!(action, Action::Deliver { input: Input::Timeout });
        assert_eq!(pump.phase(), Phase::Polling);
        assert_eq!(pump.failure(), None);
    }
}

#[test]
fn read_that_failed_otherwise_is_a_transport_error() {
    let mut pump = new_pump();
    step(&mut pump, Event::Timeout { deadline: 2, now: 1 });
    let action = step(&mut pump, Event::ReceiveFailed { error: ReceiveError::Other });
    assert_eq!(action, stop(Some(SessionError::Transport)));
    assert!(pump.is_finished());
}

#[test]
fn receive_buffer_holds_two_thousand_bytes() {
    assert_eq!(RECEIVE_BUFFER_LEN, 2000);
}
