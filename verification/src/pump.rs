//! The media session pump: the loop that drives one session, written as a
//! state machine.
//!
//! The pump decides; a driver acts. The driver owns the negotiation engine,
//! the socket, the clock and the compressor. It reports what happened as an
//! [`Event`], and [`Pump::step`] answers with the one [`Action`] to perform
//! next. The kind of event that the pump expects depends on its [`Phase`]:
//!
//! * `Polling`: the outcome of polling the engine, which is a deadline, a
//!   datagram to transmit, or something that occurred;
//! * `Compressing`: the packets that the compressor made of the frame handed
//!   out with [`Action::Compress`];
//! * `Writing`: the engine took the frame handed out with
//!   [`Action::WriteFrame`];
//! * `Waiting`: a datagram arrived, the wait elapsed, or the read failed;
//!   a read that timed out or would block is a wait that elapsed;
//! * `Finished`: nothing; the session is over.
//!
//! A failed operation is reported as [`Event::Failure`] in any phase and ends
//! the session. So does an event that the phase does not expect.
//!
//! The pump is generic over the handles of the engine that pass through it
//! unread: the address of a peer (`A`), the identifier of a media line (`M`),
//! the payload parameters of a codec (`P`) and the identifier of a data
//! channel (`C`).
//!
//! Instants and waits are counts of nanoseconds on the driver's monotonic
//! clock, from an origin of the driver's choosing.
use crate::clock::{
    remaining, remaining_spec, rtp_ticks, rtp_timestamp, FRAME_DURATION_MICROS, FRAME_DURATION_MS,
};
use crate::convert::{frame_fits, i420};
use crate::encoder::{
    joined, packet_bytes, pipeline_config, valid_dimensions, Encoder, EncoderConfig,
};
use crate::error::SessionError;
use vstd::prelude::*;

verus! {

/// The kind of media a track carries.
#[derive(Clone, Copy, Debug, PartialEq, Eq, Structural)]
pub enum MediaKind {
    Audio,
    Video,
}

/// The direction of a track, seen from this side.
#[derive(Clone, Copy, Debug, PartialEq, Eq, Structural)]
pub enum Direction {
    SendOnly,
    RecvOnly,
    SendRecv,
    Inactive,
}

/// Which of the driver's operations failed.
#[derive(Clone, Copy, Debug, PartialEq, Eq, Structural)]
pub enum Failure {
    /// The negotiation engine reported an error.
    Engine,
    /// The socket failed with something other than a timeout.
    Socket,
    /// The compressor failed.
    Compressor,
}

/// How a read on the socket failed.
#[derive(Clone, Copy, Debug, PartialEq, Eq, Structural)]
pub enum ReceiveError {
    /// The read would block: no datagram came within the wait.
    WouldBlock,
    /// The read timed out: no datagram came within the wait.
    TimedOut,
    /// Anything else.
    Other,
}

/// The size of the buffer that the driver reads a datagram into.
pub const RECEIVE_BUFFER_LEN: usize = 2000;

/// The negotiated video stream that frames are written to.
#[derive(Debug, PartialEq, Eq)]
pub struct Track<M, P> {
    /// The engine's identifier of the media line.
    pub mid: M,
    /// The payload parameters chosen for the track.
    pub params: P,
    /// The media time of the next frame, in microseconds.
    pub accumulated_micros: u64,
}

impl<M: Copy, P: Copy> Clone for Track<M, P> {
    fn clone(&self) -> (track: Self)
        ensures
            track == *self,
    {
        Track { mid: self.mid, params: self.params, accumulated_micros: self.accumulated_micros }
    }
}

impl<M: Copy, P: Copy> Copy for Track<M, P> {

}

/// Where the pump is in its loop.
#[derive(Clone, Copy, Debug, PartialEq, Eq, Structural)]
pub enum Phase {
    /// The engine is to be polled.
    Polling,
    /// A frame is with the compressor; `remaining` is the wait that follows.
    Compressing { remaining: u64 },
    /// A frame is being handed to the engine; `remaining` is the wait that
    /// follows.
    Writing { remaining: u64 },
    /// The driver is suspended on the socket.
    Waiting,
    /// The session is over.
    Finished,
}

/// What the driver reports to the pump.
#[derive(Debug, PartialEq, Eq)]
pub enum Event<A, M, P, C> {
    /// The engine has nothing to do before the instant `deadline`; the clock
    /// reads `now`.
    Timeout { deadline: u64, now: u64 },
    /// The engine produced a datagram for `destination`.
    Transmit { destination: A, contents: Vec<u8> },
    /// The engine negotiated a media line. `payloads` are the payload
    /// parameters acceptable for it, most preferred first.
    TrackAdded { mid: M, kind: MediaKind, direction: Direction, payloads: Vec<P> },
    /// A message arrived on a data channel.
    ChannelData { channel: C, data: Vec<u8> },
    /// The peer is gone.
    Disconnected,
    /// The engine reported something that the pump does not act on.
    Other,
    /// The compressor emitted these packets for the frame it was given.
    Compressed { packets: Vec<Vec<u8>> },
    /// The engine took the frame it was given.
    FrameWritten,
    /// A datagram arrived on the socket.
    Received { source: A, destination: A, contents: Vec<u8> },
    /// The wait ended with no datagram.
    Elapsed,
    /// The read on the socket failed.
    ReceiveFailed { error: ReceiveError },
    /// An operation failed.
    Failure { operation: Failure },
}

/// What the driver feeds the engine.
#[derive(Debug, PartialEq, Eq)]
pub enum Input<A> {
    /// Time has passed.
    Timeout,
    /// A datagram arrived.
    Receive { source: A, destination: A, contents: Vec<u8> },
}

/// What the driver is to do next.
#[derive(Debug, PartialEq, Eq)]
pub enum Action<A, M, P, C> {
    /// Nothing; poll the engine again.
    Continue,
    /// Send `contents` to `destination` on the socket, then poll again.
    Send { destination: A, contents: Vec<u8> },
    /// Write `payload` as text to the data channel, then poll again.
    Reply { channel: C, payload: Vec<u8> },
    /// Feed `input` to the engine, then poll again.
    Deliver { input: Input<A> },
    /// Compress the frame and report the packets.
    Compress { pts: i64, planes: Vec<u8> },
    /// Hand the encoded frame to the engine for the track, with the payload
    /// type that the engine matches to `params`, and report that it was
    /// taken.
    WriteFrame { mid: M, params: P, rtp_time: u64, payload: Vec<u8> },
    /// Wait for a datagram for at most `remaining` nanoseconds and report
    /// what came.
    Wait { remaining: u64 },
    /// Release the socket and the engine: the session is over. `failure` is
    /// the reason, unless the peer disconnected.
    Stop { failure: Option<SessionError> },
}

/// [`Input`] with its bytes as a sequence.
pub ghost enum InputView<A> {
    Timeout,
    Receive { source: A, destination: A, contents: Seq<u8> },
}

/// [`Action`] with its bytes as sequences.
pub ghost enum ActionView<A, M, P, C> {
    Continue,
    Send { destination: A, contents: Seq<u8> },
    Reply { channel: C, payload: Seq<u8> },
    Deliver { input: InputView<A> },
    Compress { pts: i64, planes: Seq<u8> },
    WriteFrame { mid: M, params: P, rtp_time: u64, payload: Seq<u8> },
    Wait { remaining: u64 },
    Stop { failure: Option<SessionError> },
}

impl<A> View for Input<A> {
    type V = InputView<A>;

    open spec fn view(&self) -> InputView<A> {
        match *self {
            Input::Timeout => InputView::Timeout,
            Input::Receive { source, destination, contents } => InputView::Receive {
                source,
                destination,
                contents: contents@,
            },
        }
    }
}

impl<A, M, P, C> View for Action<A, M, P, C> {
    type V = ActionView<A, M, P, C>;

    open spec fn view(&self) -> ActionView<A, M, P, C> {
        match *self {
            Action::Continue => ActionView::Continue,
            Action::Send { destination, contents } => ActionView::Send {
                destination,
                contents: contents@,
            },
            Action::Reply { channel, payload } => ActionView::Reply { channel, payload: payload@ },
            Action::Deliver { input } => ActionView::Deliver { input: input@ },
            Action::Compress { pts, planes } => ActionView::Compress { pts, planes: planes@ },
            Action::WriteFrame { mid, params, rtp_time, payload } => ActionView::WriteFrame {
                mid,
                params,
                rtp_time,
                payload: payload@,
            },
            Action::Wait { remaining } => ActionView::Wait { remaining },
            Action::Stop { failure } => ActionView::Stop { failure },
        }
    }
}

/// The state of a pump as the contracts see it.
pub ghost struct PumpView<M, P> {
    /// Where the pump is in its loop.
    pub phase: Phase,
    /// The bound track, if one is bound.
    pub track: Option<Track<M, P>>,
    /// The frame width of the encoding pipeline.
    pub width: u32,
    /// The frame height of the encoding pipeline.
    pub height: u32,
    /// The presentation timestamp of the pipeline's next frame.
    pub pts: i64,
    /// Why the session ended, once it has ended with an error.
    pub failure: Option<SessionError>,
}

/// The reply to any message on a data channel: the text `pong`.
pub open spec fn ack_payload() -> Seq<u8> {
    seq![112u8, 111u8, 110u8, 103u8]
}

/// The error that a failed operation ends the session with.
pub open spec fn error_of(kind: Failure) -> SessionError {
    match kind {
        Failure::Engine => SessionError::Protocol,
        Failure::Socket => SessionError::Transport,
        Failure::Compressor => SessionError::Encoding,
    }
}

/// A read that failed because nothing came in time has not failed the
/// session: it ends the wait as the passing of time does.
pub open spec fn ends_wait(error: ReceiveError) -> bool {
    error == ReceiveError::WouldBlock || error == ReceiveError::TimedOut
}

/// Whether this side sends on a track of this direction.
pub open spec fn sends(direction: Direction) -> bool {
    direction == Direction::SendOnly || direction == Direction::SendRecv
}

/// A track is bound when none is bound yet and the media line is video that
/// this side sends, with at least one acceptable payload. Every other media
/// line is passed over. This is the policy of the pump, not a rule of the
/// protocol: a driver with another policy reports the media lines that it
/// wants bound and holds back the rest.
pub open spec fn binds<M, P>(
    pre: PumpView<M, P>,
    kind: MediaKind,
    direction: Direction,
    payloads: Seq<P>,
) -> bool {
    pre.track is None && kind == MediaKind::Video && sends(direction) && payloads.len() > 0
}

/// A pump that has just been made for `width` by `height` frames.
pub open spec fn initial<M, P>(width: u32, height: u32) -> PumpView<M, P> {
    PumpView { phase: Phase::Polling, track: None, width, height, pts: 0, failure: None }
}

/// The session over, with `failure` as the reason.
pub open spec fn stopped<A, M, P, C>(pre: PumpView<M, P>, failure: Option<SessionError>) -> (
    PumpView<M, P>,
    ActionView<A, M, P, C>,
) {
    (PumpView { phase: Phase::Finished, failure, ..pre }, ActionView::Stop { failure })
}

/// The step from the `Polling` phase.
pub open spec fn step_polling<A, M, P, C>(
    pre: PumpView<M, P>,
    event: Event<A, M, P, C>,
    frame: Seq<u8>,
) -> (PumpView<M, P>, ActionView<A, M, P, C>) {
    match event {
        Event::Timeout { deadline, now } => {
            let left = remaining_spec(deadline, now);
            if left == 0 {
                (pre, ActionView::Deliver { input: InputView::Timeout })
            } else if pre.track is None {
                (PumpView { phase: Phase::Waiting, ..pre }, ActionView::Wait { remaining: left })
            } else if frame_fits(frame.len() as int, pre.width as int, pre.height as int) {
                (
                    PumpView { phase: Phase::Compressing { remaining: left }, ..pre },
                    ActionView::Compress {
                        pts: pre.pts,
                        planes: i420(frame, pre.width as int, pre.height as int),
                    },
                )
            } else {
                stopped(pre, Some(SessionError::Encoding))
            }
        },
        Event::Transmit { destination, contents } => (
            pre,
            ActionView::Send { destination, contents: contents@ },
        ),
        Event::TrackAdded { mid, kind, direction, payloads } => {
            if binds(pre, kind, direction, payloads@) {
                (
                    PumpView {
                        track: Some(Track { mid, params: payloads@[0], accumulated_micros: 0 }),
                        ..pre
                    },
                    ActionView::Continue,
                )
            } else {
                (pre, ActionView::Continue)
            }
        },
        Event::ChannelData { channel, data } => (
            pre,
            ActionView::Reply { channel, payload: ack_payload() },
        ),
        Event::Disconnected => stopped(pre, None),
        Event::Other => (pre, ActionView::Continue),
        _ => stopped(pre, Some(SessionError::Protocol)),
    }
}

/// The step from the `Compressing` phase on the packets of a frame: the
/// packets are joined, the frame takes the track's media time, and both
/// clocks advance by one frame.
pub open spec fn step_compressed<A, M, P, C>(
    pre: PumpView<M, P>,
    remaining: u64,
    packets: Seq<Vec<u8>>,
) -> (PumpView<M, P>, ActionView<A, M, P, C>) {
    match pre.track {
        Some(track) => {
            if track.accumulated_micros + FRAME_DURATION_MICROS <= u64::MAX && pre.pts
                + FRAME_DURATION_MS <= i64::MAX {
                (
                    PumpView {
                        phase: Phase::Writing { remaining },
                        track: Some(
                            Track {
                                accumulated_micros: (track.accumulated_micros
                                    + FRAME_DURATION_MICROS) as u64,
                                ..track
                            },
                        ),
                        pts: (pre.pts + FRAME_DURATION_MS) as i64,
                        ..pre
                    },
                    ActionView::WriteFrame {
                        mid: track.mid,
                        params: track.params,
                        rtp_time: rtp_ticks(track.accumulated_micros) as u64,
                        payload: joined(packet_bytes(packets)),
                    },
                )
            } else {
                stopped(pre, Some(SessionError::Encoding))
            }
        },
        None => stopped(pre, Some(SessionError::Protocol)),
    }
}

/// The pump's transition: the state after `event` and the action it asks
/// for. `frame` is the driver's current pixel buffer; it is read only when a
/// frame is due.
pub open spec fn step_spec<A, M, P, C>(
    pre: PumpView<M, P>,
    event: Event<A, M, P, C>,
    frame: Seq<u8>,
) -> (PumpView<M, P>, ActionView<A, M, P, C>) {
    if pre.phase is Finished {
        (pre, ActionView::Stop { failure: pre.failure })
    } else if let Event::Failure { operation } = event {
        stopped(pre, Some(error_of(operation)))
    } else {
        match pre.phase {
            Phase::Polling => step_polling(pre, event, frame),
            Phase::Compressing { remaining } => match event {
                Event::Compressed { packets } => step_compressed(pre, remaining, packets@),
                _ => stopped(pre, Some(SessionError::Protocol)),
            },
            Phase::Writing { remaining } => match event {
                Event::FrameWritten => (
                    PumpView { phase: Phase::Waiting, ..pre },
                    ActionView::Wait { remaining },
                ),
                _ => stopped(pre, Some(SessionError::Protocol)),
            },
            Phase::Waiting => match event {
                Event::Received { source, destination, contents } => (
                    PumpView { phase: Phase::Polling, ..pre },
                    ActionView::Deliver {
                        input: InputView::Receive { source, destination, contents: contents@ },
                    },
                ),
                Event::Elapsed => (
                    PumpView { phase: Phase::Polling, ..pre },
                    ActionView::Deliver { input: InputView::Timeout },
                ),
                Event::ReceiveFailed { error } => if ends_wait(error) {
                    (
                        PumpView { phase: Phase::Polling, ..pre },
                        ActionView::Deliver { input: InputView::Timeout },
                    )
                } else {
                    stopped(pre, Some(SessionError::Transport))
                },
                _ => stopped(pre, Some(SessionError::Protocol)),
            },
            Phase::Finished => (pre, ActionView::Stop { failure: pre.failure }),
        }
    }
}

/// The pump of one session.
#[derive(Debug)]
pub struct Pump<M, P> {
    phase: Phase,
    track: Option<Track<M, P>>,
    encoder: Encoder,
    failure: Option<SessionError>,
}

impl<M, P> View for Pump<M, P> {
    type V = PumpView<M, P>;

    closed spec fn view(&self) -> PumpView<M, P> {
        PumpView {
            phase: self.phase,
            track: self.track,
            width: self.encoder.spec_width(),
            height: self.encoder.spec_height(),
            pts: self.encoder.spec_pts(),
            failure: self.failure,
        }
    }
}

impl<M: Copy, P: Copy> Pump<M, P> {
    /// Makes the pump of a new session that encodes `width` by `height`
    /// frames. Dimensions that are zero or odd are refused.
    pub fn new(width: u32, height: u32) -> (r: Result<Self, SessionError>)
        ensures
            match r {
                Ok(pump) => valid_dimensions(width, height) && pump@ == initial::<M, P>(
                    width,
                    height,
                ) && pump@.consistent(),
                Err(e) => !valid_dimensions(width, height) && e == SessionError::Encoding,
            },
    {
        match Encoder::new(width, height) {
            Ok(encoder) => Ok(Pump { phase: Phase::Polling, track: None, encoder, failure: None }),
            Err(e) => Err(e),
        }
    }

    /// Where the pump is in its loop.
    pub fn phase(&self) -> (phase: Phase)
        ensures
            phase == self@.phase,
    {
        self.phase
    }

    /// The bound track, if one is bound.
    pub fn track(&self) -> (track: Option<Track<M, P>>)
        ensures
            track == self@.track,
    {
        self.track
    }

    /// The presentation timestamp of the pipeline's next frame.
    pub fn pts(&self) -> (pts: i64)
        ensures
            pts == self@.pts,
    {
        self.encoder.pts()
    }

    /// The configuration that the driver builds the compressor with.
    pub fn compressor_config(&self) -> (config: EncoderConfig)
        ensures
            config == pipeline_config(self@.width, self@.height),
    {
        self.encoder.config()
    }

    /// Why the session ended, once it has ended with an error.
    pub fn failure(&self) -> (failure: Option<SessionError>)
        ensures
            failure == self@.failure,
    {
        self.failure
    }

    /// Whether the session is over.
    pub fn is_finished(&self) -> (done: bool)
        ensures
            done == (self@.phase is Finished),
    {
        match self.phase {
            Phase::Finished => true,
            _ => false,
        }
    }

    /// Ends the session with `failure` as the reason.
    fn stop<A, C>(&mut self, failure: Option<SessionError>) -> (action: Action<A, M, P, C>)
        ensures
            (final(self)@, action@) == stopped::<A, M, P, C>(old(self)@, failure),
    {
        self.phase = Phase::Finished;
        self.failure = failure;
        Action::Stop { failure }
    }

    /// Takes one event and answers with the action to perform next. `frame`
    /// is the driver's current pixel buffer; it is read only when a frame is
    /// due.
    pub fn step<A, C>(&mut self, event: Event<A, M, P, C>, frame: &[u8]) -> (action: Action<
        A,
        M,
        P,
        C,
    >)
        ensures
            (final(self)@, action@) == step_spec(old(self)@, event, frame@),
            old(self)@.consistent() ==> final(self)@.consistent(),
    {
        if let Phase::Finished = self.phase {
            return Action::Stop { failure: self.failure };
        }
        if let Event::Failure { operation } = event {
            let error = match operation {
                Failure::Engine => SessionError::Protocol,
                Failure::Socket => SessionError::Transport,
                Failure::Compressor => SessionError::Encoding,
            };
            return self.stop(Some(error));
        }
        match self.phase {
            Phase::Polling => self.step_polling(event, frame),
            Phase::Compressing { remaining } => match event {
                Event::Compressed { packets } => self.step_compressed(remaining, packets),
                _ => self.stop(Some(SessionError::Protocol)),
            },
            Phase::Writing { remaining } => match event {
                Event::FrameWritten => {
                    self.phase = Phase::Waiting;
                    Action::Wait { remaining }
                },
                _ => self.stop(Some(SessionError::Protocol)),
            },
            Phase::Waiting => match event {
                Event::Received { source, destination, contents } => {
                    self.phase = Phase::Polling;
                    Action::Deliver { input: Input::Receive { source, destination, contents } }
                },
                Event::Elapsed => {
                    self.phase = Phase::Polling;
                    Action::Deliver { input: Input::Timeout }
                },
                Event::ReceiveFailed { error } => match error {
                    ReceiveError::WouldBlock | ReceiveError::TimedOut => {
                        self.phase = Phase::Polling;
                        Action::Deliver { input: Input::Timeout }
                    },
                    ReceiveError::Other => self.stop(Some(SessionError::Transport)),
                },
                _ => self.stop(Some(SessionError::Protocol)),
            },
            Phase::Finished => Action::Stop { failure: self.failure },
        }
    }

    /// Handles the outcome of polling the engine.
    fn step_polling<A, C>(&mut self, event: Event<A, M, P, C>, frame: &[u8]) -> (action: Action<
        A,
        M,
        P,
        C,
    >)
        requires
            old(self)@.phase is Polling,
        ensures
            (final(self)@, action@) == step_polling(old(self)@, event, frame@),
    {
        match event {
            Event::Timeout { deadline, now } => {
                let left: u64 = remaining(deadline, now);
                if left == 0 {
                    Action::Deliver { input: Input::Timeout }
                } else if self.track.is_none() {
                    self.phase = Phase::Waiting;
                    Action::Wait { remaining: left }
                } else {
                    match self.encoder.prepare(frame) {
                        Ok(raw) => {
                            self.phase = Phase::Compressing { remaining: left };
                            Action::Compress { pts: raw.pts, planes: raw.planes }
                        },
                        Err(_) => self.stop(Some(SessionError::Encoding)),
                    }
                }
            },
            Event::Transmit { destination, contents } => Action::Send { destination, contents },
            Event::TrackAdded { mid, kind, direction, payloads } => {
                let video = match kind {
                    MediaKind::Video => true,
                    MediaKind::Audio => false,
                };
                let sending = match direction {
                    Direction::SendOnly => true,
                    Direction::SendRecv => true,
                    Direction::RecvOnly => false,
                    Direction::Inactive => false,
                };
                if self.track.is_none() && video && sending && payloads.len() > 0 {
                    let params: P = payloads[0];
                    self.track = Some(Track { mid, params, accumulated_micros: 0 });
                }
                Action::Continue
            },
            Event::ChannelData { channel, data } => {
                let mut payload: Vec<u8> = Vec::new();
                payload.push(112u8);
                payload.push(111u8);
                payload.push(110u8);
                payload.push(103u8);
                assert(payload@ =~= ack_payload());
                Action::Reply { channel, payload }
            },
            Event::Disconnected => self.stop(None),
            Event::Other => Action::Continue,
            _ => self.stop(Some(SessionError::Protocol)),
        }
    }

    /// Handles the packets that the compressor made of a frame.
    fn step_compressed<A, C>(&mut self, remaining: u64, packets: Vec<Vec<u8>>) -> (action: Action<
        A,
        M,
        P,
        C,
    >)
        ensures
            (final(self)@, action@) == step_compressed::<A, M, P, C>(
                old(self)@,
                remaining,
                packets@,
            ),
    {
        match self.track {
            Some(track) => {
                if track.accumulated_micros > u64::MAX - FRAME_DURATION_MICROS {
                    return self.stop(Some(SessionError::Encoding));
                }
                match self.encoder.finish(&packets, FRAME_DURATION_MS) {
                    Ok(payload) => {
                        let rtp_time: u64 = rtp_timestamp(track.accumulated_micros);
                        self.track = Some(
                            Track {
                                mid: track.mid,
                                params: track.params,
                                accumulated_micros: track.accumulated_micros
                                    + FRAME_DURATION_MICROS,
                            },
                        );
                        self.phase = Phase::Writing { remaining };
                        Action::WriteFrame {
                            mid: track.mid,
                            params: track.params,
                            rtp_time,
                            payload,
                        }
                    },
                    Err(_) => self.stop(Some(SessionError::Encoding)),
                }
            },
            None => self.stop(Some(SessionError::Protocol)),
        }
    }
}

impl<M, P> PumpView<M, P> {
    /// What holds of every state that a pump reaches: the pipeline's frame
    /// size is one that a compressor takes; the track's media time is the
    /// pipeline's timestamp in microseconds; a frame is in flight only for a
    /// bound track and ahead of a wait that is not zero; and only a finished
    /// session has failed.
    pub open spec fn consistent(self) -> bool {
        &&& valid_dimensions(self.width, self.height)
        &&& self.pts >= 0
        &&& match self.track {
            Some(track) => track.accumulated_micros == 1000 * self.pts,
            None => self.pts == 0,
        }
        &&& match self.phase {
            Phase::Compressing { remaining } => remaining > 0 && self.track is Some,
            Phase::Writing { remaining } => remaining > 0 && self.track is Some,
            _ => true,
        }
        &&& (self.failure is Some ==> self.phase is Finished)
    }
}

/// The state that a sequence of events leads to. `frames[i]` is the pixel
/// buffer that the driver holds at the `i`-th event.
pub open spec fn run<A, M, P, C>(
    pre: PumpView<M, P>,
    events: Seq<Event<A, M, P, C>>,
    frames: Seq<Seq<u8>>,
) -> PumpView<M, P>
    decreases events.len(),
{
    if events.len() == 0 {
        pre
    } else {
        step_spec(
            run(pre, events.drop_last(), frames),
            events.last(),
            frames[events.len() - 1],
        ).0
    }
}

/// The action that the `i`-th of a sequence of events is answered with.
pub open spec fn action_at<A, M, P, C>(
    pre: PumpView<M, P>,
    events: Seq<Event<A, M, P, C>>,
    frames: Seq<Seq<u8>>,
    i: int,
) -> ActionView<A, M, P, C> {
    step_spec(run(pre, events.take(i), frames), events[i], frames[i]).1
}

/// A new pump is consistent, waits to poll, has no track, and its
/// timestamp is zero.
pub proof fn lemma_new_pump<M, P>(width: u32, height: u32)
    requires
        valid_dimensions(width, height),
    ensures
        initial::<M, P>(width, height).consistent(),
        initial::<M, P>(width, height).pts == 0,
        initial::<M, P>(width, height).phase is Polling,
        initial::<M, P>(width, height).track is None,
{
}

/// Every step keeps a consistent pump consistent.
pub proof fn lemma_step_keeps_consistent<A, M, P, C>(
    pre: PumpView<M, P>,
    event: Event<A, M, P, C>,
    frame: Seq<u8>,
)
    requires
        pre.consistent(),
    ensures
        step_spec(pre, event, frame).0.consistent(),
{
}

/// The pipeline's timestamp never runs back. A step leaves it as it is or
/// adds the duration of one frame, and it adds that duration exactly in the
/// steps that hand a frame to the engine.
pub proof fn lemma_timestamp_advances_by_frames<A, M, P, C>(
    pre: PumpView<M, P>,
    event: Event<A, M, P, C>,
    frame: Seq<u8>,
)
    ensures
        step_spec(pre, event, frame).0.pts >= pre.pts,
        step_spec(pre, event, frame).1 is WriteFrame ==> step_spec(pre, event, frame).0.pts
            == pre.pts + FRAME_DURATION_MS,
        !(step_spec(pre, event, frame).1 is WriteFrame) ==> step_spec(pre, event, frame).0.pts
            == pre.pts,
        step_spec(pre, event, frame).0.width == pre.width,
        step_spec(pre, event, frame).0.height == pre.height,
{
}

/// Over any sequence of events the pipeline's timestamp does not decrease.
pub proof fn lemma_timestamp_never_runs_back<A, M, P, C>(
    pre: PumpView<M, P>,
    events: Seq<Event<A, M, P, C>>,
    frames: Seq<Seq<u8>>,
)
    ensures
        run(pre, events, frames).pts >= pre.pts,
    decreases events.len(),
{
    if events.len() > 0 {
        lemma_timestamp_never_runs_back(pre, events.drop_last(), frames);
        lemma_timestamp_advances_by_frames(
            run(pre, events.drop_last(), frames),
            events.last(),
            frames[events.len() - 1],
        );
    }
}

/// A deadline that has passed, or is now, is answered at once with a
/// timeout for the engine; the pump does not ask for a wait and does not
/// change.
pub proof fn lemma_expired_deadline_fires_at_once<A, M, P, C>(
    pre: PumpView<M, P>,
    deadline: u64,
    now: u64,
    frame: Seq<u8>,
)
    requires
        pre.phase is Polling,
        deadline <= now,
    ensures
        step_spec::<A, M, P, C>(pre, Event::Timeout { deadline, now }, frame) == (
            pre,
            ActionView::<A, M, P, C>::Deliver { input: InputView::Timeout },
        ),
{
}

/// A consistent pump never asks for a wait of zero. The wait that follows a
/// deadline, with or without a frame in between, is the time that was left
/// to the deadline when the engine was polled.
pub proof fn lemma_wait_is_positive<A, M, P, C>(
    pre: PumpView<M, P>,
    event: Event<A, M, P, C>,
    frame: Seq<u8>,
)
    requires
        pre.consistent(),
    ensures
        step_spec(pre, event, frame).1 matches ActionView::Wait { remaining } ==> remaining > 0,
        step_spec(pre, event, frame).1 matches ActionView::Wait { remaining } ==> (
        event matches Event::Timeout { deadline, now } && remaining == deadline - now) || (
        pre.phase matches Phase::Writing { remaining: left } && remaining == left),
        step_spec(pre, event, frame).0.phase matches Phase::Compressing { remaining }
            ==> remaining > 0,
{
}

/// A finished pump answers every event with `Stop` and does not change.
pub proof fn lemma_finished_is_final<A, M, P, C>(
    pre: PumpView<M, P>,
    event: Event<A, M, P, C>,
    frame: Seq<u8>,
)
    requires
        pre.phase is Finished,
    ensures
        step_spec(pre, event, frame) == (
            pre,
            ActionView::<A, M, P, C>::Stop { failure: pre.failure },
        ),
{
}

/// Once a pump has finished within a sequence of events, it is finished
/// after every longer part of the sequence.
proof fn lemma_finished_stays<A, M, P, C>(
    pre: PumpView<M, P>,
    events: Seq<Event<A, M, P, C>>,
    frames: Seq<Seq<u8>>,
    j: int,
    i: int,
)
    requires
        0 <= j <= i <= events.len(),
        run(pre, events.take(j), frames).phase is Finished,
    ensures
        run(pre, events.take(i), frames).phase is Finished,
    decreases i - j,
{
    if j < i {
        lemma_finished_stays(pre, events, frames, j, i - 1);
        assert(events.take(i).drop_last() =~= events.take(i - 1));
    }
}

/// A disconnect ends the session: the step that takes it answers `Stop`, and
/// so does every step after it. Nothing is sent, written or replied once the
/// peer is gone.
pub proof fn lemma_nothing_follows_disconnect<A, M, P, C>(
    pre: PumpView<M, P>,
    events: Seq<Event<A, M, P, C>>,
    frames: Seq<Seq<u8>>,
    k: int,
)
    requires
        0 <= k < events.len(),
        events[k] is Disconnected,
    ensures
        forall|i: int|
            k <= i < events.len() ==> #[trigger] action_at(pre, events, frames, i) is Stop,
        forall|i: int|
            k < i <= events.len() ==> (#[trigger] run(pre, events.take(i), frames)).phase
                is Finished,
{
    assert(events.take(k + 1).drop_last() =~= events.take(k));
    assert(run(pre, events.take(k + 1), frames).phase is Finished);
    assert forall|i: int| k < i <= events.len() implies (#[trigger] run(
        pre,
        events.take(i),
        frames,
    )).phase is Finished by {
        lemma_finished_stays(pre, events, frames, k + 1, i);
    }
    assert forall|i: int| k <= i < events.len() implies #[trigger] action_at(
        pre,
        events,
        frames,
        i,
    ) is Stop by {
        if i > k {
            lemma_finished_stays(pre, events, frames, k + 1, i);
        }
    }
}

/// One frame is in flight at a time. A frame goes to the compressor only
/// from the `Polling` phase, and the only way back to that phase leads
/// through the frame being written and the wait: the next frame is not
/// produced before the last one was handed to the engine.
pub proof fn lemma_one_frame_at_a_time<A, M, P, C>(
    pre: PumpView<M, P>,
    event: Event<A, M, P, C>,
    frame: Seq<u8>,
)
    ensures
        step_spec(pre, event, frame).1 is Compress ==> pre.phase is Polling && step_spec(
            pre,
            event,
            frame,
        ).0.phase is Compressing,
        pre.phase is Compressing ==> step_spec(pre, event, frame).0.phase is Writing
            || step_spec(pre, event, frame).0.phase is Finished,
        pre.phase is Writing ==> step_spec(pre, event, frame).0.phase is Waiting || step_spec(
            pre,
            event,
            frame,
        ).0.phase is Finished,
        step_spec(pre, event, frame).1 is WriteFrame ==> pre.phase is Compressing,
        step_spec(pre, event, frame).1 is Wait ==> step_spec(pre, event, frame).0.phase
            is Waiting,
        step_spec(pre, event, frame).0.phase is Waiting ==> step_spec(pre, event, frame).1
            is Wait,
{
}

/// A track is bound once. Whatever happens to a pump with a track, it keeps
/// that track, with its identifier and its payload parameters, and the
/// track's media time does not run back.
pub proof fn lemma_track_is_bound_once<A, M, P, C>(
    pre: PumpView<M, P>,
    event: Event<A, M, P, C>,
    frame: Seq<u8>,
)
    requires
        pre.track is Some,
    ensures
        step_spec(pre, event, frame).0.track matches Some(track) && track.mid
            == pre.track->Some_0.mid && track.params == pre.track->Some_0.params
            && track.accumulated_micros >= pre.track->Some_0.accumulated_micros,
{
}

/// Frames are written to the bound track in order and ten milliseconds
/// apart: the frame that a consistent pump hands to the engine is the one
/// that was with the compressor, and its timestamp is ninety ticks of the
/// media clock for every millisecond of the pipeline's timestamp.
pub proof fn lemma_frame_timestamp<A, M, P, C>(
    pre: PumpView<M, P>,
    event: Event<A, M, P, C>,
    frame: Seq<u8>,
)
    requires
        pre.consistent(),
    ensures
        step_spec(pre, event, frame).1 matches ActionView::WriteFrame {
            mid,
            params,
            rtp_time,
            payload,
        } ==> {
            &&& pre.phase is Compressing
            &&& event matches Event::Compressed { packets }
            &&& payload == joined(packet_bytes(packets@))
            &&& rtp_time == 90 * pre.pts
            &&& pre.track matches Some(track)
            &&& mid == track.mid
            &&& params == track.params
        },
{
    if step_spec(pre, event, frame).1 is WriteFrame {
        let micros = pre.track->Some_0.accumulated_micros;
        assert(micros as int * 90_000 / 1_000_000 == 90 * pre.pts) by (nonlinear_arith)
            requires
                micros == 1000 * pre.pts,
        ;
    }
}

} // verus!
