//! The session factory: what it takes to turn an offer into a running
//! session and an answer.
//!
//! The factory is a state machine like the pump. [`Factory::accept`] parses
//! the offer and names the first thing to do; the driver does it and reports
//! with a [`SetupEvent`], and [`Factory::step`] names the next. Nothing is
//! built or bound for an offer that does not parse, and the pump is started
//! only once the answer exists.
//!
//! A session's transport is the driver's or the engine's (see
//! [`Transport`]). Where it is the driver's, the factory has a socket bound
//! and a reachable address of the host advertised before the offer is
//! applied. Where it is the engine's, the offer is applied as soon as the
//! engine is built.
//!
//! The factory is generic over the parsed offer (`O`), which it keeps for
//! the engine and never reads.
use crate::error::SessionError;
use crate::hostaddr::{first_usable, select_host_address, InterfaceAddress, Ipv4Address};
use vstd::prelude::*;

verus! {

/// `str0m::change::SdpOffer`: a parsed offer. The library carries it from
/// the parser to the engine and never looks inside.
#[verifier::external_type_specification]
#[verifier::external_body]
pub struct ExSdpOffer(str0m::change::SdpOffer);

/// `str0m::error::SdpError`: why an offer did not parse. The library reads
/// nothing of it.
#[verifier::external_type_specification]
#[verifier::external_body]
pub struct ExSdpError(str0m::error::SdpError);

/// Whether the negotiation engine's parser takes `text` as a session
/// description.
pub uninterp spec fn offer_parses(text: Seq<char>) -> bool;

/// `str0m::change::SdpOffer::from_sdp_string`: parses a session description.
/// The outcome depends on the text alone; the contract names whether it
/// parses and claims nothing of what the offer holds.
#[verifier::external_body]
fn parse_sdp_offer(text: &str) -> (parsed: Result<
    str0m::change::SdpOffer,
    str0m::error::SdpError,
>)
    ensures
        parsed is Ok <==> offer_parses(text@),
{
    str0m::change::SdpOffer::from_sdp_string(text)
}

/// Who owns the transport of a session.
#[derive(Clone, Copy, Debug, PartialEq, Eq, Structural)]
pub enum Transport {
    /// The driver binds a socket and advertises an address of the host.
    Driver,
    /// The engine has sockets and candidates of its own.
    Engine,
}

/// What the driver reports to the factory.
#[derive(Debug, PartialEq, Eq)]
pub enum SetupEvent {
    /// The engine is built.
    EngineBuilt,
    /// The socket is bound to local port `port`.
    SocketBound { port: u16 },
    /// The addresses of the host's network interfaces, in the order the host
    /// lists them.
    Addresses { addresses: Vec<InterfaceAddress> },
    /// The engine took the candidate.
    CandidateAdded,
    /// The engine accepted the offer; `answer` is its answer as text.
    Answered { answer: String },
    /// The pump runs in the background.
    PumpStarted,
    /// The last action failed.
    Failed,
}

/// What the driver is to do next.
#[derive(Debug, PartialEq, Eq)]
pub enum SetupAction<O> {
    /// Build a fresh engine that accepts the one video codec family.
    BuildEngine,
    /// Bind a fresh socket to an ephemeral local port.
    BindSocket,
    /// Read the addresses of the host's network interfaces.
    ListAddresses,
    /// Advertise `host` and `port` to the peer as a host candidate.
    AddCandidate { host: Ipv4Address, port: u16 },
    /// Apply the offer to the engine.
    AcceptOffer { offer: O },
    /// Hand engine and socket to a pump that runs in the background.
    StartPump,
    /// Return `answer` to whoever sent the offer.
    Respond { answer: String },
    /// Return `error` to whoever sent the offer and drop what was built.
    Fail { error: SessionError },
    /// Nothing: the factory is done.
    Nothing,
}

/// The stages of setting up one session.
#[derive(Debug, PartialEq, Eq)]
pub enum Factory<O> {
    /// The offer parsed; the engine is being built.
    Building { offer: O, transport: Transport },
    /// The socket is being bound.
    Binding { offer: O },
    /// The socket is bound to `port`; the host's addresses are being read.
    Locating { offer: O, port: u16 },
    /// The candidate is being added to the engine.
    Advertising { offer: O },
    /// The engine is working out its answer.
    Answering,
    /// The answer exists; the pump is being started.
    Starting { answer: String },
    /// The session runs and the answer is on its way.
    Done,
    /// No session was made.
    Failed { error: SessionError },
}

/// No session, and the action that says so.
pub open spec fn failed<O>(error: SessionError) -> (Factory<O>, SetupAction<O>) {
    (Factory::Failed { error }, SetupAction::Fail { error })
}

/// The error that a failed action of this stage means.
pub open spec fn stage_error<O>(stage: Factory<O>) -> SessionError {
    match stage {
        Factory::Building { .. } => SessionError::Protocol,
        Factory::Binding { .. } => SessionError::Transport,
        Factory::Locating { .. } => SessionError::Configuration,
        Factory::Advertising { .. } => SessionError::Configuration,
        Factory::Answering => SessionError::Negotiation,
        Factory::Starting { .. } => SessionError::Protocol,
        Factory::Done => SessionError::Protocol,
        Factory::Failed { error } => error,
    }
}

/// The first stage, given the outcome of parsing the offer: a malformed
/// offer is refused before anything is built.
pub open spec fn start_spec<O, E>(parsed: Result<O, E>, transport: Transport) -> (
    Factory<O>,
    SetupAction<O>,
) {
    match parsed {
        Ok(offer) => (Factory::Building { offer, transport }, SetupAction::BuildEngine),
        Err(_) => failed(SessionError::Negotiation),
    }
}

/// The factory's transition: the stage after `event` and the action it asks
/// for.
pub open spec fn step_spec<O>(stage: Factory<O>, event: SetupEvent) -> (
    Factory<O>,
    SetupAction<O>,
) {
    match stage {
        Factory::Done => (Factory::Done, SetupAction::Nothing),
        Factory::Failed { error } => failed(error),
        _ => match (stage, event) {
            (_, SetupEvent::Failed) => failed(stage_error(stage)),
            (Factory::Building { offer, transport }, SetupEvent::EngineBuilt) => match transport {
                Transport::Driver => (Factory::Binding { offer }, SetupAction::BindSocket),
                Transport::Engine => (Factory::Answering, SetupAction::AcceptOffer { offer }),
            },
            (Factory::Binding { offer }, SetupEvent::SocketBound { port }) => (
                Factory::Locating { offer, port },
                SetupAction::ListAddresses,
            ),
            (Factory::Locating { offer, port }, SetupEvent::Addresses { addresses }) => {
                match first_usable(addresses@) {
                    Some(host) => (
                        Factory::Advertising { offer },
                        SetupAction::AddCandidate { host, port },
                    ),
                    None => failed(SessionError::Configuration),
                }
            },
            (Factory::Advertising { offer }, SetupEvent::CandidateAdded) => (
                Factory::Answering,
                SetupAction::AcceptOffer { offer },
            ),
            (Factory::Answering, SetupEvent::Answered { answer }) => (
                Factory::Starting { answer },
                SetupAction::StartPump,
            ),
            (Factory::Starting { answer }, SetupEvent::PumpStarted) => (
                Factory::Done,
                SetupAction::Respond { answer },
            ),
            _ => failed(SessionError::Protocol),
        },
    }
}

impl Factory<str0m::change::SdpOffer> {
    /// Takes an offer as text, for a session whose transport is the
    /// driver's. An offer that parses starts the set-up of a session; a
    /// malformed offer ends it at once with a negotiation error.
    pub fn accept(offer_text: &str) -> (next: (
        Factory<str0m::change::SdpOffer>,
        SetupAction<str0m::change::SdpOffer>,
    ))
        ensures
            exists|parsed: Result<str0m::change::SdpOffer, str0m::error::SdpError>|
                next == #[trigger] start_spec(parsed, Transport::Driver) && (parsed is Ok
                    <==> offer_parses(offer_text@)),
            offer_parses(offer_text@) ==> next.0 is Building && next.1 is BuildEngine,
            !offer_parses(offer_text@) ==> next == failed::<str0m::change::SdpOffer>(
                SessionError::Negotiation,
            ),
    {
        let parsed = parse_sdp_offer(offer_text);
        let next = Factory::start(parsed, Transport::Driver);
        assert(next == start_spec(parsed, Transport::Driver));
        next
    }
}

impl<O> Factory<O> {
    /// Whether a session was made.
    pub fn is_done(&self) -> (done: bool)
        ensures
            done == (*self is Done),
    {
        match self {
            Factory::Done => true,
            _ => false,
        }
    }

    /// Why no session was made, if none was.
    pub fn error(&self) -> (error: Option<SessionError>)
        ensures
            error == (match *self {
                Factory::Failed { error } => Some(error),
                _ => None,
            }),
    {
        match self {
            Factory::Failed { error } => Some(*error),
            _ => None,
        }
    }

    /// Starts the set-up with the outcome of parsing the offer.
    pub fn start<E>(parsed: Result<O, E>, transport: Transport) -> (next: (
        Factory<O>,
        SetupAction<O>,
    ))
        ensures
            next == start_spec(parsed, transport),
    {
        match parsed {
            Ok(offer) => (Factory::Building { offer, transport }, SetupAction::BuildEngine),
            Err(_) => Factory::fail(SessionError::Negotiation),
        }
    }

    /// No session: the stage and the action for `error`.
    fn fail(error: SessionError) -> (next: (Factory<O>, SetupAction<O>))
        ensures
            next == failed::<O>(error),
    {
        (Factory::Failed { error }, SetupAction::Fail { error })
    }

    /// Takes the report of the last action and answers with the next one.
    pub fn step(self, event: SetupEvent) -> (next: (Factory<O>, SetupAction<O>))
        ensures
            next == step_spec(self, event),
    {
        match self {
            Factory::Done => (Factory::Done, SetupAction::Nothing),
            Factory::Failed { error } => Factory::fail(error),
            Factory::Building { offer, transport } => match event {
                SetupEvent::Failed => Factory::fail(SessionError::Protocol),
                SetupEvent::EngineBuilt => match transport {
                    Transport::Driver => (Factory::Binding { offer }, SetupAction::BindSocket),
                    Transport::Engine => (
                        Factory::Answering,
                        SetupAction::AcceptOffer { offer },
                    ),
                },
                _ => Factory::fail(SessionError::Protocol),
            },
            Factory::Binding { offer } => match event {
                SetupEvent::Failed => Factory::fail(SessionError::Transport),
                SetupEvent::SocketBound { port } => (
                    Factory::Locating { offer, port },
                    SetupAction::ListAddresses,
                ),
                _ => Factory::fail(SessionError::Protocol),
            },
            Factory::Locating { offer, port } => match event {
                SetupEvent::Failed => Factory::fail(SessionError::Configuration),
                SetupEvent::Addresses { addresses } => match select_host_address(&addresses) {
                    Ok(host) => (
                        Factory::Advertising { offer },
                        SetupAction::AddCandidate { host, port },
                    ),
                    Err(error) => Factory::fail(error),
                },
                _ => Factory::fail(SessionError::Protocol),
            },
            Factory::Advertising { offer } => match event {
                SetupEvent::Failed => Factory::fail(SessionError::Configuration),
                SetupEvent::CandidateAdded => (
                    Factory::Answering,
                    SetupAction::AcceptOffer { offer },
                ),
                _ => Factory::fail(SessionError::Protocol),
            },
            Factory::Answering => match event {
                SetupEvent::Failed => Factory::fail(SessionError::Negotiation),
                SetupEvent::Answered { answer } => (
                    Factory::Starting { answer },
                    SetupAction::StartPump,
                ),
                _ => Factory::fail(SessionError::Protocol),
            },
            Factory::Starting { answer } => match event {
                SetupEvent::Failed => Factory::fail(SessionError::Protocol),
                SetupEvent::PumpStarted => (Factory::Done, SetupAction::Respond { answer }),
                _ => Factory::fail(SessionError::Protocol),
            },
        }
    }
}

/// The stage that a sequence of reports leads to.
pub open spec fn run<O>(stage: Factory<O>, events: Seq<SetupEvent>) -> Factory<O>
    decreases events.len(),
{
    if events.len() == 0 {
        stage
    } else {
        step_spec(run(stage, events.drop_last()), events.last()).0
    }
}

/// The action that the `i`-th of a sequence of reports is answered with.
pub open spec fn action_at<O>(stage: Factory<O>, events: Seq<SetupEvent>, i: int) -> SetupAction<
    O,
> {
    step_spec(run(stage, events.take(i)), events[i]).1
}

/// A malformed offer makes no session and has no effect: the factory fails
/// with a negotiation error at once, and whatever is reported to it
/// afterwards, it asks for nothing to be built, bound or started and stays
/// failed with that error.
pub proof fn lemma_malformed_offer_has_no_effect<O, E>(
    parsed: Result<O, E>,
    transport: Transport,
    events: Seq<SetupEvent>,
)
    requires
        parsed is Err,
    ensures
        start_spec(parsed, transport) == failed::<O>(SessionError::Negotiation),
        run(start_spec(parsed, transport).0, events) == (Factory::<O>::Failed {
            error: SessionError::Negotiation,
        }),
        forall|i: int|
            0 <= i < events.len() ==> #[trigger] action_at(
                start_spec(parsed, transport).0,
                events,
                i,
            ) == (SetupAction::<O>::Fail { error: SessionError::Negotiation }),
{
    let stage = start_spec(parsed, transport).0;
    lemma_failed_is_final::<O>(SessionError::Negotiation, events);
    assert forall|i: int| 0 <= i < events.len() implies #[trigger] action_at(stage, events, i) == (
    SetupAction::<O>::Fail { error: SessionError::Negotiation }) by {
        lemma_failed_is_final::<O>(SessionError::Negotiation, events.take(i));
    }
}

/// A failed factory stays failed with the same error.
pub proof fn lemma_failed_is_final<O>(error: SessionError, events: Seq<SetupEvent>)
    ensures
        run(Factory::<O>::Failed { error }, events) == (Factory::<O>::Failed { error }),
    decreases events.len(),
{
    if events.len() > 0 {
        lemma_failed_is_final::<O>(error, events.drop_last());
    }
}

/// Set-up goes in one order. The engine is built only on accepting an offer
/// and never by a later step; the socket is bound only once the engine is
/// built; the offer is applied only once the engine is built and, where the
/// transport is the driver's, a candidate is added; the pump is started only
/// by the step that takes the engine's answer; and the answer is released
/// only once the pump has started.
pub proof fn lemma_setup_order<O>(stage: Factory<O>, event: SetupEvent)
    ensures
        !(step_spec(stage, event).1 is BuildEngine),
        step_spec(stage, event).1 is BindSocket ==> stage is Building && event is EngineBuilt,
        step_spec(stage, event).1 is AcceptOffer ==> (stage is Advertising
            && event is CandidateAdded) || (stage is Building && event is EngineBuilt),
        step_spec(stage, event).1 is StartPump ==> stage is Answering && event is Answered,
        step_spec(stage, event).1 is Respond ==> stage is Starting && event is PumpStarted,
{
}

} // verus!
