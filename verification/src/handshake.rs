//! The handshake with the signalling server, from the connection to the running session.

use vstd::prelude::*;

use crate::error::{AgentError, AgentErrorView};
use crate::launch::Args;
use crate::message::{debug_text, message_debug, WsMessage, WsMessageView};
use crate::text::{append_decimal, decimal, lemma_decimal_injective, same};

verus! {

/// How far the handshake has come.
#[derive(Clone, Copy, Debug, PartialEq, Eq, Structural)]
pub enum Phase {
    Connecting,
    SendingHello,
    AwaitingHello,
    SendingSession,
    AwaitingSession,
    Running,
    Failed,
}

/// What comes back from the last action of the handshake.
#[derive(Debug, PartialEq, Eq)]
pub enum HandshakeEvent {
    /// The connection is there.
    Connected,
    /// The message is sent.
    Sent,
    /// The server has sent this message.
    Received(WsMessage),
    /// The server will send nothing more.
    Ended,
    /// The connection failed, with this text.
    Failed(String),
}

/// What is to be done next.
#[derive(Debug, PartialEq, Eq)]
pub enum HandshakeAction {
    /// Connect to this address.
    Connect(String),
    /// Send this message.
    Send(WsMessage),
    /// Wait for a message of the server.
    Receive,
    /// The agent has its place: run the session.
    Run,
    /// Give up.
    Fail(AgentError),
}

/// What a `HandshakeEvent` says.
pub enum HandshakeEventView {
    Connected,
    Sent,
    Received(WsMessageView),
    Ended,
    Failed(Seq<char>),
}

/// What a `HandshakeAction` says.
pub enum HandshakeActionView {
    Connect(Seq<char>),
    Send(WsMessageView),
    Receive,
    Run,
    Fail(AgentErrorView),
}

impl View for HandshakeEvent {
    type V = HandshakeEventView;

    open spec fn view(&self) -> HandshakeEventView {
        match self {
            HandshakeEvent::Connected => HandshakeEventView::Connected,
            HandshakeEvent::Sent => HandshakeEventView::Sent,
            HandshakeEvent::Received(message) => HandshakeEventView::Received(message@),
            HandshakeEvent::Ended => HandshakeEventView::Ended,
            HandshakeEvent::Failed(text) => HandshakeEventView::Failed(text@),
        }
    }
}

impl View for HandshakeAction {
    type V = HandshakeActionView;

    open spec fn view(&self) -> HandshakeActionView {
        match self {
            HandshakeAction::Connect(server) => HandshakeActionView::Connect(server@),
            HandshakeAction::Send(message) => HandshakeActionView::Send(message@),
            HandshakeAction::Receive => HandshakeActionView::Receive,
            HandshakeAction::Run => HandshakeActionView::Run,
            HandshakeAction::Fail(error) => HandshakeActionView::Fail(error@),
        }
    }
}

/// The registration of the agent with this number.
pub open spec fn hello(our_id: u32) -> WsMessageView {
    WsMessageView::Text("HELLO "@ + decimal(our_id as nat))
}

/// The request to join the session of this peer.
pub open spec fn session(peer_id: u32) -> WsMessageView {
    WsMessageView::Text("SESSION "@ + decimal(peer_id as nat))
}

/// The reply that confirms a registration.
pub open spec fn hello_reply() -> WsMessageView {
    WsMessageView::Text("HELLO"@)
}

/// The reply that confirms that a session was joined.
pub open spec fn session_reply() -> WsMessageView {
    WsMessageView::Text("SESSION_OK"@)
}

/// Whether an event can come back from the action that led into a phase.
pub open spec fn expected(phase: Phase, event: HandshakeEventView) -> bool {
    match event {
        HandshakeEventView::Connected => phase == Phase::Connecting,
        HandshakeEventView::Sent => phase == Phase::SendingHello || phase == Phase::SendingSession,
        HandshakeEventView::Received(_) | HandshakeEventView::Ended => {
            phase == Phase::AwaitingHello || phase == Phase::AwaitingSession
        },
        HandshakeEventView::Failed(_) => phase != Phase::Running && phase != Phase::Failed,
    }
}

/// Giving up with an error.
pub open spec fn failing(error: AgentErrorView) -> (Phase, HandshakeActionView) {
    (Phase::Failed, HandshakeActionView::Fail(error))
}

/// The handshake of agent `our_id` with the optional peer `peer_id`: where an event leads from
/// a phase, and what is to be done there.
pub open spec fn handshake_step(
    our_id: u32,
    peer_id: Option<u32>,
    phase: Phase,
    event: HandshakeEventView,
) -> (Phase, HandshakeActionView)
    recommends
        expected(phase, event),
{
    match event {
        HandshakeEventView::Connected => {
            (Phase::SendingHello, HandshakeActionView::Send(hello(our_id)))
        },
        HandshakeEventView::Sent => if phase == Phase::SendingHello {
            (Phase::AwaitingHello, HandshakeActionView::Receive)
        } else {
            (Phase::AwaitingSession, HandshakeActionView::Receive)
        },
        HandshakeEventView::Received(message) => if phase == Phase::AwaitingHello {
            if message != hello_reply() {
                failing(AgentErrorView::NoHello)
            } else if let Some(peer) = peer_id {
                (Phase::SendingSession, HandshakeActionView::Send(session(peer)))
            } else {
                (Phase::Running, HandshakeActionView::Run)
            }
        } else if message != session_reply() {
            failing(AgentErrorView::ServerError(message_debug(message)))
        } else {
            (Phase::Running, HandshakeActionView::Run)
        },
        HandshakeEventView::Ended => failing(AgentErrorView::NothingReceived),
        HandshakeEventView::Failed(text) => failing(AgentErrorView::Connection(text)),
    }
}

/// The number of an agent in a request of this kind.
fn numbered(request: &str, id: u32) -> (result: WsMessage)
    ensures
        result@ == WsMessageView::Text(request@ + decimal(id as nat)),
{
    let mut text = request.to_string();
    append_decimal(&mut text, id);
    WsMessage::Text(text)
}

/// Whether a message is this text.
fn says(message: &WsMessage, text: &str) -> (result: bool)
    ensures
        result == (message@ == WsMessageView::Text(text@)),
{
    match message {
        WsMessage::Text(content) => same(content.as_str(), text),
        _ => false,
    }
}

/// Checks the reply of the server to the registration.
pub fn check_hello(message: &WsMessage) -> (result: Result<(), AgentError>)
    ensures
        result is Ok <==> message@ == hello_reply(),
        result matches Err(error) ==> error@ == AgentErrorView::NoHello,
{
    if says(message, "HELLO") {
        Ok(())
    } else {
        Err(AgentError::NoHello)
    }
}

/// Checks the reply of the server to the request to join a session. A refusal is reported with
/// the text that shows the reply.
pub fn check_session(message: &WsMessage) -> (result: Result<(), AgentError>)
    ensures
        result is Ok <==> message@ == session_reply(),
        result matches Err(error) ==> error@ == AgentErrorView::ServerError(
            message_debug(message@),
        ),
{
    if says(message, "SESSION_OK") {
        Ok(())
    } else {
        Err(AgentError::ServerError(debug_text(message)))
    }
}

/// The handshake of one agent.
#[derive(Debug, PartialEq, Eq)]
pub struct Handshake {
    pub our_id: u32,
    pub peer_id: Option<u32>,
    pub phase: Phase,
}

impl Handshake {
    /// The handshake of an agent with these arguments, under the number that it was given or
    /// that is drawn for it.
    pub fn new(args: &Args) -> (result: (Handshake, HandshakeAction))
        ensures
            args.agent_id matches Some(id) ==> result.0.our_id == id,
            args.agent_id is None ==> 10 <= result.0.our_id < 10_000,
            result.0.peer_id == args.peer_id,
            result.0.phase == Phase::Connecting,
            result.1@ == HandshakeActionView::Connect(args.server@),
    {
        Handshake::with_id(args, args.registration_id())
    }

    /// The handshake of an agent with these arguments, under this number.
    pub fn with_id(args: &Args, our_id: u32) -> (result: (Handshake, HandshakeAction))
        ensures
            result.0 == (Handshake { our_id, peer_id: args.peer_id, phase: Phase::Connecting }),
            result.1@ == HandshakeActionView::Connect(args.server@),
    {
        (
            Handshake { our_id, peer_id: args.peer_id, phase: Phase::Connecting },
            HandshakeAction::Connect(args.server.clone()),
        )
    }

    /// Whether this event can come back from the last action.
    pub fn expects(&self, event: &HandshakeEvent) -> (result: bool)
        ensures
            result == expected(self.phase, event@),
    {
        match event {
            HandshakeEvent::Connected => self.phase == Phase::Connecting,
            HandshakeEvent::Sent => self.phase == Phase::SendingHello || self.phase
                == Phase::SendingSession,
            HandshakeEvent::Received(_) => self.phase == Phase::AwaitingHello || self.phase
                == Phase::AwaitingSession,
            HandshakeEvent::Ended => self.phase == Phase::AwaitingHello || self.phase
                == Phase::AwaitingSession,
            HandshakeEvent::Failed(_) => self.phase != Phase::Running && self.phase
                != Phase::Failed,
        }
    }

    /// Takes what came back from the last action and says what is to be done next.
    pub fn step(&mut self, event: HandshakeEvent) -> (result: HandshakeAction)
        requires
            expected(old(self).phase, event@),
        ensures
            final(self).our_id == old(self).our_id,
            final(self).peer_id == old(self).peer_id,
            (final(self).phase, result@) == handshake_step(
                old(self).our_id,
                old(self).peer_id,
                old(self).phase,
                event@,
            ),
    {
        match event {
            HandshakeEvent::Connected => {
                self.phase = Phase::SendingHello;
                HandshakeAction::Send(numbered("HELLO ", self.our_id))
            },
            HandshakeEvent::Sent => {
                if self.phase == Phase::SendingHello {
                    self.phase = Phase::AwaitingHello;
                } else {
                    self.phase = Phase::AwaitingSession;
                }
                HandshakeAction::Receive
            },
            HandshakeEvent::Received(message) => {
                let awaiting_hello = self.phase == Phase::AwaitingHello;
                let checked = if awaiting_hello {
                    check_hello(&message)
                } else {
                    check_session(&message)
                };
                match checked {
                    Err(error) => {
                        self.phase = Phase::Failed;
                        HandshakeAction::Fail(error)
                    },
                    Ok(()) => match self.peer_id {
                        Some(peer_id) if awaiting_hello => {
                            self.phase = Phase::SendingSession;
                            HandshakeAction::Send(numbered("SESSION ", peer_id))
                        },
                        _ => {
                            self.phase = Phase::Running;
                            HandshakeAction::Run
                        },
                    },
                }
            },
            HandshakeEvent::Ended => {
                self.phase = Phase::Failed;
                HandshakeAction::Fail(AgentError::NothingReceived)
            },
            HandshakeEvent::Failed(text) => {
                self.phase = Phase::Failed;
                HandshakeAction::Fail(AgentError::Connection(text))
            },
        }
    }
}

/// What events and actions say is what they hold.
pub proof fn handshake_views_keep_the_fields(event: HandshakeEvent, action: HandshakeAction)
    ensures
        event is Connected ==> event@ == HandshakeEventView::Connected,
        event is Sent ==> event@ == HandshakeEventView::Sent,
        event matches HandshakeEvent::Received(message) ==> event@ == HandshakeEventView::Received(
            message@,
        ),
        event is Ended ==> event@ == HandshakeEventView::Ended,
        event matches HandshakeEvent::Failed(text) ==> event@ == HandshakeEventView::Failed(text@),
        action matches HandshakeAction::Connect(server) ==> action@ == HandshakeActionView::Connect(
            server@,
        ),
        action matches HandshakeAction::Send(message) ==> action@ == HandshakeActionView::Send(
            message@,
        ),
        action is Receive ==> action@ == HandshakeActionView::Receive,
        action is Run ==> action@ == HandshakeActionView::Run,
        action matches HandshakeAction::Fail(error) ==> action@ == HandshakeActionView::Fail(
            error@,
        ),
{
}

/// Each phase waits for the outcome of one action: a connection, a message sent or a reply. Any
/// of them can fail, and none comes once the handshake has ended.
pub proof fn each_phase_waits_for_one_outcome(message: WsMessageView, text: Seq<char>)
    ensures
        forall|phase: Phase|
            #[trigger] expected(phase, HandshakeEventView::Connected) <==> phase
                == Phase::Connecting,
        forall|phase: Phase|
            #[trigger] expected(phase, HandshakeEventView::Sent) <==> (phase == Phase::SendingHello
                || phase == Phase::SendingSession),
        forall|phase: Phase|
            #[trigger] expected(phase, HandshakeEventView::Received(message)) <==> (phase
                == Phase::AwaitingHello || phase == Phase::AwaitingSession),
        forall|phase: Phase|
            #[trigger] expected(phase, HandshakeEventView::Ended) <==> (phase
                == Phase::AwaitingHello || phase == Phase::AwaitingSession),
        forall|phase: Phase|
            #[trigger] expected(phase, HandshakeEventView::Failed(text)) <==> (phase
                != Phase::Running && phase != Phase::Failed),
{
}

/// A connected agent registers under its number and waits for the reply. A greeting lets it ask
/// for the session of the peer that it is to join, and wait for the reply, or run at once where
/// there is none; a confirmation lets it run.
pub proof fn handshake_goes_on_with_the_right_replies(our_id: u32, peer: u32, phase: Phase)
    ensures
        handshake_step(our_id, Some(peer), phase, HandshakeEventView::Connected) == (
            Phase::SendingHello,
            HandshakeActionView::Send(
                WsMessageView::Text("HELLO "@ + decimal(our_id as nat)),
            ),
        ),
        handshake_step(our_id, None, phase, HandshakeEventView::Connected) == (
            Phase::SendingHello,
            HandshakeActionView::Send(
                WsMessageView::Text("HELLO "@ + decimal(our_id as nat)),
            ),
        ),
        forall|peer_id: Option<u32>|
            #[trigger] handshake_step(
                our_id,
                peer_id,
                Phase::SendingHello,
                HandshakeEventView::Sent,
            ) == (Phase::AwaitingHello, HandshakeActionView::Receive),
        forall|peer_id: Option<u32>|
            #[trigger] handshake_step(
                our_id,
                peer_id,
                Phase::SendingSession,
                HandshakeEventView::Sent,
            ) == (Phase::AwaitingSession, HandshakeActionView::Receive),
        handshake_step(
            our_id,
            Some(peer),
            Phase::AwaitingHello,
            HandshakeEventView::Received(WsMessageView::Text("HELLO"@)),
        ) == (
            Phase::SendingSession,
            HandshakeActionView::Send(WsMessageView::Text("SESSION "@ + decimal(peer as nat))),
        ),
        handshake_step(
            our_id,
            None,
            Phase::AwaitingHello,
            HandshakeEventView::Received(WsMessageView::Text("HELLO"@)),
        ) == (Phase::Running, HandshakeActionView::Run),
        forall|peer_id: Option<u32>|
            #[trigger] handshake_step(
                our_id,
                peer_id,
                Phase::AwaitingSession,
                HandshakeEventView::Received(WsMessageView::Text("SESSION_OK"@)),
            ) == (Phase::Running, HandshakeActionView::Run),
        hello_reply() == WsMessageView::Text("HELLO"@),
        session_reply() == WsMessageView::Text("SESSION_OK"@),
{
}

/// Any other reply, the end of the connection and its failure end the handshake with the error
/// that says so, whatever the phase and the peer.
pub proof fn handshake_fails_on_anything_else(
    our_id: u32,
    peer_id: Option<u32>,
    phase: Phase,
    message: WsMessageView,
    text: Seq<char>,
)
    ensures
        message != WsMessageView::Text("HELLO"@) ==> handshake_step(
            our_id,
            peer_id,
            Phase::AwaitingHello,
            HandshakeEventView::Received(message),
        ) == (Phase::Failed, HandshakeActionView::Fail(AgentErrorView::NoHello)),
        message != WsMessageView::Text("SESSION_OK"@) ==> handshake_step(
            our_id,
            peer_id,
            Phase::AwaitingSession,
            HandshakeEventView::Received(message),
        ) == (
            Phase::Failed,
            HandshakeActionView::Fail(AgentErrorView::ServerError(message_debug(message))),
        ),
        handshake_step(our_id, peer_id, phase, HandshakeEventView::Ended) == (
            Phase::Failed,
            HandshakeActionView::Fail(AgentErrorView::NothingReceived),
        ),
        handshake_step(our_id, peer_id, phase, HandshakeEventView::Failed(text)) == (
            Phase::Failed,
            HandshakeActionView::Fail(AgentErrorView::Connection(text)),
        ),
{
}

/// A course of events: each can come back from the action before it.
pub open spec fn is_course(
    our_id: u32,
    peer_id: Option<u32>,
    events: Seq<HandshakeEventView>,
) -> bool
    decreases events.len(),
{
    events.len() == 0 || {
        &&& is_course(our_id, peer_id, events.drop_last())
        &&& expected(phase_after(our_id, peer_id, events.drop_last()), events.last())
    }
}

/// The phase that a course of events leads to.
pub open spec fn phase_after(
    our_id: u32,
    peer_id: Option<u32>,
    events: Seq<HandshakeEventView>,
) -> Phase
    decreases events.len(),
{
    if events.len() == 0 {
        Phase::Connecting
    } else {
        handshake_step(
            our_id,
            peer_id,
            phase_after(our_id, peer_id, events.drop_last()),
            events.last(),
        ).0
    }
}

/// The messages that are sent in a course of events, in order.
pub open spec fn sent_during(
    our_id: u32,
    peer_id: Option<u32>,
    events: Seq<HandshakeEventView>,
) -> Seq<WsMessageView>
    decreases events.len(),
{
    if events.len() == 0 {
        Seq::empty()
    } else {
        let before = events.drop_last();
        let sent = sent_during(our_id, peer_id, before);
        match handshake_step(
            our_id,
            peer_id,
            phase_after(our_id, peer_id, before),
            events.last(),
        ).1 {
            HandshakeActionView::Send(message) => sent.push(message),
            _ => sent,
        }
    }
}

/// The events up to the confirmed registration.
pub open spec fn registered() -> Seq<HandshakeEventView> {
    seq![
        HandshakeEventView::Connected,
        HandshakeEventView::Sent,
        HandshakeEventView::Received(hello_reply()),
    ]
}

/// The only events that lead to a running session.
pub open spec fn admitted(peer_id: Option<u32>) -> Seq<HandshakeEventView> {
    if peer_id is Some {
        registered() + seq![
            HandshakeEventView::Sent,
            HandshakeEventView::Received(session_reply()),
        ]
    } else {
        registered()
    }
}

/// Every phase that is not a failure is reached by one course of events, which this says.
proof fn lemma_courses(our_id: u32, peer_id: Option<u32>, events: Seq<HandshakeEventView>)
    requires
        is_course(our_id, peer_id, events),
    ensures
        ({
            let phase = phase_after(our_id, peer_id, events);
            &&& phase == Phase::Connecting ==> events == Seq::<HandshakeEventView>::empty()
            &&& phase == Phase::SendingHello ==> events == registered().take(1)
            &&& phase == Phase::AwaitingHello ==> events == registered().take(2)
            &&& phase == Phase::SendingSession ==> peer_id is Some && events == registered()
            &&& phase == Phase::AwaitingSession ==> peer_id is Some && events
                == admitted(peer_id).take(4)
            &&& phase == Phase::Running ==> events == admitted(peer_id)
        }),
    decreases events.len(),
{
    if events.len() > 0 {
        let before = events.drop_last();
        lemma_courses(our_id, peer_id, before);
        assert(events == before.push(events.last()));
        assert(registered().take(1) == Seq::<HandshakeEventView>::empty().push(registered()[0]));
        assert(registered().take(2) == registered().take(1).push(registered()[1]));
        assert(registered() == registered().take(2).push(registered()[2]));
        if peer_id is Some {
            assert(admitted(peer_id).take(4) == registered().push(HandshakeEventView::Sent));
            assert(admitted(peer_id) == admitted(peer_id).take(4).push(
                HandshakeEventView::Received(session_reply()),
            ));
        }
    }
}

/// A session runs exactly after the server has confirmed the registration and, where a peer is
/// to be joined, the session: no other course of events leads there, and that one does.
pub proof fn runs_exactly_when_admitted(
    our_id: u32,
    peer_id: Option<u32>,
    events: Seq<HandshakeEventView>,
)
    ensures
        is_course(our_id, peer_id, events) && phase_after(our_id, peer_id, events)
            == Phase::Running <==> events == admitted(peer_id),
{
    if is_course(our_id, peer_id, events) {
        lemma_courses(our_id, peer_id, events);
    }
    if events == admitted(peer_id) {
        let e0 = Seq::<HandshakeEventView>::empty();
        let e1 = registered().take(1);
        let e2 = registered().take(2);
        let e3 = registered();
        assert(e1.drop_last() == e0);
        assert(e2.drop_last() == e1);
        assert(e3.drop_last() == e2);
        assert(is_course(our_id, peer_id, e0));
        assert(is_course(our_id, peer_id, e1));
        assert(is_course(our_id, peer_id, e2));
        assert(is_course(our_id, peer_id, e3));
        if peer_id is Some {
            let e4 = admitted(peer_id).take(4);
            assert(e4.drop_last() == e3);
            assert(admitted(peer_id).drop_last() == e4);
            assert(is_course(our_id, peer_id, e4));
        }
    }
}

/// The registration is the first message to the server, the request to join the given peer the
/// second and last, sent only once the registration is confirmed; without a peer there is none.
pub proof fn sends_registration_then_request(
    our_id: u32,
    peer_id: Option<u32>,
    events: Seq<HandshakeEventView>,
)
    requires
        is_course(our_id, peer_id, events),
    ensures
        ({
            let sent = sent_during(our_id, peer_id, events);
            ||| sent == Seq::<WsMessageView>::empty()
            ||| sent == seq![hello(our_id)] && events[0] == HandshakeEventView::Connected
            ||| {
                &&& peer_id is Some
                &&& sent == seq![hello(our_id), session(peer_id->0)]
                &&& registered().is_prefix_of(events)
            }
        }),
    decreases events.len(),
{
    if events.len() > 0 {
        let before = events.drop_last();
        let phase = phase_after(our_id, peer_id, before);
        sends_registration_then_request(our_id, peer_id, before);
        lemma_courses(our_id, peer_id, before);
        lemma_sent_by_phase(our_id, peer_id, before);
        let sent = sent_during(our_id, peer_id, events);
        if events.last() == HandshakeEventView::Connected {
            assert(sent == seq![hello(our_id)]);
        } else if phase == Phase::AwaitingHello && events.last() == HandshakeEventView::Received(
            hello_reply(),
        ) && peer_id is Some {
            assert(events == before.push(events.last()));
            assert(registered() == registered().take(2).push(registered()[2]));
            assert(sent == seq![hello(our_id), session(peer_id->0)]);
        } else {
            assert(sent == sent_during(our_id, peer_id, before));
            if sent.len() == 2 {
                assert(registered().is_prefix_of(before));
                assert(events.subrange(0, 3) == before.subrange(0, 3));
            }
        }
    }
}

/// What has been sent when a reply or a confirmation of sending is still to come.
proof fn lemma_sent_by_phase(our_id: u32, peer_id: Option<u32>, events: Seq<HandshakeEventView>)
    requires
        is_course(our_id, peer_id, events),
    ensures
        ({
            let phase = phase_after(our_id, peer_id, events);
            let sent = sent_during(our_id, peer_id, events);
            &&& phase == Phase::Connecting ==> sent == Seq::<WsMessageView>::empty()
            &&& phase == Phase::SendingHello || phase == Phase::AwaitingHello ==> sent == seq![
                hello(our_id),
            ]
        }),
    decreases events.len(),
{
    if events.len() > 0 {
        lemma_sent_by_phase(our_id, peer_id, events.drop_last());
    }
}

/// A handshake that has ended, well or badly, takes no further event.
pub proof fn ended_handshake_stays_ended(event: HandshakeEventView)
    ensures
        !expected(Phase::Running, event),
        !expected(Phase::Failed, event),
{
}

/// Agents with different numbers register with different texts, and so do requests to join
/// different peers differ.
pub proof fn requests_identify_agents(left: u32, right: u32)
    requires
        hello(left) == hello(right) || session(left) == session(right),
    ensures
        left == right,
{
    let l = decimal(left as nat);
    let r = decimal(right as nat);
    if hello(left) == hello(right) {
        assert(("HELLO "@ + l).skip("HELLO "@.len() as int) == l);
        assert(("HELLO "@ + r).skip("HELLO "@.len() as int) == r);
    } else {
        assert(("SESSION "@ + l).skip("SESSION "@.len() as int) == l);
        assert(("SESSION "@ + r).skip("SESSION "@.len() as int) == r);
    }
    lemma_decimal_injective(left as nat, right as nat);
}

} // verus!
