//! The message loop of a running session.

use vstd::prelude::*;

use crate::command::{command_views, Command, CommandView, SdpKind};
use crate::error::{option_view, AgentError, AgentErrorView};
use crate::json::{JsonMsg, JsonMsgView};
use crate::lists::{lemma_filter_map_add, lemma_filter_map_short, present};
use crate::message::{CloseFrameView, WsMessage, WsMessageView};
use crate::webrtc::{
    delivered_text, notice_commands, outgoing, own_message, parsed_outcome, parsed_view,
    pipeline_outcome, reports_error, text_outcome, App, NoticeView, PipelineMessage,
    PipelineMessageView,
};

verus! {

/// What the loop wakes up for.
#[derive(Debug, PartialEq, Eq)]
pub enum Event {
    /// A message from the signalling connection.
    Socket(WsMessage),
    /// A message of the pipeline.
    Pipeline(PipelineMessage),
    /// The session description of the peer with this text was read, or could not be.
    SdpRead { kind: SdpKind, sdp: String, readable: bool },
    /// A message that the agent itself has queued for the signalling connection.
    Queued(WsMessage),
    /// A message that the application has for the signalling connection.
    Posted(WsMessage),
    /// A text that the application has for the data channel.
    Data(String),
    /// A text that has reached the end of the queue to the data channel.
    Forwarded(String),
    /// Something could not be received, sent or delivered; the text says why.
    Failed(String),
    /// Nothing can happen any more.
    Complete,
}

/// What is sent at the end of a turn of the loop.
#[derive(Debug, PartialEq, Eq)]
pub enum Message {
    /// A message for the signalling connection.
    Ws(WsMessage),
    /// A text for the queue to the data channel.
    Data(String),
    Nothing,
}

/// What one turn of the loop does.
#[derive(Debug, PartialEq, Eq)]
pub enum Turn {
    /// The session is over.
    Stop,
    /// The session fails.
    Fail(AgentError),
    /// The commands are carried out, the line is logged and the message is sent; then the loop
    /// goes on.
    Go { commands: Vec<Command>, log: Option<String>, message: Message },
}

/// What an `Event` says.
pub enum EventView {
    Socket(WsMessageView),
    Pipeline(PipelineMessageView),
    SdpRead { kind: SdpKind, sdp: Seq<char>, readable: bool },
    Queued(WsMessageView),
    Posted(WsMessageView),
    Data(Seq<char>),
    Forwarded(Seq<char>),
    Failed(Seq<char>),
    Complete,
}

/// What a `Message` says.
pub enum MessageView {
    Ws(WsMessageView),
    Data(Seq<char>),
    Nothing,
}

/// What a `Turn` says.
pub enum TurnView {
    Stop,
    Fail(AgentErrorView),
    Go { commands: Seq<CommandView>, log: Option<Seq<char>>, message: MessageView },
}

impl View for Event {
    type V = EventView;

    open spec fn view(&self) -> EventView {
        match self {
            Event::Socket(message) => EventView::Socket(message@),
            Event::Pipeline(message) => EventView::Pipeline(message@),
            Event::SdpRead { kind, sdp, readable } => EventView::SdpRead {
                kind: *kind,
                sdp: sdp@,
                readable: *readable,
            },
            Event::Queued(message) => EventView::Queued(message@),
            Event::Posted(message) => EventView::Posted(message@),
            Event::Data(text) => EventView::Data(text@),
            Event::Forwarded(text) => EventView::Forwarded(text@),
            Event::Failed(text) => EventView::Failed(text@),
            Event::Complete => EventView::Complete,
        }
    }
}

impl View for Message {
    type V = MessageView;

    open spec fn view(&self) -> MessageView {
        match self {
            Message::Ws(message) => MessageView::Ws(message@),
            Message::Data(text) => MessageView::Data(text@),
            Message::Nothing => MessageView::Nothing,
        }
    }
}

impl View for Turn {
    type V = TurnView;

    open spec fn view(&self) -> TurnView {
        match self {
            Turn::Stop => TurnView::Stop,
            Turn::Fail(error) => TurnView::Fail(error@),
            Turn::Go { commands, log, message } => TurnView::Go {
                commands: command_views(commands@),
                log: option_view(*log),
                message: message@,
            },
        }
    }
}

/// A turn that only sends.
pub open spec fn sends(message: MessageView) -> TurnView {
    TurnView::Go { commands: Seq::empty(), log: None, message }
}

/// A turn that only carries out commands, or fails.
pub open spec fn performs(outcome: Result<Seq<CommandView>, AgentErrorView>) -> TurnView {
    match outcome {
        Ok(commands) => TurnView::Go { commands, log: None, message: MessageView::Nothing },
        Err(error) => TurnView::Fail(error),
    }
}

/// What one turn of the loop does about an event. `parsed` is the message between peers that
/// stands in the text of the event, if one does.
pub open spec fn turn(event: EventView, parsed: Option<JsonMsgView>) -> TurnView {
    match event {
        EventView::Socket(WsMessageView::Close(_)) => TurnView::Stop,
        EventView::Socket(WsMessageView::Ping(data)) => sends(
            MessageView::Ws(WsMessageView::Pong(data)),
        ),
        EventView::Socket(WsMessageView::Pong(_)) => sends(MessageView::Nothing),
        EventView::Socket(WsMessageView::Binary(_)) => sends(MessageView::Nothing),
        EventView::Socket(WsMessageView::Text(text)) => performs(text_outcome(text, parsed)),
        EventView::Pipeline(message) => match pipeline_outcome(message) {
            Ok(log) => TurnView::Go { commands: Seq::empty(), log, message: MessageView::Nothing },
            Err(error) => TurnView::Fail(error),
        },
        EventView::SdpRead { kind, sdp, readable } => performs(
            parsed_outcome(kind, sdp, readable),
        ),
        EventView::Queued(message) => sends(MessageView::Ws(message)),
        EventView::Posted(message) => sends(MessageView::Ws(message)),
        EventView::Data(text) => sends(MessageView::Data(text)),
        EventView::Forwarded(text) => performs(Ok(seq![CommandView::SendString(text)])),
        EventView::Failed(text) => TurnView::Fail(AgentErrorView::Connection(text)),
        EventView::Complete => TurnView::Stop,
    }
}

/// The turn that only sends this message.
fn sending(message: Message) -> (result: Turn)
    ensures
        result@ == sends(message@),
{
    let commands: Vec<Command> = Vec::new();
    assert(command_views(commands@) =~= Seq::empty());
    Turn::Go { commands, log: None, message }
}

/// The turn that only carries out these commands, or fails.
fn performing(outcome: Result<Vec<Command>, AgentError>) -> (result: Turn)
    ensures
        result@ == performs(crate::webrtc::outcome(outcome)),
{
    match outcome {
        Ok(commands) => Turn::Go { commands, log: None, message: Message::Nothing },
        Err(error) => Turn::Fail(error),
    }
}

impl App {
    /// One turn of the loop. `parse` reads the message between peers that stands in a text, if
    /// one does; it is asked about a text from the signalling connection, unless the server
    /// reports an error with it, and about nothing else.
    pub fn take_turn<F: Fn(&str) -> Option<JsonMsg>>(&self, event: Event, parse: F) -> (result:
        Turn)
        requires
            event@ matches EventView::Socket(WsMessageView::Text(content)) ==> !reports_error(content)
                ==> forall|text: &str|
                text@ == content ==> #[trigger] call_requires(parse, (text,)),
        ensures
            event@ matches EventView::Socket(WsMessageView::Text(content)) ==> reports_error(content)
                ==> result@ == TurnView::Fail(AgentErrorView::ServerReported(content)),
            event@ matches EventView::Socket(WsMessageView::Text(content)) ==> !reports_error(content)
                ==> exists|text: &str, parsed: Option<JsonMsg>| #[trigger]
                call_ensures(parse, (text,), parsed) && text@ == content && result@ == turn(
                    event@,
                    parsed_view(parsed),
                ),
            !(event@ matches EventView::Socket(WsMessageView::Text(_))) ==> result@ == turn(
                event@,
                None,
            ),
    {
        match event {
            Event::Socket(WsMessage::Text(text)) => {
                let outcome = self.handle_websocket_message(text.as_str(), parse);
                performing(outcome)
            },
            other => self.take_parsed_turn(other, None),
        }
    }

    /// One turn of the loop, given the message between peers that stands in the text of the
    /// event, if one does.
    pub fn take_parsed_turn(&self, event: Event, parsed: Option<JsonMsg>) -> (result: Turn)
        ensures
            result@ == turn(event@, parsed_view(parsed)),
    {
        match event {
            Event::Socket(WsMessage::Close(_)) => Turn::Stop,
            Event::Socket(WsMessage::Ping(data)) => sending(Message::Ws(WsMessage::Pong(data))),
            Event::Socket(WsMessage::Pong(_)) => sending(Message::Nothing),
            Event::Socket(WsMessage::Binary(_)) => sending(Message::Nothing),
            Event::Socket(WsMessage::Text(text)) => performing(
                self.handle_parsed_message(text.as_str(), parsed),
            ),
            Event::Pipeline(message) => match self.handle_pipeline_message(message) {
                Ok(log) => {
                    let commands: Vec<Command> = Vec::new();
                    assert(command_views(commands@) =~= Seq::empty());
                    Turn::Go { commands, log, message: Message::Nothing }
                },
                Err(error) => Turn::Fail(error),
            },
            Event::SdpRead { kind, sdp, readable } => performing(
                self.on_sdp_parsed(kind, sdp, readable),
            ),
            Event::Queued(message) => sending(Message::Ws(message)),
            Event::Posted(message) => sending(Message::Ws(message)),
            Event::Data(text) => sending(Message::Data(text)),
            Event::Forwarded(text) => {
                let ghost content = text@;
                let commands: Vec<Command> = vec![self.on_data(text)];
                assert(command_views(commands@) =~= seq![CommandView::SendString(content)]);
                performing(Ok(commands))
            },
            Event::Failed(text) => Turn::Fail(AgentError::Connection(text)),
            Event::Complete => Turn::Stop,
        }
    }
}

/// What events, messages and turns say is what they hold.
pub proof fn loop_views_keep_the_fields(event: Event, message: Message, turn: Turn)
    ensures
        event matches Event::Socket(m) ==> event@ == EventView::Socket(m@),
        event matches Event::Pipeline(m) ==> event@ == EventView::Pipeline(m@),
        event matches Event::SdpRead { kind, sdp, readable } ==> event@ == (EventView::SdpRead {
            kind,
            sdp: sdp@,
            readable,
        }),
        event matches Event::Queued(m) ==> event@ == EventView::Queued(m@),
        event matches Event::Posted(m) ==> event@ == EventView::Posted(m@),
        event matches Event::Data(text) ==> event@ == EventView::Data(text@),
        event matches Event::Forwarded(text) ==> event@ == EventView::Forwarded(text@),
        event matches Event::Failed(text) ==> event@ == EventView::Failed(text@),
        event is Complete ==> event@ == EventView::Complete,
        message matches Message::Ws(m) ==> message@ == MessageView::Ws(m@),
        message matches Message::Data(text) ==> message@ == MessageView::Data(text@),
        message is Nothing ==> message@ == MessageView::Nothing,
        turn is Stop ==> turn@ == TurnView::Stop,
        turn matches Turn::Fail(error) ==> turn@ == TurnView::Fail(error@),
        turn matches Turn::Go { commands, log, message: m } ==> turn@ == (TurnView::Go {
            commands: command_views(commands@),
            log: option_view(log),
            message: m@,
        }),
{
}

/// What the loop does about protocol messages of the signalling connection, whatever they carry:
/// it ends on a close, answers a ping with a pong of the same payload and passes over pongs and
/// binary data.
pub proof fn protocol_messages_are_answered(
    data: Seq<u8>,
    frame: Option<CloseFrameView>,
    parsed: Option<JsonMsgView>,
)
    ensures
        turn(EventView::Socket(WsMessageView::Close(frame)), parsed) == TurnView::Stop,
        turn(EventView::Socket(WsMessageView::Ping(data)), parsed) == (TurnView::Go {
            commands: Seq::empty(),
            log: None,
            message: MessageView::Ws(WsMessageView::Pong(data)),
        }),
        turn(EventView::Socket(WsMessageView::Pong(data)), parsed) == (TurnView::Go {
            commands: Seq::empty(),
            log: None,
            message: MessageView::Nothing,
        }),
        turn(EventView::Socket(WsMessageView::Binary(data)), parsed) == (TurnView::Go {
            commands: Seq::empty(),
            log: None,
            message: MessageView::Nothing,
        }),
{
}

/// What the loop does about messages and texts that are to be sent, whatever they hold: it sends
/// a message as it is, puts a text of the application into the queue to the data channel and sends
/// what comes out of the queue over the channel.
pub proof fn messages_and_texts_are_sent_unchanged(
    message: WsMessageView,
    text: Seq<char>,
    parsed: Option<JsonMsgView>,
)
    ensures
        turn(EventView::Queued(message), parsed) == (TurnView::Go {
            commands: Seq::empty(),
            log: None,
            message: MessageView::Ws(message),
        }),
        turn(EventView::Posted(message), parsed) == (TurnView::Go {
            commands: Seq::empty(),
            log: None,
            message: MessageView::Ws(message),
        }),
        turn(EventView::Data(text), parsed) == (TurnView::Go {
            commands: Seq::empty(),
            log: None,
            message: MessageView::Data(text),
        }),
        turn(EventView::Forwarded(text), parsed) == (TurnView::Go {
            commands: seq![CommandView::SendString(text)],
            log: None,
            message: MessageView::Nothing,
        }),
{
}

/// What the loop does about texts from the signalling connection, descriptions that were read and
/// messages of the pipeline: it carries out what these lead to, sends nothing, logs nothing but
/// what the pipeline warns of, and fails with the error that they lead to. It also fails on what
/// could not be done, and ends when nothing can happen any more.
pub proof fn loop_carries_out_what_events_lead_to(
    text: Seq<char>,
    parsed: Option<JsonMsgView>,
    kind: SdpKind,
    readable: bool,
    message: PipelineMessageView,
)
    ensures
        text_outcome(text, parsed) matches Ok(commands) ==> turn(
            EventView::Socket(WsMessageView::Text(text)),
            parsed,
        ) == (TurnView::Go { commands, log: None, message: MessageView::Nothing }),
        text_outcome(text, parsed) matches Err(error) ==> turn(
            EventView::Socket(WsMessageView::Text(text)),
            parsed,
        ) == TurnView::Fail(error),
        parsed_outcome(kind, text, readable) matches Ok(commands) ==> turn(
            EventView::SdpRead { kind, sdp: text, readable },
            parsed,
        ) == (TurnView::Go { commands, log: None, message: MessageView::Nothing }),
        parsed_outcome(kind, text, readable) matches Err(error) ==> turn(
            EventView::SdpRead { kind, sdp: text, readable },
            parsed,
        ) == TurnView::Fail(error),
        pipeline_outcome(message) matches Ok(log) ==> turn(EventView::Pipeline(message), parsed)
            == (TurnView::Go { commands: Seq::empty(), log, message: MessageView::Nothing }),
        pipeline_outcome(message) matches Err(error) ==> turn(EventView::Pipeline(message), parsed)
            == TurnView::Fail(error),
        turn(EventView::Failed(text), parsed) == TurnView::Fail(AgentErrorView::Connection(text)),
        turn(EventView::Complete, parsed) == TurnView::Stop,
{
}

/// A reader of texts: the message between peers that stands in a text, if one does.
pub type Reader = spec_fn(Seq<char>) -> Option<JsonMsgView>;

/// What one turn of the loop does about an event, with this reader.
pub open spec fn read_turn(reader: Reader, event: EventView) -> TurnView {
    match event {
        EventView::Socket(WsMessageView::Text(text)) => turn(event, reader(text)),
        _ => turn(event, None),
    }
}

/// What a session has done so far. A failure to carry something out shows in a later event.
pub struct Session {
    /// The result of the session, once it has ended.
    pub ended: Option<Result<(), AgentErrorView>>,
    /// The commands that were handed out to be carried out.
    pub commands: Seq<CommandView>,
    /// The messages that were handed to the signalling connection.
    pub socket: Seq<WsMessageView>,
    /// Those of them that the agent itself had queued.
    pub own: Seq<WsMessageView>,
    /// The texts that were handed to the queue to the data channel.
    pub data: Seq<Seq<char>>,
    /// Those of them that still wait in the queue, the oldest first.
    pub queue: Seq<Seq<char>>,
    /// The descriptions of the peer that are still to be read, the oldest first.
    pub unread: Seq<(SdpKind, Seq<char>)>,
}

/// The queue to the data channel after one more event: what is put in waits at its end, what
/// comes out has waited longest.
pub open spec fn queue_step(
    queue: Seq<Seq<char>>,
    event: EventView,
    message: MessageView,
) -> Seq<Seq<char>> {
    let kept = if event is Forwarded && queue.len() > 0 {
        queue.drop_first()
    } else {
        queue
    };
    match message {
        MessageView::Data(text) => kept + seq![text],
        _ => kept,
    }
}

/// The description of the peer that a command asks to read.
pub open spec fn description_asked(command: CommandView) -> Option<(SdpKind, Seq<char>)> {
    match command {
        CommandView::ParseSdp { kind, sdp } => Some((kind, sdp)),
        _ => None,
    }
}

/// The descriptions that are to be read after one more event: one that is asked for waits at the
/// end, the one that was read had waited longest.
pub open spec fn unread_step(
    unread: Seq<(SdpKind, Seq<char>)>,
    event: EventView,
    commands: Seq<CommandView>,
) -> Seq<(SdpKind, Seq<char>)> {
    let kept = if event is SdpRead && unread.len() > 0 {
        unread.drop_first()
    } else {
        unread
    };
    kept + commands.filter_map(|c: CommandView| description_asked(c))
}

/// A session after one more event. One that has ended takes no notice of it.
pub open spec fn session_step(reader: Reader, session: Session, event: EventView) -> Session {
    if session.ended is Some {
        session
    } else {
        match read_turn(reader, event) {
            TurnView::Stop => Session { ended: Some(Ok(())), ..session },
            TurnView::Fail(error) => Session { ended: Some(Err(error)), ..session },
            TurnView::Go { commands, log, message } => Session {
                ended: None,
                commands: session.commands + commands,
                socket: match message {
                    MessageView::Ws(sent) => session.socket + seq![sent],
                    _ => session.socket,
                },
                own: match event {
                    EventView::Queued(sent) => session.own + seq![sent],
                    _ => session.own,
                },
                data: match message {
                    MessageView::Data(text) => session.data + seq![text],
                    _ => session.data,
                },
                queue: queue_step(session.queue, event, message),
                unread: unread_step(session.unread, event, commands),
            },
        }
    }
}

/// A session after these events.
pub open spec fn session_after(reader: Reader, events: Seq<EventView>) -> Session
    decreases events.len(),
{
    if events.len() == 0 {
        Session {
            ended: None,
            commands: Seq::empty(),
            socket: Seq::empty(),
            own: Seq::empty(),
            data: Seq::empty(),
            queue: Seq::empty(),
            unread: Seq::empty(),
        }
    } else {
        session_step(reader, session_after(reader, events.drop_last()), events.last())
    }
}

/// How many events a session has handled: all of them while it runs, those before the one that
/// has ended it afterwards.
pub open spec fn handled(reader: Reader, events: Seq<EventView>) -> nat
    decreases events.len(),
{
    if events.len() == 0 {
        0
    } else if session_after(reader, events).ended is None {
        events.len()
    } else {
        handled(reader, events.drop_last())
    }
}

/// A running session has handled every event. One that has ended has done nothing since the
/// events before its end, and has the result of the event that ended it.
pub proof fn handled_events_are_those_before_the_end(reader: Reader, events: Seq<EventView>)
    ensures
        ({
            let k = handled(reader, events);
            let session = session_after(reader, events);
            let before = session_after(reader, events.take(k as int));
            &&& k <= events.len()
            &&& session.ended is None <==> k == events.len()
            &&& before.ended is None
            &&& session == Session { ended: session.ended, ..before }
            &&& session.ended matches Some(Ok(())) ==> read_turn(reader, events[k as int])
                == TurnView::Stop
            &&& session.ended matches Some(Err(error)) ==> read_turn(reader, events[k as int])
                == TurnView::Fail(error)
        }),
    decreases events.len(),
{
    let k = handled(reader, events) as int;
    if session_after(reader, events).ended is None {
        assert(events.take(k) == events);
    } else {
        let shorter = events.drop_last();
        handled_events_are_those_before_the_end(reader, shorter);
        assert(events.take(k) == shorter.take(k));
    }
}

/// What has ended a session stays: no later event changes anything about it.
pub proof fn ended_session_stays_as_it_is(
    reader: Reader,
    events: Seq<EventView>,
    later: Seq<EventView>,
)
    requires
        session_after(reader, events).ended is Some,
    ensures
        session_after(reader, events + later) == session_after(reader, events),
    decreases later.len(),
{
    if later.len() == 0 {
        assert(events + later == events);
    } else {
        assert((events + later).drop_last() == events + later.drop_last());
        ended_session_stays_as_it_is(reader, events, later.drop_last());
    }
}

/// A session ends without a failure exactly if it was running and the other side closed the
/// connection or nothing could happen any more.
pub proof fn session_ends_well_on_close_or_completion(
    reader: Reader,
    session: Session,
    event: EventView,
)
    requires
        session.ended is None,
    ensures
        session_step(reader, session, event).ended == Some(Ok::<(), AgentErrorView>(())) <==> (event
            matches EventView::Socket(WsMessageView::Close(_)) || event == EventView::Complete),
{
}

/// What an event makes the loop send over the signalling connection.
pub open spec fn socket_reply(event: EventView) -> Option<WsMessageView> {
    match event {
        EventView::Socket(WsMessageView::Ping(data)) => Some(WsMessageView::Pong(data)),
        EventView::Queued(message) => Some(message),
        EventView::Posted(message) => Some(message),
        _ => None,
    }
}

/// The message of the agent itself that an event makes the loop send.
pub open spec fn own_reply(event: EventView) -> Option<WsMessageView> {
    match event {
        EventView::Queued(message) => Some(message),
        _ => None,
    }
}

/// The description that the peer has sent with an event.
pub open spec fn peer_description(reader: Reader, event: EventView) -> Option<
    (SdpKind, Seq<char>),
> {
    match event {
        EventView::Socket(WsMessageView::Text(text)) => match reader(text) {
            Some(JsonMsgView::Sdp { type_, sdp }) => if type_ == "answer"@ {
                Some((SdpKind::Answer, sdp))
            } else if type_ == "offer"@ {
                Some((SdpKind::Offer, sdp))
            } else {
                None
            },
            _ => None,
        },
        _ => None,
    }
}

/// The description of the peer that was read with an event.
pub open spec fn read_description(event: EventView) -> Option<(SdpKind, Seq<char>)> {
    match event {
        EventView::SdpRead { kind, sdp, readable: true } => Some((kind, sdp)),
        _ => None,
    }
}

/// The description that a command makes that of the other side.
pub open spec fn remote_description(command: CommandView) -> Option<(SdpKind, Seq<char>)> {
    match command {
        CommandView::SetRemoteDescription { kind, sdp } => Some((kind, sdp)),
        _ => None,
    }
}

/// What an event makes the loop put into the queue to the data channel.
pub open spec fn queued_text(event: EventView) -> Option<Seq<char>> {
    match event {
        EventView::Data(text) => Some(text),
        _ => None,
    }
}

/// What an event makes the loop send over the data channel.
pub open spec fn forwarded_text(event: EventView) -> Option<Seq<char>> {
    match event {
        EventView::Forwarded(text) => Some(text),
        _ => None,
    }
}

/// What a command sends over the data channel.
pub open spec fn channel_text(command: CommandView) -> Option<Seq<char>> {
    match command {
        CommandView::SendString(text) => Some(text),
        _ => None,
    }
}

/// What an event hands to the application: a text from the signalling connection in which no
/// message between peers stands, or the text of one that is meant for it.
pub open spec fn application_text(reader: Reader, event: EventView) -> Option<Seq<char>> {
    match event {
        EventView::Socket(WsMessageView::Text(text)) => match reader(text) {
            None => Some(text),
            Some(JsonMsgView::Msg { msg }) => Some(msg),
            Some(_) => None,
        },
        _ => None,
    }
}

/// The candidate of the peer that is read from an event.
pub open spec fn peer_candidate(reader: Reader, event: EventView) -> Option<(u32, Seq<char>)> {
    match event {
        EventView::Socket(WsMessageView::Text(text)) => match reader(text) {
            Some(JsonMsgView::Ice { candidate, sdp_mline_index }) => Some(
                (sdp_mline_index, candidate),
            ),
            _ => None,
        },
        _ => None,
    }
}

/// The candidate that a command hands to the WebRTC element.
pub open spec fn added_candidate(command: CommandView) -> Option<(u32, Seq<char>)> {
    match command {
        CommandView::AddIceCandidate { sdp_mline_index, candidate } => Some(
            (sdp_mline_index, candidate),
        ),
        _ => None,
    }
}

/// The offer of the peer that was read with an event.
pub open spec fn read_offer(event: EventView) -> Option<()> {
    match event {
        EventView::SdpRead { kind: SdpKind::Offer, sdp, readable: true } => Some(()),
        _ => None,
    }
}

/// Whether a command asks for an answer.
pub open spec fn answer_asked(command: CommandView) -> Option<()> {
    match command {
        CommandView::CreateAnswer => Some(()),
        _ => None,
    }
}

/// What the commands of one turn send over the data channel, hand to the application and do
/// about descriptions of the peer.
proof fn lemma_turn_texts(reader: Reader, event: EventView)
    requires
        read_turn(reader, event) is Go,
    ensures
        read_turn(reader, event)->commands.filter_map(|c: CommandView| channel_text(c)) == present(
            forwarded_text(event),
        ),
        read_turn(reader, event)->commands.filter_map(|c: CommandView| delivered_text(c))
            == present(application_text(reader, event)),
        read_turn(reader, event)->commands.filter_map(|c: CommandView| description_asked(c))
            == present(peer_description(reader, event)),
        read_turn(reader, event)->commands.filter_map(|c: CommandView| remote_description(c))
            == present(read_description(event)),
        read_turn(reader, event)->commands.filter_map(|c: CommandView| added_candidate(c))
            == present(peer_candidate(reader, event)),
        read_turn(reader, event)->commands.filter_map(|c: CommandView| answer_asked(c)) == present(
            read_offer(event),
        ),
{
    let added = |c: CommandView| added_candidate(c);
    let answers = |c: CommandView| answer_asked(c);
    let asked = |c: CommandView| description_asked(c);
    let remote = |c: CommandView| remote_description(c);
    let sent = |c: CommandView| channel_text(c);
    let delivered = |c: CommandView| delivered_text(c);
    let commands = read_turn(reader, event)->commands;
    lemma_filter_map_short(commands, sent);
    lemma_filter_map_short(commands, delivered);
    assert(commands.filter_map(sent) =~= present(forwarded_text(event)));
    lemma_filter_map_short(commands, asked);
    lemma_filter_map_short(commands, remote);
    lemma_filter_map_short(commands, added);
    lemma_filter_map_short(commands, answers);
    assert(commands.filter_map(added) =~= present(peer_candidate(reader, event)));
    assert(commands.filter_map(answers) =~= present(read_offer(event)));
    assert(commands.filter_map(delivered) =~= present(application_text(reader, event)));
    assert(commands.filter_map(asked) =~= present(peer_description(reader, event)));
    assert(commands.filter_map(remote) =~= present(read_description(event)));
}

/// What a running session has sent, queued and handed to the application.
proof fn lemma_running(reader: Reader, events: Seq<EventView>)
    requires
        session_after(reader, events).ended is None,
    ensures
        ({
            let session = session_after(reader, events);
            &&& session.socket == events.filter_map(|e: EventView| socket_reply(e))
            &&& session.own == events.filter_map(|e: EventView| own_reply(e))
            &&& session.data == events.filter_map(|e: EventView| queued_text(e))
            &&& session.commands.filter_map(|c: CommandView| channel_text(c)) == events.filter_map(
                |e: EventView| forwarded_text(e),
            )
            &&& session.commands.filter_map(|c: CommandView| delivered_text(c))
                == events.filter_map(|e: EventView| application_text(reader, e))
            &&& session.commands.filter_map(|c: CommandView| added_candidate(c))
                == events.filter_map(|e: EventView| peer_candidate(reader, e))
            &&& session.commands.filter_map(|c: CommandView| answer_asked(c)) == events.filter_map(
                |e: EventView| read_offer(e),
            )
        }),
    decreases events.len(),
{
    if events.len() > 0 {
        let before = session_after(reader, events.drop_last());
        let commands = read_turn(reader, events.last())->commands;
        lemma_running(reader, events.drop_last());
        lemma_turn_texts(reader, events.last());
        lemma_filter_map_add(before.commands, commands, |c: CommandView| channel_text(c));
        lemma_filter_map_add(before.commands, commands, |c: CommandView| delivered_text(c));
        lemma_filter_map_add(before.commands, commands, |c: CommandView| added_candidate(c));
        lemma_filter_map_add(before.commands, commands, |c: CommandView| answer_asked(c));
    }
}

/// What goes over the signalling connection in a session are, in the order of the events that it
/// handles, the messages of the agent and of the application and one pong with the same payload
/// for each ping, and nothing else.
pub proof fn socket_carries_messages_and_pongs(reader: Reader, events: Seq<EventView>)
    ensures
        session_after(reader, events).socket == events.take(
            handled(reader, events) as int,
        ).filter_map(|e: EventView| socket_reply(e)),
        session_after(reader, events).own == events.take(
            handled(reader, events) as int,
        ).filter_map(|e: EventView| own_reply(e)),
{
    handled_events_are_those_before_the_end(reader, events);
    lemma_running(reader, events.take(handled(reader, events) as int));
}

/// The texts of the application reach the queue to the data channel all and in order, up to the
/// end of the session, and nothing else does.
pub proof fn data_queue_carries_texts(reader: Reader, events: Seq<EventView>)
    ensures
        session_after(reader, events).data == events.take(
            handled(reader, events) as int,
        ).filter_map(|e: EventView| queued_text(e)),
{
    handled_events_are_those_before_the_end(reader, events);
    lemma_running(reader, events.take(handled(reader, events) as int));
}

/// The commands that send over the data channel are, in order, one for each text that comes out
/// of the queue before the session ends.
pub proof fn channel_carries_forwarded_texts(reader: Reader, events: Seq<EventView>)
    ensures
        session_after(reader, events).commands.filter_map(|c: CommandView| channel_text(c))
            == events.take(handled(reader, events) as int).filter_map(
            |e: EventView| forwarded_text(e),
        ),
{
    handled_events_are_those_before_the_end(reader, events);
    lemma_running(reader, events.take(handled(reader, events) as int));
}

/// The application is handed, in order, every text from the signalling connection that is meant
/// for it, up to the end of the session, and nothing else.
pub proof fn application_gets_its_texts(reader: Reader, events: Seq<EventView>)
    ensures
        session_after(reader, events).commands.filter_map(|c: CommandView| delivered_text(c))
            == events.take(handled(reader, events) as int).filter_map(
            |e: EventView| application_text(reader, e),
        ),
{
    handled_events_are_those_before_the_end(reader, events);
    lemma_running(reader, events.take(handled(reader, events) as int));
}

/// The WebRTC element is handed, in order and once each, every candidate that is read from the
/// texts of the signalling connection, up to the end of the session, and nothing else.
pub proof fn candidates_of_the_peer_are_handed_on(reader: Reader, events: Seq<EventView>)
    ensures
        session_after(reader, events).commands.filter_map(|c: CommandView| added_candidate(c))
            == events.take(handled(reader, events) as int).filter_map(
            |e: EventView| peer_candidate(reader, e),
        ),
{
    handled_events_are_those_before_the_end(reader, events);
    lemma_running(reader, events.take(handled(reader, events) as int));
}

/// An answer is asked for once for each offer of the peer that was read, up to the end of the
/// session, and for nothing else.
pub proof fn offers_of_the_peer_are_answered(reader: Reader, events: Seq<EventView>)
    ensures
        session_after(reader, events).commands.filter_map(|c: CommandView| answer_asked(c))
            == events.take(handled(reader, events) as int).filter_map(|e: EventView| read_offer(e)),
{
    handled_events_are_those_before_the_end(reader, events);
    lemma_running(reader, events.take(handled(reader, events) as int));
}

/// Events that can happen as far as the queue to the data channel goes: what comes out of it is
/// what has waited longest in it.
pub open spec fn texts_in_order(reader: Reader, events: Seq<EventView>) -> bool
    decreases events.len(),
{
    events.len() == 0 || {
        let before = session_after(reader, events.drop_last());
        &&& texts_in_order(reader, events.drop_last())
        &&& events.last() matches EventView::Forwarded(text) ==> before.ended is None
            ==> before.queue.len() > 0 && before.queue[0] == text
    }
}

/// The texts of the application go over the data channel unchanged, in order and once each: what
/// was sent, followed by what still waits in the queue, is what was put into it.
pub proof fn channel_carries_the_texts_of_the_application(reader: Reader, events: Seq<EventView>)
    requires
        texts_in_order(reader, events),
    ensures
        ({
            let session = session_after(reader, events);
            let sent = session.commands.filter_map(|c: CommandView| channel_text(c));
            let given = events.take(handled(reader, events) as int).filter_map(
                |e: EventView| queued_text(e),
            );
            &&& sent + session.queue == given
            &&& sent.is_prefix_of(given)
        }),
{
    let session = session_after(reader, events);
    let sent = session.commands.filter_map(|c: CommandView| channel_text(c));
    lemma_sent_and_waiting(reader, events);
    data_queue_carries_texts(reader, events);
    assert((sent + session.queue).subrange(0, sent.len() as int) == sent);
}

proof fn lemma_sent_and_waiting(reader: Reader, events: Seq<EventView>)
    requires
        texts_in_order(reader, events),
    ensures
        ({
            let session = session_after(reader, events);
            session.commands.filter_map(|c: CommandView| channel_text(c)) + session.queue
                == session.data
        }),
    decreases events.len(),
{
    let f = |c: CommandView| channel_text(c);
    let session = session_after(reader, events);
    if events.len() == 0 {
        lemma_filter_map_short(session.commands, f);
    } else {
        let event = events.last();
        let before = session_after(reader, events.drop_last());
        lemma_sent_and_waiting(reader, events.drop_last());
        if before.ended is None && read_turn(reader, event) is Go {
            let sent = before.commands.filter_map(f);
            let commands = read_turn(reader, event)->commands;
            lemma_turn_texts(reader, event);
            lemma_filter_map_add(before.commands, commands, f);
            assert(session.commands.filter_map(f) == sent + present(forwarded_text(event)));
            if event is Forwarded {
                assert(before.queue == seq![before.queue[0]] + session.queue);
                assert(sent + before.queue == sent + seq![before.queue[0]] + session.queue);
            } else if event is Data {
                assert(session.queue == before.queue + seq![queued_text(event)->0]);
                assert(sent + session.queue == sent + before.queue + seq![queued_text(event)->0]);
                assert(sent + present(forwarded_text(event)) == sent);
            } else {
                assert(sent + present(forwarded_text(event)) == sent);
            }
        }
    }
}

/// Events that can happen as far as descriptions of the peer go: the one that was read, or could
/// not be, is the one that has waited longest for it.
pub open spec fn reads_in_order(reader: Reader, events: Seq<EventView>) -> bool
    decreases events.len(),
{
    events.len() == 0 || {
        let before = session_after(reader, events.drop_last());
        &&& reads_in_order(reader, events.drop_last())
        &&& events.last() matches EventView::SdpRead { kind, sdp, readable } ==> before.ended is None
            ==> before.unread.len() > 0 && before.unread[0] == (kind, sdp)
    }
}

/// The descriptions that become those of the other side are those that the peer has sent,
/// unchanged, in order and once each: they, followed by those that are still to be read, are what
/// the peer has sent.
pub proof fn remote_descriptions_are_those_of_the_peer(reader: Reader, events: Seq<EventView>)
    requires
        reads_in_order(reader, events),
    ensures
        ({
            let session = session_after(reader, events);
            let set = session.commands.filter_map(|c: CommandView| remote_description(c));
            let given = events.take(handled(reader, events) as int).filter_map(
                |e: EventView| peer_description(reader, e),
            );
            &&& set + session.unread == given
            &&& set.is_prefix_of(given)
        }),
{
    let k = handled(reader, events) as int;
    let session = session_after(reader, events);
    let set = session.commands.filter_map(|c: CommandView| remote_description(c));
    handled_events_are_those_before_the_end(reader, events);
    lemma_reads_before(reader, events, k);
    lemma_set_and_unread(reader, events.take(k));
    assert((set + session.unread).subrange(0, set.len() as int) == set);
}

/// Events that can happen can happen up to any point.
proof fn lemma_reads_before(reader: Reader, events: Seq<EventView>, k: int)
    requires
        reads_in_order(reader, events),
        0 <= k <= events.len(),
    ensures
        reads_in_order(reader, events.take(k)),
    decreases events.len(),
{
    if k == events.len() {
        assert(events.take(k) == events);
    } else {
        assert(events.take(k) == events.drop_last().take(k));
        lemma_reads_before(reader, events.drop_last(), k);
    }
}

proof fn lemma_set_and_unread(reader: Reader, events: Seq<EventView>)
    requires
        reads_in_order(reader, events),
        session_after(reader, events).ended is None,
    ensures
        ({
            let session = session_after(reader, events);
            session.commands.filter_map(|c: CommandView| remote_description(c)) + session.unread
                == events.filter_map(|e: EventView| peer_description(reader, e))
        }),
    decreases events.len(),
{
    let f = |c: CommandView| remote_description(c);
    let session = session_after(reader, events);
    if events.len() == 0 {
        lemma_filter_map_short(session.commands, f);
    } else {
        let event = events.last();
        let before = session_after(reader, events.drop_last());
        let set = before.commands.filter_map(f);
        let commands = read_turn(reader, event)->commands;
        let added = present(peer_description(reader, event));
        lemma_set_and_unread(reader, events.drop_last());
        lemma_turn_texts(reader, event);
        lemma_filter_map_add(before.commands, commands, f);
        assert(session.commands.filter_map(f) == set + present(read_description(event)));
        if event is SdpRead {
            assert(before.unread == present(read_description(event)) + session.unread);
            assert(set + before.unread == set + present(read_description(event)) + session.unread);
        } else {
            assert(set + present(read_description(event)) == set);
            assert(set + session.unread == set + before.unread + added);
        }
        let given = events.drop_last().filter_map(|e: EventView| peer_description(reader, e));
        assert(events.filter_map(|e: EventView| peer_description(reader, e)) == given + added);
    }
}

/// What happens to an agent in a session: an event of its loop, or a notice of the media
/// framework.
pub enum Happening {
    Event(EventView),
    Notice(NoticeView),
}

/// The event of the loop, if it is one.
pub open spec fn as_event(happening: Happening) -> Option<EventView> {
    match happening {
        Happening::Event(event) => Some(event),
        _ => None,
    }
}

/// The notice of the media framework, if it is one.
pub open spec fn as_notice(happening: Happening) -> Option<NoticeView> {
    match happening {
        Happening::Notice(notice) => Some(notice),
        _ => None,
    }
}

/// The events of the loop, in order.
pub open spec fn events_of(happenings: Seq<Happening>) -> Seq<EventView> {
    happenings.filter_map(|h: Happening| as_event(h))
}

/// The notices of the media framework, in order.
pub open spec fn notices_of(happenings: Seq<Happening>) -> Seq<NoticeView> {
    happenings.filter_map(|h: Happening| as_notice(h))
}

/// The messages of the agent itself that wait for the loop to send them, the oldest first.
pub open spec fn outbox(reader: Reader, happenings: Seq<Happening>) -> Seq<WsMessageView>
    decreases happenings.len(),
{
    if happenings.len() == 0 {
        Seq::empty()
    } else {
        let before = outbox(reader, happenings.drop_last());
        let session = session_after(reader, events_of(happenings.drop_last()));
        match happenings.last() {
            Happening::Notice(notice) => before + notice_commands(notice).filter_map(
                |c: CommandView| outgoing(c),
            ),
            Happening::Event(EventView::Queued(_)) if session.ended is None && before.len() > 0 => {
                before.drop_first()
            },
            _ => before,
        }
    }
}

/// What can happen as far as the messages of the agent itself go: the loop gets the one that has
/// waited longest.
pub open spec fn messages_in_order(reader: Reader, happenings: Seq<Happening>) -> bool
    decreases happenings.len(),
{
    happenings.len() == 0 || {
        let before = outbox(reader, happenings.drop_last());
        let session = session_after(reader, events_of(happenings.drop_last()));
        &&& messages_in_order(reader, happenings.drop_last())
        &&& happenings.last() matches Happening::Event(EventView::Queued(message)) ==> session.ended
            is None ==> before.len() > 0 && before[0] == message
    }
}

/// The candidates and the descriptions of this side go over the signalling connection unchanged,
/// in order and once each: the messages of the agent itself that were handed to the connection,
/// followed by those that still wait, are one for each of them.
pub proof fn socket_carries_own_candidates_and_descriptions(
    reader: Reader,
    happenings: Seq<Happening>,
)
    requires
        messages_in_order(reader, happenings),
    ensures
        ({
            let own = session_after(reader, events_of(happenings)).own;
            let given = notices_of(happenings).filter_map(|n: NoticeView| own_message(n));
            &&& own + outbox(reader, happenings) == given
            &&& own.is_prefix_of(given)
        }),
    decreases happenings.len(),
{
    let own = session_after(reader, events_of(happenings)).own;
    let waiting = outbox(reader, happenings);
    if happenings.len() > 0 {
        let shorter = happenings.drop_last();
        let before = session_after(reader, events_of(shorter));
        let waited = outbox(reader, shorter);
        socket_carries_own_candidates_and_descriptions(reader, shorter);
        match happenings.last() {
            Happening::Notice(notice) => {
                let f = |c: CommandView| outgoing(c);
                let added = present(own_message(notice));
                lemma_filter_map_short(notice_commands(notice), f);
                assert(notice_commands(notice).filter_map(f) =~= added);
                assert(events_of(happenings) == events_of(shorter));
                assert(notices_of(happenings) == notices_of(shorter).push(notice));
                assert(notices_of(happenings).drop_last() == notices_of(shorter));
                assert(own + waiting == before.own + waited + added);
                let given = notices_of(shorter).filter_map(|n: NoticeView| own_message(n));
                assert(notices_of(happenings).filter_map(|n: NoticeView| own_message(n)) == given
                    + added);
            },
            Happening::Event(event) => {
                assert(notices_of(happenings) == notices_of(shorter));
                assert(events_of(happenings) == events_of(shorter).push(event));
                assert(events_of(happenings).drop_last() == events_of(shorter));
                if event is Queued && before.ended is None {
                    assert(waited == seq![waited[0]] + waiting);
                    assert(before.own + waited == before.own + seq![waited[0]] + waiting);
                }
            },
        }
    }
    assert((own + waiting).subrange(0, own.len() as int) == own);
}

/// An error that the server reports ends the session with the text of the report.
pub proof fn reported_error_ends_the_session(reader: Reader, session: Session, text: Seq<char>)
    requires
        session.ended is None,
        reports_error(text),
    ensures
        session_step(reader, session, EventView::Socket(WsMessageView::Text(text))).ended == Some(
            Err::<(), AgentErrorView>(AgentErrorView::ServerReported(text)),
        ),
{
}

/// A description of the peer that cannot be read ends the session.
pub proof fn unreadable_description_ends_the_session(
    reader: Reader,
    session: Session,
    kind: SdpKind,
    sdp: Seq<char>,
)
    requires
        session.ended is None,
    ensures
        session_step(
            reader,
            session,
            EventView::SdpRead { kind, sdp, readable: false },
        ).ended == Some(Err::<(), AgentErrorView>(AgentErrorView::SdpParse(kind))),
{
}

/// What could not be received, sent or delivered ends the session with the text that says why.
pub proof fn failure_ends_the_session(reader: Reader, session: Session, text: Seq<char>)
    requires
        session.ended is None,
    ensures
        session_step(reader, session, EventView::Failed(text)).ended == Some(
            Err::<(), AgentErrorView>(AgentErrorView::Connection(text)),
        ),
{
}

/// An error that an element reports, be it one that the agent has posted itself, ends the
/// session with the report.
pub proof fn pipeline_error_ends_the_session(
    reader: Reader,
    session: Session,
    source: Option<Seq<char>>,
    error: Seq<char>,
    debug: Option<Seq<char>>,
)
    requires
        session.ended is None,
    ensures
        session_step(
            reader,
            session,
            EventView::Pipeline(PipelineMessageView::Error { source, error, debug }),
        ).ended == Some(
            Err::<(), AgentErrorView>(AgentErrorView::Pipeline { source, error, debug }),
        ),
{
}

} // verus!
