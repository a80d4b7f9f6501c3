//! The agent in a session: what it asks of the WebRTC element, of the signalling connection
//! and of the application when something happens.

use vstd::prelude::*;

use crate::command::{
    after_failure, command_views, AfterFailure, ChannelSignal, Command, CommandView, Outgoing,
    PipelineState, SdpKind, Signal,
};
use crate::error::{error_text, option_view, AgentError, AgentErrorView};
use crate::json::{encoding, JsonMsg, JsonMsgView};
use crate::launch::Args;
use crate::lists::{lemma_filter_map_add, lemma_filter_map_short, once, precedes, present};
use crate::message::{WsMessage, WsMessageView};
use crate::text::{same, starts_with, views};

verus! {

/// The server that tells the agent its public address.
pub const STUN_SERVER: &'static str = "stun://stun.l.google.com:19302";

/// What the pipeline reports.
#[derive(Debug, PartialEq, Eq)]
pub enum PipelineMessage {
    /// An element failed: the path of the element, the error and details, where known.
    Error { source: Option<String>, error: String, debug: Option<String> },
    /// An element warns, with these details.
    Warning(String),
    /// Anything else.
    Other,
}

/// What a `PipelineMessage` says.
pub enum PipelineMessageView {
    Error { source: Option<Seq<char>>, error: Seq<char>, debug: Option<Seq<char>> },
    Warning(Seq<char>),
    Other,
}

impl View for PipelineMessage {
    type V = PipelineMessageView;

    open spec fn view(&self) -> PipelineMessageView {
        match self {
            PipelineMessage::Error { source, error, debug } => PipelineMessageView::Error {
                source: option_view(*source),
                error: error@,
                debug: option_view(*debug),
            },
            PipelineMessage::Warning(debug) => PipelineMessageView::Warning(debug@),
            PipelineMessage::Other => PipelineMessageView::Other,
        }
    }
}

/// The answer of the WebRTC element to a request for a description: the text of the
/// description, nothing, or a refusal.
#[derive(Debug, PartialEq, Eq)]
pub enum Reply {
    Description(String),
    Nothing,
    Refused(String),
}

/// What a `Reply` says.
pub enum ReplyView {
    Description(Seq<char>),
    Nothing,
    Refused(Seq<char>),
}

impl View for Reply {
    type V = ReplyView;

    open spec fn view(&self) -> ReplyView {
        match self {
            Reply::Description(sdp) => ReplyView::Description(sdp@),
            Reply::Nothing => ReplyView::Nothing,
            Reply::Refused(text) => ReplyView::Refused(text@),
        }
    }
}

/// The direction of a pad, seen from its element.
#[derive(Clone, Copy, Debug, PartialEq, Eq, Structural)]
pub enum PadDirection {
    Src,
    Sink,
    Unknown,
}

/// What the media framework calls the agent back for.
#[derive(Debug, PartialEq, Eq)]
pub enum Notice {
    /// The WebRTC element wants to negotiate.
    NegotiationNeeded,
    /// The WebRTC element has found a candidate of this side.
    IceCandidate { mlineindex: u32, candidate: String },
    /// The WebRTC element answers a request for a description.
    Created { kind: SdpKind, reply: Reply },
    /// The peer has opened a data channel.
    ChannelOffered,
    /// A data channel has delivered a text.
    ChannelMessage(String),
    /// The WebRTC element has a new pad with this direction.
    PadAdded(PadDirection),
    /// A decoder has a new pad with this media type.
    Decoded(String),
}

/// What a `Notice` says.
pub enum NoticeView {
    NegotiationNeeded,
    IceCandidate { mlineindex: u32, candidate: Seq<char> },
    Created { kind: SdpKind, reply: ReplyView },
    ChannelOffered,
    ChannelMessage(Seq<char>),
    PadAdded(PadDirection),
    Decoded(Seq<char>),
}

impl View for Notice {
    type V = NoticeView;

    open spec fn view(&self) -> NoticeView {
        match self {
            Notice::NegotiationNeeded => NoticeView::NegotiationNeeded,
            Notice::IceCandidate { mlineindex, candidate } => NoticeView::IceCandidate {
                mlineindex: *mlineindex,
                candidate: candidate@,
            },
            Notice::Created { kind, reply } => NoticeView::Created { kind: *kind, reply: reply@ },
            Notice::ChannelOffered => NoticeView::ChannelOffered,
            Notice::ChannelMessage(text) => NoticeView::ChannelMessage(text@),
            Notice::PadAdded(direction) => NoticeView::PadAdded(*direction),
            Notice::Decoded(media_type) => NoticeView::Decoded(media_type@),
        }
    }
}

/// The callbacks of the agent whose failure is posted on the pipeline.
#[derive(Clone, Copy, Debug, PartialEq, Eq, Structural)]
pub enum Callback {
    NegotiationNeeded,
    IceCandidate,
    DescriptionCreated(SdpKind),
    IncomingStream,
    DecodedStream,
}

/// What is posted on the pipeline when a callback fails with this text.
pub open spec fn failure_text(callback: Callback, detail: Seq<char>) -> Seq<char> {
    let what = match callback {
        Callback::NegotiationNeeded => "Failed to negotiate: "@,
        Callback::IceCandidate => "Failed to send ICE candidate: "@,
        Callback::DescriptionCreated(SdpKind::Offer) => "Failed to send SDP offer: "@,
        Callback::DescriptionCreated(SdpKind::Answer) => "Failed to send SDP answer: "@,
        Callback::IncomingStream => "Failed to handle incoming stream: "@,
        Callback::DecodedStream => "Failed to handle decoded stream: "@,
    };
    what + detail
}

impl Callback {
    /// What is posted on the pipeline when this callback fails with this text.
    pub fn failure(self, detail: &str) -> (result: String)
        ensures
            result@ == failure_text(self, detail@),
    {
        let what = match self {
            Callback::NegotiationNeeded => "Failed to negotiate: ",
            Callback::IceCandidate => "Failed to send ICE candidate: ",
            Callback::DescriptionCreated(SdpKind::Offer) => "Failed to send SDP offer: ",
            Callback::DescriptionCreated(SdpKind::Answer) => "Failed to send SDP answer: ",
            Callback::IncomingStream => "Failed to handle incoming stream: ",
            Callback::DecodedStream => "Failed to handle decoded stream: ",
        };
        what.to_string().concat(detail)
    }
}

/// What a result says.
pub open spec fn outcome(result: Result<Vec<Command>, AgentError>) -> Result<
    Seq<CommandView>,
    AgentErrorView,
> {
    match result {
        Ok(commands) => Ok(command_views(commands@)),
        Err(error) => Err(error@),
    }
}

/// The steps that listen to a data channel.
pub open spec fn channel_setup() -> Seq<CommandView> {
    seq![
        CommandView::ConnectChannel(ChannelSignal::Open),
        CommandView::ConnectChannel(ChannelSignal::MessageString),
    ]
}

/// The steps that set up the WebRTC element: its properties, the signals that the agent listens
/// to, a data channel once the pipeline is ready, and the start. Only an agent that joins a
/// peer negotiates of its own accord.
pub open spec fn setup(calls_peer: bool) -> Seq<CommandView> {
    seq![
        CommandView::BindElement { name: "webrtc"@ },
        CommandView::SetProperty { name: "stun-server"@, value: STUN_SERVER@ },
        CommandView::SetProperty { name: "bundle-policy"@, value: "max-bundle"@ },
    ] + (if calls_peer {
        seq![CommandView::Connect(Signal::NegotiationNeeded)]
    } else {
        Seq::empty()
    }) + seq![
        CommandView::Connect(Signal::IceCandidate),
        CommandView::SetState(PipelineState::Ready),
        CommandView::CreateDataChannel { label: "channel"@ },
    ] + channel_setup() + seq![
        CommandView::Connect(Signal::DataChannel),
        CommandView::Connect(Signal::PadAdded),
        CommandView::Play { failure: "Failed to set pipeline to Playing"@ },
    ]
}

/// What is done about a session description of the peer: it is read if it says that it is an
/// offer or an answer.
pub open spec fn sdp_outcome(type_: Seq<char>, sdp: Seq<char>) -> Result<
    Seq<CommandView>,
    AgentErrorView,
> {
    if type_ == "answer"@ {
        Ok(seq![CommandView::ParseSdp { kind: SdpKind::Answer, sdp }])
    } else if type_ == "offer"@ {
        Ok(seq![CommandView::ParseSdp { kind: SdpKind::Offer, sdp }])
    } else {
        Err(AgentErrorView::SdpType(type_))
    }
}

/// What is done about a session description of the peer once it was read: it becomes that of the
/// other side, and an offer is answered.
pub open spec fn parsed_outcome(kind: SdpKind, sdp: Seq<char>, readable: bool) -> Result<
    Seq<CommandView>,
    AgentErrorView,
> {
    if !readable {
        Err(AgentErrorView::SdpParse(kind))
    } else {
        match kind {
            SdpKind::Answer => Ok(seq![CommandView::SetRemoteDescription { kind, sdp }]),
            SdpKind::Offer => Ok(
                seq![
                    CommandView::SetRemoteDescription { kind, sdp },
                    CommandView::CreateAnswer,
                ],
            ),
        }
    }
}

/// What is done about a message of the peer.
pub open spec fn json_outcome(message: JsonMsgView) -> Result<Seq<CommandView>, AgentErrorView> {
    match message {
        JsonMsgView::Sdp { type_, sdp } => sdp_outcome(type_, sdp),
        JsonMsgView::Ice { candidate, sdp_mline_index } => Ok(
            seq![CommandView::AddIceCandidate { sdp_mline_index, candidate }],
        ),
        JsonMsgView::Msg { msg } => Ok(seq![CommandView::DeliverMsg(msg)]),
    }
}

/// Whether the server reports an error with this text.
pub open spec fn reports_error(text: Seq<char>) -> bool {
    "ERROR"@.is_prefix_of(text)
}

/// What is done about a text from the signalling connection, given the message between peers
/// that stands in it, if one does. A text without one is for the application.
pub open spec fn text_outcome(text: Seq<char>, parsed: Option<JsonMsgView>) -> Result<
    Seq<CommandView>,
    AgentErrorView,
> {
    if reports_error(text) {
        Err(AgentErrorView::ServerReported(text))
    } else {
        match parsed {
            Some(message) => json_outcome(message),
            None => Ok(seq![CommandView::DeliverMsg(text)]),
        }
    }
}

/// The view of a message that may be absent.
pub open spec fn parsed_view(parsed: Option<JsonMsg>) -> Option<JsonMsgView> {
    match parsed {
        Some(message) => Some(message@),
        None => None,
    }
}

/// The message that carries a description of this side to the peer.
pub open spec fn description_message(kind: SdpKind, sdp: Seq<char>) -> JsonMsgView {
    JsonMsgView::Sdp { type_: kind.spec_name(), sdp }
}

/// What is done about the answer to a request for a description: it becomes that of this side
/// and goes to the peer.
pub open spec fn created_outcome(kind: SdpKind, reply: ReplyView) -> Result<
    Seq<CommandView>,
    AgentErrorView,
> {
    match reply {
        ReplyView::Description(sdp) => Ok(
            seq![
                CommandView::SetLocalDescription { kind, sdp },
                CommandView::Send {
                    message: WsMessageView::Text(encoding(description_message(kind, sdp))),
                    what: Outgoing::Description(kind),
                },
            ],
        ),
        ReplyView::Nothing => Err(AgentErrorView::NoResponse(kind)),
        ReplyView::Refused(text) => Err(AgentErrorView::ResponseFailed(kind, text)),
    }
}

/// The sink for a decoded stream of this media type, if there is one.
pub open spec fn sink_for(media_type: Seq<char>) -> Option<Seq<char>> {
    if "video/"@.is_prefix_of(media_type) {
        Some("queue ! videoconvert ! videoscale ! autovideosink"@)
    } else if "audio/"@.is_prefix_of(media_type) {
        Some("queue ! audioconvert ! audioresample ! autoaudiosink"@)
    } else {
        None
    }
}

/// What is done about a decoded stream of this media type.
pub open spec fn sink_commands(media_type: Seq<char>) -> Seq<CommandView> {
    match sink_for(media_type) {
        Some(description) => seq![CommandView::AddSink { description }],
        None => Seq::empty(),
    }
}

/// What is done about a new pad of the WebRTC element with this direction.
pub open spec fn decoder_commands(direction: PadDirection) -> Seq<CommandView> {
    if direction == PadDirection::Src {
        seq![CommandView::AddDecoder { element: "decodebin"@ }]
    } else {
        Seq::empty()
    }
}

/// The message that carries a candidate of this side to the peer.
pub open spec fn candidate_commands(mlineindex: u32, candidate: Seq<char>) -> Seq<CommandView> {
    seq![
        CommandView::Send {
            message: WsMessageView::Text(
                encoding(JsonMsgView::Ice { candidate, sdp_mline_index: mlineindex }),
            ),
            what: Outgoing::Candidate,
        },
    ]
}

/// What is logged about a message of the pipeline, or the failure that it reports.
pub open spec fn pipeline_outcome(message: PipelineMessageView) -> Result<
    Option<Seq<char>>,
    AgentErrorView,
> {
    match message {
        PipelineMessageView::Error { source, error, debug } => Err(
            AgentErrorView::Pipeline { source, error, debug },
        ),
        PipelineMessageView::Warning(debug) => Ok(Some("Warning: \""@ + debug + "\""@)),
        PipelineMessageView::Other => Ok(None),
    }
}

/// What a result says.
pub open spec fn log_outcome(result: Result<Option<String>, AgentError>) -> Result<
    Option<Seq<char>>,
    AgentErrorView,
> {
    match result {
        Ok(line) => Ok(option_view(line)),
        Err(error) => Err(error@),
    }
}

/// What is done about a notice. A description that was not created is no reason to stop: the
/// failure is posted on the pipeline.
pub open spec fn notice_commands(notice: NoticeView) -> Seq<CommandView> {
    match notice {
        NoticeView::NegotiationNeeded => seq![CommandView::CreateOffer],
        NoticeView::IceCandidate { mlineindex, candidate } => candidate_commands(
            mlineindex,
            candidate,
        ),
        NoticeView::Created { kind, reply } => match created_outcome(kind, reply) {
            Ok(commands) => commands,
            Err(error) => seq![
                CommandView::PostError(
                    failure_text(Callback::DescriptionCreated(kind), error_text(error)),
                ),
            ],
        },
        NoticeView::ChannelOffered => channel_setup(),
        NoticeView::ChannelMessage(text) => seq![CommandView::DeliverData(text)],
        NoticeView::PadAdded(direction) => decoder_commands(direction),
        NoticeView::Decoded(media_type) => sink_commands(media_type),
    }
}

/// An agent in a session.
#[derive(Debug, PartialEq, Eq)]
pub struct App {
    pub args: Args,
}

impl Clone for App {
    fn clone(&self) -> (result: App)
        ensures
            result.args.server@ == self.args.server@,
            result.args.peer_id == self.args.peer_id,
            result.args.agent_id == self.args.agent_id,
            views(result.args.pipeline@) == views(self.args.pipeline@),
    {
        App { args: self.args.clone() }
    }
}

impl App {
    /// An agent with these arguments, and the steps that set it up.
    pub fn new(args: Args) -> (result: (App, Vec<Command>))
        ensures
            result.0.args == args,
            command_views(result.1@) == setup(args.peer_id is Some),
    {
        let calls_peer = args.peer_id.is_some();
        let app = App { args };
        let mut commands: Vec<Command> = Vec::new();
        commands.push(Command::BindElement { name: "webrtc".to_string() });
        commands.push(
            Command::SetProperty {
                name: "stun-server".to_string(),
                value: STUN_SERVER.to_string(),
            },
        );
        commands.push(
            Command::SetProperty {
                name: "bundle-policy".to_string(),
                value: "max-bundle".to_string(),
            },
        );
        if calls_peer {
            commands.push(Command::Connect(Signal::NegotiationNeeded));
        }
        commands.push(Command::Connect(Signal::IceCandidate));
        commands.push(Command::SetState(PipelineState::Ready));
        commands.push(Command::CreateDataChannel { label: "channel".to_string() });
        let mut channel = app.connect_data_channel_signals();
        commands.append(&mut channel);
        commands.push(Command::Connect(Signal::DataChannel));
        commands.push(Command::Connect(Signal::PadAdded));
        commands.push(Command::Play { failure: "Failed to set pipeline to Playing".to_string() });
        assert(command_views(commands@) =~= setup(calls_peer));
        (app, commands)
    }

    /// The steps that listen to a data channel, be it the agent's own or the peer's.
    pub fn connect_data_channel_signals(&self) -> (result: Vec<Command>)
        ensures
            command_views(result@) == channel_setup(),
    {
        let result: Vec<Command> = vec![
            Command::ConnectChannel(ChannelSignal::Open),
            Command::ConnectChannel(ChannelSignal::MessageString),
        ];
        assert(command_views(result@) =~= channel_setup());
        result
    }

    /// What a data channel delivers goes to the application.
    pub fn on_channel_message(&self, text: String) -> (result: Command)
        ensures
            result@ == CommandView::DeliverData(text@),
    {
        Command::DeliverData(text)
    }

    /// What the application sends goes over the data channel.
    pub fn on_data(&self, text: String) -> (result: Command)
        ensures
            result@ == CommandView::SendString(text@),
    {
        Command::SendString(text)
    }

    /// Handles a notice of the media framework.
    pub fn handle_notice(&self, notice: Notice) -> (result: Vec<Command>)
        ensures
            command_views(result@) == notice_commands(notice@),
    {
        match notice {
            Notice::NegotiationNeeded => self.on_negotiation_needed(),
            Notice::IceCandidate { mlineindex, candidate } => self.on_ice_candidate(
                mlineindex,
                candidate,
            ),
            Notice::Created { kind, reply } => {
                let created = match kind {
                    SdpKind::Offer => self.on_offer_created(reply),
                    SdpKind::Answer => self.on_answer_created(reply),
                };
                match created {
                    Ok(commands) => commands,
                    Err(error) => {
                        let text = Callback::DescriptionCreated(kind).failure(
                            error.message().as_str(),
                        );
                        let ghost posted = text@;
                        let commands: Vec<Command> = vec![Command::PostError(text)];
                        assert(command_views(commands@) =~= seq![CommandView::PostError(posted)]);
                        commands
                    },
                }
            },
            Notice::ChannelOffered => self.connect_data_channel_signals(),
            Notice::ChannelMessage(text) => {
                let ghost content = text@;
                let commands: Vec<Command> = vec![self.on_channel_message(text)];
                assert(command_views(commands@) =~= seq![CommandView::DeliverData(content)]);
                commands
            },
            Notice::PadAdded(direction) => self.on_incoming_stream(direction),
            Notice::Decoded(media_type) => self.on_incoming_decodebin_stream(media_type.as_str()),
        }
    }

    /// Handles a text from the signalling connection. `parse` reads the message between peers
    /// that stands in a text, if one does; it is asked about the text itself, and not at all
    /// where the server reports an error.
    pub fn handle_websocket_message<F: Fn(&str) -> Option<JsonMsg>>(
        &self,
        msg: &str,
        parse: F,
    ) -> (result: Result<Vec<Command>, AgentError>)
        requires
            !reports_error(msg@) ==> call_requires(parse, (msg,)),
        ensures
            reports_error(msg@) ==> outcome(result) == Err::<Seq<CommandView>, AgentErrorView>(
                AgentErrorView::ServerReported(msg@),
            ),
            !reports_error(msg@) ==> exists|parsed: Option<JsonMsg>| #[trigger]
                call_ensures(parse, (msg,), parsed) && outcome(result) == text_outcome(
                    msg@,
                    parsed_view(parsed),
                ),
    {
        if starts_with(msg, "ERROR") {
            return Err(AgentError::ServerReported(msg.to_string()));
        }
        let parsed = parse(msg);
        let ghost given = parsed;
        let result = self.handle_parsed_message(msg, parsed);
        assert(call_ensures(parse, (msg,), given));
        result
    }

    /// Handles a text from the signalling connection, given the message between peers that
    /// stands in it, if one does.
    pub fn handle_parsed_message(&self, msg: &str, parsed: Option<JsonMsg>) -> (result: Result<
        Vec<Command>,
        AgentError,
    >)
        ensures
            outcome(result) == text_outcome(msg@, parsed_view(parsed)),
    {
        if starts_with(msg, "ERROR") {
            return Err(AgentError::ServerReported(msg.to_string()));
        }
        match parsed {
            Some(JsonMsg::Sdp { type_, sdp }) => self.handle_sdp(type_.as_str(), sdp.as_str()),
            Some(JsonMsg::Ice { sdp_mline_index, candidate }) => self.handle_ice(
                sdp_mline_index,
                candidate.as_str(),
            ),
            Some(JsonMsg::Msg { msg: text }) => self.handle_msg(text.as_str()),
            None => self.handle_msg(msg),
        }
    }

    /// Handles a message of the pipeline: a failure ends the agent, a warning is logged.
    pub fn handle_pipeline_message(&self, message: PipelineMessage) -> (result: Result<
        Option<String>,
        AgentError,
    >)
        ensures
            log_outcome(result) == pipeline_outcome(message@),
    {
        match message {
            PipelineMessage::Error { source, error, debug } => Err(
                AgentError::Pipeline { source, error, debug },
            ),
            PipelineMessage::Warning(debug) => Ok(
                Some("Warning: \"".to_string().concat(debug.as_str()).concat("\"")),
            ),
            PipelineMessage::Other => Ok(None),
        }
    }

    /// The WebRTC element wants to negotiate: it is asked for an offer.
    pub fn on_negotiation_needed(&self) -> (result: Vec<Command>)
        ensures
            command_views(result@) == seq![CommandView::CreateOffer],
    {
        let result: Vec<Command> = vec![Command::CreateOffer];
        assert(command_views(result@) =~= seq![CommandView::CreateOffer]);
        result
    }

    /// Handles the answer to a request for an offer.
    pub fn on_offer_created(&self, reply: Reply) -> (result: Result<Vec<Command>, AgentError>)
        ensures
            outcome(result) == created_outcome(SdpKind::Offer, reply@),
    {
        self.on_description_created(SdpKind::Offer, reply)
    }

    /// Handles the answer to a request for an answer.
    pub fn on_answer_created(&self, reply: Reply) -> (result: Result<Vec<Command>, AgentError>)
        ensures
            outcome(result) == created_outcome(SdpKind::Answer, reply@),
    {
        self.on_description_created(SdpKind::Answer, reply)
    }

    fn on_description_created(&self, kind: SdpKind, reply: Reply) -> (result: Result<
        Vec<Command>,
        AgentError,
    >)
        ensures
            outcome(result) == created_outcome(kind, reply@),
    {
        match reply {
            Reply::Nothing => Err(AgentError::NoResponse(kind)),
            Reply::Refused(text) => Err(AgentError::ResponseFailed(kind, text)),
            Reply::Description(sdp) => {
                let ghost text = sdp@;
                let local = sdp.clone();
                let message = JsonMsg::Sdp { type_: kind.name().to_string(), sdp };
                let commands: Vec<Command> = vec![
                    Command::SetLocalDescription { kind, sdp: local },
                    Command::Send {
                        message: WsMessage::Text(message.encode()),
                        what: Outgoing::Description(kind),
                    },
                ];
                assert(command_views(commands@) =~= created_outcome(
                    kind,
                    ReplyView::Description(text),
                )->Ok_0);
                Ok(commands)
            },
        }
    }

    /// Handles a text for the application.
    pub fn handle_msg(&self, msg: &str) -> (result: Result<Vec<Command>, AgentError>)
        ensures
            outcome(result) == Ok::<Seq<CommandView>, AgentErrorView>(
                seq![CommandView::DeliverMsg(msg@)],
            ),
    {
        let commands: Vec<Command> = vec![Command::DeliverMsg(msg.to_string())];
        assert(command_views(commands@) =~= seq![CommandView::DeliverMsg(msg@)]);
        Ok(commands)
    }

    /// Handles a session description of the peer.
    pub fn handle_sdp(&self, type_: &str, sdp: &str) -> (result: Result<Vec<Command>, AgentError>)
        ensures
            outcome(result) == sdp_outcome(type_@, sdp@),
    {
        let kind = if same(type_, "answer") {
            SdpKind::Answer
        } else if same(type_, "offer") {
            SdpKind::Offer
        } else {
            return Err(AgentError::SdpType(type_.to_string()));
        };
        let commands: Vec<Command> = vec![Command::ParseSdp { kind, sdp: sdp.to_string() }];
        assert(command_views(commands@) =~= seq![CommandView::ParseSdp { kind, sdp: sdp@ }]);
        Ok(commands)
    }

    /// Goes on with the session description of the peer that has this text, once it was read.
    /// `SdpKind::timing` says when the steps are carried out.
    pub fn on_sdp_parsed(&self, kind: SdpKind, sdp: String, readable: bool) -> (result: Result<
        Vec<Command>,
        AgentError,
    >)
        ensures
            outcome(result) == parsed_outcome(kind, sdp@, readable),
    {
        if !readable {
            return Err(AgentError::SdpParse(kind));
        }
        let ghost text = sdp@;
        let mut commands: Vec<Command> = vec![Command::SetRemoteDescription { kind, sdp }];
        if kind == SdpKind::Offer {
            commands.push(Command::CreateAnswer);
        }
        assert(command_views(commands@) =~= parsed_outcome(kind, text, true)->Ok_0);
        Ok(commands)
    }

    /// Handles a candidate of the peer.
    pub fn handle_ice(&self, sdp_mline_index: u32, candidate: &str) -> (result: Result<
        Vec<Command>,
        AgentError,
    >)
        ensures
            outcome(result) == Ok::<Seq<CommandView>, AgentErrorView>(
                seq![CommandView::AddIceCandidate { sdp_mline_index, candidate: candidate@ }],
            ),
    {
        let commands: Vec<Command> = vec![
            Command::AddIceCandidate { sdp_mline_index, candidate: candidate.to_string() },
        ];
        assert(command_views(commands@) =~= seq![
            CommandView::AddIceCandidate { sdp_mline_index, candidate: candidate@ },
        ]);
        Ok(commands)
    }

    /// A candidate of this side goes to the peer.
    pub fn on_ice_candidate(&self, mlineindex: u32, candidate: String) -> (result: Vec<Command>)
        ensures
            command_views(result@) == candidate_commands(mlineindex, candidate@),
    {
        let ghost text = candidate@;
        let message = JsonMsg::Ice { candidate, sdp_mline_index: mlineindex };
        let result: Vec<Command> = vec![
            Command::Send {
                message: WsMessage::Text(message.encode()),
                what: Outgoing::Candidate,
            },
        ];
        assert(command_views(result@) =~= candidate_commands(mlineindex, text));
        result
    }

    /// A new pad on the WebRTC element: one that carries a stream of the peer gets a decoder,
    /// one that the agent added itself needs nothing.
    pub fn on_incoming_stream(&self, direction: PadDirection) -> (result: Vec<Command>)
        ensures
            command_views(result@) == decoder_commands(direction),
    {
        let mut result: Vec<Command> = Vec::new();
        if direction == PadDirection::Src {
            result.push(Command::AddDecoder { element: "decodebin".to_string() });
        }
        assert(command_views(result@) =~= decoder_commands(direction));
        result
    }

    /// A decoded stream: it gets a sink for its media type, or is ignored.
    pub fn on_incoming_decodebin_stream(&self, media_type: &str) -> (result: Vec<Command>)
        ensures
            command_views(result@) == sink_commands(media_type@),
    {
        let mut result: Vec<Command> = Vec::new();
        let description = if starts_with(media_type, "video/") {
            "queue ! videoconvert ! videoscale ! autovideosink"
        } else if starts_with(media_type, "audio/") {
            "queue ! audioconvert ! audioresample ! autoaudiosink"
        } else {
            assert(command_views(result@) =~= sink_commands(media_type@));
            return result;
        };
        result.push(Command::AddSink { description: description.to_string() });
        assert(command_views(result@) =~= sink_commands(media_type@));
        result
    }

    /// The end of the agent: the pipeline gives its resources back.
    pub fn shutdown(&self) -> (result: Command)
        ensures
            result@ == CommandView::SetState(PipelineState::Null),
    {
        Command::SetState(PipelineState::Null)
    }
}

/// No message between peers is taken for an error that the server reports.
pub proof fn messages_between_peers_are_no_errors(message: JsonMsgView)
    ensures
        !reports_error(encoding(message)),
{
    reveal_strlit("ERROR");
    reveal_strlit("{\"ice\":{\"candidate\":");
    reveal_strlit("{\"sdp\":{\"type\":");
    reveal_strlit("{\"msg\":{\"msg\":");
    let text = encoding(message);
    assert(text[0] == '{');
    if reports_error(text) {
        assert(text.subrange(0, 5)[0] == "ERROR"@[0]);
    }
}

/// A message that one agent sends is handled by the other as that message, if the other reads
/// it back from its text.
pub proof fn peer_handles_what_was_sent(
    reader: spec_fn(Seq<char>) -> Option<JsonMsgView>,
    message: JsonMsgView,
)
    requires
        reader(encoding(message)) == Some(message),
    ensures
        text_outcome(encoding(message), reader(encoding(message))) == json_outcome(message),
{
    messages_between_peers_are_no_errors(message);
}

/// A candidate of one side is handed to the WebRTC element of the other, unchanged, if the
/// other reads the message back from its text.
pub proof fn candidates_reach_the_peer(
    reader: spec_fn(Seq<char>) -> Option<JsonMsgView>,
    mlineindex: u32,
    candidate: Seq<char>,
)
    requires
        reader(
            encoding(JsonMsgView::Ice { candidate, sdp_mline_index: mlineindex }),
        ) == Some(JsonMsgView::Ice { candidate, sdp_mline_index: mlineindex }),
    ensures
        ({
            let text = encoding(JsonMsgView::Ice { candidate, sdp_mline_index: mlineindex });
            &&& candidate_commands(mlineindex, candidate) == seq![
                CommandView::Send {
                    message: WsMessageView::Text(text),
                    what: Outgoing::Candidate,
                },
            ]
            &&& text_outcome(text, reader(text)) == Ok::<Seq<CommandView>, AgentErrorView>(
                seq![CommandView::AddIceCandidate { sdp_mline_index: mlineindex, candidate }],
            )
        }),
{
    peer_handles_what_was_sent(
        reader,
        JsonMsgView::Ice { candidate, sdp_mline_index: mlineindex },
    );
}

/// A description of one side is read by the other as a description of the same kind with the
/// same text, if the other reads the message back from its text.
pub proof fn descriptions_reach_the_peer(
    reader: spec_fn(Seq<char>) -> Option<JsonMsgView>,
    kind: SdpKind,
    sdp: Seq<char>,
)
    requires
        reader(encoding(description_message(kind, sdp))) == Some(description_message(kind, sdp)),
    ensures
        ({
            let text = encoding(description_message(kind, sdp));
            &&& created_outcome(kind, ReplyView::Description(sdp)) == Ok::<
                Seq<CommandView>,
                AgentErrorView,
            >(
                seq![
                    CommandView::SetLocalDescription { kind, sdp },
                    CommandView::Send {
                        message: WsMessageView::Text(text),
                        what: Outgoing::Description(kind),
                    },
                ],
            )
            &&& text_outcome(text, reader(text)) == Ok::<Seq<CommandView>, AgentErrorView>(
                seq![CommandView::ParseSdp { kind, sdp }],
            )
        }),
{
    reveal_strlit("answer");
    reveal_strlit("offer");
    assert("answer"@.len() == 6);
    assert("offer"@.len() == 5);
    peer_handles_what_was_sent(reader, description_message(kind, sdp));
}

/// A readable offer is answered and a readable answer is not, so that a negotiation ends with
/// the answer; one that cannot be read changes nothing.
pub proof fn offers_are_answered_once(kind: SdpKind, sdp: Seq<char>, readable: bool)
    ensures
        parsed_outcome(kind, sdp, readable) is Ok <==> readable,
        readable ==> parsed_outcome(kind, sdp, readable)->Ok_0[0]
            == (CommandView::SetRemoteDescription { kind, sdp }),
        readable ==> (parsed_outcome(kind, sdp, readable)->Ok_0.contains(CommandView::CreateAnswer)
            <==> kind == SdpKind::Offer),
{
    if readable && kind == SdpKind::Offer {
        assert(parsed_outcome(kind, sdp, readable)->Ok_0[1] == CommandView::CreateAnswer);
    }
}

/// Only an agent that joins a peer is told when to negotiate.
pub proof fn only_callers_negotiate(calls_peer: bool)
    ensures
        setup(calls_peer).contains(CommandView::Connect(Signal::NegotiationNeeded)) <==> calls_peer,
{
    if calls_peer {
        assert(setup(calls_peer)[3] == CommandView::Connect(Signal::NegotiationNeeded));
    }
}

/// The data channel is created once the pipeline is ready, the agent listens to every signal
/// before the pipeline plays, and playing is the last step.
pub proof fn setup_is_ordered(calls_peer: bool)
    ensures
        forall|i: int, j: int|
            0 <= i < setup(calls_peer).len() && 0 <= j < setup(calls_peer).len() && #[trigger] setup(
                calls_peer,
            )[i] == CommandView::SetState(PipelineState::Ready) && #[trigger] setup(
                calls_peer,
            )[j] is CreateDataChannel ==> i < j,
        forall|i: int, j: int|
            0 <= i < setup(calls_peer).len() && 0 <= j < setup(calls_peer).len() && (#[trigger] setup(
                calls_peer,
            )[i] is Connect || setup(calls_peer)[i] is ConnectChannel) && #[trigger] setup(
                calls_peer,
            )[j] is Play ==> i < j,
        setup(calls_peer).contains(CommandView::SetState(PipelineState::Ready)),
        setup(calls_peer).last() == (CommandView::Play {
            failure: "Failed to set pipeline to Playing"@,
        }),
{
    let steps = setup(calls_peer);
    let ready = if calls_peer {
        5int
    } else {
        4int
    };
    assert(steps[ready] == CommandView::SetState(PipelineState::Ready));
}

/// Nothing goes to the peer but the candidates and the descriptions of this side.
pub proof fn peer_is_sent_own_candidates_and_descriptions(notice: NoticeView)
    ensures
        forall|i: int|
            0 <= i < notice_commands(notice).len() && #[trigger] notice_commands(notice)[i] is Send
                ==> notice matches NoticeView::IceCandidate { .. } || notice
                matches NoticeView::Created { reply: ReplyView::Description(_), .. },
{
}

/// What is done about notices that come one after the other.
pub open spec fn commands_after(notices: Seq<NoticeView>) -> Seq<CommandView>
    decreases notices.len(),
{
    if notices.len() == 0 {
        Seq::empty()
    } else {
        commands_after(notices.drop_last()) + notice_commands(notices.last())
    }
}

/// The message to the peer that a command queues for the signalling connection.
pub open spec fn outgoing(command: CommandView) -> Option<WsMessageView> {
    match command {
        CommandView::Send { message, .. } => Some(message),
        _ => None,
    }
}

/// The message to the peer that a notice is about: a candidate or a description of this side.
pub open spec fn own_message(notice: NoticeView) -> Option<WsMessageView> {
    match notice {
        NoticeView::IceCandidate { mlineindex, candidate } => Some(
            WsMessageView::Text(
                encoding(JsonMsgView::Ice { candidate, sdp_mline_index: mlineindex }),
            ),
        ),
        NoticeView::Created { kind, reply: ReplyView::Description(sdp) } => Some(
            WsMessageView::Text(encoding(description_message(kind, sdp))),
        ),
        _ => None,
    }
}

/// The messages that are queued for the peer are, in order, one for each candidate and each
/// description of this side, and nothing else.
pub proof fn own_candidates_and_descriptions_are_queued(notices: Seq<NoticeView>)
    ensures
        commands_after(notices).filter_map(|c: CommandView| outgoing(c)) == notices.filter_map(
            |n: NoticeView| own_message(n),
        ),
    decreases notices.len(),
{
    if notices.len() > 0 {
        let f = |c: CommandView| outgoing(c);
        let commands = notice_commands(notices.last());
        own_candidates_and_descriptions_are_queued(notices.drop_last());
        lemma_filter_map_add(commands_after(notices.drop_last()), commands, f);
        lemma_filter_map_short(commands, f);
        assert(commands.filter_map(f) =~= present(own_message(notices.last())));
    }
}

/// The text that a data channel has delivered, if the notice is about one.
pub open spec fn channel_message(notice: NoticeView) -> Option<Seq<char>> {
    match notice {
        NoticeView::ChannelMessage(text) => Some(text),
        _ => None,
    }
}

/// What a command hands to the application as a text from the data channel.
pub open spec fn delivered_data(command: CommandView) -> Option<Seq<char>> {
    match command {
        CommandView::DeliverData(text) => Some(text),
        _ => None,
    }
}

/// What a command hands to the application as a text from the signalling connection.
pub open spec fn delivered_text(command: CommandView) -> Option<Seq<char>> {
    match command {
        CommandView::DeliverMsg(text) => Some(text),
        _ => None,
    }
}

/// The application is handed the texts that the data channels deliver, all, unchanged and in
/// order, whatever else happens in between, and none of them as a text from the signalling
/// connection. One that it no longer takes is passed over.
pub proof fn channel_texts_reach_the_application(notices: Seq<NoticeView>)
    ensures
        commands_after(notices).filter_map(|c: CommandView| delivered_data(c))
            == notices.filter_map(|n: NoticeView| channel_message(n)),
        commands_after(notices).filter_map(|c: CommandView| delivered_text(c)) == Seq::<
            Seq<char>,
        >::empty(),
        forall|text: Seq<char>|
            #![trigger after_failure(CommandView::DeliverData(text))]
            after_failure(CommandView::DeliverData(text)) == AfterFailure::Ignore,
    decreases notices.len(),
{
    if notices.len() > 0 {
        let data = |c: CommandView| delivered_data(c);
        let text = |c: CommandView| delivered_text(c);
        let before = commands_after(notices.drop_last());
        let commands = notice_commands(notices.last());
        channel_texts_reach_the_application(notices.drop_last());
        lemma_filter_map_add(before, commands, data);
        lemma_filter_map_add(before, commands, text);
        lemma_filter_map_short(commands, data);
        lemma_filter_map_short(commands, text);
        assert(commands.filter_map(data) =~= present(channel_message(notices.last())));
        assert(commands.filter_map(text) =~= Seq::<Seq<char>>::empty());
    }
}

/// What messages of the pipeline, replies and notices say is what they hold.
pub proof fn report_views_keep_the_fields(message: PipelineMessage, reply: Reply, notice: Notice)
    ensures
        message matches PipelineMessage::Error { source, error, debug } ==> message@
            == (PipelineMessageView::Error {
            source: option_view(source),
            error: error@,
            debug: option_view(debug),
        }),
        message matches PipelineMessage::Warning(debug) ==> message@ == PipelineMessageView::Warning(
            debug@,
        ),
        message is Other ==> message@ == PipelineMessageView::Other,
        reply matches Reply::Description(sdp) ==> reply@ == ReplyView::Description(sdp@),
        reply is Nothing ==> reply@ == ReplyView::Nothing,
        reply matches Reply::Refused(text) ==> reply@ == ReplyView::Refused(text@),
        notice is NegotiationNeeded ==> notice@ == NoticeView::NegotiationNeeded,
        notice matches Notice::IceCandidate { mlineindex, candidate } ==> notice@
            == (NoticeView::IceCandidate { mlineindex, candidate: candidate@ }),
        notice matches Notice::Created { kind, reply: answer } ==> notice@ == (NoticeView::Created {
            kind,
            reply: answer@,
        }),
        notice is ChannelOffered ==> notice@ == NoticeView::ChannelOffered,
        notice matches Notice::ChannelMessage(text) ==> notice@ == NoticeView::ChannelMessage(
            text@,
        ),
        notice matches Notice::PadAdded(direction) ==> notice@ == NoticeView::PadAdded(direction),
        notice matches Notice::Decoded(media_type) ==> notice@ == NoticeView::Decoded(media_type@),
{
}

/// What results say is what they hold.
pub proof fn result_views_keep_the_content(
    commands: Vec<Command>,
    error: AgentError,
    line: Option<String>,
    message: JsonMsg,
)
    ensures
        outcome(Ok(commands)) == Ok::<Seq<CommandView>, AgentErrorView>(command_views(commands@)),
        outcome(Err(error)) == Err::<Seq<CommandView>, AgentErrorView>(error@),
        log_outcome(Ok(line)) == Ok::<Option<Seq<char>>, AgentErrorView>(option_view(line)),
        log_outcome(Err(error)) == Err::<Option<Seq<char>>, AgentErrorView>(error@),
        parsed_view(Some(message)) == Some(message@),
        parsed_view(None) is None,
{
}

/// Where the steps of the set-up stand.
proof fn lemma_setup_positions(calls_peer: bool, k: int)
    requires
        k == (if calls_peer {
            1int
        } else {
            0int
        }),
    ensures
        setup(calls_peer).len() == 11 + k,
        setup(calls_peer)[0] == (CommandView::BindElement { name: "webrtc"@ }),
        setup(calls_peer)[1] == (CommandView::SetProperty {
            name: "stun-server"@,
            value: "stun://stun.l.google.com:19302"@,
        }),
        setup(calls_peer)[2] == (CommandView::SetProperty {
            name: "bundle-policy"@,
            value: "max-bundle"@,
        }),
        calls_peer ==> setup(calls_peer)[3] == CommandView::Connect(Signal::NegotiationNeeded),
        setup(calls_peer)[3 + k] == CommandView::Connect(Signal::IceCandidate),
        setup(calls_peer)[4 + k] == CommandView::SetState(PipelineState::Ready),
        setup(calls_peer)[5 + k] == (CommandView::CreateDataChannel { label: "channel"@ }),
        setup(calls_peer)[6 + k] == CommandView::ConnectChannel(ChannelSignal::Open),
        setup(calls_peer)[7 + k] == CommandView::ConnectChannel(ChannelSignal::MessageString),
        setup(calls_peer)[8 + k] == CommandView::Connect(Signal::DataChannel),
        setup(calls_peer)[9 + k] == CommandView::Connect(Signal::PadAdded),
        setup(calls_peer)[10 + k] == (CommandView::Play {
            failure: "Failed to set pipeline to Playing"@,
        }),
{
}

/// The place of a step in the set-up.
spec fn place(command: CommandView, k: int) -> int {
    match command {
        CommandView::BindElement { .. } => 0,
        CommandView::SetProperty { name, .. } => if name.len() == 11 {
            1
        } else {
            2
        },
        CommandView::Connect(Signal::NegotiationNeeded) => 3,
        CommandView::Connect(Signal::IceCandidate) => 3 + k,
        CommandView::SetState(_) => 4 + k,
        CommandView::CreateDataChannel { .. } => 5 + k,
        CommandView::ConnectChannel(ChannelSignal::Open) => 6 + k,
        CommandView::ConnectChannel(ChannelSignal::MessageString) => 7 + k,
        CommandView::Connect(Signal::DataChannel) => 8 + k,
        CommandView::Connect(Signal::PadAdded) => 9 + k,
        _ => 10 + k,
    }
}

/// A step that stands in its own place, as all others do, stands there alone.
proof fn lemma_once(steps: Seq<CommandView>, k: int, i: int)
    requires
        forall|j: int| 0 <= j < steps.len() ==> place(#[trigger] steps[j], k) == j,
        0 <= i < steps.len(),
    ensures
        once(steps, steps[i]),
{
    assert forall|j: int| 0 <= j < steps.len() && #[trigger] steps[j] == steps[i] implies j
        == i by {
        assert(place(steps[i], k) == i);
    }
}

/// The set-up holds each of its steps once, whether or not the agent joins a peer: it finds the
/// WebRTC element, sets its two properties, listens to candidates, data channels and pads, makes
/// the pipeline ready, opens a data channel, listens to both of its signals and plays. A caller
/// also listens for the need to negotiate. There are no other steps.
pub proof fn setup_holds_each_step_once(calls_peer: bool)
    ensures
        once(setup(calls_peer), CommandView::BindElement { name: "webrtc"@ }),
        once(
            setup(calls_peer),
            CommandView::SetProperty {
                name: "stun-server"@,
                value: "stun://stun.l.google.com:19302"@,
            },
        ),
        once(
            setup(calls_peer),
            CommandView::SetProperty { name: "bundle-policy"@, value: "max-bundle"@ },
        ),
        once(setup(calls_peer), CommandView::Connect(Signal::IceCandidate)),
        once(setup(calls_peer), CommandView::Connect(Signal::DataChannel)),
        once(setup(calls_peer), CommandView::Connect(Signal::PadAdded)),
        once(setup(calls_peer), CommandView::SetState(PipelineState::Ready)),
        once(setup(calls_peer), CommandView::CreateDataChannel { label: "channel"@ }),
        once(setup(calls_peer), CommandView::ConnectChannel(ChannelSignal::Open)),
        once(setup(calls_peer), CommandView::ConnectChannel(ChannelSignal::MessageString)),
        once(
            setup(calls_peer),
            CommandView::Play { failure: "Failed to set pipeline to Playing"@ },
        ),
        calls_peer ==> once(setup(calls_peer), CommandView::Connect(Signal::NegotiationNeeded)),
        setup(calls_peer).len() == (if calls_peer {
            12int
        } else {
            11int
        }),
{
    let steps = setup(calls_peer);
    let k = if calls_peer {
        1int
    } else {
        0int
    };
    lemma_setup_positions(calls_peer, k);
    assert("stun-server"@.len() == 11 && "bundle-policy"@.len() == 13) by {
        reveal_strlit("stun-server");
        reveal_strlit("bundle-policy");
    }
    assert(place(steps[0], k) == 0 && place(steps[1], k) == 1 && place(steps[2], k) == 2);
    assert(calls_peer ==> place(steps[3], k) == 3);
    assert(place(steps[3 + k], k) == 3 + k && place(steps[4 + k], k) == 4 + k);
    assert(place(steps[5 + k], k) == 5 + k && place(steps[6 + k], k) == 6 + k);
    assert(place(steps[7 + k], k) == 7 + k && place(steps[8 + k], k) == 8 + k);
    assert(place(steps[9 + k], k) == 9 + k && place(steps[10 + k], k) == 10 + k);
    assert forall|j: int| 0 <= j < steps.len() implies place(#[trigger] steps[j], k) == j by {
        if j >= 3 + k {
            let d = j - k;
            assert(d == 3 || d == 4 || d == 5 || d == 6 || d == 7 || d == 8 || d == 9 || d == 10);
        }
    }
    assert forall|j: int| 0 <= j < steps.len() implies once(steps, #[trigger] steps[j]) by {
        lemma_once(steps, k, j);
    }
}

/// The order of the set-up: the element is found and given its properties before anything is
/// listened to, the data channel is opened on a ready pipeline and listened to before the peer's,
/// and everything is in place before the pipeline plays.
pub proof fn setup_steps_stand_in_order(calls_peer: bool)
    ensures
        ({
            let steps = setup(calls_peer);
            let stun = CommandView::SetProperty {
                name: "stun-server"@,
                value: "stun://stun.l.google.com:19302"@,
            };
            let bundle = CommandView::SetProperty {
                name: "bundle-policy"@,
                value: "max-bundle"@,
            };
            let negotiation = CommandView::Connect(Signal::NegotiationNeeded);
            let candidates = CommandView::Connect(Signal::IceCandidate);
            let ready = CommandView::SetState(PipelineState::Ready);
            let channel = CommandView::CreateDataChannel { label: "channel"@ };
            let open = CommandView::ConnectChannel(ChannelSignal::Open);
            let texts = CommandView::ConnectChannel(ChannelSignal::MessageString);
            let channels = CommandView::Connect(Signal::DataChannel);
            let pads = CommandView::Connect(Signal::PadAdded);
            let play = CommandView::Play { failure: "Failed to set pipeline to Playing"@ };
            &&& precedes(steps, CommandView::BindElement { name: "webrtc"@ }, stun)
            &&& precedes(steps, stun, bundle)
            &&& precedes(steps, bundle, candidates)
            &&& calls_peer ==> precedes(steps, bundle, negotiation) && precedes(
                steps,
                negotiation,
                candidates,
            )
            &&& precedes(steps, candidates, ready)
            &&& precedes(steps, ready, channel)
            &&& precedes(steps, channel, open)
            &&& precedes(steps, open, texts)
            &&& precedes(steps, texts, channels)
            &&& precedes(steps, channels, pads)
            &&& precedes(steps, pads, play)
        }),
{
    let k = if calls_peer {
        1int
    } else {
        0int
    };
    lemma_setup_positions(calls_peer, k);
}

/// A caller is set up as a callee is, but for the one step that listens for the need to negotiate.
pub proof fn callers_and_callees_differ_in_negotiation_alone()
    ensures
        exists|i: int|
            0 <= i < setup(true).len() && #[trigger] setup(true)[i] == CommandView::Connect(
                Signal::NegotiationNeeded,
            ) && setup(true).remove(i) == setup(false),
{
    assert(setup(true)[3] == CommandView::Connect(Signal::NegotiationNeeded));
    assert(setup(true).remove(3) =~= setup(false));
}

/// What is done about a text from the signalling connection: one that begins with `ERROR` is an
/// error of the server, whatever is read from it. In any other, whatever it looks like, a
/// candidate that is read from it is handed to the WebRTC element, a description is read if it is
/// an offer or an answer and refused if it is not, and a text for the application is delivered;
/// where nothing is read from it, the text itself is.
pub proof fn texts_are_handled_by_what_is_read_from_them(
    text: Seq<char>,
    index: u32,
    a: Seq<char>,
    b: Seq<char>,
)
    ensures
        "ERROR"@.is_prefix_of(text) ==> forall|parsed: Option<JsonMsgView>| #[trigger]
            text_outcome(text, parsed) == Err::<Seq<CommandView>, AgentErrorView>(
                AgentErrorView::ServerReported(text),
            ),
        !"ERROR"@.is_prefix_of(text) ==> {
            &&& text_outcome(
                text,
                Some(JsonMsgView::Ice { candidate: a, sdp_mline_index: index }),
            ) == Ok::<Seq<CommandView>, AgentErrorView>(
                seq![CommandView::AddIceCandidate { sdp_mline_index: index, candidate: a }],
            )
            &&& text_outcome(text, Some(JsonMsgView::Sdp { type_: "offer"@, sdp: b })) == Ok::<
                Seq<CommandView>,
                AgentErrorView,
            >(seq![CommandView::ParseSdp { kind: SdpKind::Offer, sdp: b }])
            &&& text_outcome(text, Some(JsonMsgView::Sdp { type_: "answer"@, sdp: b })) == Ok::<
                Seq<CommandView>,
                AgentErrorView,
            >(seq![CommandView::ParseSdp { kind: SdpKind::Answer, sdp: b }])
            &&& a != "offer"@ && a != "answer"@ ==> text_outcome(
                text,
                Some(JsonMsgView::Sdp { type_: a, sdp: b }),
            ) == Err::<Seq<CommandView>, AgentErrorView>(AgentErrorView::SdpType(a))
            &&& text_outcome(text, Some(JsonMsgView::Msg { msg: a })) == Ok::<
                Seq<CommandView>,
                AgentErrorView,
            >(seq![CommandView::DeliverMsg(a)])
            &&& text_outcome(text, None) == Ok::<Seq<CommandView>, AgentErrorView>(
                seq![CommandView::DeliverMsg(text)],
            )
        },
        reports_error(text) <==> "ERROR"@.is_prefix_of(text),
{
    reveal_strlit("offer");
    reveal_strlit("answer");
    assert("offer"@.len() != "answer"@.len());
}

/// A description of the peer is read if it calls itself an offer or an answer, and refused by its
/// own name if it does not.
pub proof fn descriptions_are_told_apart_by_their_type(type_: Seq<char>, sdp: Seq<char>)
    ensures
        sdp_outcome("offer"@, sdp) == Ok::<Seq<CommandView>, AgentErrorView>(
            seq![CommandView::ParseSdp { kind: SdpKind::Offer, sdp }],
        ),
        sdp_outcome("answer"@, sdp) == Ok::<Seq<CommandView>, AgentErrorView>(
            seq![CommandView::ParseSdp { kind: SdpKind::Answer, sdp }],
        ),
        type_ != "offer"@ && type_ != "answer"@ ==> sdp_outcome(type_, sdp) == Err::<
            Seq<CommandView>,
            AgentErrorView,
        >(AgentErrorView::SdpType(type_)),
{
    reveal_strlit("offer");
    reveal_strlit("answer");
    assert("offer"@.len() != "answer"@.len());
}

/// A description of the peer that was read becomes that of the other side, and after an offer an
/// answer is asked for; one that cannot be read is an error that names its kind.
pub proof fn read_descriptions_are_set_and_offers_answered(sdp: Seq<char>)
    ensures
        parsed_outcome(SdpKind::Offer, sdp, true) == Ok::<Seq<CommandView>, AgentErrorView>(
            seq![
                CommandView::SetRemoteDescription { kind: SdpKind::Offer, sdp },
                CommandView::CreateAnswer,
            ],
        ),
        parsed_outcome(SdpKind::Answer, sdp, true) == Ok::<Seq<CommandView>, AgentErrorView>(
            seq![CommandView::SetRemoteDescription { kind: SdpKind::Answer, sdp }],
        ),
        forall|kind: SdpKind| #[trigger]
            parsed_outcome(kind, sdp, false) == Err::<Seq<CommandView>, AgentErrorView>(
                AgentErrorView::SdpParse(kind),
            ),
{
}

/// A description that the WebRTC element has created becomes that of this side and then goes to
/// the peer, under the name of its kind, whether it is an offer or an answer.
pub proof fn created_descriptions_are_set_then_sent(sdp: Seq<char>)
    ensures
        ({
            let offer = seq![
                CommandView::SetLocalDescription { kind: SdpKind::Offer, sdp },
                CommandView::Send {
                    message: WsMessageView::Text(
                        encoding(JsonMsgView::Sdp { type_: "offer"@, sdp }),
                    ),
                    what: Outgoing::Description(SdpKind::Offer),
                },
            ];
            let answer = seq![
                CommandView::SetLocalDescription { kind: SdpKind::Answer, sdp },
                CommandView::Send {
                    message: WsMessageView::Text(
                        encoding(JsonMsgView::Sdp { type_: "answer"@, sdp }),
                    ),
                    what: Outgoing::Description(SdpKind::Answer),
                },
            ];
            let reply = ReplyView::Description(sdp);
            &&& notice_commands(NoticeView::Created { kind: SdpKind::Offer, reply }) == offer
            &&& notice_commands(NoticeView::Created { kind: SdpKind::Answer, reply }) == answer
            &&& created_outcome(SdpKind::Offer, reply) == Ok::<Seq<CommandView>, AgentErrorView>(
                offer,
            )
            &&& created_outcome(SdpKind::Answer, reply) == Ok::<Seq<CommandView>, AgentErrorView>(
                answer,
            )
        }),
{
}

/// A description that was not created is an error, and what is posted on the pipeline says which
/// kind of description it was and why there is none.
pub proof fn failed_descriptions_are_posted(text: Seq<char>)
    ensures
        forall|kind: SdpKind| #[trigger]
            created_outcome(kind, ReplyView::Nothing) == Err::<Seq<CommandView>, AgentErrorView>(
                AgentErrorView::NoResponse(kind),
            ),
        forall|kind: SdpKind| #[trigger]
            created_outcome(kind, ReplyView::Refused(text)) == Err::<
                Seq<CommandView>,
                AgentErrorView,
            >(AgentErrorView::ResponseFailed(kind, text)),
        notice_commands(NoticeView::Created { kind: SdpKind::Offer, reply: ReplyView::Nothing })
            == seq![
            CommandView::PostError(
                "Failed to send SDP offer: "@ + ("Offer"@ + " creation future got no reponse"@),
            ),
        ],
        notice_commands(NoticeView::Created { kind: SdpKind::Answer, reply: ReplyView::Nothing })
            == seq![
            CommandView::PostError(
                "Failed to send SDP answer: "@ + ("Answer"@ + " creation future got no reponse"@),
            ),
        ],
        notice_commands(
            NoticeView::Created { kind: SdpKind::Offer, reply: ReplyView::Refused(text) },
        ) == seq![
            CommandView::PostError(
                "Failed to send SDP offer: "@ + ("Offer"@
                    + " creation future got error reponse: "@ + text),
            ),
        ],
        notice_commands(
            NoticeView::Created { kind: SdpKind::Answer, reply: ReplyView::Refused(text) },
        ) == seq![
            CommandView::PostError(
                "Failed to send SDP answer: "@ + ("Answer"@
                    + " creation future got error reponse: "@ + text),
            ),
        ],
{
}

/// The need to negotiate leads to a request for an offer, a candidate of this side to one message
/// to the peer that holds it, a data channel of the peer to listening to both of its signals and a
/// text from a data channel to its delivery; nothing else is done.
pub proof fn notices_are_acted_on(index: u32, text: Seq<char>)
    ensures
        notice_commands(NoticeView::NegotiationNeeded) == seq![CommandView::CreateOffer],
        notice_commands(NoticeView::IceCandidate { mlineindex: index, candidate: text }) == seq![
            CommandView::Send {
                message: WsMessageView::Text(
                    encoding(JsonMsgView::Ice { candidate: text, sdp_mline_index: index }),
                ),
                what: Outgoing::Candidate,
            },
        ],
        candidate_commands(index, text) == notice_commands(
            NoticeView::IceCandidate { mlineindex: index, candidate: text },
        ),
        notice_commands(NoticeView::ChannelOffered) == seq![
            CommandView::ConnectChannel(ChannelSignal::Open),
            CommandView::ConnectChannel(ChannelSignal::MessageString),
        ],
        channel_setup() == notice_commands(NoticeView::ChannelOffered),
        notice_commands(NoticeView::ChannelMessage(text)) == seq![CommandView::DeliverData(text)],
{
}

/// A stream of the peer gets one decoder. A pad that is no source gets none.
pub proof fn streams_of_the_peer_are_decoded(direction: PadDirection)
    ensures
        direction is Src ==> notice_commands(NoticeView::PadAdded(direction)) == seq![
            CommandView::AddDecoder { element: "decodebin"@ },
        ],
        direction !is Src ==> notice_commands(NoticeView::PadAdded(direction)) == Seq::<
            CommandView,
        >::empty(),
        decoder_commands(direction) == notice_commands(NoticeView::PadAdded(direction)),
{
}

/// A decoded stream whose media type begins with `video/` gets one sink that shows it, one whose
/// media type begins with `audio/` gets one that plays it; any other is ignored.
pub proof fn decoded_streams_get_their_sink(media_type: Seq<char>)
    ensures
        "video/"@.is_prefix_of(media_type) ==> notice_commands(NoticeView::Decoded(media_type))
            == seq![
            CommandView::AddSink {
                description: "queue ! videoconvert ! videoscale ! autovideosink"@,
            },
        ],
        "audio/"@.is_prefix_of(media_type) ==> notice_commands(NoticeView::Decoded(media_type))
            == seq![
            CommandView::AddSink {
                description: "queue ! audioconvert ! audioresample ! autoaudiosink"@,
            },
        ],
        !"video/"@.is_prefix_of(media_type) && !"audio/"@.is_prefix_of(media_type)
            ==> notice_commands(NoticeView::Decoded(media_type)) == Seq::<CommandView>::empty(),
        sink_commands(media_type) == notice_commands(NoticeView::Decoded(media_type)),
{
    reveal_strlit("video/");
    reveal_strlit("audio/");
    if "video/"@.is_prefix_of(media_type) && "audio/"@.is_prefix_of(media_type) {
        assert(media_type.subrange(0, 6)[0] == 'v');
        assert(media_type.subrange(0, 6)[0] == 'a');
    }
}

/// What is posted on the pipeline says which callback has failed, and why.
pub proof fn posted_failures_name_the_callback(detail: Seq<char>)
    ensures
        failure_text(Callback::NegotiationNeeded, detail) == "Failed to negotiate: "@ + detail,
        failure_text(Callback::IceCandidate, detail) == "Failed to send ICE candidate: "@ + detail,
        failure_text(Callback::DescriptionCreated(SdpKind::Offer), detail)
            == "Failed to send SDP offer: "@ + detail,
        failure_text(Callback::DescriptionCreated(SdpKind::Answer), detail)
            == "Failed to send SDP answer: "@ + detail,
        failure_text(Callback::IncomingStream, detail) == "Failed to handle incoming stream: "@
            + detail,
        failure_text(Callback::DecodedStream, detail) == "Failed to handle decoded stream: "@
            + detail,
{
}

/// A failure of the pipeline is an error with all that it says, a warning is logged with its
/// details and anything else is passed over.
pub proof fn pipeline_messages_are_told_apart(
    source: Option<Seq<char>>,
    error: Seq<char>,
    debug: Option<Seq<char>>,
)
    ensures
        pipeline_outcome(PipelineMessageView::Error { source, error, debug }) == Err::<
            Option<Seq<char>>,
            AgentErrorView,
        >(AgentErrorView::Pipeline { source, error, debug }),
        pipeline_outcome(PipelineMessageView::Warning(error)) == Ok::<
            Option<Seq<char>>,
            AgentErrorView,
        >(Some("Warning: \""@ + error + "\""@)),
        pipeline_outcome(PipelineMessageView::Other) == Ok::<Option<Seq<char>>, AgentErrorView>(
            None,
        ),
{
}

/// The description that a command makes that of this side.
pub open spec fn local_description(command: CommandView) -> Option<(SdpKind, Seq<char>)> {
    match command {
        CommandView::SetLocalDescription { kind, sdp } => Some((kind, sdp)),
        _ => None,
    }
}

/// The description that the WebRTC element has created, if the notice is about one.
pub open spec fn created_description(notice: NoticeView) -> Option<(SdpKind, Seq<char>)> {
    match notice {
        NoticeView::Created { kind, reply: ReplyView::Description(sdp) } => Some((kind, sdp)),
        _ => None,
    }
}

/// The sink that a command builds.
pub open spec fn sink_built(command: CommandView) -> Option<Seq<char>> {
    match command {
        CommandView::AddSink { description } => Some(description),
        _ => None,
    }
}

/// The sink that a decoded stream calls for, if the notice is about one.
pub open spec fn sink_called_for(notice: NoticeView) -> Option<Seq<char>> {
    match notice {
        NoticeView::Decoded(media_type) => if "video/"@.is_prefix_of(media_type) {
            Some("queue ! videoconvert ! videoscale ! autovideosink"@)
        } else if "audio/"@.is_prefix_of(media_type) {
            Some("queue ! audioconvert ! audioresample ! autoaudiosink"@)
        } else {
            None
        },
        _ => None,
    }
}

/// Whatever else happens, the descriptions that become those of this side are, in order and once
/// each, those that the WebRTC element creates, and the sinks that are built are, in order and
/// once each, those that the decoded streams call for.
pub proof fn created_descriptions_and_decoded_streams_are_taken_up(notices: Seq<NoticeView>)
    ensures
        commands_after(notices).filter_map(|c: CommandView| local_description(c))
            == notices.filter_map(|n: NoticeView| created_description(n)),
        commands_after(notices).filter_map(|c: CommandView| sink_built(c)) == notices.filter_map(
            |n: NoticeView| sink_called_for(n),
        ),
    decreases notices.len(),
{
    if notices.len() > 0 {
        let local = |c: CommandView| local_description(c);
        let sink = |c: CommandView| sink_built(c);
        let before = commands_after(notices.drop_last());
        let commands = notice_commands(notices.last());
        created_descriptions_and_decoded_streams_are_taken_up(notices.drop_last());
        lemma_filter_map_add(before, commands, local);
        lemma_filter_map_add(before, commands, sink);
        lemma_filter_map_short(commands, local);
        lemma_filter_map_short(commands, sink);
        assert(commands.filter_map(local) =~= present(created_description(notices.last())));
        assert(commands.filter_map(sink) =~= present(sink_called_for(notices.last())));
    }
}

/// The message that carries a description of this side to the peer, under the name of its kind.
pub open spec fn description_sent(kind: SdpKind, sdp: Seq<char>) -> CommandView {
    CommandView::Send {
        message: WsMessageView::Text(
            encoding(
                JsonMsgView::Sdp {
                    type_: if kind == SdpKind::Offer {
                        "offer"@
                    } else {
                        "answer"@
                    },
                    sdp,
                },
            ),
        ),
        what: Outgoing::Description(kind),
    }
}

/// Whether a list of commands sends each description of this side right after it is set, and
/// none that is not set.
pub open spec fn set_then_sent(commands: Seq<CommandView>) -> bool {
    &&& forall|i: int|
        0 <= i < commands.len() && (#[trigger] commands[i]) is SetLocalDescription ==> i + 1
            < commands.len() && commands[i + 1] == description_sent(
            commands[i]->SetLocalDescription_kind,
            commands[i]->SetLocalDescription_sdp,
        )
    &&& forall|i: int|
        0 <= i < commands.len() && (#[trigger] commands[i]) is Send && commands[i]->what
            is Description ==> 0 < i && commands[i - 1] is SetLocalDescription
}

proof fn lemma_set_then_sent_add(left: Seq<CommandView>, right: Seq<CommandView>)
    requires
        set_then_sent(left),
        set_then_sent(right),
    ensures
        set_then_sent(left + right),
{
    let all = left + right;
    assert forall|i: int|
        0 <= i < all.len() && (#[trigger] all[i]) is SetLocalDescription implies i + 1 < all.len()
        && all[i + 1] == description_sent(
        all[i]->SetLocalDescription_kind,
        all[i]->SetLocalDescription_sdp,
    ) by {
        if i < left.len() {
            assert(all[i] == left[i] && all[i + 1] == left[i + 1]);
        } else {
            let k = i - left.len();
            assert(all[i] == right[k] && right[k] is SetLocalDescription);
            assert(all[i + 1] == right[k + 1]);
        }
    }
    assert forall|i: int|
        0 <= i < all.len() && (#[trigger] all[i]) is Send && all[i]->what is Description implies 0
        < i && all[i - 1] is SetLocalDescription by {
        if i < left.len() {
            assert(all[i] == left[i] && all[i - 1] == left[i - 1]);
        } else {
            let k = i - left.len();
            assert(all[i] == right[k] && right[k] is Send);
            assert(all[i - 1] == right[k - 1]);
        }
    }
}

proof fn lemma_notice_sets_then_sends(notice: NoticeView)
    ensures
        set_then_sent(notice_commands(notice)),
{
    let commands = notice_commands(notice);
    match notice {
        NoticeView::Created { kind, reply: ReplyView::Description(sdp) } => {
            assert(commands[0] == CommandView::SetLocalDescription { kind, sdp });
            assert(commands[1] == description_sent(kind, sdp));
        },
        _ => {},
    }
}

/// Whatever else happens, a description of this side is set right before it is sent, and none is
/// sent that was not set.
pub proof fn descriptions_are_set_before_they_are_sent(notices: Seq<NoticeView>)
    ensures
        set_then_sent(commands_after(notices)),
    decreases notices.len(),
{
    if notices.len() > 0 {
        descriptions_are_set_before_they_are_sent(notices.drop_last());
        lemma_notice_sets_then_sends(notices.last());
        lemma_set_then_sent_add(
            commands_after(notices.drop_last()),
            notice_commands(notices.last()),
        );
    }
}

} // verus!
