//! What the agent asks the media framework and the connections around it to do.

use vstd::prelude::*;

use crate::message::{WsMessage, WsMessageView};

verus! {

/// The two kinds of session description.
#[derive(Clone, Copy, Debug, PartialEq, Eq, Structural)]
pub enum SdpKind {
    Offer,
    Answer,
}

impl SdpKind {
    /// The name of this kind in the messages between peers.
    pub open spec fn spec_name(self) -> Seq<char> {
        match self {
            SdpKind::Offer => "offer"@,
            SdpKind::Answer => "answer"@,
        }
    }

    /// The name of this kind in the messages between peers.
    pub fn name(self) -> (result: &'static str)
        ensures
            result@ == self.spec_name(),
    {
        match self {
            SdpKind::Offer => "offer",
            SdpKind::Answer => "answer",
        }
    }

    /// When the steps about a description of the peer are carried out, once it was read.
    pub open spec fn spec_timing(self) -> Timing {
        match self {
            SdpKind::Offer => Timing::Later,
            SdpKind::Answer => Timing::AtOnce,
        }
    }

    /// When the steps about a description of the peer are carried out, once it was read: the
    /// pipeline has to be started before it can answer an offer.
    pub fn timing(self) -> (result: Timing)
        ensures
            result == self.spec_timing(),
    {
        match self {
            SdpKind::Offer => Timing::Later,
            SdpKind::Answer => Timing::AtOnce,
        }
    }
}

/// When steps are carried out.
#[derive(Clone, Copy, Debug, PartialEq, Eq, Structural)]
pub enum Timing {
    /// Before the loop goes on.
    AtOnce,
    /// On a thread of the pipeline, without the loop waiting for it.
    Later,
}

/// What a message to the peer carries.
#[derive(Clone, Copy, Debug, PartialEq, Eq, Structural)]
pub enum Outgoing {
    Description(SdpKind),
    Candidate,
}

/// The signals of the WebRTC element that the agent listens to.
#[derive(Clone, Copy, Debug, PartialEq, Eq, Structural)]
pub enum Signal {
    NegotiationNeeded,
    IceCandidate,
    DataChannel,
    PadAdded,
}

impl Signal {
    /// The name under which the element emits this signal.
    pub open spec fn spec_name(self) -> Seq<char> {
        match self {
            Signal::NegotiationNeeded => "on-negotiation-needed"@,
            Signal::IceCandidate => "on-ice-candidate"@,
            Signal::DataChannel => "on-data-channel"@,
            Signal::PadAdded => "pad-added"@,
        }
    }

    /// The name under which the element emits this signal.
    pub fn name(self) -> (result: &'static str)
        ensures
            result@ == self.spec_name(),
    {
        match self {
            Signal::NegotiationNeeded => "on-negotiation-needed",
            Signal::IceCandidate => "on-ice-candidate",
            Signal::DataChannel => "on-data-channel",
            Signal::PadAdded => "pad-added",
        }
    }
}

/// The signals of a data channel that the agent listens to.
#[derive(Clone, Copy, Debug, PartialEq, Eq, Structural)]
pub enum ChannelSignal {
    Open,
    MessageString,
}

impl ChannelSignal {
    /// The name under which the data channel emits this signal.
    pub open spec fn spec_name(self) -> Seq<char> {
        match self {
            ChannelSignal::Open => "on-open"@,
            ChannelSignal::MessageString => "on-message-string"@,
        }
    }

    /// The name under which the data channel emits this signal.
    pub fn name(self) -> (result: &'static str)
        ensures
            result@ == self.spec_name(),
    {
        match self {
            ChannelSignal::Open => "on-open",
            ChannelSignal::MessageString => "on-message-string",
        }
    }
}

/// The states that the agent puts the pipeline into at once.
#[derive(Clone, Copy, Debug, PartialEq, Eq, Structural)]
pub enum PipelineState {
    Ready,
    Null,
}

/// What becomes of the failure of a step.
#[derive(Clone, Copy, Debug, PartialEq, Eq, Structural)]
pub enum AfterFailure {
    /// It is passed over.
    Ignore,
    /// The session ends with it.
    EndSession,
    /// It is posted on the pipeline as an error.
    Post,
    /// The step does not fail on a pipeline that is set up; nothing is provided for it.
    NotExpected,
}

/// One step that is carried out outside of the agent's own logic.
#[derive(Debug, PartialEq, Eq)]
pub enum Command {
    /// Find the WebRTC element of the pipeline by its name.
    BindElement { name: String },
    /// Set a property of the WebRTC element.
    SetProperty { name: String, value: String },
    /// Listen to a signal of the WebRTC element.
    Connect(Signal),
    /// Put the pipeline into a state.
    SetState(PipelineState),
    /// Start playing, without waiting for it. If that fails, an error with this text is posted
    /// on the pipeline.
    Play { failure: String },
    /// Create a data channel on the WebRTC element.
    CreateDataChannel { label: String },
    /// Listen to a signal of the data channel.
    ConnectChannel(ChannelSignal),
    /// Send a text over the data channel.
    SendString(String),
    /// Read a session description from its text.
    ParseSdp { kind: SdpKind, sdp: String },
    /// Make the description with this text that of the other side.
    SetRemoteDescription { kind: SdpKind, sdp: String },
    /// Make the description with this text that of this side.
    SetLocalDescription { kind: SdpKind, sdp: String },
    /// Ask the WebRTC element for an offer.
    CreateOffer,
    /// Ask the WebRTC element for an answer.
    CreateAnswer,
    /// Hand a candidate of the peer to the WebRTC element.
    AddIceCandidate { sdp_mline_index: u32, candidate: String },
    /// Queue a message for the signalling connection.
    Send { message: WsMessage, what: Outgoing },
    /// Hand a text from the signalling connection to the application.
    DeliverMsg(String),
    /// Hand a text from the data channel to the application.
    DeliverData(String),
    /// Add a decoder of this element type and link the new stream to it.
    AddDecoder { element: String },
    /// Build a sink from this description and link the decoded stream to it.
    AddSink { description: String },
    /// Post an error with this text on the pipeline.
    PostError(String),
}

/// What a `Command` says.
pub enum CommandView {
    BindElement { name: Seq<char> },
    SetProperty { name: Seq<char>, value: Seq<char> },
    Connect(Signal),
    SetState(PipelineState),
    Play { failure: Seq<char> },
    CreateDataChannel { label: Seq<char> },
    ConnectChannel(ChannelSignal),
    SendString(Seq<char>),
    ParseSdp { kind: SdpKind, sdp: Seq<char> },
    SetRemoteDescription { kind: SdpKind, sdp: Seq<char> },
    SetLocalDescription { kind: SdpKind, sdp: Seq<char> },
    CreateOffer,
    CreateAnswer,
    AddIceCandidate { sdp_mline_index: u32, candidate: Seq<char> },
    Send { message: WsMessageView, what: Outgoing },
    DeliverMsg(Seq<char>),
    DeliverData(Seq<char>),
    AddDecoder { element: Seq<char> },
    AddSink { description: Seq<char> },
    PostError(Seq<char>),
}

impl View for Command {
    type V = CommandView;

    open spec fn view(&self) -> CommandView {
        match self {
            Command::BindElement { name } => CommandView::BindElement { name: name@ },
            Command::SetProperty { name, value } => CommandView::SetProperty {
                name: name@,
                value: value@,
            },
            Command::Connect(signal) => CommandView::Connect(*signal),
            Command::SetState(state) => CommandView::SetState(*state),
            Command::Play { failure } => CommandView::Play { failure: failure@ },
            Command::CreateDataChannel { label } => CommandView::CreateDataChannel {
                label: label@,
            },
            Command::ConnectChannel(signal) => CommandView::ConnectChannel(*signal),
            Command::SendString(text) => CommandView::SendString(text@),
            Command::ParseSdp { kind, sdp } => CommandView::ParseSdp { kind: *kind, sdp: sdp@ },
            Command::SetRemoteDescription { kind, sdp } => CommandView::SetRemoteDescription {
                kind: *kind,
                sdp: sdp@,
            },
            Command::SetLocalDescription { kind, sdp } => CommandView::SetLocalDescription {
                kind: *kind,
                sdp: sdp@,
            },
            Command::CreateOffer => CommandView::CreateOffer,
            Command::CreateAnswer => CommandView::CreateAnswer,
            Command::AddIceCandidate { sdp_mline_index, candidate } => {
                CommandView::AddIceCandidate {
                    sdp_mline_index: *sdp_mline_index,
                    candidate: candidate@,
                }
            },
            Command::Send { message, what } => CommandView::Send { message: message@, what: *what },
            Command::DeliverMsg(text) => CommandView::DeliverMsg(text@),
            Command::DeliverData(text) => CommandView::DeliverData(text@),
            Command::AddDecoder { element } => CommandView::AddDecoder { element: element@ },
            Command::AddSink { description } => CommandView::AddSink {
                description: description@,
            },
            Command::PostError(text) => CommandView::PostError(text@),
        }
    }
}

/// What a list of commands says.
pub open spec fn command_views(commands: Seq<Command>) -> Seq<CommandView> {
    commands.map_values(|command: Command| command@)
}

/// What becomes of the failure of a step. A description of the peer that cannot be read, a text
/// from the signalling connection that the application does not take and the refusal to report
/// the data channels of the peer end the session. What
/// cannot be started, sent to the peer or shown is posted. A text from the data channel that the
/// application does not take is lost, and so is the wish to give resources back.
pub open spec fn after_failure(command: CommandView) -> AfterFailure {
    match command {
        CommandView::ParseSdp { .. } | CommandView::DeliverMsg(_) | CommandView::Connect(
            Signal::DataChannel,
        ) => AfterFailure::EndSession,
        CommandView::Play { .. } | CommandView::Send { .. } | CommandView::AddSink { .. } => {
            AfterFailure::Post
        },
        CommandView::DeliverData(_) | CommandView::SetState(PipelineState::Null) => {
            AfterFailure::Ignore
        },
        _ => AfterFailure::NotExpected,
    }
}

impl Command {
    /// What becomes of the failure of this step.
    pub fn after_failure(&self) -> (result: AfterFailure)
        ensures
            result == after_failure(self@),
    {
        match self {
            Command::ParseSdp { .. } | Command::DeliverMsg(_) | Command::Connect(
                Signal::DataChannel,
            ) => AfterFailure::EndSession,
            Command::Play { .. } | Command::Send { .. } | Command::AddSink { .. } => {
                AfterFailure::Post
            },
            Command::DeliverData(_) | Command::SetState(PipelineState::Null) => {
                AfterFailure::Ignore
            },
            _ => AfterFailure::NotExpected,
        }
    }
}

/// What a command says is what it holds.
pub proof fn command_view_keeps_the_fields(command: Command)
    ensures
        command matches Command::BindElement { name } ==> command@ == (CommandView::BindElement {
            name: name@,
        }),
        command matches Command::SetProperty { name, value } ==> command@
            == (CommandView::SetProperty { name: name@, value: value@ }),
        command matches Command::Connect(signal) ==> command@ == CommandView::Connect(signal),
        command matches Command::SetState(state) ==> command@ == CommandView::SetState(state),
        command matches Command::Play { failure } ==> command@ == (CommandView::Play {
            failure: failure@,
        }),
        command matches Command::CreateDataChannel { label } ==> command@
            == (CommandView::CreateDataChannel { label: label@ }),
        command matches Command::ConnectChannel(signal) ==> command@
            == CommandView::ConnectChannel(signal),
        command matches Command::SendString(text) ==> command@ == CommandView::SendString(text@),
        command matches Command::ParseSdp { kind, sdp } ==> command@ == (CommandView::ParseSdp {
            kind,
            sdp: sdp@,
        }),
        command matches Command::SetRemoteDescription { kind, sdp } ==> command@
            == (CommandView::SetRemoteDescription { kind, sdp: sdp@ }),
        command matches Command::SetLocalDescription { kind, sdp } ==> command@
            == (CommandView::SetLocalDescription { kind, sdp: sdp@ }),
        command is CreateOffer ==> command@ == CommandView::CreateOffer,
        command is CreateAnswer ==> command@ == CommandView::CreateAnswer,
        command matches Command::AddIceCandidate { sdp_mline_index, candidate } ==> command@
            == (CommandView::AddIceCandidate { sdp_mline_index, candidate: candidate@ }),
        command matches Command::Send { message, what } ==> command@ == (CommandView::Send {
            message: message@,
            what,
        }),
        command matches Command::DeliverMsg(text) ==> command@ == CommandView::DeliverMsg(text@),
        command matches Command::DeliverData(text) ==> command@ == CommandView::DeliverData(text@),
        command matches Command::AddDecoder { element } ==> command@ == (CommandView::AddDecoder {
            element: element@,
        }),
        command matches Command::AddSink { description } ==> command@ == (CommandView::AddSink {
            description: description@,
        }),
        command matches Command::PostError(text) ==> command@ == CommandView::PostError(text@),
{
}

/// What a list of commands says is what its commands say, one for one.
pub proof fn command_views_are_one_for_one(commands: Seq<Command>)
    ensures
        command_views(commands).len() == commands.len(),
        forall|i: int|
            0 <= i < commands.len() ==> #[trigger] command_views(commands)[i] == commands[i]@,
{
}

/// The names of kinds and signals, as the peer and the media framework spell them.
pub proof fn names_are_spelled_out()
    ensures
        SdpKind::Offer.spec_name() == "offer"@,
        SdpKind::Answer.spec_name() == "answer"@,
        Signal::NegotiationNeeded.spec_name() == "on-negotiation-needed"@,
        Signal::IceCandidate.spec_name() == "on-ice-candidate"@,
        Signal::DataChannel.spec_name() == "on-data-channel"@,
        Signal::PadAdded.spec_name() == "pad-added"@,
        ChannelSignal::Open.spec_name() == "on-open"@,
        ChannelSignal::MessageString.spec_name() == "on-message-string"@,
{
}

/// Only the steps about an offer wait for the pipeline.
pub proof fn only_offers_wait(kind: SdpKind)
    ensures
        kind.spec_timing() == Timing::Later <==> kind == SdpKind::Offer,
{
}

/// A failure ends the session exactly if a description of the peer cannot be read, a text from
/// the signalling connection cannot be delivered or data channels of the peer would not be
/// reported. It is posted exactly if playing does not start, a message to the peer cannot be
/// queued or a sink cannot be built. It is passed over exactly if a text from the data channel
/// cannot be delivered or the pipeline does not give its resources back.
pub proof fn failures_are_told_apart(command: CommandView)
    ensures
        after_failure(command) == AfterFailure::EndSession <==> (command is ParseSdp || command
            is DeliverMsg || command == CommandView::Connect(Signal::DataChannel)),
        after_failure(command) == AfterFailure::Post <==> (command is Play || command is Send
            || command is AddSink),
        after_failure(command) == AfterFailure::Ignore <==> (command is DeliverData || command
            == CommandView::SetState(PipelineState::Null)),
{
}

} // verus!
