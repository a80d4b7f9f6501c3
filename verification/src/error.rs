//! The ways in which the agent fails, and the text of each.

use vstd::prelude::*;

use crate::command::{Outgoing, SdpKind};
use crate::text::{join, joined, views};

verus! {

/// An element that a pipeline needs and does not have.
#[derive(Debug, PartialEq, Eq)]
pub struct MissingElement(pub &'static str);

impl MissingElement {
    /// The text of this error.
    pub fn message(&self) -> (result: String)
        ensures
            result@ == "Missing element "@ + self.0@,
    {
        "Missing element ".to_string().concat(self.0)
    }
}

/// Why the agent stops, refuses a message or cannot go on with a negotiation.
#[derive(Debug, PartialEq, Eq)]
pub enum AgentError {
    /// The connection failed, with this text.
    Connection(String),
    /// The server went away instead of replying.
    NothingReceived,
    /// The server did not reply to the registration with a greeting.
    NoHello,
    /// The server did not confirm the session; the text shows its reply.
    ServerError(String),
    /// The server reported an error in this message.
    ServerReported(String),
    /// Plugins that the agent needs are not installed.
    MissingPlugins(Vec<String>),
    /// A session description of this type is neither an offer nor an answer.
    SdpType(String),
    /// A session description of the peer cannot be read.
    SdpParse(SdpKind),
    /// The WebRTC element did not answer a request for a description.
    NoResponse(SdpKind),
    /// The WebRTC element refused a request for a description, with this text.
    ResponseFailed(SdpKind, String),
    /// A message for the peer could not be queued.
    SendFailed(Outgoing),
    /// The sink for a decoded stream does not start; the text shows the stream.
    SinkStart(String),
    /// A decoded stream cannot be linked to its sink; the text shows the stream.
    SinkLink(String),
    /// An element of the pipeline failed.
    Pipeline { source: Option<String>, error: String, debug: Option<String> },
}

/// What an `AgentError` says.
pub enum AgentErrorView {
    Connection(Seq<char>),
    NothingReceived,
    NoHello,
    ServerError(Seq<char>),
    ServerReported(Seq<char>),
    MissingPlugins(Seq<Seq<char>>),
    SdpType(Seq<char>),
    SdpParse(SdpKind),
    NoResponse(SdpKind),
    ResponseFailed(SdpKind, Seq<char>),
    SendFailed(Outgoing),
    SinkStart(Seq<char>),
    SinkLink(Seq<char>),
    Pipeline { source: Option<Seq<char>>, error: Seq<char>, debug: Option<Seq<char>> },
}

/// The view of a text that may be absent.
pub open spec fn option_view(text: Option<String>) -> Option<Seq<char>> {
    match text {
        Some(t) => Some(t@),
        None => None,
    }
}

impl View for AgentError {
    type V = AgentErrorView;

    open spec fn view(&self) -> AgentErrorView {
        match self {
            AgentError::Connection(text) => AgentErrorView::Connection(text@),
            AgentError::NothingReceived => AgentErrorView::NothingReceived,
            AgentError::NoHello => AgentErrorView::NoHello,
            AgentError::ServerError(reply) => AgentErrorView::ServerError(reply@),
            AgentError::ServerReported(text) => AgentErrorView::ServerReported(text@),
            AgentError::MissingPlugins(names) => AgentErrorView::MissingPlugins(views(names@)),
            AgentError::SdpType(type_) => AgentErrorView::SdpType(type_@),
            AgentError::SdpParse(kind) => AgentErrorView::SdpParse(*kind),
            AgentError::NoResponse(kind) => AgentErrorView::NoResponse(*kind),
            AgentError::ResponseFailed(kind, text) => AgentErrorView::ResponseFailed(*kind, text@),
            AgentError::SendFailed(what) => AgentErrorView::SendFailed(*what),
            AgentError::SinkStart(stream) => AgentErrorView::SinkStart(stream@),
            AgentError::SinkLink(stream) => AgentErrorView::SinkLink(stream@),
            AgentError::Pipeline { source, error, debug } => AgentErrorView::Pipeline {
                source: option_view(*source),
                error: error@,
                debug: option_view(*debug),
            },
        }
    }
}

/// The text, or `None` spelled out where there is none.
pub open spec fn or_none(text: Option<Seq<char>>) -> Seq<char> {
    match text {
        Some(t) => t,
        None => "None"@,
    }
}

/// The name of a kind of description at the start of a sentence.
pub open spec fn capitalized(kind: SdpKind) -> Seq<char> {
    match kind {
        SdpKind::Offer => "Offer"@,
        SdpKind::Answer => "Answer"@,
    }
}

/// The names between double quotes, separated by commas, in square brackets.
pub open spec fn name_list(names: Seq<Seq<char>>) -> Seq<char> {
    if names.len() == 0 {
        "[]"@
    } else {
        "[\""@ + joined(names, "\", \""@) + "\"]"@
    }
}

/// The text of an error.
pub open spec fn error_text(error: AgentErrorView) -> Seq<char> {
    match error {
        AgentErrorView::Connection(text) => text,
        AgentErrorView::NothingReceived => "didn't receive anything"@,
        AgentErrorView::NoHello => "server didn't say HELLO"@,
        AgentErrorView::ServerError(reply) => "server error: "@ + reply,
        AgentErrorView::ServerReported(text) => "Got error message: "@ + text,
        AgentErrorView::MissingPlugins(names) => "Missing plugins: "@ + name_list(names),
        AgentErrorView::SdpType(type_) => "Sdp type is not \"answer\" but \""@ + type_ + "\""@,
        AgentErrorView::SdpParse(kind) => "Failed to parse SDP "@ + kind.spec_name(),
        AgentErrorView::NoResponse(kind) => capitalized(kind)
            + " creation future got no reponse"@,
        AgentErrorView::ResponseFailed(kind, text) => capitalized(kind)
            + " creation future got error reponse: "@ + text,
        AgentErrorView::SendFailed(Outgoing::Description(kind)) => "Failed to send SDP "@
            + kind.spec_name(),
        AgentErrorView::SendFailed(Outgoing::Candidate) => "Failed to send ICE candidate"@,
        AgentErrorView::SinkStart(stream) => "can't start sink for stream "@ + stream,
        AgentErrorView::SinkLink(stream) => "can't link sink for stream "@ + stream,
        AgentErrorView::Pipeline { source, error, debug } => "Error from element "@ + or_none(
            source,
        ) + ": "@ + error + " ("@ + or_none(debug) + ")"@,
    }
}

/// The text, or `None` spelled out where there is none.
fn text_or_none(text: &Option<String>) -> (result: &str)
    ensures
        result@ == or_none(option_view(*text)),
{
    match text {
        Some(t) => t.as_str(),
        None => "None",
    }
}

/// The name of a kind of description at the start of a sentence.
fn capitalized_name(kind: SdpKind) -> (result: String)
    ensures
        result@ == capitalized(kind),
{
    match kind {
        SdpKind::Offer => "Offer".to_string(),
        SdpKind::Answer => "Answer".to_string(),
    }
}

impl AgentError {
    /// The text of this error.
    pub fn message(&self) -> (result: String)
        ensures
            result@ == error_text(self@),
    {
        match self {
            AgentError::Connection(text) => text.clone(),
            AgentError::NothingReceived => "didn't receive anything".to_string(),
            AgentError::NoHello => "server didn't say HELLO".to_string(),
            AgentError::ServerError(reply) => "server error: ".to_string().concat(reply.as_str()),
            AgentError::ServerReported(text) => "Got error message: ".to_string().concat(
                text.as_str(),
            ),
            AgentError::MissingPlugins(names) => {
                let mut result = "Missing plugins: ".to_string();
                if names.len() == 0 {
                    result.append("[]");
                } else {
                    result.append("[\"");
                    result.append(join(names, "\", \"").as_str());
                    result.append("\"]");
                }
                assert(result@ == "Missing plugins: "@ + name_list(views(names@)));
                result
            },
            AgentError::SdpType(type_) => "Sdp type is not \"answer\" but \"".to_string().concat(
                type_.as_str(),
            ).concat("\""),
            AgentError::SdpParse(kind) => "Failed to parse SDP ".to_string().concat(kind.name()),
            AgentError::NoResponse(kind) => capitalized_name(*kind).concat(
                " creation future got no reponse",
            ),
            AgentError::ResponseFailed(kind, text) => capitalized_name(*kind).concat(
                " creation future got error reponse: ",
            ).concat(text.as_str()),
            AgentError::SendFailed(Outgoing::Description(kind)) => {
                "Failed to send SDP ".to_string().concat(kind.name())
            },
            AgentError::SendFailed(Outgoing::Candidate) => {
                "Failed to send ICE candidate".to_string()
            },
            AgentError::SinkStart(stream) => "can't start sink for stream ".to_string().concat(
                stream.as_str(),
            ),
            AgentError::SinkLink(stream) => "can't link sink for stream ".to_string().concat(
                stream.as_str(),
            ),
            AgentError::Pipeline { source, error, debug } => {
                let mut result = "Error from element ".to_string();
                result.append(text_or_none(source));
                result.append(": ");
                result.append(error.as_str());
                result.append(" (");
                result.append(text_or_none(debug));
                result.append(")");
                result
            },
        }
    }
}

/// What an error says is what it holds.
pub proof fn error_view_keeps_the_fields(error: AgentError)
    ensures
        error matches AgentError::Connection(text) ==> error@ == AgentErrorView::Connection(text@),
        error is NothingReceived ==> error@ == AgentErrorView::NothingReceived,
        error is NoHello ==> error@ == AgentErrorView::NoHello,
        error matches AgentError::ServerError(reply) ==> error@ == AgentErrorView::ServerError(
            reply@,
        ),
        error matches AgentError::ServerReported(text) ==> error@ == AgentErrorView::ServerReported(
            text@,
        ),
        error matches AgentError::MissingPlugins(names) ==> error@ == AgentErrorView::MissingPlugins(
            views(names@),
        ),
        error matches AgentError::SdpType(type_) ==> error@ == AgentErrorView::SdpType(type_@),
        error matches AgentError::SdpParse(kind) ==> error@ == AgentErrorView::SdpParse(kind),
        error matches AgentError::NoResponse(kind) ==> error@ == AgentErrorView::NoResponse(kind),
        error matches AgentError::ResponseFailed(kind, text) ==> error@
            == AgentErrorView::ResponseFailed(kind, text@),
        error matches AgentError::SendFailed(what) ==> error@ == AgentErrorView::SendFailed(what),
        error matches AgentError::SinkStart(stream) ==> error@ == AgentErrorView::SinkStart(
            stream@,
        ),
        error matches AgentError::SinkLink(stream) ==> error@ == AgentErrorView::SinkLink(stream@),
        error matches AgentError::Pipeline { source, error: what, debug } ==> error@
            == (AgentErrorView::Pipeline {
            source: option_view(source),
            error: what@,
            debug: option_view(debug),
        }),
{
}

/// A text that may be absent is shown as it is.
pub proof fn option_view_keeps_the_text(text: Option<String>)
    ensures
        text matches Some(t) ==> option_view(text) == Some(t@),
        text is None ==> option_view(text) is None,
{
}

/// The names between double quotes.
spec fn in_quotes(names: Seq<Seq<char>>) -> Seq<Seq<char>> {
    names.map_values(|name: Seq<char>| "\""@ + name + "\""@)
}

proof fn lemma_quotes_join(names: Seq<Seq<char>>)
    requires
        names.len() > 0,
    ensures
        joined(in_quotes(names), ", "@) == "\""@ + joined(names, "\", \""@) + "\""@,
    decreases names.len(),
{
    reveal_strlit("\"");
    reveal_strlit(", ");
    reveal_strlit("\", \"");
    assert("\", \""@ == "\""@ + ", "@ + "\""@);
    if names.len() == 1 {
        assert(in_quotes(names) == seq!["\""@ + names[0] + "\""@]);
    } else {
        assert(in_quotes(names).drop_last() == in_quotes(names.drop_last()));
        lemma_quotes_join(names.drop_last());
        let front = joined(names.drop_last(), "\", \""@);
        assert(joined(in_quotes(names), ", "@) == "\""@ + front + "\""@ + ", "@ + ("\""@
            + names.last() + "\""@));
        assert("\""@ + joined(names, "\", \""@) + "\""@ == "\""@ + (front + ("\""@ + ", "@ + "\""@)
            + names.last()) + "\""@);
        assert("\""@ + front + "\""@ + ", "@ + ("\""@ + names.last() + "\""@) =~= "\""@ + (front + (
        "\""@ + ", "@ + "\""@) + names.last()) + "\""@);
    }
}

/// Missing plugins are named in order, each between double quotes, with a comma and a blank
/// between each two.
pub proof fn missing_plugins_are_named(names: Seq<Seq<char>>)
    ensures
        error_text(AgentErrorView::MissingPlugins(names)) == "Missing plugins: "@ + ("["@ + joined(
            names.map_values(|name: Seq<char>| "\""@ + name + "\""@),
            ", "@,
        ) + "]"@),
{
    reveal_strlit("[");
    reveal_strlit("]");
    reveal_strlit("[]");
    reveal_strlit("[\"");
    reveal_strlit("\"]");
    reveal_strlit("\"");
    assert(in_quotes(names) == names.map_values(|name: Seq<char>| "\""@ + name + "\""@));
    if names.len() == 0 {
        assert("["@ + joined(in_quotes(names), ", "@) + "]"@ =~= "[]"@);
    } else {
        lemma_quotes_join(names);
        let inner = joined(names, "\", \""@);
        assert("["@ + ("\""@ + inner + "\""@) + "]"@ =~= "[\""@ + inner + "\"]"@);
    }
}

/// The text of an error names what failed, followed by the details that it holds.
pub proof fn errors_name_what_failed(text: Seq<char>)
    ensures
        error_text(AgentErrorView::Connection(text)) == text,
        error_text(AgentErrorView::NothingReceived) == "didn't receive anything"@,
        error_text(AgentErrorView::NoHello) == "server didn't say HELLO"@,
        error_text(AgentErrorView::ServerError(text)) == "server error: "@ + text,
        error_text(AgentErrorView::ServerReported(text)) == "Got error message: "@ + text,
        error_text(AgentErrorView::SdpType(text)) == "Sdp type is not \"answer\" but \""@ + text
            + "\""@,
        error_text(AgentErrorView::SdpParse(SdpKind::Offer)) == "Failed to parse SDP "@ + "offer"@,
        error_text(AgentErrorView::SdpParse(SdpKind::Answer)) == "Failed to parse SDP "@
            + "answer"@,
        error_text(AgentErrorView::NoResponse(SdpKind::Offer)) == "Offer"@
            + " creation future got no reponse"@,
        error_text(AgentErrorView::NoResponse(SdpKind::Answer)) == "Answer"@
            + " creation future got no reponse"@,
        error_text(AgentErrorView::ResponseFailed(SdpKind::Offer, text)) == "Offer"@
            + " creation future got error reponse: "@ + text,
        error_text(AgentErrorView::ResponseFailed(SdpKind::Answer, text)) == "Answer"@
            + " creation future got error reponse: "@ + text,
        error_text(AgentErrorView::SendFailed(Outgoing::Description(SdpKind::Offer)))
            == "Failed to send SDP "@ + "offer"@,
        error_text(AgentErrorView::SendFailed(Outgoing::Description(SdpKind::Answer)))
            == "Failed to send SDP "@ + "answer"@,
        error_text(AgentErrorView::SendFailed(Outgoing::Candidate))
            == "Failed to send ICE candidate"@,
        error_text(AgentErrorView::SinkStart(text)) == "can't start sink for stream "@ + text,
        error_text(AgentErrorView::SinkLink(text)) == "can't link sink for stream "@ + text,
{
}

/// The text of a failure of the pipeline shows the element, the error and the details, and says
/// `None` for an element or details that are not known.
pub proof fn pipeline_errors_show_their_details(
    source: Seq<char>,
    error: Seq<char>,
    debug: Seq<char>,
)
    ensures
        error_text(
            AgentErrorView::Pipeline { source: Some(source), error, debug: Some(debug) },
        ) == "Error from element "@ + source + ": "@ + error + " ("@ + debug + ")"@,
        error_text(AgentErrorView::Pipeline { source: None, error, debug: Some(debug) })
            == "Error from element "@ + "None"@ + ": "@ + error + " ("@ + debug + ")"@,
        error_text(AgentErrorView::Pipeline { source: Some(source), error, debug: None })
            == "Error from element "@ + source + ": "@ + error + " ("@ + "None"@ + ")"@,
        error_text(AgentErrorView::Pipeline { source: None, error, debug: None })
            == "Error from element "@ + "None"@ + ": "@ + error + " ("@ + "None"@ + ")"@,
{
}

} // verus!
