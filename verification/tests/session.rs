use botstream::command::{
    AfterFailure, ChannelSignal, Command, Outgoing, PipelineState, SdpKind, Signal, Timing,
};
use botstream::error::AgentError;
use botstream::json::JsonMsg;
use botstream::launch::Args;
use botstream::message::{CloseFrame, WsMessage};
use botstream::run::{Event, Message, Turn};
use botstream::webrtc::{App, Callback, Notice, PadDirection, PipelineMessage, Reply};
use serde_json::Value;
use std::cell::Cell;

fn app(peer_id: Option<u32>) -> App {
    let args = Args {
        server: "wss://localhost:8443".to_string(),
        peer_id,
        agent_id: None,
        pipeline: vec![],
    };
    App::new(args).0
}

fn text(s: &str) -> WsMessage {
    WsMessage::Text(s.to_string())
}

fn string(value: &Value) -> Option<String> {
    value.as_str().map(|s| s.to_string())
}

/// Reads the messages that these tests send.
fn read(text: &str) -> Option<JsonMsg> {
    let value: Value = serde_json::from_str(text).ok()?;
    if let Some(ice) = value.get("ice") {
        return Some(JsonMsg::Ice {
            candidate: string(&ice["candidate"])?,
            sdp_mline_index: ice["sdpMLineIndex"].as_u64()? as u32,
        });
    }
    if let Some(sdp) = value.get("sdp") {
        return Some(JsonMsg::Sdp { type_: string(&sdp["type"])?, sdp: string(&sdp["sdp"])? });
    }
    Some(JsonMsg::Msg { msg: string(&value.get("msg")?["msg"])? })
}

fn remote(kind: SdpKind, sdp: &str) -> Command {
    Command::SetRemoteDescription { kind, sdp: sdp.to_string() }
}

fn sdp_read(kind: SdpKind, sdp: &str, readable: bool) -> Event {
    Event::SdpRead { kind, sdp: sdp.to_string(), readable }
}

fn go(commands: Vec<Command>) -> Turn {
    Turn::Go { commands, log: None, message: Message::Nothing }
}

fn sent(message: WsMessage) -> Turn {
    Turn::Go { commands: vec![], log: None, message: Message::Ws(message) }
}

#[test]
fn caller_is_set_up_to_negotiate() {
    let args = Args {
        server: String::new(),
        peer_id: Some(1000),
        agent_id: None,
        pipeline: vec![],
    };
    let (_, commands) = App::new(args);
    assert_eq!(
        commands,
        vec![
            Command::BindElement { name: "webrtc".to_string() },
            Command::SetProperty {
                name: "stun-server".to_string(),
                value: "stun://stun.l.google.com:19302".to_string(),
            },
            Command::SetProperty {
                name: "bundle-policy".to_string(),
                value: "max-bundle".to_string(),
            },
            Command::Connect(Signal::NegotiationNeeded),
            Command::Connect(Signal::IceCandidate),
            Command::SetState(PipelineState::Ready),
            Command::CreateDataChannel { label: "channel".to_string() },
            Command::ConnectChannel(ChannelSignal::Open),
            Command::ConnectChannel(ChannelSignal::MessageString),
            Command::Connect(Signal::DataChannel),
            Command::Connect(Signal::PadAdded),
            Command::Play { failure: "Failed to set pipeline to Playing".to_string() },
        ]
    );
}

#[test]
fn callee_does_not_negotiate() {
    let args = Args { server: String::new(), peer_id: None, agent_id: Some(1), pipeline: vec![] };
    let (app, commands) = App::new(args);
    assert!(!commands.contains(&Command::Connect(Signal::NegotiationNeeded)));
    assert_eq!(commands.len(), 11);
    assert_eq!(app.args.agent_id, Some(1));
}

#[test]
fn signals_have_their_names() {
    assert_eq!(Signal::NegotiationNeeded.name(), "on-negotiation-needed");
    assert_eq!(Signal::IceCandidate.name(), "on-ice-candidate");
    assert_eq!(Signal::DataChannel.name(), "on-data-channel");
    assert_eq!(Signal::PadAdded.name(), "pad-added");
    assert_eq!(ChannelSignal::Open.name(), "on-open");
    assert_eq!(ChannelSignal::MessageString.name(), "on-message-string");
    assert_eq!(SdpKind::Offer.name(), "offer");
    assert_eq!(SdpKind::Answer.name(), "answer");
}

#[test]
fn server_error_is_reported_without_reading_the_text() {
    let asked = Cell::new(false);
    let result = app(None).handle_websocket_message("ERROR peer not found", |_| {
        asked.set(true);
        None
    });
    let error = result.unwrap_err();
    assert_eq!(error.message(), "Got error message: ERROR peer not found");
    assert_eq!(error, AgentError::ServerReported("ERROR peer not found".to_string()));
    assert!(!asked.get());
}

#[test]
fn error_must_stand_at_the_start() {
    for message in ["an ERROR", "ERRO", "error", ""] {
        assert_eq!(
            app(None).handle_websocket_message(message, read),
            Ok(vec![Command::DeliverMsg(message.to_string())])
        );
    }
}

#[test]
fn reader_is_asked_about_the_text_itself() {
    let result = app(None).handle_websocket_message("some text", |given| {
        Some(JsonMsg::Msg { msg: format!("<{}>", given) })
    });
    assert_eq!(result, Ok(vec![Command::DeliverMsg("<some text>".to_string())]));
}

#[test]
fn text_in_no_format_is_for_the_application() {
    assert_eq!(
        app(None).handle_websocket_message("SESSION_OK", read),
        Ok(vec![Command::DeliverMsg("SESSION_OK".to_string())])
    );
}

#[test]
fn wrapped_text_is_for_the_application() {
    assert_eq!(
        app(None).handle_websocket_message("{\"msg\":{\"msg\":\"hi\"}}", read),
        Ok(vec![Command::DeliverMsg("hi".to_string())])
    );
}

#[test]
fn candidate_is_handed_on() {
    assert_eq!(
        app(None).handle_websocket_message(
            "{\"ice\":{\"candidate\":\"c\",\"sdpMLineIndex\":3}}",
            read
        ),
        Ok(vec![Command::AddIceCandidate { sdp_mline_index: 3, candidate: "c".to_string() }])
    );
}

#[test]
fn unknown_description_type_is_refused() {
    let error = app(None).handle_sdp("pranswer", "v=0").unwrap_err();
    assert_eq!(error.message(), "Sdp type is not \"answer\" but \"pranswer\"");
    assert_eq!(error, AgentError::SdpType("pranswer".to_string()));
}

#[test]
fn description_is_read_first() {
    assert_eq!(
        app(None).handle_sdp("offer", "v=0"),
        Ok(vec![Command::ParseSdp { kind: SdpKind::Offer, sdp: "v=0".to_string() }])
    );
    assert_eq!(
        app(None).handle_sdp("answer", "v=0"),
        Ok(vec![Command::ParseSdp { kind: SdpKind::Answer, sdp: "v=0".to_string() }])
    );
}

#[test]
fn readable_offer_is_answered_and_answer_is_not() {
    assert_eq!(
        app(None).on_sdp_parsed(SdpKind::Offer, "o".to_string(), true),
        Ok(vec![remote(SdpKind::Offer, "o"), Command::CreateAnswer])
    );
    assert_eq!(
        app(None).on_sdp_parsed(SdpKind::Answer, "a".to_string(), true),
        Ok(vec![remote(SdpKind::Answer, "a")])
    );
}

#[test]
fn unreadable_description_fails() {
    let text = |kind| app(None).on_sdp_parsed(kind, String::new(), false).unwrap_err().message();
    assert_eq!(text(SdpKind::Offer), "Failed to parse SDP offer");
    assert_eq!(text(SdpKind::Answer), "Failed to parse SDP answer");
}

#[test]
fn offer_is_sent_to_the_peer() {
    assert_eq!(app(Some(1)).on_negotiation_needed(), vec![Command::CreateOffer]);
    assert_eq!(
        app(Some(1)).on_offer_created(Reply::Description("v=0\r\n".to_string())),
        Ok(vec![
            Command::SetLocalDescription { kind: SdpKind::Offer, sdp: "v=0\r\n".to_string() },
            Command::Send {
                message: text("{\"sdp\":{\"type\":\"offer\",\"sdp\":\"v=0\\r\\n\"}}"),
                what: Outgoing::Description(SdpKind::Offer),
            },
        ])
    );
}

#[test]
fn answer_is_sent_to_the_peer() {
    assert_eq!(
        app(None).on_answer_created(Reply::Description("v=0".to_string())),
        Ok(vec![
            Command::SetLocalDescription { kind: SdpKind::Answer, sdp: "v=0".to_string() },
            Command::Send {
                message: text("{\"sdp\":{\"type\":\"answer\",\"sdp\":\"v=0\"}}"),
                what: Outgoing::Description(SdpKind::Answer),
            },
        ])
    );
}

#[test]
fn element_that_creates_no_description_fails() {
    let app = app(None);
    let refused = || Reply::Refused("Interrupted".to_string());
    assert_eq!(
        app.on_offer_created(Reply::Nothing).unwrap_err().message(),
        "Offer creation future got no reponse"
    );
    assert_eq!(
        app.on_answer_created(Reply::Nothing).unwrap_err().message(),
        "Answer creation future got no reponse"
    );
    assert_eq!(
        app.on_offer_created(refused()).unwrap_err().message(),
        "Offer creation future got error reponse: Interrupted"
    );
    assert_eq!(
        app.on_answer_created(refused()).unwrap_err().message(),
        "Answer creation future got error reponse: Interrupted"
    );
}

#[test]
fn own_candidate_is_sent_to_the_peer() {
    assert_eq!(
        app(None).on_ice_candidate(1, "candidate:1".to_string()),
        vec![Command::Send {
            message: text("{\"ice\":{\"candidate\":\"candidate:1\",\"sdpMLineIndex\":1}}"),
            what: Outgoing::Candidate,
        }]
    );
}

#[test]
fn unsent_messages_are_named() {
    let text = |what| AgentError::SendFailed(what).message();
    assert_eq!(text(Outgoing::Candidate), "Failed to send ICE candidate");
    assert_eq!(text(Outgoing::Description(SdpKind::Offer)), "Failed to send SDP offer");
    assert_eq!(text(Outgoing::Description(SdpKind::Answer)), "Failed to send SDP answer");
}

#[test]
fn failed_sinks_are_named() {
    let text = |s: &str| s.to_string();
    assert_eq!(
        AgentError::SinkStart(text("video/x-raw")).message(),
        "can't start sink for stream video/x-raw"
    );
    assert_eq!(
        AgentError::SinkLink(text("video/x-raw")).message(),
        "can't link sink for stream video/x-raw"
    );
}

#[test]
fn callback_failures_are_named() {
    let text = |callback: Callback| callback.failure("x");
    assert_eq!(text(Callback::NegotiationNeeded), "Failed to negotiate: x");
    assert_eq!(text(Callback::IceCandidate), "Failed to send ICE candidate: x");
    assert_eq!(
        text(Callback::DescriptionCreated(SdpKind::Offer)),
        "Failed to send SDP offer: x"
    );
    assert_eq!(
        text(Callback::DescriptionCreated(SdpKind::Answer)),
        "Failed to send SDP answer: x"
    );
    assert_eq!(text(Callback::IncomingStream), "Failed to handle incoming stream: x");
    assert_eq!(text(Callback::DecodedStream), "Failed to handle decoded stream: x");
}

#[test]
fn streams_of_the_peer_are_decoded() {
    assert_eq!(
        app(None).on_incoming_stream(PadDirection::Src),
        vec![Command::AddDecoder { element: "decodebin".to_string() }]
    );
    assert_eq!(app(None).on_incoming_stream(PadDirection::Sink), vec![]);
    assert_eq!(app(None).on_incoming_stream(PadDirection::Unknown), vec![]);
}

#[test]
fn decoded_streams_get_a_sink_for_their_type() {
    let app = app(None);
    let sink = |description: &str| vec![Command::AddSink { description: description.to_string() }];
    assert_eq!(
        app.on_incoming_decodebin_stream("video/x-raw"),
        sink("queue ! videoconvert ! videoscale ! autovideosink")
    );
    assert_eq!(
        app.on_incoming_decodebin_stream("audio/x-raw"),
        sink("queue ! audioconvert ! audioresample ! autoaudiosink")
    );
    assert_eq!(app.on_incoming_decodebin_stream("text/plain"), vec![]);
    assert_eq!(app.on_incoming_decodebin_stream("video"), vec![]);
}

#[test]
fn pipeline_error_is_reported() {
    let error = |source: Option<&str>, debug: Option<&str>| {
        app(None)
            .handle_pipeline_message(PipelineMessage::Error {
                source: source.map(|s| s.to_string()),
                error: "broken".to_string(),
                debug: debug.map(|s| s.to_string()),
            })
            .unwrap_err()
            .message()
    };
    assert_eq!(
        error(Some("/pipeline0/src"), Some("d")),
        "Error from element /pipeline0/src: broken (d)"
    );
    assert_eq!(error(None, None), "Error from element None: broken (None)");
}

#[test]
fn pipeline_warning_is_logged() {
    assert_eq!(
        app(None).handle_pipeline_message(PipelineMessage::Warning("slow".to_string())),
        Ok(Some("Warning: \"slow\"".to_string()))
    );
    assert_eq!(app(None).handle_pipeline_message(PipelineMessage::Other), Ok(None));
}

#[test]
fn data_channel_is_listened_to() {
    let app = app(None);
    assert_eq!(
        app.connect_data_channel_signals(),
        vec![
            Command::ConnectChannel(ChannelSignal::Open),
            Command::ConnectChannel(ChannelSignal::MessageString),
        ]
    );
    assert_eq!(
        app.on_channel_message("d".to_string()),
        Command::DeliverData("d".to_string())
    );
    assert_eq!(app.shutdown(), Command::SetState(PipelineState::Null));
}

#[test]
fn ping_is_answered_with_its_payload() {
    assert_eq!(
        app(None).take_turn(Event::Socket(WsMessage::Ping(vec![1, 2, 3])), read),
        sent(WsMessage::Pong(vec![1, 2, 3]))
    );
}

#[test]
fn pong_and_binary_are_ignored() {
    assert_eq!(app(None).take_turn(Event::Socket(WsMessage::Pong(vec![1])), read), go(vec![]));
    assert_eq!(app(None).take_turn(Event::Socket(WsMessage::Binary(vec![1])), read), go(vec![]));
}

#[test]
fn close_and_completion_stop_the_loop() {
    let frame = CloseFrame { code: 1000, reason: String::new() };
    assert_eq!(app(None).take_turn(Event::Socket(WsMessage::Close(None)), read), Turn::Stop);
    assert_eq!(
        app(None).take_turn(Event::Socket(WsMessage::Close(Some(frame))), read),
        Turn::Stop
    );
    assert_eq!(app(None).take_turn(Event::Complete, read), Turn::Stop);
}

#[test]
fn failures_end_the_loop() {
    assert_eq!(
        app(None).take_turn(Event::Failed("gone".to_string()), read),
        Turn::Fail(AgentError::Connection("gone".to_string()))
    );
    assert_eq!(
        app(None).take_turn(Event::Socket(text("ERROR")), read),
        Turn::Fail(AgentError::ServerReported("ERROR".to_string()))
    );
    assert_eq!(
        app(None).take_turn(sdp_read(SdpKind::Offer, "o", false), read),
        Turn::Fail(AgentError::SdpParse(SdpKind::Offer))
    );
    let broken = PipelineMessage::Error { source: None, error: "e".to_string(), debug: None };
    assert_eq!(
        app(None).take_turn(Event::Pipeline(broken), read),
        Turn::Fail(AgentError::Pipeline { source: None, error: "e".to_string(), debug: None })
    );
}

#[test]
fn warning_is_logged_by_the_loop() {
    assert_eq!(
        app(None).take_turn(Event::Pipeline(PipelineMessage::Warning("w".to_string())), read),
        Turn::Go {
            commands: vec![],
            log: Some("Warning: \"w\"".to_string()),
            message: Message::Nothing,
        }
    );
}

#[test]
fn queued_and_posted_messages_are_sent() {
    assert_eq!(app(None).take_turn(Event::Queued(text("a")), read), sent(text("a")));
    assert_eq!(app(None).take_turn(Event::Posted(text("b")), read), sent(text("b")));
}

#[test]
fn data_goes_through_the_queue_to_the_channel() {
    assert_eq!(
        app(None).take_turn(Event::Data("d".to_string()), read),
        Turn::Go { commands: vec![], log: None, message: Message::Data("d".to_string()) }
    );
    assert_eq!(
        app(None).take_turn(Event::Forwarded("d".to_string()), read),
        go(vec![Command::SendString("d".to_string())])
    );
}

#[test]
fn given_reading_decides() {
    let parsed = JsonMsg::Msg { msg: "read".to_string() };
    assert_eq!(
        app(None).take_parsed_turn(Event::Socket(text("raw")), Some(parsed)),
        go(vec![Command::DeliverMsg("read".to_string())])
    );
    assert_eq!(
        app(None).take_parsed_turn(Event::Socket(text("raw")), None),
        go(vec![Command::DeliverMsg("raw".to_string())])
    );
}

fn only_sent(commands: &Vec<Command>) -> String {
    match commands.last() {
        Some(Command::Send { message: WsMessage::Text(text), .. }) => text.clone(),
        other => panic!("nothing sent: {:?}", other),
    }
}

#[test]
fn two_agents_negotiate() {
    let caller = app(Some(1000));
    let callee = app(None);
    let offer = caller.on_offer_created(Reply::Description("o\"1".to_string())).unwrap();
    assert_eq!(
        callee.take_turn(Event::Socket(WsMessage::Text(only_sent(&offer))), read),
        go(vec![Command::ParseSdp { kind: SdpKind::Offer, sdp: "o\"1".to_string() }])
    );
    assert_eq!(
        callee.take_turn(sdp_read(SdpKind::Offer, "o\"1", true), read),
        go(vec![remote(SdpKind::Offer, "o\"1"), Command::CreateAnswer])
    );
    let answer = callee.on_answer_created(Reply::Description("a".to_string())).unwrap();
    assert_eq!(
        caller.take_turn(Event::Socket(WsMessage::Text(only_sent(&answer))), read),
        go(vec![Command::ParseSdp { kind: SdpKind::Answer, sdp: "a".to_string() }])
    );
    assert_eq!(
        caller.take_turn(sdp_read(SdpKind::Answer, "a", true), read),
        go(vec![remote(SdpKind::Answer, "a")])
    );
    let candidate = caller.on_ice_candidate(2, "ERROR".to_string());
    assert_eq!(
        callee.take_turn(Event::Socket(WsMessage::Text(only_sent(&candidate))), read),
        go(vec![Command::AddIceCandidate { sdp_mline_index: 2, candidate: "ERROR".to_string() }])
    );
}

#[test]
fn notices_are_handled() {
    let app = app(Some(1));
    assert_eq!(app.handle_notice(Notice::NegotiationNeeded), vec![Command::CreateOffer]);
    assert_eq!(
        app.handle_notice(Notice::IceCandidate { mlineindex: 4, candidate: "c".to_string() }),
        app.on_ice_candidate(4, "c".to_string())
    );
    assert_eq!(
        app.handle_notice(Notice::Created {
            kind: SdpKind::Answer,
            reply: Reply::Description("v=0".to_string()),
        }),
        app.on_answer_created(Reply::Description("v=0".to_string())).unwrap()
    );
    assert_eq!(app.handle_notice(Notice::ChannelOffered), app.connect_data_channel_signals());
    assert_eq!(
        app.handle_notice(Notice::ChannelMessage("t".to_string())),
        vec![Command::DeliverData("t".to_string())]
    );
    assert_eq!(
        app.handle_notice(Notice::PadAdded(PadDirection::Src)),
        app.on_incoming_stream(PadDirection::Src)
    );
    assert_eq!(
        app.handle_notice(Notice::Decoded("audio/x-raw".to_string())),
        app.on_incoming_decodebin_stream("audio/x-raw")
    );
}

#[test]
fn failed_description_is_posted() {
    assert_eq!(
        app(Some(1)).handle_notice(Notice::Created { kind: SdpKind::Offer, reply: Reply::Nothing }),
        vec![Command::PostError(
            "Failed to send SDP offer: Offer creation future got no reponse".to_string()
        )]
    );
    assert_eq!(
        app(None).handle_notice(Notice::Created {
            kind: SdpKind::Answer,
            reply: Reply::Refused("Expired".to_string()),
        }),
        vec![Command::PostError(
            "Failed to send SDP answer: Answer creation future got error reponse: Expired"
                .to_string()
        )]
    );
}

#[test]
fn offers_wait_for_the_pipeline() {
    assert_eq!(SdpKind::Offer.timing(), Timing::Later);
    assert_eq!(SdpKind::Answer.timing(), Timing::AtOnce);
}

#[test]
fn each_step_has_its_failure() {
    let string = || "t".to_string();
    let ends = [
        Command::DeliverMsg(string()),
        Command::ParseSdp { kind: SdpKind::Offer, sdp: string() },
        Command::Connect(Signal::DataChannel),
    ];
    for command in ends {
        assert_eq!(command.after_failure(), AfterFailure::EndSession);
    }
    let posted = [
        Command::Play { failure: string() },
        Command::Send { message: text("t"), what: Outgoing::Candidate },
        Command::AddSink { description: string() },
    ];
    for command in posted {
        assert_eq!(command.after_failure(), AfterFailure::Post);
    }
    let ignored = [Command::DeliverData(string()), Command::SetState(PipelineState::Null)];
    for command in ignored {
        assert_eq!(command.after_failure(), AfterFailure::Ignore);
    }
    let others = [
        Command::SetState(PipelineState::Ready),
        Command::Connect(Signal::NegotiationNeeded),
        Command::Connect(Signal::IceCandidate),
        Command::Connect(Signal::PadAdded),
        Command::SendString(string()),
        Command::CreateOffer,
        Command::PostError(string()),
        Command::AddDecoder { element: string() },
    ];
    for command in others {
        assert_eq!(command.after_failure(), AfterFailure::NotExpected);
    }
}

#[test]
fn channel_texts_reach_the_application() {
    let app = app(None);
    let notices = vec![
        Notice::ChannelMessage("a".to_string()),
        Notice::PadAdded(PadDirection::Src),
        Notice::ChannelMessage("".to_string()),
        Notice::ChannelMessage("a".to_string()),
    ];
    let mut delivered: Vec<String> = vec![];
    for notice in notices {
        for command in app.handle_notice(notice) {
            match command {
                Command::DeliverData(text) => delivered.push(text),
                Command::DeliverMsg(text) => panic!("{}", text),
                _ => (),
            }
        }
    }
    assert_eq!(delivered, vec!["a", "", "a"]);
}

#[test]
fn texts_go_over_the_channel_in_order() {
    let app = app(None);
    let mut queue: Vec<String> = vec![];
    for text in ["1", "2", "2", "3"] {
        match app.take_turn(Event::Data(text.to_string()), read) {
            Turn::Go { message: Message::Data(queued), .. } => queue.push(queued),
            other => panic!("{:?}", other),
        }
    }
    let mut sent: Vec<Command> = vec![];
    for text in queue {
        match app.take_turn(Event::Forwarded(text), read) {
            Turn::Go { commands, message: Message::Nothing, .. } => sent.extend(commands),
            other => panic!("{:?}", other),
        }
    }
    let expected: Vec<Command> =
        ["1", "2", "2", "3"].iter().map(|t| Command::SendString(t.to_string())).collect();
    assert_eq!(sent, expected);
}

#[test]
fn agents_are_cloned_whole() {
    let agent = app(Some(3));
    assert_eq!(agent.clone(), agent);
}

#[test]
fn remote_descriptions_are_those_of_the_peer() {
    let app = app(Some(1));
    let mut set: Vec<Command> = vec![];
    for (type_, sdp) in [("offer", "1"), ("answer", "2"), ("offer", "1")] {
        let message = JsonMsg::Sdp { type_: type_.to_string(), sdp: sdp.to_string() };
        let asked = match app.take_turn(Event::Socket(WsMessage::Text(message.encode())), read) {
            Turn::Go { commands, .. } => commands,
            other => panic!("{:?}", other),
        };
        for command in asked {
            if let Command::ParseSdp { kind, sdp } = command {
                match app.take_turn(Event::SdpRead { kind, sdp, readable: true }, read) {
                    Turn::Go { commands, .. } => set.extend(commands),
                    other => panic!("{:?}", other),
                }
            }
        }
    }
    set.retain(|command| *command != Command::CreateAnswer);
    assert_eq!(
        set,
        vec![remote(SdpKind::Offer, "1"), remote(SdpKind::Answer, "2"), remote(SdpKind::Offer, "1")]
    );
}

#[test]
fn socket_carries_own_candidates_and_descriptions() {
    let app = app(Some(1));
    let notices = vec![
        Notice::IceCandidate { mlineindex: 0, candidate: "c".to_string() },
        Notice::NegotiationNeeded,
        Notice::Created {
            kind: SdpKind::Offer,
            reply: Reply::Description("o".to_string()),
        },
        Notice::Created { kind: SdpKind::Answer, reply: Reply::Nothing },
        Notice::IceCandidate { mlineindex: 0, candidate: "c".to_string() },
    ];
    let mut carried: Vec<WsMessage> = vec![];
    for notice in notices {
        for command in app.handle_notice(notice) {
            if let Command::Send { message, .. } = command {
                match app.take_turn(Event::Queued(message), read) {
                    Turn::Go { message: Message::Ws(message), .. } => carried.push(message),
                    other => panic!("{:?}", other),
                }
            }
        }
    }
    let candidate = "{\"ice\":{\"candidate\":\"c\",\"sdpMLineIndex\":0}}";
    let offer = "{\"sdp\":{\"type\":\"offer\",\"sdp\":\"o\"}}";
    assert_eq!(carried, vec![text(candidate), text(offer), text(candidate)]);
}
