use botstream::error::{AgentError, MissingElement};
use botstream::handshake::{
    check_hello, check_session, Handshake, HandshakeAction, HandshakeEvent, Phase,
};
use botstream::launch::{
    check_plugins, needed_plugins, prime_pipeline, Args, SourceFormat, DEFAULT_PIPELINE,
    DEFAULT_SERVER,
};
use botstream::message::{CloseFrame, WsMessage};
use botstream::utils::{
    frame_request, BsVideoConfig, BsVideoFormat, FrameRequest, FrameStep, PixelFormat,
    VideoParameters,
};

fn args(peer_id: Option<u32>, agent_id: Option<u32>) -> Args {
    Args {
        server: "wss://localhost:8443".to_string(),
        peer_id,
        agent_id,
        pipeline: vec!["a".to_string(), "b".to_string()],
    }
}

fn text(s: &str) -> WsMessage {
    WsMessage::Text(s.to_string())
}

fn primed(s: &str) -> String {
    let mut pipeline = s.to_string();
    prime_pipeline(&mut pipeline);
    pipeline
}

#[test]
fn webrtc_reference_is_declared() {
    let given = "audiotestsrc is-live=true ! opusenc ! rtpopuspay pt=97 ! webrtc.";
    assert_eq!(primed(given), format!("{} webrtcbin name=webrtc", given));
}

#[test]
fn video_reference_is_declared() {
    assert_eq!(primed("video. ! fakesink"), "video. ! fakesink appsrc name=video");
}

#[test]
fn both_references_are_declared_in_order() {
    let given = "video. ! videoconvert  ! vp8enc deadline=1 ! rtpvp8pay pt=96 ! webrtc.";
    assert_eq!(primed(given), format!("{} webrtcbin name=webrtc appsrc name=video", given));
}

#[test]
fn pipeline_without_references_is_left_alone() {
    assert_eq!(primed(""), "");
    assert_eq!(primed("webrtc"), "webrtc");
    assert_eq!(primed("video"), "video");
    assert_eq!(primed("éwebrtc video"), "éwebrtc video");
    assert_eq!(primed(DEFAULT_PIPELINE), DEFAULT_PIPELINE);
}

#[test]
fn reference_may_stand_inside_a_word() {
    assert_eq!(primed("mywebrtc.x"), "mywebrtc.x webrtcbin name=webrtc");
    assert_eq!(primed("é.video."), "é.video. appsrc name=video");
}

#[test]
fn defaults() {
    assert_eq!(DEFAULT_SERVER, "wss://localhost:8443");
    assert_eq!(
        DEFAULT_PIPELINE,
        "videotestsrc pattern=ball is-live=true ! vp8enc deadline=1 ! rtpvp8pay pt=96 ! \
         webrtcbin. audiotestsrc is-live=true ! opusenc ! rtpopuspay pt=97 ! webrtcbin. \
         webrtcbin name=webrtcbin"
    );
}

#[test]
fn plan_joins_and_primes_the_pieces() {
    let args = Args {
        server: "wss://example.org:1".to_string(),
        peer_id: Some(1000),
        agent_id: Some(9000),
        pipeline: vec![
            "video. ! videoconvert  ! vp8enc deadline=1 ! rtpvp8pay pt=96 ! webrtc.".to_string(),
            "audiotestsrc is-live=true ! opusenc ! rtpopuspay pt=97 ! webrtc.".to_string(),
        ],
    };
    let plan = args.plan(&BsVideoConfig::standalone());
    assert_eq!(
        plan.description,
        "video. ! videoconvert  ! vp8enc deadline=1 ! rtpvp8pay pt=96 ! webrtc. \
         audiotestsrc is-live=true ! opusenc ! rtpopuspay pt=97 ! webrtc. \
         webrtcbin name=webrtc appsrc name=video"
    );
    assert_eq!(plan.source, "video");
    assert!(plan.source_required);
    assert_eq!(plan.source_format, SourceFormat::Time);
    assert_eq!(plan.server, "wss://example.org:1");
    assert_eq!(
        plan.video,
        VideoParameters {
            format: PixelFormat::Rgba,
            width: 256,
            height: 256,
            fps_numerator: 10,
            fps_denominator: 1,
        }
    );
}

#[test]
fn pipeline_of_test_sources_needs_no_application() {
    let args = Args {
        server: DEFAULT_SERVER.to_string(),
        peer_id: Some(1000),
        agent_id: Some(9000),
        pipeline: vec![
            "videotestsrc pattern=snow is-live=true ! vp8enc deadline=1 ! rtpvp8pay pt=96 ! \
             webrtc."
                .to_string(),
            "audiotestsrc is-live=true ! opusenc ! rtpopuspay pt=97 ! webrtc.".to_string(),
        ],
    };
    let plan = args.plan(&BsVideoConfig::standalone());
    assert_eq!(
        plan.description,
        "videotestsrc pattern=snow is-live=true ! vp8enc deadline=1 ! rtpvp8pay pt=96 ! webrtc. \
         audiotestsrc is-live=true ! opusenc ! rtpopuspay pt=97 ! webrtc. webrtcbin name=webrtc"
    );
    assert!(!plan.source_required);
}

#[test]
fn arguments_are_cloned_whole() {
    let given = args(Some(1), None);
    assert_eq!(given.clone(), given);
}

#[test]
fn plan_of_no_pieces_is_empty() {
    let args = Args { server: String::new(), peer_id: None, agent_id: None, pipeline: vec![] };
    assert_eq!(args.plan(&BsVideoConfig::standalone()).description, "");
}

#[test]
fn frame_rate_keeps_its_bits() {
    let config = |framerate| BsVideoConfig {
        format: BsVideoFormat::RGBA8,
        width: 1,
        height: 2,
        framerate,
    };
    assert_eq!(config(0x7fff_ffff).parameters().fps_numerator, i32::MAX);
    assert_eq!(config(0x8000_0000).parameters().fps_numerator, i32::MIN);
    assert_eq!(config(u32::MAX).parameters().fps_numerator, -1);
    assert_eq!(config(3).parameters().height, 2);
}

#[test]
fn frames_are_requested_from_an_application_that_asks() {
    assert_eq!(
        frame_request(7, 262144, true),
        FrameRequest { buffer_size: 262144, call: Some((7, 262144)) }
    );
    assert_eq!(frame_request(7, 262144, false), FrameRequest { buffer_size: 262144, call: None });
    assert_eq!(frame_request(0, 0x1_0000_0005, true).call, Some((0, 5)));
}

#[test]
fn each_request_pushes_one_frame() {
    assert_eq!(
        frame_request(7, 16, true).steps(),
        vec![
            FrameStep::Allocate(16),
            FrameStep::Stamp,
            FrameStep::Fill { obj: 7, length: 16 },
            FrameStep::Push,
        ]
    );
    assert_eq!(
        frame_request(7, 16, false).steps(),
        vec![FrameStep::Allocate(16), FrameStep::Stamp, FrameStep::Push]
    );
}

#[test]
fn all_plugins_registered() {
    assert_eq!(check_plugins(&needed_plugins()), Ok(()));
}

#[test]
fn missing_plugins_are_listed_in_order() {
    let registered: Vec<String> = needed_plugins()
        .into_iter()
        .filter(|name| name != "nice" && name != "opus")
        .chain(vec!["more".to_string()])
        .collect();
    let error = check_plugins(&registered).unwrap_err();
    assert_eq!(error.message(), "Missing plugins: [\"opus\", \"nice\"]");
    assert_eq!(
        error,
        AgentError::MissingPlugins(vec!["opus".to_string(), "nice".to_string()])
    );
}

#[test]
fn list_of_missing_plugins_reads_as_a_debug_list() {
    let needed = needed_plugins();
    let error = check_plugins(&vec![]).unwrap_err();
    assert_eq!(error.message(), format!("Missing plugins: {:?}", needed));
    assert_eq!(needed.len(), 16);
    assert_eq!(needed[0], "videotestsrc");
    assert_eq!(needed[15], "audioresample");
}

#[test]
fn given_number_is_registered() {
    assert_eq!(args(None, Some(3)).registration_id(), 3);
    assert_eq!(args(None, Some(4294967295)).registration_id(), 4294967295);
}

#[test]
fn drawn_number_is_in_range_and_varies() {
    let args = args(None, None);
    let first = args.registration_id();
    let mut varies = false;
    for _ in 0..1000 {
        let id = args.registration_id();
        assert!(10 <= id && id < 10_000);
        varies = varies || id != first;
    }
    assert!(varies);
}

#[test]
fn agent_joins_a_peer() {
    let (mut handshake, action) = Handshake::new(&args(Some(1000), Some(9000)));
    assert_eq!(action, HandshakeAction::Connect("wss://localhost:8443".to_string()));
    assert_eq!(
        handshake.step(HandshakeEvent::Connected),
        HandshakeAction::Send(text("HELLO 9000"))
    );
    assert_eq!(handshake.step(HandshakeEvent::Sent), HandshakeAction::Receive);
    assert_eq!(
        handshake.step(HandshakeEvent::Received(text("HELLO"))),
        HandshakeAction::Send(text("SESSION 1000"))
    );
    assert_eq!(handshake.step(HandshakeEvent::Sent), HandshakeAction::Receive);
    assert_eq!(
        handshake.step(HandshakeEvent::Received(text("SESSION_OK"))),
        HandshakeAction::Run
    );
    assert_eq!(handshake.phase, Phase::Running);
    assert!(!handshake.expects(&HandshakeEvent::Ended));
    assert!(!handshake.expects(&HandshakeEvent::Failed(String::new())));
}

#[test]
fn agent_waits_to_be_called() {
    let (mut handshake, _) = Handshake::with_id(&args(None, None), 10);
    assert_eq!(
        handshake.step(HandshakeEvent::Connected),
        HandshakeAction::Send(text("HELLO 10"))
    );
    assert_eq!(handshake.step(HandshakeEvent::Sent), HandshakeAction::Receive);
    assert_eq!(
        handshake.step(HandshakeEvent::Received(text("HELLO"))),
        HandshakeAction::Run
    );
}

#[test]
fn events_are_expected_in_their_phase_only() {
    let (mut handshake, _) = Handshake::with_id(&args(Some(0), None), 0);
    assert!(handshake.expects(&HandshakeEvent::Connected));
    assert!(!handshake.expects(&HandshakeEvent::Sent));
    assert!(handshake.expects(&HandshakeEvent::Failed(String::new())));
    handshake.step(HandshakeEvent::Connected);
    assert!(!handshake.expects(&HandshakeEvent::Connected));
    assert!(handshake.expects(&HandshakeEvent::Sent));
    handshake.step(HandshakeEvent::Sent);
    assert!(handshake.expects(&HandshakeEvent::Ended));
    assert!(handshake.expects(&HandshakeEvent::Received(text(""))));
}

#[test]
fn wrong_greeting_fails() {
    for reply in [text("HELLO 10"), text("hello"), text(""), WsMessage::Binary(b"HELLO".to_vec())] {
        let (mut handshake, _) = Handshake::with_id(&args(Some(1), None), 10);
        handshake.step(HandshakeEvent::Connected);
        handshake.step(HandshakeEvent::Sent);
        let action = handshake.step(HandshakeEvent::Received(reply));
        assert_eq!(action, HandshakeAction::Fail(AgentError::NoHello));
        assert_eq!(handshake.phase, Phase::Failed);
    }
    assert_eq!(AgentError::NoHello.message(), "server didn't say HELLO");
}

#[test]
fn silent_server_fails() {
    let (mut handshake, _) = Handshake::with_id(&args(None, None), 10);
    handshake.step(HandshakeEvent::Connected);
    handshake.step(HandshakeEvent::Sent);
    assert_eq!(
        handshake.step(HandshakeEvent::Ended),
        HandshakeAction::Fail(AgentError::NothingReceived)
    );
    assert_eq!(AgentError::NothingReceived.message(), "didn't receive anything");
}

#[test]
fn failed_connection_fails() {
    let (mut handshake, _) = Handshake::with_id(&args(None, None), 10);
    let action = handshake.step(HandshakeEvent::Failed("refused".to_string()));
    assert_eq!(action, HandshakeAction::Fail(AgentError::Connection("refused".to_string())));
    assert_eq!(AgentError::Connection("refused".to_string()).message(), "refused");
}

#[test]
fn refused_session_shows_the_reply() {
    let shown = |reply: WsMessage| check_session(&reply).unwrap_err().message();
    assert_eq!(
        shown(text("ERROR peer \"1000\" not found")),
        "server error: Text(\"ERROR peer \\\"1000\\\" not found\")"
    );
    assert_eq!(shown(WsMessage::Binary(vec![1, 2])), "server error: Binary([1, 2])");
    assert_eq!(shown(WsMessage::Ping(vec![3])), "server error: Ping([3])");
    assert_eq!(shown(WsMessage::Pong(vec![])), "server error: Pong([])");
    assert_eq!(shown(WsMessage::Close(None)), "server error: Close(None)");
    assert_eq!(
        shown(WsMessage::Close(Some(CloseFrame { code: 1001, reason: "bye".to_string() }))),
        "server error: Close(Some(CloseFrame { code: Away, reason: \"bye\" }))"
    );
    assert_eq!(check_session(&text("SESSION_OK")), Ok(()));
    assert_eq!(check_hello(&text("HELLO")), Ok(()));
}

#[test]
fn refused_session_fails_the_handshake() {
    let (mut handshake, _) = Handshake::with_id(&args(Some(1000), None), 10);
    handshake.step(HandshakeEvent::Connected);
    handshake.step(HandshakeEvent::Sent);
    handshake.step(HandshakeEvent::Received(text("HELLO")));
    handshake.step(HandshakeEvent::Sent);
    assert_eq!(
        handshake.step(HandshakeEvent::Received(text("HELLO"))),
        HandshakeAction::Fail(AgentError::ServerError("Text(\"HELLO\")".to_string()))
    );
}

#[test]
fn missing_element_is_named() {
    assert_eq!(MissingElement("vp8enc").message(), "Missing element vp8enc");
}
