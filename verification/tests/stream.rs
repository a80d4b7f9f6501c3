use botstream::command::Command;
use botstream::launch::Args;
use botstream::message::WsMessage;
use botstream::run::{Event, Message, Turn};
use botstream::stream::{
    bs_send_data, bs_send_msg, bs_start, bs_update, update_sources, BsStream, Call, Source,
};
use botstream::webrtc::{App, Notice};

#[test]
fn start_keeps_the_object_and_reads_the_configuration() {
    let (stream, config) = bs_start(7, "{\"server\":\"é\"}".as_bytes(), true, false);
    assert_eq!(stream, BsStream { obj: 7, on_data_recv: true, on_msg_recv: false });
    assert_eq!(config, "{\"server\":\"é\"}");
}

#[test]
fn application_is_called_with_what_it_wants() {
    let stream = BsStream { obj: 7, on_data_recv: true, on_msg_recv: true };
    assert_eq!(
        bs_update(&stream, Source::Data, Some("d".to_string())),
        Some(Call { obj: 7, source: Source::Data, text: "d".to_string() })
    );
    assert_eq!(
        bs_update(&stream, Source::Msg, Some("m".to_string())),
        Some(Call { obj: 7, source: Source::Msg, text: "m".to_string() })
    );
    assert_eq!(bs_update(&stream, Source::Data, None), None);
    assert_eq!(bs_update(&stream, Source::Msg, None), None);
}

#[test]
fn unwanted_texts_are_dropped() {
    let stream = BsStream { obj: 7, on_data_recv: false, on_msg_recv: true };
    assert_eq!(bs_update(&stream, Source::Data, Some("d".to_string())), None);
    assert!(bs_update(&stream, Source::Msg, Some("m".to_string())).is_some());
    let stream = BsStream { obj: 7, on_data_recv: true, on_msg_recv: false };
    assert!(bs_update(&stream, Source::Data, Some("d".to_string())).is_some());
    assert_eq!(bs_update(&stream, Source::Msg, Some("m".to_string())), None);
}

#[test]
fn texts_are_taken_in_unchanged() {
    for text in ["", "hello", "é€😀", "{\"msg\":{\"msg\":\"x\"}}"] {
        assert_eq!(bs_send_data(text.as_bytes()), Some(text.to_string()));
        assert_eq!(bs_send_msg(text.as_bytes()), Some(WsMessage::Text(text.to_string())));
    }
}

#[test]
fn bytes_that_are_no_text_are_dropped() {
    for bytes in [&[0xff_u8][..], &[0xc3][..], &[0xed, 0xa0, 0x80][..], &[0x61, 0x80][..]] {
        assert_eq!(bs_send_data(bytes), None);
        assert_eq!(bs_send_msg(bytes), None);
    }
}

#[test]
fn update_asks_the_data_channel_first() {
    assert_eq!(update_sources(), vec![Source::Data, Source::Msg]);
}

#[test]
fn updates_call_with_the_first_texts() {
    let stream = BsStream { obj: 7, on_data_recv: true, on_msg_recv: true };
    let mut data = vec!["d1", "d2", "d3"].into_iter();
    let mut msg = vec!["m1"].into_iter();
    let mut calls: Vec<String> = vec![];
    for _ in 0..2 {
        for source in update_sources() {
            let received = match source {
                Source::Data => data.next(),
                Source::Msg => msg.next(),
            };
            if let Some(call) = bs_update(&stream, source, received.map(|t| t.to_string())) {
                assert_eq!((call.obj, call.source), (7, source));
                calls.push(call.text);
            }
        }
    }
    assert_eq!(calls, vec!["d1", "m1", "d2"]);
}

fn agent() -> App {
    App {
        args: Args {
            server: "wss://localhost:8443".to_string(),
            peer_id: Some(1),
            agent_id: Some(2),
            pipeline: vec![],
        },
    }
}

#[test]
fn data_reach_the_other_application() {
    let stream = BsStream { obj: 7, on_data_recv: true, on_msg_recv: false };
    let text = bs_send_data("é".as_bytes()).unwrap();
    let queued = match agent().take_turn(Event::Data(text), |_: &str| None) {
        Turn::Go { message: Message::Data(queued), .. } => queued,
        other => panic!("{:?}", other),
    };
    let sent = match agent().take_turn(Event::Forwarded(queued), |_: &str| None) {
        Turn::Go { commands, .. } => commands,
        other => panic!("{:?}", other),
    };
    assert_eq!(sent, vec![Command::SendString("é".to_string())]);
    let delivered = agent().handle_notice(Notice::ChannelMessage("é".to_string()));
    assert_eq!(delivered, vec![Command::DeliverData("é".to_string())]);
    assert_eq!(
        bs_update(&stream, Source::Data, Some("é".to_string())),
        Some(Call { obj: 7, source: Source::Data, text: "é".to_string() })
    );
}

#[test]
fn messages_reach_the_other_application() {
    let message = bs_send_msg(b"plain text").unwrap();
    let sent = match agent().take_turn(Event::Posted(message), |_: &str| None) {
        Turn::Go { message: Message::Ws(sent), .. } => sent,
        other => panic!("{:?}", other),
    };
    assert_eq!(
        agent().take_turn(Event::Socket(sent), |_: &str| None),
        Turn::Go {
            commands: vec![Command::DeliverMsg("plain text".to_string())],
            log: None,
            message: Message::Nothing,
        }
    );
}
