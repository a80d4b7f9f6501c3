//! The stream that an application holds: what it hands in and what it is called with.

use vstd::prelude::*;
use vstd::utf8::{
    decode_utf8, encode_utf8, encode_utf8_decode_utf8, encode_utf8_valid_utf8, valid_utf8,
};

use crate::command::CommandView;
use crate::error::option_view;
use crate::lists::{lemma_filter_map_add, lemma_filter_map_short, present};
use crate::message::{WsMessage, WsMessageView};
use crate::run::{performs, read_turn, sends, EventView, MessageView, Reader};
use crate::webrtc::{notice_commands, reports_error, NoticeView};

verus! {

/// Where a text for the application comes from.
#[derive(Clone, Copy, Debug, PartialEq, Eq, Structural)]
pub enum Source {
    /// The data channel.
    Data,
    /// The signalling connection.
    Msg,
}

/// The application's side of a session: its object, and the texts that it wants to be called
/// with.
#[derive(Clone, Copy, Debug, PartialEq, Eq, Structural)]
pub struct BsStream {
    pub obj: usize,
    pub on_data_recv: bool,
    pub on_msg_recv: bool,
}

/// A call of the application.
#[derive(Debug, PartialEq, Eq)]
pub struct Call {
    pub obj: usize,
    pub source: Source,
    pub text: String,
}

/// What a `Call` says.
pub struct CallView {
    pub obj: usize,
    pub source: Source,
    pub text: Seq<char>,
}

impl View for Call {
    type V = CallView;

    open spec fn view(&self) -> CallView {
        CallView { obj: self.obj, source: self.source, text: self.text@ }
    }
}

/// The view of a call that may be absent.
pub open spec fn call_view(call: Option<Call>) -> Option<CallView> {
    match call {
        Some(c) => Some(c@),
        None => None,
    }
}

/// `std::str::from_utf8`: the text whose UTF-8 encoding the bytes are, if they are one.
#[verifier::external_body]
fn utf8_text(bytes: &[u8]) -> (result: Option<&str>)
    ensures
        result is Some <==> valid_utf8(bytes@),
        result matches Some(text) ==> encode_utf8(text@) == bytes@,
{
    std::str::from_utf8(bytes).ok()
}

/// The text that the bytes encode, if they encode one.
fn decoded(bytes: &[u8]) -> (result: Option<String>)
    ensures
        result is Some <==> valid_utf8(bytes@),
        result matches Some(text) ==> text@ == decode_utf8(bytes@),
{
    match utf8_text(bytes) {
        Some(text) => {
            proof {
                encode_utf8_decode_utf8(text@);
            }
            Some(text.to_string())
        },
        None => None,
    }
}

/// Starts the stream of an application: its side of the session, and the text of its
/// configuration.
pub fn bs_start(obj: usize, config: &[u8], on_data_recv: bool, on_msg_recv: bool) -> (result: (
    BsStream,
    String,
))
    requires
        valid_utf8(config@),
    ensures
        result.0 == (BsStream { obj, on_data_recv, on_msg_recv }),
        result.1@ == decode_utf8(config@),
{
    let text = decoded(config).unwrap();
    (BsStream { obj, on_data_recv, on_msg_recv }, text)
}

/// Whether the application wants to be called with texts from a source.
pub open spec fn wants(stream: BsStream, source: Source) -> bool {
    match source {
        Source::Data => stream.on_data_recv,
        Source::Msg => stream.on_msg_recv,
    }
}

/// The call that a text from a source leads to, if there is a text and the application wants
/// it; a text that it does not want is dropped.
pub open spec fn call_for(stream: BsStream, source: Source, received: Option<Seq<char>>) -> Option<
    CallView,
> {
    match received {
        Some(text) if wants(stream, source) => Some(CallView { obj: stream.obj, source, text }),
        _ => None,
    }
}

/// The sources that an update asks for one text each, in order.
pub fn update_sources() -> (result: Vec<Source>)
    ensures
        result@ == seq![Source::Data, Source::Msg],
{
    vec![Source::Data, Source::Msg]
}

/// The part of an update that belongs to one source: the call that what was received from it
/// leads to.
pub fn bs_update(stream: &BsStream, source: Source, received: Option<String>) -> (result: Option<
    Call,
>)
    ensures
        call_view(result) == call_for(*stream, source, option_view(received)),
{
    let wanted = match source {
        Source::Data => stream.on_data_recv,
        Source::Msg => stream.on_msg_recv,
    };
    match received {
        Some(text) if wanted => Some(Call { obj: stream.obj, source, text }),
        _ => None,
    }
}

/// The calls of one update, given what is received from the data channel and from the
/// signalling connection: the data come first.
pub open spec fn update_calls(
    stream: BsStream,
    data: Option<Seq<char>>,
    msg: Option<Seq<char>>,
) -> Seq<CallView> {
    present(call_for(stream, Source::Data, data)) + present(call_for(stream, Source::Msg, msg))
}

/// The text that has waited longest, if one waits.
pub open spec fn oldest(waiting: Seq<Seq<char>>) -> Option<Seq<char>> {
    if waiting.len() > 0 {
        Some(waiting[0])
    } else {
        None
    }
}

/// The first `n` texts, or all where there are fewer.
pub open spec fn first(waiting: Seq<Seq<char>>, n: nat) -> Seq<Seq<char>> {
    if n <= waiting.len() {
        waiting.take(n as int)
    } else {
        waiting
    }
}

/// The calls of `n` updates in a row, where these texts wait and no more arrive. Each update
/// takes the text from either source that has waited longest.
pub open spec fn updates(
    stream: BsStream,
    data: Seq<Seq<char>>,
    msg: Seq<Seq<char>>,
    n: nat,
) -> Seq<CallView>
    decreases n,
{
    if n == 0 {
        Seq::empty()
    } else {
        update_calls(stream, oldest(data), oldest(msg)) + updates(
            stream,
            data.skip(first(data, 1).len() as int),
            msg.skip(first(msg, 1).len() as int),
            (n - 1) as nat,
        )
    }
}

/// The text of a call about a source.
pub open spec fn text_from(source: Source, call: CallView) -> Option<Seq<char>> {
    if call.source == source {
        Some(call.text)
    } else {
        None
    }
}

/// `n` updates call the application with the first `n` waiting texts of each source, unchanged,
/// in order and once each, if it wants them; always with its own object.
pub proof fn updates_call_with_the_first_texts(
    stream: BsStream,
    data: Seq<Seq<char>>,
    msg: Seq<Seq<char>>,
    n: nat,
)
    ensures
        updates(stream, data, msg, n).filter_map(|c: CallView| text_from(Source::Data, c)) == (
        if wants(stream, Source::Data) {
            first(data, n)
        } else {
            Seq::empty()
        }),
        updates(stream, data, msg, n).filter_map(|c: CallView| text_from(Source::Msg, c)) == (
        if wants(stream, Source::Msg) {
            first(msg, n)
        } else {
            Seq::empty()
        }),
        forall|i: int|
            0 <= i < updates(stream, data, msg, n).len() ==> (#[trigger] updates(
                stream,
                data,
                msg,
                n,
            )[i]).obj == stream.obj,
    decreases n,
{
    if n > 0 {
        let from_data = |c: CallView| text_from(Source::Data, c);
        let from_msg = |c: CallView| text_from(Source::Msg, c);
        let calls = update_calls(stream, oldest(data), oldest(msg));
        let data_rest = data.skip(first(data, 1).len() as int);
        let msg_rest = msg.skip(first(msg, 1).len() as int);
        let later = updates(stream, data_rest, msg_rest, (n - 1) as nat);
        updates_call_with_the_first_texts(stream, data_rest, msg_rest, (n - 1) as nat);
        lemma_filter_map_add(calls, later, from_data);
        lemma_filter_map_add(calls, later, from_msg);
        lemma_filter_map_short(calls, from_data);
        lemma_filter_map_short(calls, from_msg);
        assert(first(data, n) == present(oldest(data)) + first(data_rest, (n - 1) as nat));
        assert(first(msg, n) == present(oldest(msg)) + first(msg_rest, (n - 1) as nat));
    }
}

/// The text for the data channel that an application hands in. Bytes that encode no text are
/// dropped.
pub fn bs_send_data(data: &[u8]) -> (result: Option<String>)
    ensures
        result is Some <==> valid_utf8(data@),
        result matches Some(text) ==> text@ == decode_utf8(data@),
{
    decoded(data)
}

/// The message for the signalling connection that an application hands in. Bytes that encode
/// no text are dropped.
pub fn bs_send_msg(data: &[u8]) -> (result: Option<WsMessage>)
    ensures
        result is Some <==> valid_utf8(data@),
        result matches Some(message) ==> message@ == WsMessageView::Text(decode_utf8(data@)),
{
    match decoded(data) {
        Some(text) => Some(WsMessage::Text(text)),
        None => None,
    }
}

/// The encoding of a text is taken in as that text, whatever it holds.
pub proof fn texts_are_taken_in_unchanged(text: Seq<char>)
    ensures
        valid_utf8(encode_utf8(text)),
        decode_utf8(encode_utf8(text)) == text,
{
    encode_utf8_valid_utf8(text);
    encode_utf8_decode_utf8(text);
}

/// A text that one application hands in for the data channel is put into the queue, then sent
/// over the channel; a text that comes out of the channel on the other side is what the other
/// application is called with, if it wants to be.
pub proof fn data_reach_the_other_application(
    reader: Reader,
    text: Seq<char>,
    other: BsStream,
)
    requires
        other.on_data_recv,
    ensures
        decode_utf8(encode_utf8(text)) == text,
        read_turn(reader, EventView::Data(text)) == sends(MessageView::Data(text)),
        read_turn(reader, EventView::Forwarded(text)) == performs(
            Ok(seq![CommandView::SendString(text)]),
        ),
        notice_commands(NoticeView::ChannelMessage(text)) == seq![CommandView::DeliverData(text)],
        call_for(other, Source::Data, Some(text)) == Some(
            CallView { obj: other.obj, source: Source::Data, text },
        ),
{
    texts_are_taken_in_unchanged(text);
}

/// A text that one application hands in for the signalling connection is sent as it is; on the
/// other side it is what the other application is called with, if it wants to be, unless it
/// reads as an error of the server or as a message between peers.
pub proof fn messages_reach_the_other_application(
    reader: Reader,
    text: Seq<char>,
    other: BsStream,
)
    requires
        other.on_msg_recv,
        !reports_error(text),
        reader(text) is None,
    ensures
        decode_utf8(encode_utf8(text)) == text,
        read_turn(reader, EventView::Posted(WsMessageView::Text(text))) == sends(
            MessageView::Ws(WsMessageView::Text(text)),
        ),
        read_turn(reader, EventView::Socket(WsMessageView::Text(text))) == performs(
            Ok(seq![CommandView::DeliverMsg(text)]),
        ),
        call_for(other, Source::Msg, Some(text)) == Some(
            CallView { obj: other.obj, source: Source::Msg, text },
        ),
{
    texts_are_taken_in_unchanged(text);
}

/// What a call says is what it holds.
pub proof fn call_view_keeps_the_fields(call: Call)
    ensures
        call@ == (CallView { obj: call.obj, source: call.source, text: call.text@ }),
        call_view(Some(call)) == Some(call@),
        call_view(None) is None,
{
}

/// The application is called with a text from a source exactly if it wants texts from that source,
/// with its own object and the text as it is; without a text it is not called.
pub proof fn application_is_called_with_what_it_wants(
    obj: usize,
    on_data_recv: bool,
    on_msg_recv: bool,
    text: Seq<char>,
)
    ensures
        ({
            let stream = BsStream { obj, on_data_recv, on_msg_recv };
            &&& call_for(stream, Source::Data, Some(text)) == (if on_data_recv {
                Some(CallView { obj, source: Source::Data, text })
            } else {
                None
            })
            &&& call_for(stream, Source::Msg, Some(text)) == (if on_msg_recv {
                Some(CallView { obj, source: Source::Msg, text })
            } else {
                None
            })
            &&& call_for(stream, Source::Data, None) is None
            &&& call_for(stream, Source::Msg, None) is None
        }),
{
}

} // verus!
