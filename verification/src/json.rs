//! The JSON messages that two peers exchange over the signalling connection.

use vstd::prelude::*;

use crate::text::{append_decimal, decimal, lemma_decimal_injective};

verus! {

/// A message between peers: an ICE candidate, a session description or a free-form text.
#[derive(Debug, PartialEq, Eq)]
pub enum JsonMsg {
    Ice { candidate: String, sdp_mline_index: u32 },
    Sdp { type_: String, sdp: String },
    Msg { msg: String },
}

/// What a `JsonMsg` says.
pub enum JsonMsgView {
    Ice { candidate: Seq<char>, sdp_mline_index: u32 },
    Sdp { type_: Seq<char>, sdp: Seq<char> },
    Msg { msg: Seq<char> },
}

impl View for JsonMsg {
    type V = JsonMsgView;

    open spec fn view(&self) -> JsonMsgView {
        match self {
            JsonMsg::Ice { candidate, sdp_mline_index } => JsonMsgView::Ice {
                candidate: candidate@,
                sdp_mline_index: *sdp_mline_index,
            },
            JsonMsg::Sdp { type_, sdp } => JsonMsgView::Sdp { type_: type_@, sdp: sdp@ },
            JsonMsg::Msg { msg } => JsonMsgView::Msg { msg: msg@ },
        }
    }
}

/// The lower-case hexadecimal digit of `d`.
pub open spec fn hex_digit(d: int) -> char
    recommends
        0 <= d < 16,
{
    if d < 10 {
        (48 + d) as char
    } else {
        (87 + d) as char
    }
}

/// How one character stands in a JSON string: quote, backslash and the control characters
/// are escaped, every other character stands for itself.
pub open spec fn escaped(c: char) -> Seq<char> {
    if c == '"' || c == '\\' {
        seq!['\\', c]
    } else if c == '\n' {
        seq!['\\', 'n']
    } else if c == '\r' {
        seq!['\\', 'r']
    } else if c == '\t' {
        seq!['\\', 't']
    } else if c as int == 8 {
        seq!['\\', 'b']
    } else if c as int == 12 {
        seq!['\\', 'f']
    } else if (c as int) < 32 {
        seq!['\\', 'u', '0', '0', hex_digit(c as int / 16), hex_digit(c as int % 16)]
    } else {
        seq![c]
    }
}

/// The characters of `text` as they stand in a JSON string.
pub open spec fn escaped_text(text: Seq<char>) -> Seq<char>
    decreases text.len(),
{
    if text.len() == 0 {
        Seq::empty()
    } else {
        escaped(text[0]) + escaped_text(text.drop_first())
    }
}

/// The JSON string of `text`.
pub open spec fn quoted(text: Seq<char>) -> Seq<char> {
    seq!['"'] + escaped_text(text) + seq!['"']
}

/// The JSON text of a message: an object with one member, named after the kind of message,
/// whose value holds the fields in order; no white space.
pub open spec fn encoding(message: JsonMsgView) -> Seq<char> {
    match message {
        JsonMsgView::Ice { candidate, sdp_mline_index } => {
            "{\"ice\":{\"candidate\":"@ + quoted(candidate) + ",\"sdpMLineIndex\":"@ + decimal(
                sdp_mline_index as nat,
            ) + "}}"@
        },
        JsonMsgView::Sdp { type_, sdp } => {
            "{\"sdp\":{\"type\":"@ + quoted(type_) + ",\"sdp\":"@ + quoted(sdp) + "}}"@
        },
        JsonMsgView::Msg { msg } => { "{\"msg\":{\"msg\":"@ + quoted(msg) + "}}"@ },
    }
}

/// `serde_json::to_string` on a `str`: the text between double quotes, with quote, backslash
/// and the control characters below U+0020 escaped and all else unchanged. It fails only where
/// the writer fails, and the writer here is a vector of bytes.
#[verifier::external_body]
fn json_string(text: &str) -> (result: String)
    ensures
        result@ == quoted(text@),
{
    serde_json::to_string(text).unwrap()
}

impl JsonMsg {
    /// The text under which this message is sent to the peer.
    pub fn encode(&self) -> (result: String)
        ensures
            result@ == encoding(self@),
    {
        match self {
            JsonMsg::Ice { candidate, sdp_mline_index } => {
                let mut result = "{\"ice\":{\"candidate\":".to_string();
                result.append(json_string(candidate.as_str()).as_str());
                result.append(",\"sdpMLineIndex\":");
                append_decimal(&mut result, *sdp_mline_index);
                result.append("}}");
                result
            },
            JsonMsg::Sdp { type_, sdp } => {
                let mut result = "{\"sdp\":{\"type\":".to_string();
                result.append(json_string(type_.as_str()).as_str());
                result.append(",\"sdp\":");
                result.append(json_string(sdp.as_str()).as_str());
                result.append("}}");
                result
            },
            JsonMsg::Msg { msg } => {
                let mut result = "{\"msg\":{\"msg\":".to_string();
                result.append(json_string(msg.as_str()).as_str());
                result.append("}}");
                result
            },
        }
    }
}

/// What is left of `whole` once its first `front.len()` characters are gone.
proof fn lemma_strip_front(front: Seq<char>, rest: Seq<char>)
    ensures
        (front + rest).skip(front.len() as int) == rest,
{
}

/// Escapes of different characters differ before either of them ends.
proof fn lemma_escaped_unique(a: char, x: Seq<char>, b: char, y: Seq<char>)
    requires
        escaped(a) + x == escaped(b) + y,
    ensures
        a == b,
        x == y,
{
    let left = escaped(a) + x;
    let right = escaped(b) + y;
    assert(left[0] == escaped(a)[0]);
    assert(right[0] == escaped(b)[0]);
    if escaped(a).len() > 1 && escaped(b).len() > 1 {
        assert(left[1] == escaped(a)[1]);
        assert(right[1] == escaped(b)[1]);
        if escaped(a).len() == 6 && escaped(b).len() == 6 {
            assert(left[4] == escaped(a)[4]);
            assert(right[4] == escaped(b)[4]);
            assert(left[5] == escaped(a)[5]);
            assert(right[5] == escaped(b)[5]);
        }
    }
    assert(a == b);
    lemma_strip_front(escaped(a), x);
    lemma_strip_front(escaped(b), y);
}

/// Where an escaped text ends is settled by its closing quote.
proof fn lemma_escaped_text_unique(a: Seq<char>, x: Seq<char>, b: Seq<char>, y: Seq<char>)
    requires
        escaped_text(a) + (seq!['"'] + x) == escaped_text(b) + (seq!['"'] + y),
    ensures
        a == b,
        x == y,
    decreases a.len(),
{
    let left = escaped_text(a) + (seq!['"'] + x);
    let right = escaped_text(b) + (seq!['"'] + y);
    if a.len() == 0 && b.len() == 0 {
        assert(left == seq!['"'] + x);
        assert(right == seq!['"'] + y);
        lemma_strip_front(seq!['"'], x);
        lemma_strip_front(seq!['"'], y);
    } else if a.len() == 0 {
        assert(left[0] == '"');
        assert(right[0] == escaped(b[0])[0]);
    } else if b.len() == 0 {
        assert(right[0] == '"');
        assert(left[0] == escaped(a[0])[0]);
    } else {
        let x1 = escaped_text(a.drop_first()) + (seq!['"'] + x);
        let y1 = escaped_text(b.drop_first()) + (seq!['"'] + y);
        assert(left == escaped(a[0]) + x1);
        assert(right == escaped(b[0]) + y1);
        lemma_escaped_unique(a[0], x1, b[0], y1);
        lemma_escaped_text_unique(a.drop_first(), x, b.drop_first(), y);
        assert(a == seq![a[0]] + a.drop_first());
        assert(b == seq![b[0]] + b.drop_first());
    }
}

/// A JSON string followed by more text can be read back in one way only.
pub proof fn lemma_quoted_unique(a: Seq<char>, x: Seq<char>, b: Seq<char>, y: Seq<char>)
    requires
        quoted(a) + x == quoted(b) + y,
    ensures
        a == b,
        x == y,
{
    let x1 = escaped_text(a) + (seq!['"'] + x);
    let y1 = escaped_text(b) + (seq!['"'] + y);
    assert(quoted(a) + x == seq!['"'] + x1);
    assert(quoted(b) + y == seq!['"'] + y1);
    lemma_strip_front(seq!['"'], x1);
    lemma_strip_front(seq!['"'], y1);
    lemma_escaped_text_unique(a, x, b, y);
}

/// The text of a message settles the message: no two messages are sent under the same text.
pub proof fn encoding_is_injective(m: JsonMsgView, n: JsonMsgView)
    requires
        encoding(m) == encoding(n),
    ensures
        m == n,
{
    let ice = "{\"ice\":{\"candidate\":"@;
    let sdp = "{\"sdp\":{\"type\":"@;
    let msg = "{\"msg\":{\"msg\":"@;
    reveal_strlit("{\"ice\":{\"candidate\":");
    reveal_strlit("{\"sdp\":{\"type\":");
    reveal_strlit("{\"msg\":{\"msg\":");
    reveal_strlit("}}");
    assert(ice[2] == 'i' && sdp[2] == 's' && msg[2] == 'm');
    match m {
        JsonMsgView::Ice { candidate, sdp_mline_index } => {
            let index = ",\"sdpMLineIndex\":"@;
            let tail = index + (decimal(sdp_mline_index as nat) + "}}"@);
            assert(encoding(m) == ice + (quoted(candidate) + tail));
            assert(encoding(m)[2] == 'i');
            assert(n is Ice) by {
                match n {
                    JsonMsgView::Sdp { .. } => { assert(encoding(n)[2] == 's'); },
                    JsonMsgView::Msg { .. } => { assert(encoding(n)[2] == 'm'); },
                    _ => {},
                }
            }
            let other = n->candidate;
            let j = n->sdp_mline_index;
            let other_tail = index + (decimal(j as nat) + "}}"@);
            assert(encoding(n) == ice + (quoted(other) + other_tail));
            lemma_strip_front(ice, quoted(candidate) + tail);
            lemma_strip_front(ice, quoted(other) + other_tail);
            lemma_quoted_unique(candidate, tail, other, other_tail);
            lemma_strip_front(index, decimal(sdp_mline_index as nat) + "}}"@);
            lemma_strip_front(index, decimal(j as nat) + "}}"@);
            let d = decimal(sdp_mline_index as nat);
            let e = decimal(j as nat);
            assert((d + "}}"@).take(d.len() as int) == d);
            assert((e + "}}"@).take(e.len() as int) == e);
            lemma_decimal_injective(sdp_mline_index as nat, j as nat);
        },
        JsonMsgView::Sdp { type_, sdp: description } => {
            let key = ",\"sdp\":"@;
            let tail = key + (quoted(description) + "}}"@);
            assert(encoding(m) == sdp + (quoted(type_) + tail));
            assert(encoding(m)[2] == 's');
            assert(n is Sdp) by {
                match n {
                    JsonMsgView::Ice { .. } => { assert(encoding(n)[2] == 'i'); },
                    JsonMsgView::Msg { .. } => { assert(encoding(n)[2] == 'm'); },
                    _ => {},
                }
            }
            let other_type = n->type_;
            let other = n->sdp;
            let other_tail = key + (quoted(other) + "}}"@);
            assert(encoding(n) == sdp + (quoted(other_type) + other_tail));
            lemma_strip_front(sdp, quoted(type_) + tail);
            lemma_strip_front(sdp, quoted(other_type) + other_tail);
            lemma_quoted_unique(type_, tail, other_type, other_tail);
            lemma_strip_front(key, quoted(description) + "}}"@);
            lemma_strip_front(key, quoted(other) + "}}"@);
            lemma_quoted_unique(description, "}}"@, other, "}}"@);
        },
        JsonMsgView::Msg { msg: text } => {
            assert(encoding(m) == msg + (quoted(text) + "}}"@));
            assert(encoding(m)[2] == 'm');
            assert(n is Msg) by {
                match n {
                    JsonMsgView::Ice { .. } => { assert(encoding(n)[2] == 'i'); },
                    JsonMsgView::Sdp { .. } => { assert(encoding(n)[2] == 's'); },
                    _ => {},
                }
            }
            let other = n->msg;
            assert(encoding(n) == msg + (quoted(other) + "}}"@));
            lemma_strip_front(msg, quoted(text) + "}}"@);
            lemma_strip_front(msg, quoted(other) + "}}"@);
            lemma_quoted_unique(text, "}}"@, other, "}}"@);
        },
    }
}

/// What a message says are its own fields.
pub proof fn message_view_keeps_the_fields(message: JsonMsg)
    ensures
        message matches JsonMsg::Ice { candidate, sdp_mline_index } ==> message@
            == (JsonMsgView::Ice { candidate: candidate@, sdp_mline_index }),
        message matches JsonMsg::Sdp { type_, sdp } ==> message@ == (JsonMsgView::Sdp {
            type_: type_@,
            sdp: sdp@,
        }),
        message matches JsonMsg::Msg { msg } ==> message@ == (JsonMsgView::Msg { msg: msg@ }),
{
}

/// The value of a hexadecimal digit.
pub open spec fn hex_value(c: char) -> Option<int> {
    if '0' <= c <= '9' {
        Some(c as int - '0' as int)
    } else if 'a' <= c <= 'f' {
        Some(c as int - 'a' as int + 10)
    } else if 'A' <= c <= 'F' {
        Some(c as int - 'A' as int + 10)
    } else {
        None
    }
}

/// The character that an escape of two characters stands for, by the second of them.
pub open spec fn short_escape(c: char) -> Option<char> {
    if c == '"' || c == '\\' || c == '/' {
        Some(c)
    } else if c == 'b' {
        Some(8 as char)
    } else if c == 'f' {
        Some(12 as char)
    } else if c == 'n' {
        Some('\n')
    } else if c == 'r' {
        Some('\r')
    } else if c == 't' {
        Some('\t')
    } else {
        None
    }
}

/// The first character that a JSON string stands for and how many of its characters do so.
pub open spec fn first_read(inner: Seq<char>) -> Option<(char, int)>
    recommends
        inner.len() > 0,
{
    if inner[0] == '"' || (inner[0] as int) < 32 {
        None
    } else if inner[0] != '\\' {
        Some((inner[0], 1))
    } else if inner.len() >= 6 && inner[1] == 'u' {
        match (hex_value(inner[2]), hex_value(inner[3]), hex_value(inner[4]), hex_value(inner[5])) {
            (Some(a), Some(b), Some(c), Some(d)) => Some(
                ((a * 4096 + b * 256 + c * 16 + d) as char, 6),
            ),
            _ => None,
        }
    } else if inner.len() >= 2 {
        match short_escape(inner[1]) {
            Some(c) => Some((c, 2)),
            None => None,
        }
    } else {
        None
    }
}

/// The text that a JSON string stands for, given what is between its quotes, if that is
/// well-formed and needs no pair of surrogates.
pub open spec fn string_read(inner: Seq<char>) -> Option<Seq<char>>
    decreases inner.len(),
{
    if inner.len() == 0 {
        Some(Seq::empty())
    } else {
        match first_read(inner) {
            None => None,
            Some((c, used)) => if 0 < used <= inner.len() {
                match string_read(inner.skip(used)) {
                    Some(rest) => Some(seq![c] + rest),
                    None => None,
                }
            } else {
                None
            },
        }
    }
}

proof fn lemma_first_read(c: char, rest: Seq<char>)
    ensures
        first_read(escaped(c) + rest) == Some((c, escaped(c).len() as int)),
{
    let inner = escaped(c) + rest;
    let n = c as int;
    assert forall|i: int| 0 <= i < escaped(c).len() implies #[trigger] inner[i] == escaped(c)[i] by {
    }
    if escaped(c).len() == 6 {
        assert(hex_value('0') == Some(0int));
        assert(hex_value(inner[2]) == Some(0int));
        assert(hex_value(inner[3]) == Some(0int));
        assert(0 <= n / 16 < 2);
        assert(hex_value(inner[4]) == Some(n / 16));
        assert(hex_value(inner[5]) == Some(n % 16));
        assert(n / 16 * 16 + n % 16 == n);
    }
}

proof fn lemma_lower_case(c: char)
    requires
        escaped(c).len() == 6,
    ensures
        forall|i: int| 0 <= i < 6 ==> !('A' <= #[trigger] escaped(c)[i] <= 'F'),
{
    let n = c as int;
    assert(escaped(c) == seq!['\\', 'u', '0', '0', hex_digit(n / 16), hex_digit(n % 16)]);
    assert(0 <= n / 16 < 2 && 0 <= n % 16 < 16);
}

/// A JSON string stands for its text, whatever the text holds. Printable characters but the quote
/// and the backslash stand for themselves; of the others, those that have a short escape are
/// written with it and the rest with four hexadecimal digits, in lower case.
pub proof fn json_string_stands_for_its_text(text: Seq<char>)
    ensures
        quoted(text) == seq!['"'] + escaped_text(text) + seq!['"'],
        string_read(escaped_text(text)) == Some(text),
        forall|c: char|
            c != '"' && c != '\\' && c as int >= 32 ==> #[trigger] escaped(c) == seq![c],
        forall|c: char|
            #[trigger] escaped(c).len() == 2 <==> (c == '"' || c == '\\' || c == '\n' || c == '\r'
                || c == '\t' || c as int == 8 || c as int == 12),
        forall|c: char, i: int|
            0 <= i < escaped(c).len() && escaped(c).len() == 6 ==> !('A' <= #[trigger] escaped(
                c,
            )[i] <= 'F'),
    decreases text.len(),
{
    if text.len() > 0 {
        let rest = escaped_text(text.drop_first());
        json_string_stands_for_its_text(text.drop_first());
        lemma_first_read(text[0], rest);
        lemma_strip_front(escaped(text[0]), rest);
        assert(seq![text[0]] + text.drop_first() == text);
    }
    assert forall|c: char, i: int| 0 <= i < escaped(c).len() && escaped(c).len() == 6 implies !('A'
        <= #[trigger] escaped(c)[i] <= 'F') by {
        lemma_lower_case(c);
    }
}

/// The text of a message is a JSON object with one member, named after the kind of message, whose
/// value is an object with the fields of the message in order.
pub proof fn message_text_is_an_object(candidate: Seq<char>, index: u32, a: Seq<char>, b: Seq<char>)
    ensures
        encoding(JsonMsgView::Ice { candidate, sdp_mline_index: index })
            == "{\"ice\":{\"candidate\":"@ + quoted(candidate) + ",\"sdpMLineIndex\":"@ + decimal(
            index as nat,
        ) + "}}"@,
        encoding(JsonMsgView::Sdp { type_: a, sdp: b }) == "{\"sdp\":{\"type\":"@ + quoted(a)
            + ",\"sdp\":"@ + quoted(b) + "}}"@,
        encoding(JsonMsgView::Msg { msg: a }) == "{\"msg\":{\"msg\":"@ + quoted(a) + "}}"@,
{
}

} // verus!
