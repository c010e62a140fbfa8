//! The control vocabulary: outbound `subscribe` / `unsubscribe` / `auth`
//! requests and the structural classification of inbound text frames.
use vstd::prelude::*;
use vstd::string::*;

verus! {

/// The lowercase hexadecimal digit for `d < 16`.
pub open spec fn hex_digit(d: u32) -> char {
    seq!['0', '1', '2', '3', '4', '5', '6', '7', '8', '9', 'a', 'b', 'c', 'd', 'e', 'f'][d as int]
}

/// How `c` stands inside a JSON string: quote and backslash escaped, the
/// control characters with a short escape where JSON has one, the other
/// characters below U+0020 as `\u00XX`, everything else unchanged.
pub open spec fn escaped_char(c: char) -> Seq<char> {
    if c == '"' {
        seq!['\\', '"']
    } else if c == '\\' {
        seq!['\\', '\\']
    } else if c == '\u{8}' {
        seq!['\\', 'b']
    } else if c == '\t' {
        seq!['\\', 't']
    } else if c == '\n' {
        seq!['\\', 'n']
    } else if c == '\u{c}' {
        seq!['\\', 'f']
    } else if c == '\r' {
        seq!['\\', 'r']
    } else if (c as u32) < 0x20 {
        seq!['\\', 'u', '0', '0', hex_digit((c as u32) / 16), hex_digit((c as u32) % 16)]
    } else {
        seq![c]
    }
}

/// Every character of `s` escaped, in order.
pub open spec fn escaped(s: Seq<char>) -> Seq<char>
    decreases s.len(),
{
    if s.len() == 0 {
        Seq::empty()
    } else {
        escaped(s.drop_last()) + escaped_char(s.last())
    }
}

/// The JSON string literal holding `s`.
pub open spec fn json_quoted(s: Seq<char>) -> Seq<char> {
    seq!['"'] + escaped(s) + seq!['"']
}

/// Relies on serde_json's compact rendering (`Display`) of `Value::String`:
/// the string quoted, each character escaped as JSON asks.
#[verifier::external_body]
fn json_string(s: &str) -> (r: String)
    ensures
        r@ == json_quoted(s@),
{
    serde_json::Value::String(s.to_string()).to_string()
}

/// The views of a vector of strings.
pub open spec fn views(v: Seq<String>) -> Seq<Seq<char>> {
    v.map_values(|s: String| s@)
}

/// `parts` separated by commas.
pub open spec fn joined(parts: Seq<Seq<char>>) -> Seq<char>
    decreases parts.len(),
{
    if parts.len() == 0 {
        Seq::empty()
    } else if parts.len() == 1 {
        parts[0]
    } else {
        joined(parts.drop_last()) + seq![','] + parts.last()
    }
}

/// The request `{"op":<op>,"args":[<args>]}` from its JSON-encoded pieces.
pub open spec fn request_of(op_json: Seq<char>, args_json: Seq<Seq<char>>) -> Seq<char> {
    "{\"op\":"@ + op_json + ",\"args\":["@ + joined(args_json) + "]}"@
}

/// Every string of `args` encoded as a JSON string.
pub open spec fn quoted_all(args: Seq<Seq<char>>) -> Seq<Seq<char>> {
    args.map_values(|a: Seq<char>| json_quoted(a))
}

/// The control request `op` with the arguments `args`.
pub open spec fn control_request(op: Seq<char>, args: Seq<Seq<char>>) -> Seq<char> {
    request_of(json_quoted(op), quoted_all(args))
}

/// Assembles a request from the JSON encoding of its operation and of each
/// of its arguments.
pub fn assemble_request(op_json: &str, args_json: &Vec<String>) -> (r: String)
    ensures
        r@ == request_of(op_json@, views(args_json@)),
{
    let mut out = String::from_str("{\"op\":");
    out.append(op_json);
    out.append(",\"args\":[");
    let ghost head = out@;
    let mut i: usize = 0;
    while i < args_json.len()
        invariant
            i <= args_json.len(),
            head == "{\"op\":"@ + op_json@ + ",\"args\":["@,
            out@ == head + joined(views(args_json@).take(i as int)),
        decreases args_json.len() - i,
    {
        if i > 0 {
            out.append(",");
        }
        out.append(args_json[i].as_str());
        proof {
            let vs = views(args_json@);
            let t = vs.take(i as int + 1);
            assert(t.drop_last() =~= vs.take(i as int));
            assert(t.last() == args_json@[i as int]@);
            if i == 0 {
                assert(vs.take(0) =~= Seq::<Seq<char>>::empty());
                assert(out@ =~= head + joined(t));
            } else {
                reveal_strlit(",");
                assert(out@ =~= head + joined(t));
            }
        }
        i = i + 1;
    }
    assert(views(args_json@).take(args_json.len() as int) =~= views(args_json@));
    out.append("]}");
    assert(out@ =~= request_of(op_json@, views(args_json@)));
    out
}

/// Frames the control request `op` with the arguments `args`.
pub fn build_request(op: &str, args: &Vec<String>) -> (r: String)
    ensures
        r@ == control_request(op@, views(args@)),
{
    let op_json = json_string(op);
    let mut quoted: Vec<String> = Vec::new();
    let mut i: usize = 0;
    while i < args.len()
        invariant
            i <= args.len(),
            views(quoted@) =~= quoted_all(views(args@)).take(i as int),
        decreases args.len() - i,
    {
        let q = json_string(args[i].as_str());
        let ghost before = quoted@;
        quoted.push(q);
        proof {
            assert(views(quoted@) =~= views(before).push(q@));
            assert(quoted_all(views(args@)).take(i as int + 1) =~= quoted_all(views(args@)).take(
                i as int,
            ).push(json_quoted(args@[i as int]@)));
        }
        i = i + 1;
    }
    assert(quoted_all(views(args@)).take(args.len() as int) =~= quoted_all(views(args@)));
    assemble_request(op_json.as_str(), &quoted)
}

/// A `subscribe` request for `topics`, duplicates included.
pub fn build_subscribe(topics: &Vec<String>) -> (r: String)
    ensures
        r@ == control_request("subscribe"@, views(topics@)),
{
    build_request("subscribe", topics)
}

/// An `unsubscribe` request for `topics`.
pub fn build_unsubscribe(topics: &Vec<String>) -> (r: String)
    ensures
        r@ == control_request("unsubscribe"@, views(topics@)),
{
    build_request("unsubscribe", topics)
}

/// The `auth` request carrying the signed credential as its one argument.
pub fn build_auth(signed_credential: &str) -> (r: String)
    ensures
        r@ == control_request("auth"@, seq![signed_credential@]),
{
    let args = vec![signed_credential.to_string()];
    proof {
        to_string_from_display_ensures_for_str(signed_credential, args[0]);
        assert(views(args@) =~= seq![signed_credential@]);
    }
    build_request("auth", &args)
}

/// The topic of an order book stream: `orderbook.<level>.<pair>`.
pub open spec fn orderbook_topic_spec(level: Seq<char>, pair: Seq<char>) -> Seq<char> {
    "orderbook."@ + level + "."@ + pair
}

/// Builds the order book topic for `pair` at depth `level`.
pub fn orderbook_topic(level: &str, pair: &str) -> (r: String)
    ensures
        r@ == orderbook_topic_spec(level@, pair@),
{
    let mut t = String::from_str("orderbook.");
    t.append(level);
    t.append(".");
    t.append(pair);
    t
}

/// The string held under `key` in the top-level JSON object written in
/// `text`; `None` where `text` is not JSON, not an object, or has no string
/// member `key`.
pub uninterp spec fn json_str_member(text: Seq<char>, key: Seq<char>) -> Option<Seq<char>>;

/// The view of an optional string.
pub open spec fn opt_view(o: Option<String>) -> Option<Seq<char>> {
    match o {
        Some(s) => Some(s@),
        None => None,
    }
}

/// Relies on serde_json::from_str into a `Value`, then `Value::get` and
/// `Value::as_str`: the string member `key` of the document `text`.
#[verifier::external_body]
fn str_member(text: &str, key: &str) -> (r: Option<String>)
    ensures
        opt_view(r) == json_str_member(text@, key@),
{
    let v: serde_json::Value = serde_json::from_str(text).ok()?;
    v.get(key)?.as_str().map(|s| s.to_string())
}

/// What an inbound text frame is, judged by its control markers.
#[derive(Clone, Copy, Debug, PartialEq, Eq, Structural)]
pub enum FrameKind {
    /// The reply to a `subscribe` or `unsubscribe` request.
    SubscribeAck,
    /// The reply to an `auth` request.
    AuthAck,
    /// The reply to an application-level `ping`.
    PongReply,
    /// A data event: no `op` member, a string `topic` member.
    Data,
    /// Anything else.
    Unrecognized,
}

/// The kind of a text frame with the string members `op` and `topic`: an
/// `op` member marks a control reply, otherwise a `topic` member marks a data
/// event.
pub open spec fn kind_from(op: Option<Seq<char>>, topic: Option<Seq<char>>) -> FrameKind {
    match op {
        Some(op) => if op == "subscribe"@ || op == "unsubscribe"@ {
            FrameKind::SubscribeAck
        } else if op == "auth"@ {
            FrameKind::AuthAck
        } else if op == "ping"@ || op == "pong"@ {
            FrameKind::PongReply
        } else {
            FrameKind::Unrecognized
        },
        None => if topic is Some {
            FrameKind::Data
        } else {
            FrameKind::Unrecognized
        },
    }
}

/// The kind of the text frame `text`.
pub open spec fn kind_of(text: Seq<char>) -> FrameKind {
    kind_from(json_str_member(text, "op"@), json_str_member(text, "topic"@))
}

/// An acknowledgement of a subscription or authentication request: never
/// handed to the handler. Every other text frame is a candidate event.
pub open spec fn is_acknowledgement(k: FrameKind) -> bool {
    k == FrameKind::SubscribeAck || k == FrameKind::AuthAck
}

/// Judges a frame by its string members `op` and `topic`.
pub fn kind_from_members(op: &Option<String>, topic: &Option<String>) -> (r: FrameKind)
    ensures
        r == kind_from(opt_view(*op), opt_view(*topic)),
{
    match op {
        Some(op) => {
            if *op == String::from_str("subscribe") || *op == String::from_str("unsubscribe") {
                FrameKind::SubscribeAck
            } else if *op == String::from_str("auth") {
                FrameKind::AuthAck
            } else if *op == String::from_str("ping") || *op == String::from_str("pong") {
                FrameKind::PongReply
            } else {
                FrameKind::Unrecognized
            }
        },
        None => {
            if topic.is_some() {
                FrameKind::Data
            } else {
                FrameKind::Unrecognized
            }
        },
    }
}

/// Classifies an inbound text frame.
pub fn classify(text: &str) -> (r: FrameKind)
    ensures
        r == kind_of(text@),
{
    let op = str_member(text, "op");
    let topic = str_member(text, "topic");
    kind_from_members(&op, &topic)
}

/// Whether `text` acknowledges a subscription or authentication request.
pub fn is_acknowledgement_frame(text: &str) -> (r: bool)
    ensures
        r == is_acknowledgement(kind_of(text@)),
{
    let k = classify(text);
    k == FrameKind::SubscribeAck || k == FrameKind::AuthAck
}

/// The `topic` member of a data frame, if it has one.
pub fn topic(text: &str) -> (r: Option<String>)
    ensures
        opt_view(r) == json_str_member(text@, "topic"@),
{
    str_member(text, "topic")
}

} // verus!
