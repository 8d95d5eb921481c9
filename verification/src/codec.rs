//! Wire codec, outbound side: every text frame the relay emits is a JSON
//! object assembled here.  The envelope text is specified exactly, down to
//! the character, including JSON string escaping; only the rendering of an
//! opaque payload value is delegated to the JSON library (see `json`).

use vstd::prelude::*;
use vstd::string::StringExecFns;
use vstd::string::StrSliceExecFns;
use crate::strutil::digit_char;
use crate::json::envelope_intro_id;
use crate::json::envelope_ok;
use crate::json::envelope_paths;
use crate::json::envelope_type;
use crate::json::read_envelope;
use crate::json::read_payload_parts;
use crate::json::render_value;
use crate::json::string_value;

verus! {

/// The wire message: a command envelope.  The payload is an open,
/// schema-less JSON value that round-trips through the relay untouched.
/// `connection_id` and `message_id` are assigned by the receiving
/// connection actor, never taken from the wire.
pub struct Command {
    pub kind: String,
    pub payload: serde_json::Value,
    pub important: Option<serde_json::Value>,
    pub connection_id: Option<u32>,
    pub message_id: Option<u32>,
    pub date: Option<String>,
    pub delta_time: Option<serde_json::Value>,
    pub client_id: Option<String>,
}

impl Command {
    /// A copy that is equal to the original, field for field.
    pub fn duplicate(&self) -> (r: Command)
        ensures
            r == *self,
    {
        Command {
            kind: self.kind.clone(),
            payload: self.payload.clone(),
            important: match &self.important {
                Some(v) => Some(v.clone()),
                None => None,
            },
            connection_id: self.connection_id,
            message_id: self.message_id,
            date: match &self.date {
                Some(d) => Some(d.clone()),
                None => None,
            },
            delta_time: match &self.delta_time {
                Some(v) => Some(v.clone()),
                None => None,
            },
            client_id: match &self.client_id {
                Some(c) => Some(c.clone()),
                None => None,
            },
        }
    }
}

/// An outbound command as handed over by the surrounding application:
/// a type, a payload, and the target client id (empty = broadcast).
pub struct CommandWithClientId {
    pub kind: String,
    pub payload: serde_json::Value,
    pub client_id: String,
    pub important: bool,
    pub date: Option<String>,
    pub delta_time: Option<i64>,
}

/// A decoded inbound text frame: the command, plus the two pieces of its
/// payload that the protocol itself reads (the client id offered in a
/// `client.intro`, and the path list of a `state.values.subscribe`).
pub struct DecodedText {
    pub cmd: Command,
    pub intro_id: Option<String>,
    pub paths: Vec<String>,
}

/// The character for a single hexadecimal digit, lower case.
pub open spec fn hex_char(d: nat) -> char {
    if d < 10 {
        digit_char(d)
    } else if d == 10 {
        'a'
    } else if d == 11 {
        'b'
    } else if d == 12 {
        'c'
    } else if d == 13 {
        'd'
    } else if d == 14 {
        'e'
    } else {
        'f'
    }
}

/// How one character appears inside a JSON string literal.
pub open spec fn escape_char(c: char) -> Seq<char> {
    if c == '"' {
        seq!['\\', '"']
    } else if c == '\\' {
        seq!['\\', '\\']
    } else if c == '\n' {
        seq!['\\', 'n']
    } else if c == '\r' {
        seq!['\\', 'r']
    } else if c == '\t' {
        seq!['\\', 't']
    } else if (c as u32) < 0x20 {
        seq!['\\', 'u', '0', '0', hex_char(((c as u32) / 16) as nat), hex_char(((c as u32) % 16) as nat)]
    } else {
        seq![c]
    }
}

/// A whole character sequence, escaped for a JSON string literal.
pub open spec fn escape_seq(s: Seq<char>) -> Seq<char>
    decreases s.len(),
{
    if s.len() == 0 {
        Seq::empty()
    } else {
        escape_seq(s.drop_last()) + escape_char(s.last())
    }
}

/// A JSON string literal: quotes around the escaped contents.
pub open spec fn quoted(s: Seq<char>) -> Seq<char> {
    seq!['"'] + escape_seq(s) + seq!['"']
}

/// The outbound command envelope: a JSON object with the command's type
/// and its payload, already rendered as JSON text.
pub open spec fn envelope(kind: Seq<char>, payload_text: Seq<char>) -> Seq<char> {
    "{\"type\":"@ + quoted(kind) + ",\"payload\":"@ + payload_text + "}"@
}

/// A JSON array of string literals, comma separated, no spaces.
pub open spec fn paths_array(paths: Seq<Seq<char>>) -> Seq<char>
    decreases paths.len(),
{
    if paths.len() == 0 {
        Seq::empty()
    } else if paths.len() == 1 {
        quoted(paths[0])
    } else {
        paths_array(paths.drop_last()) + seq![','] + quoted(paths.last())
    }
}

/// The payload of a subscription snapshot message.
pub open spec fn paths_payload(paths: Seq<Seq<char>>) -> Seq<char> {
    "{\"paths\":["@ + paths_array(paths) + "]}"@
}

/// Append one hexadecimal digit to a string.
fn push_hex(s: &mut String, d: u32)
    requires
        d < 16,
    ensures
        final(s)@ == old(s)@ + seq![hex_char(d as nat)],
{
    proof {
        reveal_strlit("0");
        reveal_strlit("1");
        reveal_strlit("2");
        reveal_strlit("3");
        reveal_strlit("4");
        reveal_strlit("5");
        reveal_strlit("6");
        reveal_strlit("7");
        reveal_strlit("8");
        reveal_strlit("9");
        reveal_strlit("a");
        reveal_strlit("b");
        reveal_strlit("c");
        reveal_strlit("d");
        reveal_strlit("e");
        reveal_strlit("f");
    }
    if d == 0 {
        s.append("0");
    } else if d == 1 {
        s.append("1");
    } else if d == 2 {
        s.append("2");
    } else if d == 3 {
        s.append("3");
    } else if d == 4 {
        s.append("4");
    } else if d == 5 {
        s.append("5");
    } else if d == 6 {
        s.append("6");
    } else if d == 7 {
        s.append("7");
    } else if d == 8 {
        s.append("8");
    } else if d == 9 {
        s.append("9");
    } else if d == 10 {
        s.append("a");
    } else if d == 11 {
        s.append("b");
    } else if d == 12 {
        s.append("c");
    } else if d == 13 {
        s.append("d");
    } else if d == 14 {
        s.append("e");
    } else {
        s.append("f");
    }
    proof {
        assert(final(s)@ =~= old(s)@ + seq![hex_char(d as nat)]);
    }
}

/// Escape `s` for use inside a JSON string literal.
pub fn escape_string(s: &str) -> (r: String)
    ensures
        r@ == escape_seq(s@),
{
    let mut out = String::new();
    let n = s.unicode_len();
    let mut i: usize = 0;
    while i < n
        invariant
            n == s@.len(),
            i <= n,
            out@ == escape_seq(s@.subrange(0, i as int)),
        decreases n - i,
    {
        proof {
            reveal_strlit("\\\"");
            reveal_strlit("\\\\");
            reveal_strlit("\\n");
            reveal_strlit("\\r");
            reveal_strlit("\\t");
            reveal_strlit("\\u00");
        }
        let c = s.get_char(i);
        if c == '"' {
            out.append("\\\"");
            proof {
                assert(escape_char(c) =~= "\\\""@);
            }
        } else if c == '\\' {
            out.append("\\\\");
            proof {
                assert(escape_char(c) =~= "\\\\"@);
            }
        } else if c == '\n' {
            out.append("\\n");
            proof {
                assert(escape_char(c) =~= "\\n"@);
            }
        } else if c == '\r' {
            out.append("\\r");
            proof {
                assert(escape_char(c) =~= "\\r"@);
            }
        } else if c == '\t' {
            out.append("\\t");
            proof {
                assert(escape_char(c) =~= "\\t"@);
            }
        } else if (c as u32) < 0x20 {
            out.append("\\u00");
            push_hex(&mut out, (c as u32) / 16);
            push_hex(&mut out, (c as u32) % 16);
            proof {
                assert(escape_char(c) =~= "\\u00"@ + seq![
                    hex_char(((c as u32) / 16) as nat),
                    hex_char(((c as u32) % 16) as nat),
                ]);
            }
        } else {
            let piece = s.substring_char(i, i + 1);
            proof {
                assert(piece@ =~= seq![c]);
                assert(escape_char(c) =~= seq![c]);
            }
            out.append(piece);
        }
        proof {
            let pre = s@.subrange(0, i as int);
            let ext = s@.subrange(0, i + 1 as int);
            assert(ext.drop_last() =~= pre);
            assert(ext.last() == c);
            assert(escape_seq(ext) == escape_seq(pre) + escape_char(c));
            assert(out@ =~= escape_seq(pre) + escape_char(c));
            assert(out@ =~= escape_seq(ext));
        }
        i = i + 1;
    }
    proof {
        assert(s@.subrange(0, n as int) =~= s@);
    }
    out
}

/// Render a character sequence as a JSON string literal.
pub fn quote_string(s: &str) -> (r: String)
    ensures
        r@ == quoted(s@),
{
    proof {
        reveal_strlit("\"");
    }
    let mut out = String::new();
    out.append("\"");
    let esc = escape_string(s);
    out.append(esc.as_str());
    out.append("\"");
    proof {
        assert(out@ =~= quoted(s@));
    }
    out
}

/// Assemble the outbound command envelope from the command's type and its
/// payload, the latter already rendered as JSON text.
pub fn encode_envelope(kind: &str, payload_text: &str) -> (r: String)
    ensures
        r@ == envelope(kind@, payload_text@),
{
    let mut out = String::new();
    out.append("{\"type\":");
    let q = quote_string(kind);
    out.append(q.as_str());
    out.append(",\"payload\":");
    out.append(payload_text);
    out.append("}");
    proof {
        assert(out@ =~= envelope(kind@, payload_text@));
    }
    out
}

/// Render the subscription snapshot payload for the given paths.
pub fn encode_paths_payload(paths: &Vec<String>) -> (r: String)
    ensures
        r@ == paths_payload(paths.deep_view()),
{
    let mut out = String::new();
    out.append("{\"paths\":[");
    let n = paths.len();
    let mut i: usize = 0;
    while i < n
        invariant
            n == paths@.len(),
            i <= n,
            out@ == "{\"paths\":["@ + paths_array(paths.deep_view().subrange(0, i as int)),
        decreases n - i,
    {
        if i > 0 {
            proof {
                reveal_strlit(",");
            }
            out.append(",");
        }
        let q = quote_string(paths[i].as_str());
        out.append(q.as_str());
        proof {
            let dv = paths.deep_view();
            let pre = dv.subrange(0, i as int);
            let ext = dv.subrange(0, i + 1 as int);
            assert(dv[i as int] == paths@[i as int]@);
            assert(ext.drop_last() =~= pre);
            assert(ext.last() == dv[i as int]);
            assert(out@ =~= "{\"paths\":["@ + paths_array(ext));
        }
        i = i + 1;
    }
    proof {
        assert(paths.deep_view().subrange(0, n as int) =~= paths.deep_view());
    }
    out.append("]}");
    proof {
        assert(out@ =~= paths_payload(paths.deep_view()));
    }
    out
}

/// Decode an inbound text frame.  Decoding succeeds exactly when the
/// text is an acceptable envelope: a JSON object with a string `type`
/// and a `payload`, whose `date` and `clientId` fields, where present,
/// are strings; any other field of unexpected shape fails the decode.
/// Failure is non-fatal to the connection: the caller drops the frame.
/// The decoded command never carries a connection id or message id from
/// the wire.
pub fn decode_command(text: &str) -> (r: Option<DecodedText>)
    ensures
        r is Some <==> envelope_ok(text@),
        r matches Some(d) ==> d.cmd.kind@ == envelope_type(text@) && d.intro_id.deep_view()
            == envelope_intro_id(text@) && d.paths.deep_view() == envelope_paths(text@)
            && d.cmd.connection_id is None && d.cmd.message_id is None,
{
    let head = match read_envelope(text) {
        Some(h) => h,
        None => {
            return None;
        },
    };
    let (intro_id, paths) = read_payload_parts(text);
    Some(DecodedText {
        cmd: Command {
            kind: head.kind,
            payload: head.payload,
            important: head.important,
            connection_id: None,
            message_id: None,
            date: head.date,
            delta_time: head.delta_time,
            client_id: head.client_id,
        },
        intro_id,
        paths,
    })
}

/// The message that hands a generated client id back to its connection.
pub fn set_client_id_message(id: &str) -> (r: String)
    ensures
        r@ == envelope("setClientId"@, quoted(id@)),
{
    let q = quote_string(id);
    encode_envelope("setClientId", q.as_str())
}

/// The subscription snapshot message broadcast after the set changes.
pub fn subscribe_snapshot_message(paths: &Vec<String>) -> (r: String)
    ensures
        r@ == envelope("state.values.subscribe"@, paths_payload(paths.deep_view())),
{
    let p = encode_paths_payload(paths);
    encode_envelope("state.values.subscribe", p.as_str())
}

/// An outbound `custom` command carrying a plain string, aimed at one
/// client or, with no target, at everyone.
pub fn custom_message(value: String, client_id: Option<String>) -> (r: CommandWithClientId)
    ensures
        r.kind@ == "custom"@,
        client_id matches Some(c) ==> r.client_id == c,
        client_id is None ==> r.client_id@.len() == 0,
        !r.important,
        r.date is None,
        r.delta_time is None,
{
    CommandWithClientId {
        kind: "custom".to_owned(),
        payload: string_value(value),
        client_id: match client_id {
            Some(c) => c,
            None => String::new(),
        },
        important: false,
        date: None,
        delta_time: None,
    }
}

/// The wire text for an application-supplied outbound command: the
/// envelope around the payload as the JSON library renders it.
pub fn encode_command(cmd: &CommandWithClientId) -> (r: String)
    ensures
        exists|pt: Seq<char>| r@ == envelope(cmd.kind@, pt),
{
    let pt = render_value(&cmd.payload);
    let r = encode_envelope(cmd.kind.as_str(), pt.as_str());
    proof {
        assert(r@ == envelope(cmd.kind@, pt@));
    }
    r
}

} // verus!
