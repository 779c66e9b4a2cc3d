//! The wire protocol: JSON text frames exchanged with connected clients.
//!
//! Outbound, the server sends `hello`, `fileChange`, `rebuild`, `hmr` and
//! `reload` messages; [`BroadcastMessage::encode`] produces exactly the
//! specified frame, with string values JSON-escaped.
//!
//! Inbound, clients send `register` and `hmr_ready` objects;
//! [`parse_client_message`] reads a flat JSON object of string fields in the
//! compact encoding (no whitespace between tokens, the form that
//! `JSON.stringify` emits) and dispatches on its `type` field. A frame of
//! any other shape is ignored, never an error. When a key repeats, the last
//! occurrence counts.

use vstd::prelude::*;
use vstd::string::*;
use crate::path_map::seq_views;
use crate::text;
use crate::text::hex_digit;

verus! {

// ---------------------------------------------------------------------------
// Outbound messages and their encoding.
// ---------------------------------------------------------------------------
/// Outcome stage of a rebuild, as reported to clients.
pub enum RebuildStatus {
    /// A rebuild has been started.
    Started,
    /// A rebuild finished successfully.
    Completed,
    /// A rebuild failed.
    Failed,
}

/// One message published to every connected client.
pub enum BroadcastMessage {
    /// Greeting sent once per connection after the handshake.
    Hello,
    /// Raw change notification, sent for every watch event.
    FileChange { paths: Vec<String>, kind: String },
    /// Rebuild progress report.
    Rebuild { status: RebuildStatus },
    /// Module identifiers to hot-patch after a successful rebuild.
    Hmr { modules: Vec<String> },
    /// Instruction to reload the page fully.
    Reload,
}

/// The JSON escape of one character.
pub open spec fn esc_char(c: char) -> Seq<char> {
    if c == '"' {
        seq!['\\', '"']
    } else if c == '\\' {
        seq!['\\', '\\']
    } else if c == '\n' {
        seq!['\\', 'n']
    } else if c == '\r' {
        seq!['\\', 'r']
    } else if c == '\t' {
        seq!['\\', 't']
    } else if (c as int) < 32 {
        seq!['\\', 'u', '0', '0', hex_digit(c as int / 16), hex_digit(c as int % 16)]
    } else {
        seq![c]
    }
}

/// `s` with every character JSON-escaped.
pub open spec fn json_escaped(s: Seq<char>) -> Seq<char>
    decreases s.len(),
{
    if s.len() == 0 {
        Seq::empty()
    } else {
        json_escaped(s.drop_last()) + esc_char(s.last())
    }
}

/// The JSON string literal holding `s`.
pub open spec fn json_string(s: Seq<char>) -> Seq<char> {
    seq!['"'] + json_escaped(s) + seq!['"']
}

/// The comma-separated JSON string literals of `xs`.
pub open spec fn json_array_inner(xs: Seq<Seq<char>>) -> Seq<char>
    decreases xs.len(),
{
    if xs.len() == 0 {
        Seq::empty()
    } else if xs.len() == 1 {
        json_string(xs[0])
    } else {
        json_array_inner(xs.drop_last()) + seq![','] + json_string(xs.last())
    }
}

/// The JSON array of the string literals of `xs`.
pub open spec fn json_array(xs: Seq<Seq<char>>) -> Seq<char> {
    seq!['['] + json_array_inner(xs) + seq![']']
}

/// The status word sent on the wire for `st`.
pub open spec fn status_text(st: RebuildStatus) -> Seq<char> {
    match st {
        RebuildStatus::Started => "started"@,
        RebuildStatus::Completed => "completed"@,
        RebuildStatus::Failed => "failed"@,
    }
}

/// The JSON frame sent on the wire for `m`.
pub open spec fn spec_encode(m: BroadcastMessage) -> Seq<char> {
    match m {
        BroadcastMessage::Hello => "{\"type\":\"hello\",\"message\":\"Orbit HMR connected\"}"@,
        BroadcastMessage::FileChange { paths, kind } => "{\"type\":\"fileChange\",\"paths\":"@
            + json_array(seq_views(paths@)) + ",\"kind\":"@ + json_string(kind@) + "}"@,
        BroadcastMessage::Rebuild { status } => "{\"type\":\"rebuild\",\"status\":"@ + json_string(
            status_text(status),
        ) + "}"@,
        BroadcastMessage::Hmr { modules } => "{\"type\":\"hmr\",\"modules\":"@ + json_array(
            seq_views(modules@),
        ) + "}"@,
        BroadcastMessage::Reload => "{\"type\":\"reload\"}"@,
    }
}

fn escape_push(out: &mut String, s: &str)
    ensures
        final(out)@ == old(out)@ + json_escaped(s@),
{
    let len = s.unicode_len();
    let mut i: usize = 0;
    while i < len
        invariant
            len == s@.len(),
            i <= len,
            out@ == old(out)@ + json_escaped(s@.take(i as int)),
        decreases len - i,
    {
        proof {
            assert(s@.take(i + 1).drop_last() =~= s@.take(i as int));
            assert(s@.take(i + 1).last() == s@[i as int]);
        }
        let c = s.get_char(i);
        let code = c as u32;
        if c == '"' {
            text::push_char(out, '\\');
            text::push_char(out, '"');
        } else if c == '\\' {
            text::push_char(out, '\\');
            text::push_char(out, '\\');
        } else if c == '\n' {
            text::push_char(out, '\\');
            text::push_char(out, 'n');
        } else if c == '\r' {
            text::push_char(out, '\\');
            text::push_char(out, 'r');
        } else if c == '\t' {
            text::push_char(out, '\\');
            text::push_char(out, 't');
        } else if code < 32 {
            text::push_char(out, '\\');
            text::push_char(out, 'u');
            text::push_char(out, '0');
            text::push_char(out, '0');
            text::push_char(out, text::hex_digit_char((code / 16) as u64));
            text::push_char(out, text::hex_digit_char((code % 16) as u64));
        } else {
            text::push_char(out, c);
        }
        proof {
            assert(out@ =~= old(out)@ + json_escaped(s@.take(i + 1)));
        }
        i += 1;
    }
    proof {
        assert(s@.take(len as int) =~= s@);
    }
}

fn json_string_push(out: &mut String, s: &str)
    ensures
        final(out)@ == old(out)@ + json_string(s@),
{
    text::push_char(out, '"');
    escape_push(out, s);
    text::push_char(out, '"');
    proof {
        assert(out@ =~= old(out)@ + json_string(s@));
    }
}

fn json_array_push(out: &mut String, items: &Vec<String>)
    ensures
        final(out)@ == old(out)@ + json_array(seq_views(items@)),
{
    let ghost xs = seq_views(items@);
    text::push_char(out, '[');
    let n = items.len();
    let mut i: usize = 0;
    while i < n
        invariant
            n == items@.len(),
            xs == seq_views(items@),
            i <= n,
            out@ == old(out)@ + seq!['['] + json_array_inner(xs.take(i as int)),
        decreases n - i,
    {
        proof {
            assert(xs.take(i + 1).drop_last() =~= xs.take(i as int));
            assert(xs.take(i + 1).last() == xs[i as int]);
        }
        if i > 0 {
            text::push_char(out, ',');
        }
        json_string_push(out, items[i].as_str());
        proof {
            assert(xs[i as int] == items@[i as int]@);
            assert(out@ =~= old(out)@ + seq!['['] + json_array_inner(xs.take(i + 1)));
        }
        i += 1;
    }
    text::push_char(out, ']');
    proof {
        assert(xs.take(n as int) =~= xs);
        assert(out@ =~= old(out)@ + json_array(xs));
    }
}

impl BroadcastMessage {
    /// The JSON frame for this message, exactly as sent on the wire.
    pub fn encode(&self) -> (r: String)
        ensures
            r@ == spec_encode(*self),
    {
        match self {
            BroadcastMessage::Hello => text::to_string(
                "{\"type\":\"hello\",\"message\":\"Orbit HMR connected\"}",
            ),
            BroadcastMessage::FileChange { paths, kind } => {
                let mut out = text::to_string("{\"type\":\"fileChange\",\"paths\":");
                json_array_push(&mut out, paths);
                out.append(",\"kind\":");
                json_string_push(&mut out, kind.as_str());
                out.append("}");
                proof {
                    assert(out@ =~= spec_encode(*self));
                }
                out
            },
            BroadcastMessage::Rebuild { status } => {
                let mut out = text::to_string("{\"type\":\"rebuild\",\"status\":");
                let word = match status {
                    RebuildStatus::Started => "started",
                    RebuildStatus::Completed => "completed",
                    RebuildStatus::Failed => "failed",
                };
                json_string_push(&mut out, word);
                out.append("}");
                proof {
                    assert(out@ =~= spec_encode(*self));
                }
                out
            },
            BroadcastMessage::Hmr { modules } => {
                let mut out = text::to_string("{\"type\":\"hmr\",\"modules\":");
                json_array_push(&mut out, modules);
                out.append("}");
                proof {
                    assert(out@ =~= spec_encode(*self));
                }
                out
            },
            BroadcastMessage::Reload => text::to_string("{\"type\":\"reload\"}"),
        }
    }
}

// ---------------------------------------------------------------------------
// Inbound client messages and their parsing.
// ---------------------------------------------------------------------------
/// One message received from a client, after dispatch on its `type` field.
pub enum ClientMessage {
    /// The client registered itself for the given URL.
    Register { url: String },
    /// The client reported that its HMR handler is ready.
    HmrReady,
    /// Any frame of another shape; ignored, never an error.
    Ignored,
}

/// Mathematical model of a classified client message.
pub ghost enum ClientMessageModel {
    /// The client registered itself for the given URL.
    Register { url: Seq<char> },
    /// The client reported that its HMR handler is ready.
    HmrReady,
    /// Any frame of another shape.
    Ignored,
}

impl View for ClientMessage {
    type V = ClientMessageModel;

    open spec fn view(&self) -> ClientMessageModel {
        match self {
            ClientMessage::Register { url } => ClientMessageModel::Register { url: url@ },
            ClientMessage::HmrReady => ClientMessageModel::HmrReady,
            ClientMessage::Ignored => ClientMessageModel::Ignored,
        }
    }
}

/// The character that the JSON escape `\c` stands for, if `c` is a
/// recognized escape.
pub open spec fn spec_unescape(c: char) -> Option<char> {
    if c == '"' {
        Some('"')
    } else if c == '\\' {
        Some('\\')
    } else if c == '/' {
        Some('/')
    } else if c == 'n' {
        Some('\n')
    } else if c == 'r' {
        Some('\r')
    } else if c == 't' {
        Some('\t')
    } else if c == 'b' {
        Some('\u{0008}')
    } else if c == 'f' {
        Some('\u{000c}')
    } else {
        None
    }
}

/// Parse the body of a JSON string starting at `i` (just after the opening
/// quote): the decoded characters and the position after the closing quote.
pub open spec fn spec_str_body(s: Seq<char>, i: int) -> Option<(Seq<char>, int)>
    decreases s.len() - i,
{
    if i < 0 || i >= s.len() {
        None
    } else if s[i] == '"' {
        Some((Seq::empty(), i + 1))
    } else if s[i] == '\\' {
        if i + 1 >= s.len() {
            None
        } else {
            match spec_unescape(s[i + 1]) {
                None => None,
                Some(e) => match spec_str_body(s, i + 2) {
                    None => None,
                    Some((t, j)) => Some((seq![e] + t, j)),
                },
            }
        }
    } else if (s[i] as int) < 32 {
        None
    } else {
        match spec_str_body(s, i + 1) {
            None => None,
            Some((t, j)) => Some((seq![s[i]] + t, j)),
        }
    }
}

/// A parsed string body ends after its start and within the input.
proof fn lemma_str_body_bounds(s: Seq<char>, i: int)
    requires
        spec_str_body(s, i) is Some,
    ensures
        i < spec_str_body(s, i)->Some_0.1 <= s.len(),
    decreases s.len() - i,
{
    if !(i < 0 || i >= s.len()) && s[i] != '"' {
        if s[i] == '\\' {
            if i + 1 < s.len() && spec_unescape(s[i + 1]) is Some {
                lemma_str_body_bounds(s, i + 2);
            }
        } else if !((s[i] as int) < 32) {
            lemma_str_body_bounds(s, i + 1);
        }
    }
}

/// Parse one `"key":"value"` member starting at `i`: the pair and the
/// position after the value's closing quote.
pub open spec fn spec_member(s: Seq<char>, i: int) -> Option<((Seq<char>, Seq<char>), int)> {
    if 0 <= i < s.len() && s[i] == '"' {
        match spec_str_body(s, i + 1) {
            None => None,
            Some((k, j)) => if j + 1 < s.len() && s[j] == ':' && s[j + 1] == '"' {
                match spec_str_body(s, j + 2) {
                    None => None,
                    Some((v, j2)) => Some(((k, v), j2)),
                }
            } else {
                None
            },
        }
    } else {
        None
    }
}

/// A parsed member ends after its start and within the input.
proof fn lemma_member_bounds(s: Seq<char>, i: int)
    requires
        spec_member(s, i) is Some,
    ensures
        i < spec_member(s, i)->Some_0.1 <= s.len(),
{
    lemma_str_body_bounds(s, i + 1);
    let j = spec_str_body(s, i + 1)->Some_0.1;
    lemma_str_body_bounds(s, j + 2);
}

/// Parse a comma-separated run of members starting at `i`: the pairs in
/// order and the position after the last one.
pub open spec fn spec_members(s: Seq<char>, i: int) -> Option<
    (Seq<(Seq<char>, Seq<char>)>, int),
>
    decreases s.len() - i,
    via spec_members_decreases
{
    match spec_member(s, i) {
        None => None,
        Some((p, j)) => if 0 <= j < s.len() && s[j] == ',' {
            match spec_members(s, j + 1) {
                None => None,
                Some((ps, j2)) => Some((seq![p] + ps, j2)),
            }
        } else {
            Some((seq![p], j))
        },
    }
}

#[via_fn]
proof fn spec_members_decreases(s: Seq<char>, i: int) {
    if spec_member(s, i) is Some {
        lemma_member_bounds(s, i);
    }
}

/// A parsed run of members ends after its start and within the input.
proof fn lemma_members_bounds(s: Seq<char>, i: int)
    requires
        spec_members(s, i) is Some,
    ensures
        i < spec_members(s, i)->Some_0.1 <= s.len(),
    decreases s.len() - i,
{
    lemma_member_bounds(s, i);
    let j = spec_member(s, i)->Some_0.1;
    if 0 <= j < s.len() && s[j] == ',' {
        lemma_members_bounds(s, j + 1);
    }
}

/// Parse `s` as a compact flat JSON object of string fields: its members in
/// order, or `None` when `s` has another shape.
pub open spec fn spec_object(s: Seq<char>) -> Option<Seq<(Seq<char>, Seq<char>)>> {
    if s.len() >= 2 && s[0] == '{' {
        if s.len() == 2 && s[1] == '}' {
            Some(Seq::empty())
        } else {
            match spec_members(s, 1) {
                None => None,
                Some((ps, j)) => if j == s.len() - 1 && s[j] == '}' {
                    Some(ps)
                } else {
                    None
                },
            }
        }
    } else {
        None
    }
}

/// The value of the last member named `k`, if any.
pub open spec fn last_value(ps: Seq<(Seq<char>, Seq<char>)>, k: Seq<char>) -> Option<Seq<char>>
    decreases ps.len(),
{
    if ps.len() == 0 {
        None
    } else if ps.last().0 == k {
        Some(ps.last().1)
    } else {
        last_value(ps.drop_last(), k)
    }
}

/// Classification of an inbound frame: `register` with a `url` field,
/// `hmr_ready`, and everything else ignored.
pub open spec fn spec_classify(s: Seq<char>) -> ClientMessageModel {
    match spec_object(s) {
        None => ClientMessageModel::Ignored,
        Some(ps) => match last_value(ps, "type"@) {
            None => ClientMessageModel::Ignored,
            Some(t) => if t == "register"@ {
                match last_value(ps, "url"@) {
                    Some(u) => ClientMessageModel::Register { url: u },
                    None => ClientMessageModel::Ignored,
                }
            } else if t == "hmr_ready"@ {
                ClientMessageModel::HmrReady
            } else {
                ClientMessageModel::Ignored
            },
        },
    }
}

fn unescape_char(c: char) -> (r: Option<char>)
    ensures
        r == spec_unescape(c),
{
    if c == '"' {
        Some('"')
    } else if c == '\\' {
        Some('\\')
    } else if c == '/' {
        Some('/')
    } else if c == 'n' {
        Some('\n')
    } else if c == 'r' {
        Some('\r')
    } else if c == 't' {
        Some('\t')
    } else if c == 'b' {
        Some('\u{0008}')
    } else if c == 'f' {
        Some('\u{000c}')
    } else {
        None
    }
}

fn parse_str_body(s: &str, i: usize) -> (r: Option<(String, usize)>)
    ensures
        match r {
            Some(p) => spec_str_body(s@, i as int) == Some((p.0@, p.1 as int)),
            None => spec_str_body(s@, i as int) is None,
        },
    decreases s@.len() - i,
{
    let slen = s.unicode_len();
    if i >= slen {
        return None;
    }
    let c = s.get_char(i);
    if c == '"' {
        let empty = String::new();
        assert(empty@ =~= Seq::<char>::empty());
        return Some((empty, i + 1));
    }
    if c == '\\' {
        if i + 1 >= slen {
            return None;
        }
        match unescape_char(s.get_char(i + 1)) {
            None => None,
            Some(e) => {
                match parse_str_body(s, i + 2) {
                    None => None,
                    Some((t, j)) => {
                        let mut out = String::new();
                        text::push_char(&mut out, e);
                        out.append(t.as_str());
                        proof {
                            assert(out@ =~= seq![e] + t@);
                        }
                        Some((out, j))
                    },
                }
            },
        }
    } else if (c as u32) < 32 {
        None
    } else {
        match parse_str_body(s, i + 1) {
            None => None,
            Some((t, j)) => {
                let mut out = String::new();
                text::push_char(&mut out, c);
                out.append(t.as_str());
                proof {
                    assert(out@ =~= seq![c] + t@);
                }
                Some((out, j))
            },
        }
    }
}

fn parse_member(s: &str, i: usize) -> (r: Option<((String, String), usize)>)
    ensures
        match r {
            Some(p) => spec_member(s@, i as int) == Some((((p.0).0@, (p.0).1@), p.1 as int)),
            None => spec_member(s@, i as int) is None,
        },
{
    let slen = s.unicode_len();
    if i >= slen || s.get_char(i) != '"' {
        return None;
    }
    match parse_str_body(s, i + 1) {
        None => None,
        Some((k, j)) => {
            proof {
                lemma_str_body_bounds(s@, i + 1);
            }
            if j < slen && s.get_char(j) == ':' && j + 1 < slen && s.get_char(j + 1) == '"' {
                match parse_str_body(s, j + 2) {
                    None => None,
                    Some((v, j2)) => Some(((k, v), j2)),
                }
            } else {
                None
            }
        },
    }
}

/// The views of a sequence of member pairs.
pub open spec fn pairs_views(v: Seq<(String, String)>) -> Seq<(Seq<char>, Seq<char>)> {
    v.map_values(|p: (String, String)| (p.0@, p.1@))
}

fn parse_members(s: &str, i: usize) -> (r: Option<(Vec<(String, String)>, usize)>)
    ensures
        match r {
            Some(p) => spec_members(s@, i as int) == Some((pairs_views(p.0@), p.1 as int)),
            None => spec_members(s@, i as int) is None,
        },
    decreases s@.len() - i,
{
    let slen = s.unicode_len();
    match parse_member(s, i) {
        None => None,
        Some((p, j)) => {
            proof {
                lemma_member_bounds(s@, i as int);
            }
            if j < slen && s.get_char(j) == ',' {
                match parse_members(s, j + 1) {
                    None => None,
                    Some((ps, j2)) => {
                        let mut v: Vec<(String, String)> = Vec::new();
                        v.push(p);
                        let mut rest = ps;
                        v.append(&mut rest);
                        proof {
                            assert(pairs_views(v@) =~= spec_members(
                                s@,
                                i as int,
                            )->Some_0.0);
                        }
                        Some((v, j2))
                    },
                }
            } else {
                let mut v: Vec<(String, String)> = Vec::new();
                v.push(p);
                proof {
                    assert(pairs_views(v@) =~= seq![(p.0@, p.1@)]);
                }
                Some((v, j))
            }
        },
    }
}

fn parse_object(s: &str) -> (r: Option<Vec<(String, String)>>)
    ensures
        match r {
            Some(v) => spec_object(s@) == Some(pairs_views(v@)),
            None => spec_object(s@) is None,
        },
{
    let slen = s.unicode_len();
    if slen < 2 || s.get_char(0) != '{' {
        return None;
    }
    if slen == 2 && s.get_char(1) == '}' {
        let v: Vec<(String, String)> = Vec::new();
        assert(pairs_views(v@) =~= Seq::<(Seq<char>, Seq<char>)>::empty());
        return Some(v);
    }
    match parse_members(s, 1) {
        None => None,
        Some((ps, j)) => {
            if j == slen - 1 && s.get_char(j) == '}' {
                Some(ps)
            } else {
                None
            }
        },
    }
}

fn lookup_last(fields: &Vec<(String, String)>, key: &str, n: usize) -> (r: Option<String>)
    requires
        n <= fields@.len(),
    ensures
        match r {
            Some(v) => last_value(pairs_views(fields@).take(n as int), key@) == Some(v@),
            None => last_value(pairs_views(fields@).take(n as int), key@) is None,
        },
    decreases n,
{
    let ghost pv = pairs_views(fields@);
    if n == 0 {
        return None;
    }
    proof {
        assert(pv.take(n as int).drop_last() =~= pv.take(n - 1));
        assert(pv.take(n as int).last() == pv[n - 1]);
    }
    if text::str_eq(fields[n - 1].0.as_str(), key) {
        Some(fields[n - 1].1.clone())
    } else {
        lookup_last(fields, key, n - 1)
    }
}

/// Classify one inbound text frame: a compact flat JSON object of string
/// fields with `"type":"register"` and a `url` field becomes
/// [`ClientMessage::Register`]; one with `"type":"hmr_ready"` becomes
/// [`ClientMessage::HmrReady`]; every other frame is
/// [`ClientMessage::Ignored`].
pub fn parse_client_message(s: &str) -> (r: ClientMessage)
    ensures
        r@ == spec_classify(s@),
{
    let fields = match parse_object(s) {
        Some(f) => f,
        None => {
            return ClientMessage::Ignored;
        },
    };
    let n = fields.len();
    proof {
        assert(pairs_views(fields@).take(n as int) =~= pairs_views(fields@));
    }
    let t = match lookup_last(&fields, "type", n) {
        Some(t) => t,
        None => {
            return ClientMessage::Ignored;
        },
    };
    if text::str_eq(t.as_str(), "register") {
        match lookup_last(&fields, "url", n) {
            Some(url) => ClientMessage::Register { url },
            None => ClientMessage::Ignored,
        }
    } else if text::str_eq(t.as_str(), "hmr_ready") {
        ClientMessage::HmrReady
    } else {
        ClientMessage::Ignored
    }
}

} // verus!
