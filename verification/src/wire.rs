//! The shapes that go onto the wire: JSON request bodies, rendered and
//! escaped by verified code, and the request descriptions the transport
//! layer carries out.

use vstd::prelude::*;
use crate::text::{dec_rep, push_dec, spec_digit, digit_char};
use crate::types::BenchError;
use vstd::string::*;

verus! {

/// One HTTP POST, ready to send: the path under the endpoint, the JSON body
/// text (absent for bodiless calls), and whether the store's fixed basic-auth
/// credentials accompany it.
pub struct WireRequest {
    pub path: String,
    pub body: Option<String>,
    pub auth: bool,
}

/// The mathematical value of a wire request: its texts as character
/// sequences.
pub struct WireView {
    pub path: Seq<char>,
    pub body: Option<Seq<char>>,
    pub auth: bool,
}

impl View for WireRequest {
    type V = WireView;

    open spec fn view(&self) -> WireView {
        WireView {
            path: self.path@,
            body: match self.body {
                Some(b) => Some(b@),
                None => None,
            },
            auth: self.auth,
        }
    }
}

/// One planned call of a run.  A `Plain` request is fully rendered; a
/// `Vector` request names the path and dimensions of a vector-extension call
/// whose floating-point payload the transport layer draws itself.
pub enum PlannedRequest {
    Plain(WireRequest),
    Vector { path: String, dims: usize, nearest: Option<u64> },
}

/// The hexadecimal digit character for a value below sixteen.
pub open spec fn spec_hex_digit(d: nat) -> char {
    if d < 10 {
        spec_digit(d)
    } else if d == 10 {
        'a'
    } else if d == 11 {
        'b'
    } else if d == 12 {
        'c'
    } else if d == 13 {
        'd'
    } else if d == 14 {
        'e'
    } else {
        'f'
    }
}

fn hex_digit_char(d: u32) -> (c: char)
    requires
        d < 16,
    ensures
        c == spec_hex_digit(d as nat),
{
    if d < 10 {
        digit_char(d as u64)
    } else {
        match d {
            10 => 'a',
            11 => 'b',
            12 => 'c',
            13 => 'd',
            14 => 'e',
            _ => 'f',
        }
    }
}

/// How one character appears inside a JSON string literal: quotes and
/// backslashes are escaped, control characters take their short escape or
/// the `\u00XX` form, everything else stands as itself.
pub open spec fn esc_char(c: char) -> Seq<char> {
    if c == '"' {
        seq!['\\', '"']
    } else if c == '\\' {
        seq!['\\', '\\']
    } else if c == '\n' {
        seq!['\\', 'n']
    } else if c == '\r' {
        seq!['\\', 'r']
    } else if c == '\t' {
        seq!['\\', 't']
    } else if (c as u32) < 32 {
        seq!['\\', 'u', '0', '0', spec_hex_digit((c as u32 / 16) as nat), spec_hex_digit(
            (c as u32 % 16) as nat,
        )]
    } else {
        seq![c]
    }
}

/// A character sequence as it appears inside a JSON string literal.
pub open spec fn esc_text(s: Seq<char>) -> Seq<char>
    decreases s.len(),
{
    if s.len() == 0 {
        Seq::empty()
    } else {
        esc_char(s[0]) + esc_text(s.drop_first())
    }
}

pub proof fn lemma_esc_text_push(s: Seq<char>, c: char)
    ensures
        esc_text(s.push(c)) == esc_text(s) + esc_char(c),
    decreases s.len(),
{
    if s.len() == 0 {
        assert(s.push(c)[0] == c);
        assert(s.push(c).drop_first() =~= Seq::<char>::empty());
        assert(esc_text(s.push(c)) == esc_char(c) + esc_text(Seq::<char>::empty()));
        assert(esc_char(c) + esc_text(Seq::<char>::empty()) =~= esc_char(c));
        assert(esc_text(s) =~= Seq::<char>::empty());
        assert(esc_text(s) + esc_char(c) =~= esc_char(c));
    } else {
        assert(s.push(c)[0] == s[0]);
        assert(s.push(c).drop_first() =~= s.drop_first().push(c));
        lemma_esc_text_push(s.drop_first(), c);
        assert(esc_text(s.push(c)) =~= esc_text(s) + esc_char(c));
    }
}

fn push_escaped_char(out: &mut String, c: char)
    ensures
        final(out)@ == old(out)@ + esc_char(c),
{
    let code: u32 = c as u32;
    if c == '"' {
        out.append("\\\"");
    } else if c == '\\' {
        out.append("\\\\");
    } else if c == '\n' {
        out.append("\\n");
    } else if c == '\r' {
        out.append("\\r");
    } else if c == '\t' {
        out.append("\\t");
    } else if code < 32 {
        out.append("\\u00");
        crate::text::push_char(out, hex_digit_char(code / 16));
        crate::text::push_char(out, hex_digit_char(code % 16));
        proof {
            reveal_strlit("\\u00");
            assert(out@ =~= old(out)@ + esc_char(c));
        }
    } else {
        crate::text::push_char(out, c);
        proof {
            assert(out@ =~= old(out)@ + esc_char(c));
        }
    }
    proof {
        reveal_strlit("\\\"");
        reveal_strlit("\\\\");
        reveal_strlit("\\n");
        reveal_strlit("\\r");
        reveal_strlit("\\t");
        assert(out@ =~= old(out)@ + esc_char(c));
    }
}

/// Appends `s`, escaped for a JSON string literal, to `out`.
fn push_escaped(out: &mut String, s: &str)
    ensures
        final(out)@ == old(out)@ + esc_text(s@),
{
    let n: usize = s.unicode_len();
    let mut i: usize = 0;
    while i < n
        invariant
            n == s@.len(),
            i <= n,
            out@ == old(out)@ + esc_text(s@.take(i as int)),
        decreases n - i,
    {
        let c: char = s.get_char(i);
        push_escaped_char(out, c);
        proof {
            assert(s@.take(i as int).push(c) =~= s@.take(i + 1 as int));
            lemma_esc_text_push(s@.take(i as int), c);
        }
        i = i + 1;
    }
    proof {
        assert(s@.take(n as int) =~= s@);
    }
}

/// The body of a create request: the synthesized key (when one is supplied)
/// and the payload.
pub open spec fn create_body_text(key: Option<Seq<char>>, payload: Seq<char>) -> Seq<char> {
    match key {
        Some(k) => "{\"id\":\""@ + esc_text(k) + "\",\"data\":\""@ + esc_text(payload) + "\"}"@,
        None => "{\"data\":\""@ + esc_text(payload) + "\"}"@,
    }
}

pub fn create_body(key: Option<&str>, payload: &str) -> (r: String)
    ensures
        r@ == create_body_text(
            match key {
                Some(k) => Some(k@),
                None => None,
            },
            payload@,
        ),
{
    let mut s = String::new();
    match key {
        Some(k) => {
            s.append("{\"id\":\"");
            push_escaped(&mut s, k);
            s.append("\",\"data\":\"");
            push_escaped(&mut s, payload);
            s.append("\"}");
        },
        None => {
            s.append("{\"data\":\"");
            push_escaped(&mut s, payload);
            s.append("\"}");
        },
    }
    proof {
        assert(s@ =~= create_body_text(
            match key {
                Some(k) => Some(k@),
                None => None,
            },
            payload@,
        ));
    }
    s
}

/// The body of a request addressing one record by its handle.
pub open spec fn id_body_text(id: Seq<char>) -> Seq<char> {
    "{\"id\":\""@ + esc_text(id) + "\"}"@
}

pub fn id_body(id: &str) -> (r: String)
    ensures
        r@ == id_body_text(id@),
{
    let mut s = String::new();
    s.append("{\"id\":\"");
    push_escaped(&mut s, id);
    s.append("\"}");
    proof {
        assert(s@ =~= id_body_text(id@));
    }
    s
}

/// The body of an update request: the handle and the replacement payload.
pub open spec fn update_body_text(id: Seq<char>, payload: Seq<char>) -> Seq<char> {
    "{\"id\":\""@ + esc_text(id) + "\",\"data\":\""@ + esc_text(payload) + "\"}"@
}

pub fn update_body(id: &str, payload: &str) -> (r: String)
    ensures
        r@ == update_body_text(id@, payload@),
{
    let mut s = String::new();
    s.append("{\"id\":\"");
    push_escaped(&mut s, id);
    s.append("\",\"data\":\"");
    push_escaped(&mut s, payload);
    s.append("\"}");
    proof {
        assert(s@ =~= update_body_text(id@, payload@));
    }
    s
}

/// The body of a bounded range fetch.
pub open spec fn range_body_text(limit: nat, offset: nat) -> Seq<char> {
    "{\"limit\":"@ + dec_rep(limit) + ",\"offset\":"@ + dec_rep(offset) + "}"@
}

pub fn range_body(limit: u64, offset: u64) -> (r: String)
    ensures
        r@ == range_body_text(limit as nat, offset as nat),
{
    let mut s = String::new();
    s.append("{\"limit\":");
    push_dec(&mut s, limit);
    s.append(",\"offset\":");
    push_dec(&mut s, offset);
    s.append("}");
    proof {
        assert(s@ =~= range_body_text(limit as nat, offset as nat));
    }
    s
}

/// The single-statement transaction document the Cypher commit endpoint
/// takes: the statement as a JSON string literal and its parameter object.
pub open spec fn commit_body_text(statement: Seq<char>, params: Seq<char>) -> Seq<char> {
    "{\"statements\":[{\"statement\":\""@ + esc_text(statement) + "\",\"parameters\":"@ + params
        + "}]}"@
}

pub fn commit_body(statement: &str, params: &str) -> (r: String)
    ensures
        r@ == commit_body_text(statement@, params@),
{
    let mut s = String::new();
    s.append("{\"statements\":[{\"statement\":\"");
    push_escaped(&mut s, statement);
    s.append("\",\"parameters\":");
    s.append(params);
    s.append("}]}");
    proof {
        assert(s@ =~= commit_body_text(statement@, params@));
    }
    s
}

/// The full URL of a request: the endpoint followed by the path.
pub fn request_url(endpoint: &str, path: &str) -> (r: String)
    ensures
        r@ == endpoint@ + path@,
{
    let mut s = String::new();
    s.append(endpoint);
    s.append(path);
    proof {
        assert(s@ =~= endpoint@ + path@);
    }
    s
}

/// Sorts a transport status: any 2xx answer is success, anything else is the
/// backend-request error carrying the status.
pub fn classify_status(status: u16) -> (r: Result<(), BenchError>)
    ensures
        r == if 200 <= status < 300 {
            Ok::<(), BenchError>(())
        } else {
            Err::<(), BenchError>(BenchError::BackendRequest(status))
        },
{
    if 200 <= status && status < 300 {
        Ok(())
    } else {
        Err(BenchError::BackendRequest(status))
    }
}

} // verus!
