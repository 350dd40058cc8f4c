//! API route path builders.
//!
//! Every identifier is validated and then percent-encoded into its own path
//! segment, so no identifier can escape its segment.

use vstd::prelude::*;
use vstd::string::StringSliceAdditionalSpecFns;
use vstd::utf8::*;

use crate::error::{HonchoError, Result};
use crate::text::{all_ascii, ascii_string, ascii_text, chars_of, is_blank, spec_ascii_lower, spec_ascii_lower_seq, spec_is_blank};

verus! {

/// The API version segment of every route.
pub const API_BASE_PATH: &'static str = "v3";

/// Whether `b` is an unreserved URI character (`A-Za-z0-9-._~`).
pub open spec fn is_unreserved(b: u8) -> bool {
    ||| (65 <= b && b <= 90)
    ||| (97 <= b && b <= 122)
    ||| (48 <= b && b <= 57)
    ||| b == 45
    ||| b == 46
    ||| b == 95
    ||| b == 126
}

/// The upper-case hexadecimal digit for `n < 16`, as ASCII.
pub open spec fn hex_digit(n: u8) -> u8 {
    if n < 10 {
        (48 + n) as u8
    } else {
        (55 + n) as u8
    }
}

/// The encoding of one byte: itself when unreserved, else `%XY`.
pub open spec fn encode_byte(b: u8) -> Seq<u8> {
    if is_unreserved(b) {
        seq![b]
    } else {
        seq![37u8, hex_digit(b / 16), hex_digit(b % 16)]
    }
}

/// Percent-encoding of a byte sequence, byte by byte.
pub open spec fn percent_encode(bytes: Seq<u8>) -> Seq<u8>
    decreases bytes.len(),
{
    if bytes.len() == 0 {
        seq![]
    } else {
        encode_byte(bytes[0]) + percent_encode(bytes.drop_first())
    }
}

/// The percent-encoding of the UTF-8 bytes of `s`, as characters.
pub open spec fn spec_encode(s: Seq<char>) -> Seq<char> {
    ascii_text(percent_encode(encode_utf8(s)))
}

/// Proof that encoding one more byte appends that byte's encoding.
pub proof fn lemma_percent_encode_push(bytes: Seq<u8>, b: u8)
    ensures
        percent_encode(bytes.push(b)) == percent_encode(bytes) + encode_byte(b),
    decreases bytes.len(),
{
    if bytes.len() == 0 {
        assert(bytes.push(b).drop_first() =~= Seq::<u8>::empty());
        assert(percent_encode(bytes.push(b).drop_first()) == Seq::<u8>::empty());
        assert(percent_encode(bytes) == Seq::<u8>::empty());
        assert(percent_encode(bytes.push(b)) =~= percent_encode(bytes) + encode_byte(b));
    } else {
        assert(bytes.push(b).drop_first() =~= bytes.drop_first().push(b));
        lemma_percent_encode_push(bytes.drop_first(), b);
        assert(percent_encode(bytes.push(b)) =~= percent_encode(bytes) + encode_byte(b));
    }
}

/// Proof that the encoding is ASCII.
pub proof fn lemma_percent_encode_ascii(bytes: Seq<u8>)
    ensures
        all_ascii(percent_encode(bytes)),
    decreases bytes.len(),
{
    if bytes.len() > 0 {
        lemma_percent_encode_ascii(bytes.drop_first());
        let e = encode_byte(bytes[0]);
        let r = percent_encode(bytes.drop_first());
        assert forall|i: int| 0 <= i < (e + r).len() implies #[trigger] (e + r)[i] < 128 by {
            if i >= e.len() {
                assert((e + r)[i] == r[i - e.len()]);
            }
        }
    }
}

fn push_hex(out: &mut Vec<u8>, n: u8)
    requires
        n < 16,
    ensures
        final(out)@ == old(out)@.push(hex_digit(n)),
{
    if n < 10 {
        out.push(48 + n);
    } else {
        out.push(55 + n);
    }
}

/// Percent-encode a path segment: every byte except unreserved characters
/// (`A-Za-z0-9-._~`) becomes `%XY`; in particular `/` becomes `%2F`.
pub fn encode(s: &str) -> (r: String)
    ensures
        r@ == spec_encode(s@),
{
    let bytes = s.as_bytes();
    let mut out: Vec<u8> = Vec::new();
    let mut i: usize = 0;
    assert(bytes@.take(0) =~= Seq::<u8>::empty());
    while i < bytes.len()
        invariant
            bytes@ == s.spec_bytes(),
            0 <= i <= bytes@.len(),
            out@ == percent_encode(bytes@.take(i as int)),
        decreases bytes@.len() - i,
    {
        let b = bytes[i];
        proof {
            lemma_percent_encode_push(bytes@.take(i as int), b);
            assert(bytes@.take(i as int).push(b) =~= bytes@.take(i + 1));
        }
        if (65 <= b && b <= 90) || (97 <= b && b <= 122) || (48 <= b && b <= 57) || b == 45
            || b == 46 || b == 95 || b == 126 {
            out.push(b);
        } else {
            out.push(37);
            push_hex(&mut out, b / 16);
            push_hex(&mut out, b % 16);
        }
        assert(out@ =~= percent_encode(bytes@.take(i + 1)));
        i = i + 1;
    }
    assert(bytes@.take(i as int) =~= bytes@);
    proof { lemma_percent_encode_ascii(bytes@); }
    ascii_string(out)
}

/// Whether `s` is a dot-segment (`.`, `..`, `%2e`, `%2e%2e`, ASCII case-insensitively).
pub open spec fn spec_is_dot_segment(s: Seq<char>) -> bool {
    let l = spec_ascii_lower_seq(s);
    ||| l =~= seq!['.']
    ||| l =~= seq!['.', '.']
    ||| l =~= seq!['%', '2', 'e']
    ||| l =~= seq!['%', '2', 'e', '%', '2', 'e']
}

/// Whether `id` may stand in a path segment.
pub open spec fn id_ok(id: Seq<char>) -> bool {
    !spec_is_blank(id) && !spec_is_dot_segment(id)
}

/// The message of the validation error for an identifier `id` named `name`.
pub open spec fn id_error_message(id: Seq<char>, name: Seq<char>) -> Seq<char> {
    if spec_is_blank(id) {
        name + " must not be empty or whitespace-only"@
    } else {
        name + " must not be a dot-segment ('.' or '..')"@
    }
}

/// Whether `e` is the validation error for identifier `id` named `name`.
pub open spec fn is_id_error(e: HonchoError, id: Seq<char>, name: Seq<char>) -> bool {
    e matches HonchoError::Validation(m) && m@ == id_error_message(id, name)
}

proof fn lemma_lower_e(c: char)
    ensures
        (spec_ascii_lower(c) == 'e') == (c == 'e' || c == 'E'),
        (spec_ascii_lower(c) == '.') == (c == '.'),
        (spec_ascii_lower(c) == '%') == (c == '%'),
        (spec_ascii_lower(c) == '2') == (c == '2'),
{
    if 'A' <= c && c <= 'Z' {
        let u = c as u32;
        assert(65 <= u <= 90);
        assert((((u + 32) as u32) as char) as u32 == (u + 32) as u32);
        if c == 'E' {
            assert(u == 69);
        }
    }
}

fn lower_is(c: char, target: char) -> (r: bool)
    requires
        target == 'e' || target == '.' || target == '%' || target == '2',
    ensures
        r == (spec_ascii_lower(c) == target),
{
    proof { lemma_lower_e(c); }
    if target == 'e' {
        c == 'e' || c == 'E'
    } else {
        c == target
    }
}

fn is_dot_segment(id: &str) -> (r: bool)
    ensures
        r == spec_is_dot_segment(id@),
{
    let cs = chars_of(id);
    let ghost l = spec_ascii_lower_seq(id@);
    let n = cs.len();
    assert(l.len() == cs@.len());
    assert(forall|i: int| 0 <= i < l.len() ==> l[i] == spec_ascii_lower(#[trigger] cs@[i]));
    if n == 1 {
        let r = lower_is(cs[0], '.');
        assert(r == (l =~= seq!['.']));
        r
    } else if n == 2 {
        let r = lower_is(cs[0], '.') && lower_is(cs[1], '.');
        assert(r == (l =~= seq!['.', '.']));
        r
    } else if n == 3 {
        let r = lower_is(cs[0], '%') && lower_is(cs[1], '2') && lower_is(cs[2], 'e');
        assert(r == (l =~= seq!['%', '2', 'e']));
        r
    } else if n == 6 {
        let r = lower_is(cs[0], '%') && lower_is(cs[1], '2') && lower_is(cs[2], 'e')
            && lower_is(cs[3], '%') && lower_is(cs[4], '2') && lower_is(cs[5], 'e');
        assert(r == (l =~= seq!['%', '2', 'e', '%', '2', 'e']));
        r
    } else {
        false
    }
}

/// Validate that an ID is not empty, whitespace-only, or a dot-segment.
pub fn validate_id(id: &str, name: &str) -> (r: Result<()>)
    ensures
        r is Ok <==> id_ok(id@),
        r matches Err(e) ==> is_id_error(e, id@, name@),
{
    if is_blank(id) {
        let mut m = String::from_str(name);
        m.append(" must not be empty or whitespace-only");
        return Err(HonchoError::Validation(m));
    }
    if is_dot_segment(id) {
        let mut m = String::from_str(name);
        m.append(" must not be a dot-segment ('.' or '..')");
        return Err(HonchoError::Validation(m));
    }
    Ok(())
}

} // verus!

verus! {

/// `head`, the encoded `a`, then `tail`.
fn path1(head: &str, a: &str, tail: &str) -> (r: String)
    ensures
        r@ == head@ + spec_encode(a@) + tail@,
{
    let mut p = String::from_str(head);
    let ea = encode(a);
    p.append(ea.as_str());
    p.append(tail);
    p
}

/// `head`, the encoded `a`, `mid`, the encoded `b`, then `tail`.
fn path2(head: &str, a: &str, mid: &str, b: &str, tail: &str) -> (r: String)
    ensures
        r@ == head@ + spec_encode(a@) + mid@ + spec_encode(b@) + tail@,
{
    let mut p = path1(head, a, mid);
    let eb = encode(b);
    p.append(eb.as_str());
    p.append(tail);
    p
}

/// `head`, encoded `a`, `mid1`, encoded `b`, `mid2`, encoded `c`, then `tail`.
fn path3(head: &str, a: &str, mid1: &str, b: &str, mid2: &str, c: &str, tail: &str) -> (r: String)
    ensures
        r@ == head@ + spec_encode(a@) + mid1@ + spec_encode(b@) + mid2@ + spec_encode(c@) + tail@,
{
    let mut p = path2(head, a, mid1, b, mid2);
    let ec = encode(c);
    p.append(ec.as_str());
    p.append(tail);
    p
}

/// The outcome of a route with one identifier `a` (named `an`).
pub open spec fn route1(r: Result<String>, a: Seq<char>, an: Seq<char>, head: Seq<char>, tail: Seq<char>) -> bool {
    match r {
        Ok(p) => id_ok(a) && p@ == head + spec_encode(a) + tail,
        Err(e) => !id_ok(a) && is_id_error(e, a, an),
    }
}

/// The outcome of a route with identifiers `a` and `b`, validated in that order.
pub open spec fn route2(
    r: Result<String>,
    a: Seq<char>,
    an: Seq<char>,
    b: Seq<char>,
    bn: Seq<char>,
    head: Seq<char>,
    mid: Seq<char>,
    tail: Seq<char>,
) -> bool {
    match r {
        Ok(p) => id_ok(a) && id_ok(b) && p@ == head + spec_encode(a) + mid + spec_encode(b) + tail,
        Err(e) => if !id_ok(a) {
            is_id_error(e, a, an)
        } else {
            !id_ok(b) && is_id_error(e, b, bn)
        },
    }
}

/// The outcome of a route with identifiers `a`, `b` and `c`, validated in that order.
pub open spec fn route3(
    r: Result<String>,
    a: Seq<char>,
    an: Seq<char>,
    b: Seq<char>,
    bn: Seq<char>,
    c: Seq<char>,
    cn: Seq<char>,
    head: Seq<char>,
    mid1: Seq<char>,
    mid2: Seq<char>,
    tail: Seq<char>,
) -> bool {
    match r {
        Ok(p) => id_ok(a) && id_ok(b) && id_ok(c) && p@ == head + spec_encode(a) + mid1 + spec_encode(b)
            + mid2 + spec_encode(c) + tail,
        Err(e) => if !id_ok(a) {
            is_id_error(e, a, an)
        } else if !id_ok(b) {
            is_id_error(e, b, bn)
        } else {
            !id_ok(c) && is_id_error(e, c, cn)
        },
    }
}

/// Builds path for listing all workspaces.
pub fn workspaces() -> (r: String)
    ensures
        r@ == "/v3/workspaces"@,
{
    String::from_str("/v3/workspaces")
}

/// Builds path for the workspace list endpoint.
pub fn workspaces_list() -> (r: String)
    ensures
        r@ == "/v3/workspaces/list"@,
{
    String::from_str("/v3/workspaces/list")
}

/// Builds path for a specific workspace.
pub fn workspace(workspace_id: &str) -> (r: Result<String>)
    ensures
        route1(r, workspace_id@, "workspace_id"@, "/v3/workspaces/"@, ""@),
{
    validate_id(workspace_id, "workspace_id")?;
    Ok(path1("/v3/workspaces/", workspace_id, ""))
}

/// Builds path for workspace search.
pub fn workspace_search(workspace_id: &str) -> (r: Result<String>)
    ensures
        route1(r, workspace_id@, "workspace_id"@, "/v3/workspaces/"@, "/search"@),
{
    validate_id(workspace_id, "workspace_id")?;
    Ok(path1("/v3/workspaces/", workspace_id, "/search"))
}

/// Builds path for workspace queue status.
pub fn workspace_queue_status(workspace_id: &str) -> (r: Result<String>)
    ensures
        route1(r, workspace_id@, "workspace_id"@, "/v3/workspaces/"@, "/queue/status"@),
{
    validate_id(workspace_id, "workspace_id")?;
    Ok(path1("/v3/workspaces/", workspace_id, "/queue/status"))
}

/// Builds path for scheduling a dream in a workspace.
pub fn workspace_schedule_dream(workspace_id: &str) -> (r: Result<String>)
    ensures
        route1(r, workspace_id@, "workspace_id"@, "/v3/workspaces/"@, "/schedule_dream"@),
{
    validate_id(workspace_id, "workspace_id")?;
    Ok(path1("/v3/workspaces/", workspace_id, "/schedule_dream"))
}

/// Builds path for listing peers in a workspace.
pub fn peers(workspace_id: &str) -> (r: Result<String>)
    ensures
        route1(r, workspace_id@, "workspace_id"@, "/v3/workspaces/"@, "/peers"@),
{
    validate_id(workspace_id, "workspace_id")?;
    Ok(path1("/v3/workspaces/", workspace_id, "/peers"))
}

/// Builds path for the peer list endpoint.
pub fn peers_list(workspace_id: &str) -> (r: Result<String>)
    ensures
        route1(r, workspace_id@, "workspace_id"@, "/v3/workspaces/"@, "/peers/list"@),
{
    validate_id(workspace_id, "workspace_id")?;
    Ok(path1("/v3/workspaces/", workspace_id, "/peers/list"))
}

/// Builds path for a specific peer.
pub fn peer(workspace_id: &str, peer_id: &str) -> (r: Result<String>)
    ensures
        route2(r, workspace_id@, "workspace_id"@, peer_id@, "peer_id"@, "/v3/workspaces/"@, "/peers/"@, ""@),
{
    validate_id(workspace_id, "workspace_id")?;
    validate_id(peer_id, "peer_id")?;
    Ok(path2("/v3/workspaces/", workspace_id, "/peers/", peer_id, ""))
}

/// Builds path for peer chat.
pub fn peer_chat(workspace_id: &str, peer_id: &str) -> (r: Result<String>)
    ensures
        route2(r, workspace_id@, "workspace_id"@, peer_id@, "peer_id"@, "/v3/workspaces/"@, "/peers/"@, "/chat"@),
{
    validate_id(workspace_id, "workspace_id")?;
    validate_id(peer_id, "peer_id")?;
    Ok(path2("/v3/workspaces/", workspace_id, "/peers/", peer_id, "/chat"))
}

/// Builds path for peer representation.
pub fn peer_representation(workspace_id: &str, peer_id: &str) -> (r: Result<String>)
    ensures
        route2(r, workspace_id@, "workspace_id"@, peer_id@, "peer_id"@, "/v3/workspaces/"@, "/peers/"@, "/representation"@),
{
    validate_id(workspace_id, "workspace_id")?;
    validate_id(peer_id, "peer_id")?;
    Ok(path2("/v3/workspaces/", workspace_id, "/peers/", peer_id, "/representation"))
}

/// Builds path for peer card.
pub fn peer_card(workspace_id: &str, peer_id: &str) -> (r: Result<String>)
    ensures
        route2(r, workspace_id@, "workspace_id"@, peer_id@, "peer_id"@, "/v3/workspaces/"@, "/peers/"@, "/card"@),
{
    validate_id(workspace_id, "workspace_id")?;
    validate_id(peer_id, "peer_id")?;
    Ok(path2("/v3/workspaces/", workspace_id, "/peers/", peer_id, "/card"))
}

/// Builds path for peer context.
pub fn peer_context(workspace_id: &str, peer_id: &str) -> (r: Result<String>)
    ensures
        route2(r, workspace_id@, "workspace_id"@, peer_id@, "peer_id"@, "/v3/workspaces/"@, "/peers/"@, "/context"@),
{
    validate_id(workspace_id, "workspace_id")?;
    validate_id(peer_id, "peer_id")?;
    Ok(path2("/v3/workspaces/", workspace_id, "/peers/", peer_id, "/context"))
}

/// Builds path for peer search.
pub fn peer_search(workspace_id: &str, peer_id: &str) -> (r: Result<String>)
    ensures
        route2(r, workspace_id@, "workspace_id"@, peer_id@, "peer_id"@, "/v3/workspaces/"@, "/peers/"@, "/search"@),
{
    validate_id(workspace_id, "workspace_id")?;
    validate_id(peer_id, "peer_id")?;
    Ok(path2("/v3/workspaces/", workspace_id, "/peers/", peer_id, "/search"))
}

/// Builds path for listing sessions of a peer.
pub fn peer_sessions_list(workspace_id: &str, peer_id: &str) -> (r: Result<String>)
    ensures
        route2(r, workspace_id@, "workspace_id"@, peer_id@, "peer_id"@, "/v3/workspaces/"@, "/peers/"@, "/sessions"@),
{
    validate_id(workspace_id, "workspace_id")?;
    validate_id(peer_id, "peer_id")?;
    Ok(path2("/v3/workspaces/", workspace_id, "/peers/", peer_id, "/sessions"))
}

/// Builds path for listing sessions in a workspace.
pub fn sessions(workspace_id: &str) -> (r: Result<String>)
    ensures
        route1(r, workspace_id@, "workspace_id"@, "/v3/workspaces/"@, "/sessions"@),
{
    validate_id(workspace_id, "workspace_id")?;
    Ok(path1("/v3/workspaces/", workspace_id, "/sessions"))
}

/// Builds path for the session list endpoint.
pub fn sessions_list(workspace_id: &str) -> (r: Result<String>)
    ensures
        route1(r, workspace_id@, "workspace_id"@, "/v3/workspaces/"@, "/sessions/list"@),
{
    validate_id(workspace_id, "workspace_id")?;
    Ok(path1("/v3/workspaces/", workspace_id, "/sessions/list"))
}

/// Builds path for a specific session.
pub fn session(workspace_id: &str, session_id: &str) -> (r: Result<String>)
    ensures
        route2(r, workspace_id@, "workspace_id"@, session_id@, "session_id"@, "/v3/workspaces/"@, "/sessions/"@, ""@),
{
    validate_id(workspace_id, "workspace_id")?;
    validate_id(session_id, "session_id")?;
    Ok(path2("/v3/workspaces/", workspace_id, "/sessions/", session_id, ""))
}

/// Builds path for cloning a session.
pub fn session_clone(workspace_id: &str, session_id: &str) -> (r: Result<String>)
    ensures
        route2(r, workspace_id@, "workspace_id"@, session_id@, "session_id"@, "/v3/workspaces/"@, "/sessions/"@, "/clone"@),
{
    validate_id(workspace_id, "workspace_id")?;
    validate_id(session_id, "session_id")?;
    Ok(path2("/v3/workspaces/", workspace_id, "/sessions/", session_id, "/clone"))
}

/// Builds path for session context.
pub fn session_context(workspace_id: &str, session_id: &str) -> (r: Result<String>)
    ensures
        route2(r, workspace_id@, "workspace_id"@, session_id@, "session_id"@, "/v3/workspaces/"@, "/sessions/"@, "/context"@),
{
    validate_id(workspace_id, "workspace_id")?;
    validate_id(session_id, "session_id")?;
    Ok(path2("/v3/workspaces/", workspace_id, "/sessions/", session_id, "/context"))
}

/// Builds path for session summaries.
pub fn session_summaries(workspace_id: &str, session_id: &str) -> (r: Result<String>)
    ensures
        route2(r, workspace_id@, "workspace_id"@, session_id@, "session_id"@, "/v3/workspaces/"@, "/sessions/"@, "/summaries"@),
{
    validate_id(workspace_id, "workspace_id")?;
    validate_id(session_id, "session_id")?;
    Ok(path2("/v3/workspaces/", workspace_id, "/sessions/", session_id, "/summaries"))
}

/// Builds path for session search.
pub fn session_search(workspace_id: &str, session_id: &str) -> (r: Result<String>)
    ensures
        route2(r, workspace_id@, "workspace_id"@, session_id@, "session_id"@, "/v3/workspaces/"@, "/sessions/"@, "/search"@),
{
    validate_id(workspace_id, "workspace_id")?;
    validate_id(session_id, "session_id")?;
    Ok(path2("/v3/workspaces/", workspace_id, "/sessions/", session_id, "/search"))
}

/// Builds path for listing peers in a session.
pub fn session_peers(workspace_id: &str, session_id: &str) -> (r: Result<String>)
    ensures
        route2(r, workspace_id@, "workspace_id"@, session_id@, "session_id"@, "/v3/workspaces/"@, "/sessions/"@, "/peers"@),
{
    validate_id(workspace_id, "workspace_id")?;
    validate_id(session_id, "session_id")?;
    Ok(path2("/v3/workspaces/", workspace_id, "/sessions/", session_id, "/peers"))
}

/// Builds path for per-peer session configuration.
pub fn session_peer_config(workspace_id: &str, session_id: &str, peer_id: &str) -> (r: Result<String>)
    ensures
        route3(
            r,
            workspace_id@,
            "workspace_id"@,
            session_id@,
            "session_id"@,
            peer_id@,
            "peer_id"@,
            "/v3/workspaces/"@,
            "/sessions/"@,
            "/peers/"@,
            "/config"@,
        ),
{
    validate_id(workspace_id, "workspace_id")?;
    validate_id(session_id, "session_id")?;
    validate_id(peer_id, "peer_id")?;
    Ok(path3("/v3/workspaces/", workspace_id, "/sessions/", session_id, "/peers/", peer_id, "/config"))
}

/// Builds path for listing messages in a session.
pub fn messages(workspace_id: &str, session_id: &str) -> (r: Result<String>)
    ensures
        route2(r, workspace_id@, "workspace_id"@, session_id@, "session_id"@, "/v3/workspaces/"@, "/sessions/"@, "/messages"@),
{
    validate_id(workspace_id, "workspace_id")?;
    validate_id(session_id, "session_id")?;
    Ok(path2("/v3/workspaces/", workspace_id, "/sessions/", session_id, "/messages"))
}

/// Builds path for the message list endpoint.
pub fn messages_list(workspace_id: &str, session_id: &str) -> (r: Result<String>)
    ensures
        route2(r, workspace_id@, "workspace_id"@, session_id@, "session_id"@, "/v3/workspaces/"@, "/sessions/"@, "/messages/list"@),
{
    validate_id(workspace_id, "workspace_id")?;
    validate_id(session_id, "session_id")?;
    Ok(path2("/v3/workspaces/", workspace_id, "/sessions/", session_id, "/messages/list"))
}

/// Builds path for a specific message.
pub fn message(workspace_id: &str, session_id: &str, message_id: &str) -> (r: Result<String>)
    ensures
        route3(
            r,
            workspace_id@,
            "workspace_id"@,
            session_id@,
            "session_id"@,
            message_id@,
            "message_id"@,
            "/v3/workspaces/"@,
            "/sessions/"@,
            "/messages/"@,
            ""@,
        ),
{
    validate_id(workspace_id, "workspace_id")?;
    validate_id(session_id, "session_id")?;
    validate_id(message_id, "message_id")?;
    Ok(path3("/v3/workspaces/", workspace_id, "/sessions/", session_id, "/messages/", message_id, ""))
}

/// Builds path for uploading a file to a session.
pub fn messages_upload(workspace_id: &str, session_id: &str) -> (r: Result<String>)
    ensures
        route2(r, workspace_id@, "workspace_id"@, session_id@, "session_id"@, "/v3/workspaces/"@, "/sessions/"@, "/messages/upload"@),
{
    validate_id(workspace_id, "workspace_id")?;
    validate_id(session_id, "session_id")?;
    Ok(path2("/v3/workspaces/", workspace_id, "/sessions/", session_id, "/messages/upload"))
}

/// Builds path for listing conclusions in a workspace.
pub fn conclusions(workspace_id: &str) -> (r: Result<String>)
    ensures
        route1(r, workspace_id@, "workspace_id"@, "/v3/workspaces/"@, "/conclusions"@),
{
    validate_id(workspace_id, "workspace_id")?;
    Ok(path1("/v3/workspaces/", workspace_id, "/conclusions"))
}

/// Builds path for the conclusions list endpoint.
pub fn conclusions_list(workspace_id: &str) -> (r: Result<String>)
    ensures
        route1(r, workspace_id@, "workspace_id"@, "/v3/workspaces/"@, "/conclusions/list"@),
{
    validate_id(workspace_id, "workspace_id")?;
    Ok(path1("/v3/workspaces/", workspace_id, "/conclusions/list"))
}

/// Builds path for querying conclusions.
pub fn conclusions_query(workspace_id: &str) -> (r: Result<String>)
    ensures
        route1(r, workspace_id@, "workspace_id"@, "/v3/workspaces/"@, "/conclusions/query"@),
{
    validate_id(workspace_id, "workspace_id")?;
    Ok(path1("/v3/workspaces/", workspace_id, "/conclusions/query"))
}

/// Builds path for a specific conclusion.
pub fn conclusion(workspace_id: &str, conclusion_id: &str) -> (r: Result<String>)
    ensures
        route2(r, workspace_id@, "workspace_id"@, conclusion_id@, "conclusion_id"@, "/v3/workspaces/"@, "/conclusions/"@, ""@),
{
    validate_id(workspace_id, "workspace_id")?;
    validate_id(conclusion_id, "conclusion_id")?;
    Ok(path2("/v3/workspaces/", workspace_id, "/conclusions/", conclusion_id, ""))
}

/// Builds path for deleting a conclusion (same path as [`conclusion`]).
pub fn conclusion_delete(workspace_id: &str, conclusion_id: &str) -> (r: Result<String>)
    ensures
        route2(
            r,
            workspace_id@,
            "workspace_id"@,
            conclusion_id@,
            "conclusion_id"@,
            "/v3/workspaces/"@,
            "/conclusions/"@,
            ""@,
        ),
{
    conclusion(workspace_id, conclusion_id)
}

} // verus!

verus! {

/// The value of an ASCII hexadecimal digit (either case), if it is one.
pub open spec fn hex_value(b: u8) -> Option<u8> {
    if 48 <= b && b <= 57 {
        Some((b - 48) as u8)
    } else if 65 <= b && b <= 70 {
        Some((b - 55) as u8)
    } else if 97 <= b && b <= 102 {
        Some((b - 87) as u8)
    } else {
        None
    }
}

/// Percent-decoding: `%XY` with two hex digits becomes one byte; every
/// other byte stands for itself.
pub open spec fn percent_decode(s: Seq<u8>) -> Seq<u8>
    decreases s.len(),
{
    if s.len() == 0 {
        seq![]
    } else if s[0] == 37 && s.len() >= 3 && hex_value(s[1]) is Some && hex_value(s[2]) is Some {
        seq![(hex_value(s[1])->0 * 16 + hex_value(s[2])->0) as u8] + percent_decode(s.skip(3))
    } else {
        seq![s[0]] + percent_decode(s.drop_first())
    }
}

/// Law: percent-decoding an encoded segment gives back the bytes it was made from,
/// so distinct identifiers never share a path segment.
pub proof fn law_encode_roundtrip(bytes: Seq<u8>)
    ensures
        percent_decode(percent_encode(bytes)) == bytes,
    decreases bytes.len(),
{
    if bytes.len() > 0 {
        let b = bytes[0];
        let rest = bytes.drop_first();
        law_encode_roundtrip(rest);
        let e = encode_byte(b);
        let s = e + percent_encode(rest);
        if is_unreserved(b) {
            assert(s[0] == b);
            assert(s.drop_first() =~= percent_encode(rest));
        } else {
            let hi = b / 16;
            let lo = b % 16;
            assert(hex_value(hex_digit(hi)) == Some(hi));
            assert(hex_value(hex_digit(lo)) == Some(lo));
            assert(s[1] == hex_digit(hi));
            assert(s[2] == hex_digit(lo));
            assert(s.skip(3) =~= percent_encode(rest));
            assert((hi * 16 + lo) as u8 == b);
        }
        assert(percent_decode(s) =~= bytes);
    }
}

/// Law: an encoded segment never holds `/`, so an identifier cannot add a
/// path segment of its own.
pub proof fn law_encode_has_no_slash(s: Seq<char>)
    ensures
        !spec_encode(s).contains('/'),
{
    let bytes = percent_encode(encode_utf8(s));
    lemma_no_slash(encode_utf8(s));
    if spec_encode(s).contains('/') {
        let i = choose|i: int| 0 <= i < spec_encode(s).len() && spec_encode(s)[i] == '/';
        assert(spec_encode(s)[i] == bytes[i] as char);
        assert(bytes[i] != 47u8);
        assert(bytes[i] < 128) by { lemma_percent_encode_ascii(encode_utf8(s)); }
    }
}

proof fn lemma_no_slash(bytes: Seq<u8>)
    ensures
        forall|i: int| 0 <= i < percent_encode(bytes).len() ==> #[trigger] percent_encode(bytes)[i] != 47u8,
    decreases bytes.len(),
{
    if bytes.len() > 0 {
        lemma_no_slash(bytes.drop_first());
        let e = encode_byte(bytes[0]);
        let r = percent_encode(bytes.drop_first());
        assert forall|i: int| 0 <= i < (e + r).len() implies #[trigger] (e + r)[i] != 47u8 by {
            if i >= e.len() {
                assert((e + r)[i] == r[i - e.len()]);
            }
        }
    }
}

/// Law: an identifier made of unreserved characters is its own encoding.
pub proof fn law_encode_unreserved_identity(bytes: Seq<u8>)
    requires
        forall|i: int| 0 <= i < bytes.len() ==> is_unreserved(#[trigger] bytes[i]),
    ensures
        percent_encode(bytes) == bytes,
    decreases bytes.len(),
{
    if bytes.len() > 0 {
        law_encode_unreserved_identity(bytes.drop_first());
        assert(percent_encode(bytes) =~= bytes);
    }
}

} // verus!
