//! Messages of a session.

use std::collections::HashMap;

use vstd::prelude::*;
use vstd::string::StringSliceAdditionalSpecFns;

verus! {

/// A point in time, as seconds and nanoseconds since the Unix epoch (UTC).
#[derive(Debug, Clone, Copy, PartialEq, Eq)]
pub struct Timestamp {
    /// Whole seconds since 1970-01-01T00:00:00Z.
    pub unix_seconds: i64,
    /// Nanoseconds past `unix_seconds` (below one billion).
    pub subsec_nanos: u32,
}

/// Number of characters of content a debug rendering keeps before eliding the rest.
pub const DEBUG_CONTENT_MAX_CHARS: usize = 50;

#[derive(Debug)]
struct MessageInner {
    workspace_id: String,
    id: String,
    content: String,
    peer_id: String,
    session_id: String,
    metadata: HashMap<String, serde_json::Value>,
    created_at: Timestamp,
    token_count: u64,
}

/// An enriched message in a Honcho workspace.
#[derive(Debug, Clone)]
pub struct Message {
    inner: std::sync::Arc<MessageInner>,
}

impl Message {
    /// The workspace the message belongs to, as recorded.
    pub closed spec fn spec_workspace_id(&self) -> Seq<char> { self.inner.workspace_id@ }
    /// The message's identifier, as recorded.
    pub closed spec fn spec_id(&self) -> Seq<char> { self.inner.id@ }
    /// The content, as recorded.
    pub closed spec fn spec_content(&self) -> Seq<char> { self.inner.content@ }
    /// The author peer, as recorded.
    pub closed spec fn spec_peer_id(&self) -> Seq<char> { self.inner.peer_id@ }
    /// The session, as recorded.
    pub closed spec fn spec_session_id(&self) -> Seq<char> { self.inner.session_id@ }
    /// The token count, as recorded.
    pub closed spec fn spec_token_count(&self) -> u64 { self.inner.token_count }
    /// The metadata, as recorded.
    pub closed spec fn spec_metadata(&self) -> HashMap<String, serde_json::Value> { self.inner.metadata }
    /// The creation time, as recorded.
    pub closed spec fn spec_created_at(&self) -> Timestamp { self.inner.created_at }

    /// Builds a message from the fields of a server response.
    pub fn from_parts(
        workspace_id: String,
        id: String,
        content: String,
        peer_id: String,
        session_id: String,
        metadata: HashMap<String, serde_json::Value>,
        created_at: Timestamp,
        token_count: u64,
    ) -> (m: Message)
        ensures
            m.spec_workspace_id() == workspace_id@,
            m.spec_id() == id@,
            m.spec_content() == content@,
            m.spec_peer_id() == peer_id@,
            m.spec_session_id() == session_id@,
            m.spec_metadata() == metadata,
            m.spec_created_at() == created_at,
            m.spec_token_count() == token_count,
    {
        Message {
            inner: std::sync::Arc::new(
                MessageInner { workspace_id, id, content, peer_id, session_id, metadata, created_at, token_count },
            ),
        }
    }

    /// The message's unique identifier.
    pub fn id(&self) -> (r: &str)
        ensures r@ == self.spec_id(),
    {
        self.inner.id.as_str()
    }

    /// The message content text.
    pub fn content(&self) -> (r: &str)
        ensures r@ == self.spec_content(),
    {
        self.inner.content.as_str()
    }

    /// ID of the peer that authored this message.
    pub fn peer_id(&self) -> (r: &str)
        ensures r@ == self.spec_peer_id(),
    {
        self.inner.peer_id.as_str()
    }

    /// ID of the session this message belongs to.
    pub fn session_id(&self) -> (r: &str)
        ensures r@ == self.spec_session_id(),
    {
        self.inner.session_id.as_str()
    }

    /// Arbitrary key-value metadata attached to the message.
    pub fn metadata(&self) -> (r: &HashMap<String, serde_json::Value>)
        ensures *r == self.spec_metadata(),
    {
        &self.inner.metadata
    }

    /// When this message was created.
    pub fn created_at(&self) -> (r: &Timestamp)
        ensures *r == self.spec_created_at(),
    {
        &self.inner.created_at
    }

    /// Token count for the message content.
    pub fn token_count(&self) -> (r: u64)
        ensures r == self.spec_token_count(),
    {
        self.inner.token_count
    }

    /// The workspace this message belongs to.
    pub fn workspace_id(&self) -> (r: &str)
        ensures r@ == self.spec_workspace_id(),
    {
        self.inner.workspace_id.as_str()
    }
}

/// How `{:?}` renders a string: quoted, with `char::escape_debug` escapes
/// (single quotes left as they are).
pub uninterp spec fn spec_debug_str(s: Seq<char>) -> Seq<char>;

/// What `str::escape_debug` yields for a string, with no quotes around:
/// each character escaped as `char::escape_debug` escapes it, except that a
/// grapheme-extending character is escaped only at the start of the string.
pub uninterp spec fn spec_escape_debug(s: Seq<char>) -> Seq<char>;

/// The `Debug` rendering of a string slice, `format!("{s:?}")`; only named here.
#[verifier::external_body]
fn debug_str(s: &str) -> (r: String)
    ensures
        r@ == spec_debug_str(s@),
{
    format!("{s:?}")
}

/// `str::escape_debug`, collected into a string; only named here.
#[verifier::external_body]
fn escape_debug_str(s: &str) -> (r: String)
    ensures
        r@ == spec_escape_debug(s@),
{
    s.escape_debug().collect()
}

/// How a message's content reads in its debug rendering: in full when it
/// has at most [`DEBUG_CONTENT_MAX_CHARS`] characters, else that many
/// followed by `...`, inside the quotes.
pub open spec fn spec_debug_content(content: Seq<char>) -> Seq<char> {
    if content.len() > DEBUG_CONTENT_MAX_CHARS {
        seq!['"'] + spec_escape_debug(content.take(DEBUG_CONTENT_MAX_CHARS as int)) + seq!['.', '.', '.', '"']
    } else {
        spec_debug_str(content)
    }
}

impl Message {
    /// The display form of the message: its full content.
    pub fn to_string(&self) -> (r: String)
        ensures
            r@ == self.spec_content(),
    {
        self.inner.content.clone()
    }

    /// The debug rendering of the message: identifier, content (cut after
    /// [`DEBUG_CONTENT_MAX_CHARS`] characters), peer and session.
    pub fn debug_string(&self) -> (r: String)
        ensures
            r@ == "Message { id: "@ + spec_debug_str(self.spec_id()) + ", content: "@ + spec_debug_content(
                self.spec_content(),
            ) + ", peer_id: "@ + spec_debug_str(self.spec_peer_id()) + ", session_id: "@ + spec_debug_str(
                self.spec_session_id(),
            ) + ", .. }"@,
    {
        let mut out = String::from_str("Message { id: ");
        let id = debug_str(self.inner.id.as_str());
        out.append(id.as_str());
        out.append(", content: ");
        let content = self.inner.content.as_str();
        let n = content.unicode_len();
        if n > DEBUG_CONTENT_MAX_CHARS {
            let head = content.substring_char(0, DEBUG_CONTENT_MAX_CHARS);
            let escaped = escape_debug_str(head);
            proof {
                reveal_strlit("\"");
                reveal_strlit("...\"");
            }
            let ghost before = out@;
            out.append("\"");
            out.append(escaped.as_str());
            out.append("...\"");
            assert(out@ =~= before + spec_debug_content(self.spec_content()));
        } else {
            let rendered = debug_str(content);
            out.append(rendered.as_str());
        }
        out.append(", peer_id: ");
        let peer = debug_str(self.inner.peer_id.as_str());
        out.append(peer.as_str());
        out.append(", session_id: ");
        let session = debug_str(self.inner.session_id.as_str());
        out.append(session.as_str());
        out.append(", .. }");
        out
    }
}

} // verus!
