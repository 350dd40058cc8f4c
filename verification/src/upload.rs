//! The checks of a file upload made before any request is sent.

use vstd::prelude::*;
use vstd::string::StringSliceAdditionalSpecFns;

use crate::error::{HonchoError, Result};
use crate::session::{derive_path_filename, no_file_name_message, spec_path_file_name};

verus! {

/// Where the bytes of an upload come from, as far as the checks go.
#[derive(Debug, Clone, PartialEq, Eq)]
pub enum UploadSourceKind {
    /// A file on disk.
    Path(String),
    /// Bytes in memory or from a reader, with their name and content type.
    Named { filename: String, content_type: String },
}

/// The parts of an upload: the file name to send and where the bytes are.
#[derive(Debug, Clone, PartialEq, Eq)]
pub enum UploadTarget {
    /// A file on disk, sent under its own file name.
    Path { path: String, filename: String },
    /// Bytes with their name and content type.
    Named { filename: String, content_type: String },
}

/// Whether `b` may occur in an HTTP header value: a visible byte, a space,
/// or a tab (but not DEL).
pub open spec fn is_header_byte(b: u8) -> bool {
    (b >= 32 && b != 127) || b == 9
}

/// Whether every byte of `s` may occur in an HTTP header value, the rule
/// `reqwest::header::HeaderValue::from_str` applies.
fn header_value_ok(s: &str) -> (r: bool)
    ensures
        r == (forall|i: int| 0 <= i < s.spec_bytes().len() ==> is_header_byte(#[trigger] s.spec_bytes()[i])),
{
    let bytes = s.as_bytes();
    let mut i: usize = 0;
    while i < bytes.len()
        invariant
            bytes@ == s.spec_bytes(),
            i <= bytes@.len(),
            forall|j: int| 0 <= j < i ==> is_header_byte(#[trigger] bytes@[j]),
        decreases bytes@.len() - i,
    {
        let b = bytes[i];
        if !((b >= 32 && b != 127) || b == 9) {
            return false;
        }
        i = i + 1;
    }
    true
}

/// Check the content type of an upload: it must be a valid header value.
pub fn check_content_type(content_type: &str) -> (r: Result<()>)
    ensures
        r is Ok <==> (forall|i: int|
            0 <= i < content_type.spec_bytes().len() ==> is_header_byte(#[trigger] content_type.spec_bytes()[i])),
        r matches Err(e) ==> (e matches HonchoError::Validation(m) && m@ == "invalid content_type"@),
{
    if header_value_ok(content_type) {
        Ok(())
    } else {
        Err(HonchoError::Validation(String::from_str("invalid content_type")))
    }
}

/// Whether `r` is what checking an upload by `peer` of the file at `path` gives.
pub open spec fn is_path_upload(r: Result<(String, UploadTarget)>, peer: Seq<char>, path: Seq<char>) -> bool {
    match spec_path_file_name(path) {
        Some(n) if n.len() > 0 => r matches Ok((q, UploadTarget::Path { path: rp, filename })) && q@ == peer && rp@
            == path && filename@ == n,
        _ => r matches Err(HonchoError::Validation(m)) && m@ == no_file_name_message(path),
    }
}

/// Check the parts of an upload, in order: a peer is required, then a
/// source; a path source must have a file name.
pub fn check_upload(peer_id: Option<String>, source: Option<UploadSourceKind>) -> (r: Result<(String, UploadTarget)>)
    ensures
        match peer_id {
            None => r matches Err(HonchoError::Validation(m)) && m@ == "peer_id is required"@,
            Some(p) => match source {
                None => r matches Err(HonchoError::Validation(m)) && m@ == "file source is required"@,
                Some(UploadSourceKind::Path(path)) => is_path_upload(r, p@, path@),
                Some(UploadSourceKind::Named { filename, content_type }) => r matches Ok(
                    (q, UploadTarget::Named { filename: f, content_type: c }),
                ) && q@ == p@ && f@ == filename@ && c@ == content_type@,
            },
        },
{
    let peer = match peer_id {
        Some(p) => p,
        None => {
            return Err(HonchoError::Validation(String::from_str("peer_id is required")));
        },
    };
    let source = match source {
        Some(s) => s,
        None => {
            return Err(HonchoError::Validation(String::from_str("file source is required")));
        },
    };
    match source {
        UploadSourceKind::Path(path) => {
            let filename = derive_path_filename(path.as_str())?;
            Ok((peer, UploadTarget::Path { path, filename }))
        },
        UploadSourceKind::Named { filename, content_type } => Ok(
            (peer, UploadTarget::Named { filename, content_type }),
        ),
    }
}

/// The view of an optional string.
pub open spec fn opt_text(o: Option<String>) -> Option<Seq<char>> {
    match o {
        Some(s) => Some(s@),
        None => None,
    }
}

/// The form field `name` with the text `value`, when there is one.
pub open spec fn opt_field(name: Seq<char>, value: Option<Seq<char>>) -> Seq<(Seq<char>, Seq<char>)> {
    match value {
        Some(t) => seq![(name, t)],
        None => seq![],
    }
}

/// The text fields an upload form carries after the file and the peer, in
/// order: the serialised metadata, the serialised configuration and the
/// creation time, each only when given.
pub open spec fn spec_upload_text_fields(
    metadata: Option<Seq<char>>,
    configuration: Option<Seq<char>>,
    created_at: Option<Seq<char>>,
) -> Seq<(Seq<char>, Seq<char>)> {
    opt_field("metadata"@, metadata) + opt_field("configuration"@, configuration) + opt_field(
        "created_at"@,
        created_at,
    )
}

/// The text fields of an upload form, as (name, text) pairs in the order
/// they are sent.
pub fn upload_text_fields(metadata: Option<String>, configuration: Option<String>, created_at: Option<String>) -> (r:
    Vec<(String, String)>)
    ensures
        r@.map_values(|f: (String, String)| (f.0@, f.1@)) == spec_upload_text_fields(
            opt_text(metadata),
            opt_text(configuration),
            opt_text(created_at),
        ),
{
    let mut fields: Vec<(String, String)> = Vec::new();
    let ghost empty = fields@;
    if let Some(md) = metadata {
        fields.push((String::from_str("metadata"), md));
    }
    let ghost a = fields@;
    if let Some(cfg) = configuration {
        fields.push((String::from_str("configuration"), cfg));
    }
    let ghost b = fields@;
    if let Some(dt) = created_at {
        fields.push((String::from_str("created_at"), dt));
    }
    proof {
        reveal_strlit("metadata");
        reveal_strlit("configuration");
        reveal_strlit("created_at");
        let f = |f: (String, String)| (f.0@, f.1@);
        assert(empty.map_values(f) =~= Seq::<(Seq<char>, Seq<char>)>::empty());
        assert(a.map_values(f) =~= opt_field("metadata"@, opt_text(metadata)));
        assert(b.map_values(f) =~= opt_field("metadata"@, opt_text(metadata)) + opt_field(
            "configuration"@,
            opt_text(configuration),
        ));
        assert(fields@.map_values(f) =~= spec_upload_text_fields(
            opt_text(metadata),
            opt_text(configuration),
            opt_text(created_at),
        ));
    }
    fields
}

/// Law: each optional text field of an upload form is sent exactly when it
/// is given, with the given text, independently of the other fields; no name
/// is sent twice, and the fields come in the order metadata, configuration,
/// creation time.
pub proof fn law_upload_fields_independent(
    metadata: Option<Seq<char>>,
    configuration: Option<Seq<char>>,
    created_at: Option<Seq<char>>,
)
    ensures
        ({
            let f = spec_upload_text_fields(metadata, configuration, created_at);
            &&& forall|t: Seq<char>| f.contains(("metadata"@, t)) <==> metadata == Some(t)
            &&& forall|t: Seq<char>| f.contains(("configuration"@, t)) <==> configuration == Some(t)
            &&& forall|t: Seq<char>| f.contains(("created_at"@, t)) <==> created_at == Some(t)
            &&& f.len() == (if metadata is Some { 1int } else { 0 }) + (if configuration is Some { 1int } else { 0 })
                + (if created_at is Some { 1int } else { 0 })
            &&& forall|i: int, j: int| 0 <= i < j < f.len() ==> f[i].0 != f[j].0
            &&& forall|i: int, j: int|
                0 <= i < f.len() && 0 <= j < f.len() && f[i].0 == "metadata"@ && f[j].0 != "metadata"@ ==> i < j
            &&& forall|i: int, j: int|
                0 <= i < f.len() && 0 <= j < f.len() && f[i].0 != "created_at"@ && f[j].0 == "created_at"@ ==> i < j
        }),
{
    reveal_strlit("metadata");
    reveal_strlit("configuration");
    reveal_strlit("created_at");
    let a = opt_field("metadata"@, metadata);
    let b = opt_field("configuration"@, configuration);
    let c = opt_field("created_at"@, created_at);
    let f = a + b + c;
    assert("metadata"@ != "configuration"@ && "metadata"@ != "created_at"@ && "configuration"@ != "created_at"@) by {
        assert("metadata"@[1] != "configuration"@[1]);
        assert("metadata"@.len() != "created_at"@.len());
        assert("configuration"@.len() != "created_at"@.len());
    }
    assert forall|i: int| 0 <= i < f.len() implies (#[trigger] f[i]).0 == "metadata"@ && Some(f[i].1) == metadata
        || f[i].0 == "configuration"@ && Some(f[i].1) == configuration && i == a.len() || f[i].0 == "created_at"@ && Some(
        f[i].1,
    ) == created_at && i == a.len() + b.len() by {
        if i < a.len() {
            assert(f[i] == a[i]);
        } else if i < a.len() + b.len() {
            assert(f[i] == b[i - a.len()]);
        } else {
            assert(f[i] == c[i - a.len() - b.len()]);
        }
    }
    if let Some(t) = metadata {
        assert(f[0] == ("metadata"@, t));
    }
    if let Some(t) = configuration {
        assert(f[a.len() as int] == ("configuration"@, t));
    }
    if let Some(t) = created_at {
        assert(f[(a.len() + b.len()) as int] == ("created_at"@, t));
    }
}

} // verus!
